//! Names of generated items: snake case, reserved words and the names that
//! cannot be bound at all.

use vstd::prelude::*;

verus! {

/// The snake case form of `name`: its words in lower case, joined by
/// underscores, as `heck` finds the words. What the form is on a given name
/// is not stated here; it is what `to_snake_case` returns.
pub uninterp spec fn snake_case_of(name: Seq<char>) -> Seq<char>;

/// Whether `name` is a word that the binding language keeps for itself.
pub open spec fn reserved_word(name: Seq<char>) -> bool {
    ||| name == "as"@
    ||| name == "break"@
    ||| name == "const"@
    ||| name == "continue"@
    ||| name == "crate"@
    ||| name == "else"@
    ||| name == "enum"@
    ||| name == "extern"@
    ||| name == "false"@
    ||| name == "fn"@
    ||| name == "for"@
    ||| name == "if"@
    ||| name == "impl"@
    ||| name == "in"@
    ||| name == "let"@
    ||| name == "loop"@
    ||| name == "match"@
    ||| name == "mod"@
    ||| name == "move"@
    ||| name == "mut"@
    ||| name == "pub"@
    ||| name == "ref"@
    ||| name == "return"@
    ||| name == "self"@
    ||| name == "Self"@
    ||| name == "static"@
    ||| name == "struct"@
    ||| name == "super"@
    ||| name == "trait"@
    ||| name == "true"@
    ||| name == "type"@
    ||| name == "unsafe"@
    ||| name == "use"@
    ||| name == "where"@
    ||| name == "while"@
    ||| name == "async"@
    ||| name == "await"@
    ||| name == "dyn"@
    ||| name == "abstract"@
    ||| name == "become"@
    ||| name == "box"@
    ||| name == "do"@
    ||| name == "final"@
    ||| name == "macro"@
    ||| name == "override"@
    ||| name == "priv"@
    ||| name == "typeof"@
    ||| name == "unsized"@
    ||| name == "virtual"@
    ||| name == "yield"@
    ||| name == "try"@
}

/// Whether `name` cannot be bound under any name: the binding macro takes the
/// external name as an identifier, and a reserved word is none.
pub open spec fn unsafe_name(name: Seq<char>) -> bool {
    reserved_word(name)
}

/// The name under which `name` is declared: `name` itself, or `name` with an
/// underscore behind it where it is a reserved word.
pub open spec fn safe_name_of(name: Seq<char>) -> Seq<char> {
    if reserved_word(name) {
        name.push('_')
    } else {
        name
    }
}

/// A reserved word is not empty and does not end in an underscore.
pub proof fn lemma_reserved_word_has_no_trailing_underscore(name: Seq<char>)
    requires
        reserved_word(name),
    ensures
        name.len() > 0,
        name.last() != '_',
{
    reveal_strlit("as");
    reveal_strlit("break");
    reveal_strlit("const");
    reveal_strlit("continue");
    reveal_strlit("crate");
    reveal_strlit("else");
    reveal_strlit("enum");
    reveal_strlit("extern");
    reveal_strlit("false");
    reveal_strlit("fn");
    reveal_strlit("for");
    reveal_strlit("if");
    reveal_strlit("impl");
    reveal_strlit("in");
    reveal_strlit("let");
    reveal_strlit("loop");
    reveal_strlit("match");
    reveal_strlit("mod");
    reveal_strlit("move");
    reveal_strlit("mut");
    reveal_strlit("pub");
    reveal_strlit("ref");
    reveal_strlit("return");
    reveal_strlit("self");
    reveal_strlit("Self");
    reveal_strlit("static");
    reveal_strlit("struct");
    reveal_strlit("super");
    reveal_strlit("trait");
    reveal_strlit("true");
    reveal_strlit("type");
    reveal_strlit("unsafe");
    reveal_strlit("use");
    reveal_strlit("where");
    reveal_strlit("while");
    reveal_strlit("async");
    reveal_strlit("await");
    reveal_strlit("dyn");
    reveal_strlit("abstract");
    reveal_strlit("become");
    reveal_strlit("box");
    reveal_strlit("do");
    reveal_strlit("final");
    reveal_strlit("macro");
    reveal_strlit("override");
    reveal_strlit("priv");
    reveal_strlit("typeof");
    reveal_strlit("unsized");
    reveal_strlit("virtual");
    reveal_strlit("yield");
    reveal_strlit("try");
}

/// A safe name is never a reserved word.
pub proof fn lemma_safe_name_is_not_reserved(name: Seq<char>)
    ensures
        !reserved_word(safe_name_of(name)),
{
    if reserved_word(name) {
        if reserved_word(name.push('_')) {
            lemma_reserved_word_has_no_trailing_underscore(name.push('_'));
        }
    }
}

/// Whether `a` and `b` hold the same text.
pub(crate) fn same_text(a: &str, b: &str) -> (r: bool)
    ensures
        r == (a@ == b@),
{
    let x = a.as_bytes();
    let y = b.as_bytes();
    proof {
        vstd::utf8::encode_utf8_decode_utf8(a@);
        vstd::utf8::encode_utf8_decode_utf8(b@);
    }
    if x.len() != y.len() {
        return false;
    }
    let mut i: usize = 0;
    while i < x.len()
        invariant
            i <= x.len(),
            x.len() == y.len(),
            x@ == vstd::utf8::encode_utf8(a@),
            y@ == vstd::utf8::encode_utf8(b@),
            forall|j: int| 0 <= j < i ==> x@[j] == y@[j],
        decreases x.len() - i,
    {
        if x[i] != y[i] {
            return false;
        }
        i += 1;
    }
    assert(x@ =~= y@);
    true
}

/// Whether `name` is a reserved word of the binding language.
pub fn is_reserved_word(name: &str) -> (r: bool)
    ensures
        r == reserved_word(name@),
{
    same_text(name, "as") || same_text(name, "break") || same_text(name, "const")
        || same_text(name, "continue") || same_text(name, "crate") || same_text(name, "else")
        || same_text(name, "enum") || same_text(name, "extern") || same_text(name, "false")
        || same_text(name, "fn") || same_text(name, "for") || same_text(name, "if")
        || same_text(name, "impl") || same_text(name, "in") || same_text(name, "let")
        || same_text(name, "loop") || same_text(name, "match") || same_text(name, "mod")
        || same_text(name, "move") || same_text(name, "mut") || same_text(name, "pub")
        || same_text(name, "ref") || same_text(name, "return") || same_text(name, "self")
        || same_text(name, "Self") || same_text(name, "static") || same_text(name, "struct")
        || same_text(name, "super") || same_text(name, "trait") || same_text(name, "true")
        || same_text(name, "type") || same_text(name, "unsafe") || same_text(name, "use")
        || same_text(name, "where") || same_text(name, "while") || same_text(name, "async")
        || same_text(name, "await") || same_text(name, "dyn") || same_text(name, "abstract")
        || same_text(name, "become") || same_text(name, "box") || same_text(name, "do")
        || same_text(name, "final") || same_text(name, "macro") || same_text(name, "override")
        || same_text(name, "priv") || same_text(name, "typeof") || same_text(name, "unsized")
        || same_text(name, "virtual") || same_text(name, "yield") || same_text(name, "try")
}

/// Whether an attribute of this name is left out of the declarations.
pub fn is_unsafe_name(name: &str) -> (r: bool)
    ensures
        r == unsafe_name(name@),
{
    is_reserved_word(name)
}

/// The name under which `name` is declared.
pub fn to_safe_name(name: &str) -> (r: String)
    ensures
        r@ == safe_name_of(name@),
{
    let mut safe = name.to_owned();
    if is_reserved_word(name) {
        safe.append("_");
        proof {
            reveal_strlit("_");
            assert(safe@ =~= name@.push('_'));
        }
    }
    safe
}

/// Calls `heck::SnakeCase::to_snake_case` on `name`. Its contract is taken on
/// trust: the call computes from `name` alone, so that its result is the one
/// value `snake_case_of(name@)`. It reads nothing but its argument and does
/// not panic.
#[verifier::external_body]
pub(crate) fn to_snake_case(name: &str) -> (r: String)
    ensures
        r@ == snake_case_of(name@),
{
    heck::SnakeCase::to_snake_case(name)
}

} // verus!
