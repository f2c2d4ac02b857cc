//! Attribute members: from the member that an interface description states
//! to the declarations that bind it.

use crate::names::{
    is_unsafe_name, lemma_safe_name_is_not_reserved, safe_name_of, same_text, snake_case_of,
    to_safe_name, to_snake_case, unsafe_name,
};
use crate::types::TypeReference;
use vstd::prelude::*;

verus! {

/// The marker of an attribute that cannot be assigned to.
#[derive(Debug, Clone, Copy, PartialEq, Eq, PartialOrd, Ord, Hash)]
pub struct ReadOnly;

/// An attribute member as the interface description states it.
#[derive(Debug, PartialEq, Eq, PartialOrd, Ord, Hash)]
pub struct AttributeMember {
    pub readonly: Option<ReadOnly>,
    pub identifier: String,
    pub type_: TypeReference,
}

/// What an [`AttributeMember`] holds, as mathematical values.
pub struct AttributeMemberView {
    pub readonly: bool,
    pub identifier: Seq<char>,
    pub type_: Seq<char>,
}

impl View for AttributeMember {
    type V = AttributeMemberView;

    open spec fn view(&self) -> AttributeMemberView {
        AttributeMemberView {
            readonly: self.readonly is Some,
            identifier: self.identifier@,
            type_: self.type_@,
        }
    }
}

impl Clone for AttributeMember {
    fn clone(&self) -> (r: Self)
        ensures
            r@ == self@,
    {
        AttributeMember {
            readonly: self.readonly,
            identifier: self.identifier.clone(),
            type_: self.type_.clone(),
        }
    }
}

/// An attribute of an interface. Its type is one that the registry held to be
/// defined when the attribute was taken from its member.
#[derive(Debug, Eq, PartialEq, Ord, PartialOrd)]
pub struct Attribute {
    pub is_global: bool,
    pub interface: String,
    pub readonly: bool,
    pub identifier: String,
    pub type_: TypeReference,
}

/// What an [`Attribute`] holds, as mathematical values.
pub struct AttributeView {
    pub is_global: bool,
    pub interface: Seq<char>,
    pub readonly: bool,
    pub identifier: Seq<char>,
    pub type_: Seq<char>,
}

impl View for Attribute {
    type V = AttributeView;

    open spec fn view(&self) -> AttributeView {
        AttributeView {
            is_global: self.is_global,
            interface: self.interface@,
            readonly: self.readonly,
            identifier: self.identifier@,
            type_: self.type_@,
        }
    }
}

impl AttributeMemberView {
    /// The attribute that the member is on the interface `interface`: it is
    /// read-only where the member has the marker, and has the member's
    /// identifier and type.
    pub open spec fn attribute(self, is_global: bool, interface: Seq<char>) -> AttributeView {
        AttributeView {
            is_global,
            interface,
            readonly: self.readonly,
            identifier: self.identifier,
            type_: self.type_,
        }
    }
}

impl AttributeView {
    /// The declaration of a global attribute: a static value under
    /// `safe_name`, with the identifier as its external name where the two
    /// differ.
    pub open spec fn static_declaration(self, safe_name: Seq<char>) -> Seq<char> {
        let alias = if self.identifier != safe_name {
            "#[wasm_bindgen(js_name = "@ + self.identifier + ")]\n"@
        } else {
            Seq::empty()
        };
        alias + "pub static "@ + safe_name + ": "@ + self.type_ + ";\n\n"@
    }

    /// The getter of an instance attribute: a method `safe_name` of the
    /// interface that returns the type. The identifier is named as the
    /// external getter where it differs from `safe_name`.
    pub open spec fn getter_declaration(self, safe_name: Seq<char>) -> Seq<char> {
        let marker = if self.identifier == safe_name {
            "#[wasm_bindgen(method, getter, structural)]\n"@
        } else {
            "#[wasm_bindgen(method, getter = "@ + self.identifier + ", structural)]\n"@
        };
        marker + "pub fn "@ + safe_name + "(this: &"@ + self.interface + ") -> "@ + self.type_
            + ";\n\n"@
    }

    /// The setter of an instance attribute: a method `set_` and `snake_name`
    /// of the interface that takes a value of the type. The identifier is
    /// named as the external setter where it differs from `snake_name`: the
    /// setter goes by the snake case name, the getter by the safe name.
    pub open spec fn setter_declaration(self, snake_name: Seq<char>) -> Seq<char> {
        let marker = if self.identifier == snake_name {
            "#[wasm_bindgen(method, setter, structural)]\n"@
        } else {
            "#[wasm_bindgen(method, setter = "@ + self.identifier + ", structural)]\n"@
        };
        marker + "pub fn set_"@ + snake_name + "(this: &"@ + self.interface + ", val: "@
            + self.type_ + ");\n\n"@
    }

    /// The declarations of the attribute, given the snake case form of its
    /// identifier. An identifier that cannot be bound has none. A global
    /// attribute has its static value and never a setter, read-only or not.
    /// An instance attribute has its getter, and its setter unless it is
    /// read-only.
    pub open spec fn declarations(self, snake_name: Seq<char>) -> Seq<char> {
        let safe_name = safe_name_of(snake_name);
        if unsafe_name(self.identifier) {
            Seq::empty()
        } else if self.is_global {
            self.static_declaration(safe_name)
        } else if self.readonly {
            self.getter_declaration(safe_name)
        } else {
            self.getter_declaration(safe_name) + self.setter_declaration(snake_name)
        }
    }

    /// The declarations of the attribute.
    pub open spec fn bindings(self) -> Seq<char> {
        self.declarations(snake_case_of(self.identifier))
    }
}

/// An attribute whose identifier cannot be bound has no declarations.
pub proof fn lemma_unsafe_name_is_skipped(a: AttributeView)
    requires
        unsafe_name(a.identifier),
    ensures
        a.bindings() == Seq::<char>::empty(),
{
}

/// Only an identifier that cannot be bound is left out: every other attribute
/// has declarations, and they end in a terminator and an empty line.
pub proof fn lemma_bound_name_is_declared(a: AttributeView)
    requires
        !unsafe_name(a.identifier),
    ensures
        a.bindings().len() >= 3,
        a.bindings().skip(a.bindings().len() - 3) == ";\n\n"@,
{
    reveal_strlit(";\n\n");
    reveal_strlit(");\n\n");
    let text = a.bindings();
    assert(text.skip(text.len() - 3) =~= ";\n\n"@);
}

/// A global attribute whose identifier is its own safe name is declared as
/// one static value under that name: no line names it anew, and there is no
/// setter.
pub proof fn lemma_global_attribute_under_its_own_name(a: AttributeView)
    requires
        a.is_global,
        a.identifier == safe_name_of(snake_case_of(a.identifier)),
    ensures
        a.bindings() == "pub static "@ + a.identifier + ": "@ + a.type_ + ";\n\n"@,
{
    lemma_safe_name_is_not_reserved(snake_case_of(a.identifier));
    assert(Seq::<char>::empty() + "pub static "@ =~= "pub static "@);
}

/// A global attribute has the same declarations whether or not it is
/// read-only: there is no setter to leave out.
pub proof fn lemma_global_attribute_has_no_setter(a: AttributeView, b: AttributeView)
    requires
        a.is_global,
        b == (AttributeView { readonly: !a.readonly, ..a }),
    ensures
        a.bindings() == b.bindings(),
{
}

/// An instance attribute that can be assigned to, and whose identifier is
/// its own snake case form and can be bound, has a getter and a setter that
/// go by the identifier: both carry the plain marker.
pub proof fn lemma_instance_attribute_in_snake_case(a: AttributeView)
    requires
        !a.is_global,
        !a.readonly,
        a.identifier == snake_case_of(a.identifier),
        !unsafe_name(a.identifier),
    ensures
        a.bindings() == ({
            let getter = "#[wasm_bindgen(method, getter, structural)]\n"@ + "pub fn "@
                + a.identifier + "(this: &"@ + a.interface + ") -> "@ + a.type_ + ";\n\n"@;
            let setter = "#[wasm_bindgen(method, setter, structural)]\n"@ + "pub fn set_"@
                + a.identifier + "(this: &"@ + a.interface + ", val: "@ + a.type_ + ");\n\n"@;
            getter + setter
        }),
{
}

/// An instance attribute that can be assigned to, and whose identifier can
/// be bound and is neither its safe name nor its snake case form, has a
/// getter under the safe name and a setter after the snake case form, and
/// both name the identifier as the external name.
pub proof fn lemma_instance_attribute_in_another_case(a: AttributeView)
    requires
        !a.is_global,
        !a.readonly,
        !unsafe_name(a.identifier),
        a.identifier != snake_case_of(a.identifier),
        a.identifier != safe_name_of(snake_case_of(a.identifier)),
    ensures
        a.bindings() == ({
            let snake_name = snake_case_of(a.identifier);
            let getter = "#[wasm_bindgen(method, getter = "@ + a.identifier
                + ", structural)]\n"@ + "pub fn "@ + safe_name_of(snake_name) + "(this: &"@
                + a.interface + ") -> "@ + a.type_ + ";\n\n"@;
            let setter = "#[wasm_bindgen(method, setter = "@ + a.identifier
                + ", structural)]\n"@ + "pub fn set_"@ + snake_name + "(this: &"@ + a.interface
                + ", val: "@ + a.type_ + ");\n\n"@;
            getter + setter
        }),
{
}

/// Writing is repeatable: two attributes that hold the same values add the
/// same text, whatever the buffers held before.
pub proof fn lemma_bindings_repeat(
    a: Attribute,
    b: Attribute,
    before_a: Seq<char>,
    after_a: Seq<char>,
    before_b: Seq<char>,
    after_b: Seq<char>,
)
    requires
        a@ == b@,
        after_a == before_a + a@.bindings(),
        after_b == before_b + b@.bindings(),
    ensures
        after_a.skip(before_a.len() as int) == after_b.skip(before_b.len() as int),
{
    assert(after_a.skip(before_a.len() as int) =~= a@.bindings());
    assert(after_b.skip(before_b.len() as int) =~= b@.bindings());
}

impl Attribute {
    /// Takes the attribute out of `from`, a member of the interface
    /// `interface`, if the registry `types` holds its type to be defined. A
    /// type that the registry does not hold to be defined gives no attribute.
    pub fn scrape<F: Fn(&TypeReference) -> bool>(
        from: &AttributeMember,
        is_global: bool,
        interface: &str,
        types: F,
    ) -> (r: Option<Attribute>)
        requires
            types.requires((&from.type_,)),
        ensures
            r is Some ==> types.ensures((&from.type_,), true),
            r is None ==> types.ensures((&from.type_,), false),
            r matches Some(a) ==> a@ == from@.attribute(is_global, interface@),
    {
        let defined = types(&from.type_);
        Attribute::from_member(from, is_global, interface, defined)
    }

    /// The attribute that `from` is on the interface `interface`, if its type
    /// is defined, and nothing if it is not.
    pub fn from_member(
        from: &AttributeMember,
        is_global: bool,
        interface: &str,
        defined: bool,
    ) -> (r: Option<Attribute>)
        ensures
            r is Some <==> defined,
            r matches Some(a) ==> a@ == from@.attribute(is_global, interface@),
    {
        if defined {
            let readonly = from.readonly.is_some();
            let identifier = from.identifier.clone();
            let type_ = from.type_.clone();

            Some(Attribute { is_global, interface: interface.to_owned(), readonly, identifier, type_ })
        } else {
            None
        }
    }

    /// Writes the declarations of the attribute at the end of `buf`. An
    /// identifier that cannot be bound leaves `buf` as it was.
    pub fn write_bindings(&self, buf: &mut String)
        ensures
            final(buf)@ == old(buf)@ + self@.bindings(),
            unsafe_name(self.identifier@) ==> final(buf)@ == old(buf)@,
    {
        // The binding macro takes no reserved word as an external name.
        if is_unsafe_name(self.identifier.as_str()) {
            assert(buf@ =~= old(buf)@ + self@.bindings());
            return;
        }
        let snake_name = to_snake_case(self.identifier.as_str());
        self.write_declarations(snake_name.as_str(), buf);
    }

    /// Writes the declarations of the attribute at the end of `buf`, given
    /// the snake case form of its identifier.
    pub fn write_declarations(&self, snake_name: &str, buf: &mut String)
        ensures
            final(buf)@ == old(buf)@ + self@.declarations(snake_name@),
    {
        if is_unsafe_name(self.identifier.as_str()) {
            assert(buf@ =~= old(buf)@ + self@.declarations(snake_name@));
            return;
        }
        let safe_name = to_safe_name(snake_name);
        if self.is_global {
            buf.append(self.declare_static(safe_name.as_str()).as_str());
        } else {
            let getter = self.declare_getter(safe_name.as_str());
            buf.append(getter.as_str());
            if !self.readonly {
                let setter = self.declare_setter(snake_name);
                buf.append(setter.as_str());
                assert(buf@ =~= old(buf)@ + (getter@ + setter@));
            }
        }
    }

    /// The declaration of a global attribute under the name `safe_name`.
    pub fn declare_static(&self, safe_name: &str) -> (text: String)
        ensures
            text@ == self@.static_declaration(safe_name@),
    {
        let alias = if !same_text(self.identifier.as_str(), safe_name) {
            "#[wasm_bindgen(js_name = ".to_owned().concat(self.identifier.as_str()).concat(")]\n")
        } else {
            String::new()
        };
        let mut text = alias.concat("pub static ").concat(safe_name).concat(": ");
        self.type_.write_bindings(&mut text);
        text.append(";\n\n");
        text
    }

    /// The getter of an instance attribute under the name `safe_name`.
    pub fn declare_getter(&self, safe_name: &str) -> (text: String)
        ensures
            text@ == self@.getter_declaration(safe_name@),
    {
        let marker = if same_text(self.identifier.as_str(), safe_name) {
            "#[wasm_bindgen(method, getter, structural)]\n".to_owned()
        } else {
            "#[wasm_bindgen(method, getter = ".to_owned().concat(self.identifier.as_str()).concat(
                ", structural)]\n",
            )
        };
        let mut text = marker.concat("pub fn ").concat(safe_name).concat("(this: &").concat(
            self.interface.as_str(),
        ).concat(") -> ");
        self.type_.write_bindings(&mut text);
        text.append(";\n\n");
        text
    }

    /// The setter of an instance attribute whose identifier has the snake
    /// case form `snake_name`. The setter is named after that form, and so is
    /// the test for its external name; the getter goes by the safe name in
    /// both.
    pub fn declare_setter(&self, snake_name: &str) -> (text: String)
        ensures
            text@ == self@.setter_declaration(snake_name@),
    {
        let marker = if same_text(self.identifier.as_str(), snake_name) {
            "#[wasm_bindgen(method, setter, structural)]\n".to_owned()
        } else {
            "#[wasm_bindgen(method, setter = ".to_owned().concat(self.identifier.as_str()).concat(
                ", structural)]\n",
            )
        };
        let mut text = marker.concat("pub fn set_").concat(snake_name).concat("(this: &").concat(
            self.interface.as_str(),
        ).concat(", val: ");
        self.type_.write_bindings(&mut text);
        text.append(");\n\n");
        text
    }
}

} // verus!
