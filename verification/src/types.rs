//! Types of the interface description, as the declarations refer to them.

use vstd::prelude::*;

verus! {

/// A type that an interface description names, held as the text that stands
/// for it in a declaration.
#[derive(Debug, PartialEq, Eq, PartialOrd, Ord, Hash)]
pub struct TypeReference {
    pub text: String,
}

impl View for TypeReference {
    type V = Seq<char>;

    open spec fn view(&self) -> Seq<char> {
        self.text@
    }
}

impl Clone for TypeReference {
    fn clone(&self) -> (r: Self)
        ensures
            r@ == self@,
    {
        TypeReference { text: self.text.clone() }
    }
}

impl TypeReference {
    /// Writes the type at the end of `buf`.
    pub fn write_bindings(&self, buf: &mut String)
        ensures
            final(buf)@ == old(buf)@ + self@,
    {
        buf.append(self.text.as_str());
    }
}

} // verus!
