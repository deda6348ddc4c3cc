use vstd::prelude::*;

verus! {

/// The type signature of an instruction, held as the text it is printed as.
#[derive(Debug, Clone)]
pub struct TypeSignature {
    pub text: String,
}

impl View for TypeSignature {
    type V = Seq<char>;

    open spec fn view(&self) -> Seq<char> {
        self.text@
    }
}

impl TypeSignature {
    /// The signature printed as `text`.
    pub fn new(text: String) -> (s: Self)
        ensures
            s@ == text@,
    {
        TypeSignature { text }
    }

    /// The text this signature is printed as.
    pub fn as_str(&self) -> (r: &str)
        ensures
            r@ == self@,
    {
        self.text.as_str()
    }
}

} // verus!
