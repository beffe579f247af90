use vstd::prelude::*;

verus! {

/// A greeting record: a message filed under a unique name.
///
/// Greetings are immutable once created: they are inserted and later read
/// back by name, never updated or deleted.
#[derive(Debug)]
pub struct Hello {
    pub name: String,
    pub message: String,
}

/// The mathematical value of a [`Hello`]: both fields as character
/// sequences.
#[verifier::ext_equal]
pub ghost struct HelloView {
    pub name: Seq<char>,
    pub message: Seq<char>,
}

impl View for Hello {
    type V = HelloView;

    open spec fn view(&self) -> HelloView {
        HelloView { name: self.name@, message: self.message@ }
    }
}

impl Clone for Hello {
    fn clone(&self) -> (r: Self)
        ensures
            r@ == self@,
    {
        Hello { name: self.name.clone(), message: self.message.clone() }
    }
}

} // verus!
