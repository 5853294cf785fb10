use vstd::prelude::*;

verus! {

/// An operation failed; the text says why.
#[derive(Debug, Clone)]
pub struct ApplicationError(pub String);

/// The user picked something that is not on offer; the text is what they picked.
#[derive(Debug, Clone)]
pub struct SelectionError(pub String);

impl View for ApplicationError {
    type V = Seq<char>;

    open spec fn view(&self) -> Seq<char> {
        self.0@
    }
}

impl View for SelectionError {
    type V = Seq<char>;

    open spec fn view(&self) -> Seq<char> {
        self.0@
    }
}

/// How a selection error reads once it has become an application error.
pub open spec fn selection_message(choice: Seq<char>) -> Seq<char> {
    "Invalid selection: "@ + choice
}

/// How an application error is shown to the user.
pub open spec fn application_message(reason: Seq<char>) -> Seq<char> {
    "An Error occurred: "@ + reason
}

impl SelectionError {
    /// The message shown for this error.
    pub fn to_string(&self) -> (r: String)
        ensures
            r@ == selection_message(self@),
    {
        String::from_str("Invalid selection: ").concat(self.0.as_str())
    }
}

impl ApplicationError {
    /// The message shown for this error.
    pub fn to_string(&self) -> (r: String)
        ensures
            r@ == application_message(self@),
    {
        String::from_str("An Error occurred: ").concat(self.0.as_str())
    }
}

impl From<SelectionError> for ApplicationError {
    fn from(val: SelectionError) -> (r: ApplicationError)
        ensures
            r@ == selection_message(val@),
    {
        ApplicationError(val.to_string())
    }
}

// The message is built at run time, so no spec value can stand for the
// result: `from` states it in its own `ensures` instead.
impl vstd::std_specs::convert::FromSpecImpl<SelectionError> for ApplicationError {
    open spec fn obeys_from_spec() -> bool {
        false
    }

    open spec fn from_spec(v: SelectionError) -> ApplicationError {
        ApplicationError(v.0)
    }
}

} // verus!
