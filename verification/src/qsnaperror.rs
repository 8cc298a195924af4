use vstd::prelude::*;

verus! {

/// The error of this tool: a message for the user.
#[derive(Debug)]
pub struct QsnapError {
    message: String,
}

impl View for QsnapError {
    type V = Seq<char>;

    /// The message that the error carries.
    closed spec fn view(&self) -> Seq<char> {
        self.message@
    }
}

impl QsnapError {
    /// An error whose message is `msg`.
    pub fn new(msg: &str) -> (e: QsnapError)
        ensures
            e@ == msg@,
    {
        QsnapError { message: msg.to_owned() }
    }

    /// The message of the error.
    pub fn description(&self) -> (s: &str)
        ensures
            s@ == self@,
    {
        self.message.as_str()
    }

    /// The error as it is shown to the user: its message.
    pub fn to_display_string(&self) -> (s: String)
        ensures
            s@ == self@,
    {
        self.message.clone()
    }
}

} // verus!
