use vstd::prelude::*;
use vstd::string::to_string_from_display_ensures;
use vstd::string::to_string_from_display_ensures_for_str;

verus! {

/// A failure that carries a message and nothing else: the one kind of failure that an engine of
/// this crate's roles needs.
#[derive(Debug)]
pub struct Error {
    msg: String,
}

impl View for Error {
    type V = Seq<char>;

    /// The message, as a sequence of characters.
    open spec fn view(&self) -> Seq<char> {
        self.message()@
    }
}

impl Clone for Error {
    /// An error with the same message.
    fn clone(&self) -> (copy: Error)
        ensures
            copy == *self,
    {
        Error { msg: self.msg.clone() }
    }
}

impl Error {
    /// The message as a string.
    pub closed spec fn message(&self) -> String {
        self.msg
    }

    /// An error whose message is what displaying `msg` gives: for a string slice, the slice itself.
    pub fn custom<T: core::fmt::Display + ?Sized>(msg: &T) -> (error: Error)
        ensures
            to_string_from_display_ensures::<T>(msg, error.message()),
    {
        Error { msg: msg.to_string() }
    }

    /// The message.
    pub fn description(&self) -> (text: &str)
        ensures
            text@ == self@,
    {
        self.msg.as_str()
    }

    /// The message as an owned string: what displaying the error shows.
    pub fn to_string(&self) -> (text: String)
        ensures
            text@ == self@,
    {
        self.msg.clone()
    }
}

/// An error equals a string slice where its message is that slice.
impl PartialEq<str> for Error {
    fn eq(&self, other: &str) -> (same: bool) {
        let text = other.to_owned();
        self.msg == text
    }
}

impl vstd::std_specs::cmp::PartialEqSpecImpl<str> for Error {
    open spec fn obeys_eq_spec() -> bool {
        true
    }

    open spec fn eq_spec(&self, other: &str) -> bool {
        self@ == other@
    }
}

/// What `custom` promises of a string slice: the error carries exactly that text.
pub proof fn custom_of_str_carries_text(msg: &str, error: Error)
    requires
        to_string_from_display_ensures::<str>(msg, error.message()),
    ensures
        error@ == msg@,
{
    broadcast use to_string_from_display_ensures_for_str;

}

} // verus!
