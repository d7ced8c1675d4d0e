//! A diagnostic record that is printed as one bare line.

use crate::logger::{message_line, message_text, LogText};
use vstd::prelude::*;

verus! {

/// A diagnostic record: the file that speaks, and what it says.
pub struct Log<'a> {
    file_name: &'a str,
    message: &'a str,
}

impl<'a> View for Log<'a> {
    type V = LogText;

    closed spec fn view(&self) -> LogText {
        LogText { file_name: self.file_name@, message: self.message@ }
    }
}

impl<'a> Log<'a> {
    /// A record of `message`, spoken by `file_name`.
    pub fn new(file_name: &'a str, message: &'a str) -> (log: Log<'a>)
        ensures
            log@ == (LogText { file_name: file_name@, message: message@ }),
    {
        Log { file_name: file_name, message: message }
    }

    /// The line that the record is printed as.
    pub fn line(&self) -> (out: String)
        ensures
            out@ == message_text(self@),
    {
        message_line(self.file_name, self.message)
    }
}

} // verus!
