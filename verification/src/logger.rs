//! A diagnostic record and the text it is printed as, framed by banner lines.

use vstd::prelude::*;

verus! {

/// What a record holds, as plain text.
pub struct LogText {
    pub file_name: Seq<char>,
    pub message: Seq<char>,
}

/// A diagnostic record: the file that speaks, and what it says.
pub struct Log<'a> {
    file_name: &'a str,
    message: &'a str,
}

/// How often the banner line is printed above the message, and below it.
pub const BANNER_LINES: usize = 2;

/// The banner line.
pub open spec fn banner_text() -> Seq<char> {
    "**********************************************************"@
}

/// The line that carries a record.
pub open spec fn message_text(record: LogText) -> Seq<char> {
    "file:: "@ + record.file_name + " message:: "@ + record.message
}

/// `n` banner lines.
pub open spec fn banners(n: nat) -> Seq<Seq<char>> {
    Seq::new(n, |i: int| banner_text())
}

/// The lines of a framed record: the banners, the message, the banners.
pub open spec fn framed_text(record: LogText) -> Seq<Seq<char>> {
    banners(BANNER_LINES as nat) + seq![message_text(record)] + banners(BANNER_LINES as nat)
}

/// Builds the message line of a record.
pub fn message_line(file_name: &str, message: &str) -> (line: String)
    ensures
        line@ == message_text(LogText { file_name: file_name@, message: message@ }),
{
    let mut line = "file:: ".to_owned();
    line.append(file_name);
    line.append(" message:: ");
    line.append(message);
    line
}

/// Appends `line` to `out`.
fn push_line(out: &mut Vec<String>, line: String)
    ensures
        final(out).deep_view() == old(out).deep_view().push(line@),
{
    out.push(line);
}

impl<'a> View for Log<'a> {
    type V = LogText;

    closed spec fn view(&self) -> LogText {
        LogText { file_name: self.file_name@, message: self.message@ }
    }
}

impl<'a> Log<'a> {
    /// A record of `message`, spoken by `file_name`.
    pub fn new(file_name: &'a str, message: &'a str) -> (log: Log<'a>)
        ensures
            log@ == (LogText { file_name: file_name@, message: message@ }),
    {
        Log { file_name: file_name, message: message }
    }

    /// The lines that the record is printed as, top to bottom.
    pub fn lines(&self) -> (out: Vec<String>)
        ensures
            out.deep_view() == framed_text(self@),
    {
        let mut out: Vec<String> = Vec::new();
        let mut i: usize = 0;
        while i < BANNER_LINES
            invariant
                i <= BANNER_LINES,
                out.deep_view() == banners(i as nat),
            decreases BANNER_LINES - i,
        {
            push_line(&mut out, "**********************************************************".to_owned());
            i += 1;
        }
        push_line(&mut out, message_line(self.file_name, self.message));
        let mut j: usize = 0;
        while j < BANNER_LINES
            invariant
                j <= BANNER_LINES,
                out.deep_view() == banners(BANNER_LINES as nat) + seq![message_text(self@)]
                    + banners(j as nat),
            decreases BANNER_LINES - j,
        {
            push_line(&mut out, "**********************************************************".to_owned());
            j += 1;
            assert(out.deep_view() =~= banners(BANNER_LINES as nat) + seq![message_text(self@)]
                + banners(j as nat));
        }
        out
    }
}

} // verus!
