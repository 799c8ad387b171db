//! Running a program: what is run, and how it ended.
use crate::text::{join_texts, joined, signed_decimal, signed_text, texts};
use vstd::prelude::*;
use vstd::string::*;

verus! {

/// A program to run.
pub struct ToolCommand {
    pub program: String,
    pub args: Vec<String>,
    /// Environment variables to set for it.
    pub env: Vec<(String, String)>,
}

/// What a command consists of.
#[verifier::ext_equal]
pub struct ToolCommandView {
    pub program: Seq<char>,
    pub args: Seq<Seq<char>>,
    pub env: Seq<(Seq<char>, Seq<char>)>,
}

/// The texts of pairs of strings.
pub open spec fn text_pairs(v: Seq<(String, String)>) -> Seq<(Seq<char>, Seq<char>)> {
    v.map_values(|p: (String, String)| (p.0@, p.1@))
}

impl View for ToolCommand {
    type V = ToolCommandView;

    open spec fn view(&self) -> ToolCommandView {
        ToolCommandView {
            program: self.program@,
            args: texts(self.args@),
            env: text_pairs(self.env@),
        }
    }
}

/// How running a program went.
pub enum ToolRun {
    /// It could not be run, with the reason.
    NotRun(String),
    /// It ended. Without a code a signal ended it.
    Exited { code: Option<i32>, stdout: String, stderr: String },
}

/// The exit code that messages show: -1 where there is none.
pub open spec fn shown_code(code: Option<i32>) -> int {
    match code {
        Some(c) => c as int,
        None => -1,
    }
}

/// The exit code that messages show, in decimal.
pub fn code_text(code: Option<i32>) -> (s: String)
    ensures
        s@ == signed_decimal(shown_code(code)),
{
    let n: i32 = match code {
        Some(c) => c,
        None => -1,
    };
    signed_text(n)
}

/// Whether an exit code means success.
pub fn is_success(code: Option<i32>) -> (r: bool)
    ensures
        r == (code == Some(0i32)),
{
    match code {
        Some(c) => c == 0,
        None => false,
    }
}

/// What a program printed, on lines of its own behind a message: what went to
/// standard error, then what went to standard output. A stream without lines
/// adds nothing.
pub open spec fn with_output(
    message: Seq<char>,
    stderr: Seq<Seq<char>>,
    stdout: Seq<Seq<char>>,
) -> Seq<char> {
    let first = if stderr.len() == 0 {
        message
    } else {
        message + "\n"@ + joined(stderr, "\n"@)
    };
    if stdout.len() == 0 {
        first
    } else {
        first + "\n"@ + joined(stdout, "\n"@)
    }
}

/// Puts what a program printed behind a message.
pub fn append_output(message: &str, stderr: &Vec<String>, stdout: &Vec<String>) -> (s: String)
    ensures
        s@ == with_output(message@, texts(stderr@), texts(stdout@)),
{
    let mut s = message.to_owned();
    if stderr.len() > 0 {
        s.append("\n");
        s.append(&join_texts(stderr, "\n"));
    }
    if stdout.len() > 0 {
        s.append("\n");
        s.append(&join_texts(stdout, "\n"));
    }
    s
}

} // verus!
