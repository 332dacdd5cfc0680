//! What the user is told, and in which form.
//!
//! Nothing is printed here. Each method gives the line that is to be
//! printed, or nothing where the format or the verbosity rules it out.

use vstd::prelude::*;
use crate::failure::{failure, ErrorKind, Failure, FailureView};
use crate::text::{append_str, from_chars, push_all, to_chars};

verus! {

/// The form of the output.
#[derive(Debug, Clone, Copy, PartialEq, Eq, Structural)]
pub enum OutputFormat {
    Human,
    Json,
}

impl Default for OutputFormat {
    fn default() -> (r: Self)
        ensures
            r == OutputFormat::Human,
    {
        OutputFormat::Human
    }
}

/// How an operation reports: in which format, and how much.
#[derive(Debug, Clone, Copy, PartialEq, Eq, Structural)]
pub struct Output {
    pub format: OutputFormat,
    pub verbose: bool,
}

impl Default for Output {
    fn default() -> (r: Self)
        ensures
            r == (Output { format: OutputFormat::Human, verbose: false }),
    {
        Output { format: OutputFormat::Human, verbose: false }
    }
}

/// The width of the column in which the verb of a status line is set.
pub const VERB_WIDTH: usize = 12;

/// `s` moved to the right in a column of `width` characters; a longer `s`
/// stays as it is.
pub open spec fn right_aligned(s: Seq<char>, width: nat) -> Seq<char> {
    if s.len() >= width {
        s
    } else {
        Seq::new((width - s.len()) as nat, |i: int| ' ') + s
    }
}

/// A status line: the verb in its column, a space, and the rest.
pub open spec fn status_line(action: Seq<char>, target: Seq<char>) -> Seq<char> {
    right_aligned(action, VERB_WIDTH as nat) + seq![' '] + target
}

/// The error of a command that is asked for JSON and has none.
pub open spec fn json_unsupported(command: Seq<char>) -> FailureView {
    failure(
        ErrorKind::UserInput,
        "JSON output is not supported for '"@ + command + "' command"@,
    )
}

fn format_status(action: &str, target: &str) -> (out: String)
    ensures
        out@ == status_line(action@, target@),
{
    let a = to_chars(action);
    let mut line: Vec<char> = Vec::new();
    if a.len() < VERB_WIDTH {
        let pad: usize = VERB_WIDTH - a.len();
        let mut i: usize = 0;
        while i < pad
            invariant
                i <= pad,
                line@ == Seq::new(i as nat, |k: int| ' '),
            decreases pad - i,
        {
            line.push(' ');
            assert(line@ == Seq::new((i + 1) as nat, |k: int| ' '));
            i += 1;
        }
    }
    push_all(&mut line, &a);
    assert(line@ == right_aligned(action@, VERB_WIDTH as nat));
    line.push(' ');
    append_str(&mut line, target);
    from_chars(&line)
}

impl Output {
    /// An output of the given format and verbosity.
    pub fn new(format: OutputFormat, verbose: bool) -> (out: Self)
        ensures
            out == (Output { format, verbose }),
    {
        Output { format, verbose }
    }

    /// Refuses JSON output on behalf of a command that has none.
    pub fn require_human(&self, command: &str) -> (r: Result<(), Failure>)
        ensures
            match r {
                Ok(_) => self.format == OutputFormat::Human,
                Err(f) => self.format == OutputFormat::Json && f@ == json_unsupported(command@),
            },
    {
        match self.format {
            OutputFormat::Human => Ok(()),
            OutputFormat::Json => {
                let mut m = to_chars("JSON output is not supported for '");
                append_str(&mut m, command);
                append_str(&mut m, "' command");
                Err(Failure::new(ErrorKind::UserInput, from_chars(&m)))
            },
        }
    }

    /// The status line for an action and its target.
    pub fn status(&self, action: &str, target: &str) -> (line: Option<String>)
        ensures
            line.deep_view() == self.status_text(action@, target@),
    {
        match self.format {
            OutputFormat::Human => Some(format_status(action, target)),
            OutputFormat::Json => None,
        }
    }

    /// The line that reports success.
    pub fn success(&self, message: &str) -> (line: Option<String>)
        ensures
            line.deep_view() == self.status_text("Done"@, message@),
    {
        self.status("Done", message)
    }

    /// The line that warns.
    pub fn warn(&self, message: &str) -> (line: Option<String>)
        ensures
            line.deep_view() == self.status_text("Warning"@, message@),
    {
        self.status("Warning", message)
    }

    /// The line that informs.
    pub fn info(&self, message: &str) -> (line: Option<String>)
        ensures
            line.deep_view() == self.info_text(message@),
    {
        match self.format {
            OutputFormat::Human => Some(message.to_owned()),
            OutputFormat::Json => None,
        }
    }

    /// The line that is shown only to those who asked for more.
    pub fn verbose(&self, message: &str) -> (line: Option<String>)
        ensures
            line.deep_view() == self.verbose_text(message@),
    {
        if self.verbose {
            self.info(message)
        } else {
            None
        }
    }

    /// A status line is shown to a human reader only.
    pub open spec fn status_text(&self, action: Seq<char>, target: Seq<char>) -> Option<Seq<char>> {
        if self.format == OutputFormat::Human {
            Some(status_line(action, target))
        } else {
            None
        }
    }

    /// A plain line is shown to a human reader only.
    pub open spec fn info_text(&self, message: Seq<char>) -> Option<Seq<char>> {
        if self.format == OutputFormat::Human {
            Some(message)
        } else {
            None
        }
    }

    /// A verbose line is shown only where verbosity was asked for.
    pub open spec fn verbose_text(&self, message: Seq<char>) -> Option<Seq<char>> {
        if self.verbose {
            self.info_text(message)
        } else {
            None
        }
    }
}

} // verus!
