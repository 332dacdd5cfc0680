//! Telling the user what an operation does.

use vstd::prelude::*;
use crate::flow::{agrees, say, say_step, Outcome, Progress, Replies, Reply, Stream};
use crate::output::Output;

verus! {

/// A status line on the standard error, where the output is for a human.
pub open spec fn status_say(
    out: Output,
    action: Seq<char>,
    target: Seq<char>,
    replies: Replies,
    pos: int,
) -> Outcome<()> {
    say_step(replies, pos, Stream::Stderr, out.status_text(action, target))
}

/// Says a status line.
pub fn say_status(out: &Output, action: &str, target: &str, replies: &Vec<Reply>, pos: &mut usize) -> (r:
    Progress<()>)
    ensures
        agrees(
            r,
            *final(pos),
            status_say(*out, action@, target@, replies.deep_view(), *old(pos) as int),
        ),
{
    say(replies, pos, Stream::Stderr, out.status(action, target))
}

/// The line that reports success.
pub open spec fn success_say(out: Output, message: Seq<char>, replies: Replies, pos: int)
    -> Outcome<()> {
    status_say(out, "Done"@, message, replies, pos)
}

/// Says that something succeeded.
pub fn say_success(out: &Output, message: &str, replies: &Vec<Reply>, pos: &mut usize) -> (r: Progress<
    (),
>)
    ensures
        agrees(r, *final(pos), success_say(*out, message@, replies.deep_view(), *old(pos) as int)),
{
    say(replies, pos, Stream::Stderr, out.success(message))
}

/// The line that warns.
pub open spec fn warn_say(out: Output, message: Seq<char>, replies: Replies, pos: int) -> Outcome<
    (),
> {
    status_say(out, "Warning"@, message, replies, pos)
}

/// Says a warning.
pub fn say_warn(out: &Output, message: &str, replies: &Vec<Reply>, pos: &mut usize) -> (r: Progress<()>)
    ensures
        agrees(r, *final(pos), warn_say(*out, message@, replies.deep_view(), *old(pos) as int)),
{
    say(replies, pos, Stream::Stderr, out.warn(message))
}

/// The line that informs.
pub open spec fn info_say(out: Output, message: Seq<char>, replies: Replies, pos: int) -> Outcome<
    (),
> {
    say_step(replies, pos, Stream::Stderr, out.info_text(message))
}

/// Says a plain line.
pub fn say_info(out: &Output, message: &str, replies: &Vec<Reply>, pos: &mut usize) -> (r: Progress<()>)
    ensures
        agrees(r, *final(pos), info_say(*out, message@, replies.deep_view(), *old(pos) as int)),
{
    say(replies, pos, Stream::Stderr, out.info(message))
}

/// The line for those who asked for more.
pub open spec fn verbose_say(out: Output, message: Seq<char>, replies: Replies, pos: int)
    -> Outcome<()> {
    say_step(replies, pos, Stream::Stderr, out.verbose_text(message))
}

/// Says a line for those who asked for more.
pub fn say_verbose(out: &Output, message: &str, replies: &Vec<Reply>, pos: &mut usize) -> (r: Progress<
    (),
>)
    ensures
        agrees(r, *final(pos), verbose_say(*out, message@, replies.deep_view(), *old(pos) as int)),
{
    say(replies, pos, Stream::Stderr, out.verbose(message))
}

/// A line on the standard output, whatever the format.
pub open spec fn print_say(line: Seq<char>, replies: Replies, pos: int) -> Outcome<()> {
    say_step(replies, pos, Stream::Stdout, Some(line))
}

/// Prints a line on the standard output.
pub fn say_print(line: String, replies: &Vec<Reply>, pos: &mut usize) -> (r: Progress<()>)
    ensures
        agrees(r, *final(pos), print_say(line@, replies.deep_view(), *old(pos) as int)),
{
    say(replies, pos, Stream::Stdout, Some(line))
}

} // verus!
