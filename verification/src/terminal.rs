//! Terminal settings and command-line option events.
use crate::consts::{echo_flag, spec_echo};
use vstd::prelude::*;

verus! {

/// The local flags of a terminal with echo turned off: `c_lflag & !ECHO`,
/// every other flag kept.
pub fn disable_echo(c_lflag: u32) -> (r: u32)
    ensures
        r == c_lflag & !spec_echo(),
{
    c_lflag & !echo_flag()
}

/// What one call of `getopt` with the option string `":if:lr"` reported.
#[derive(Clone, Copy, Debug, PartialEq, Eq, Structural)]
pub enum GetoptEvent {
    /// No more options (`-1`).
    End,
    /// One of the flags `-i`, `-l`, `-r`, by its letter.
    Flag(u8),
    /// `-f`, whose value is the file name in `optarg`.
    Filename,
    /// An option that needs a value came last, without one (`:`).
    MissingValue,
    /// An option that the option string does not name (`?`); the letter is
    /// in `optopt`.
    Unknown,
}

/// The event for a `getopt` result `opt`, reading its low byte as the option
/// character; `None` for a result that `getopt` does not give for the
/// option string `":if:lr"`.
pub open spec fn spec_getopt_event(opt: i32) -> Option<GetoptEvent> {
    if opt == -1 {
        Some(GetoptEvent::End)
    } else {
        let c = opt as u8;
        if c == 105 || c == 108 || c == 114 {
            Some(GetoptEvent::Flag(c))
        } else if c == 102 {
            Some(GetoptEvent::Filename)
        } else if c == 58 {
            Some(GetoptEvent::MissingValue)
        } else if c == 63 {
            Some(GetoptEvent::Unknown)
        } else {
            None
        }
    }
}

/// Sorts a `getopt` result `opt` for the option string `":if:lr"`.
pub fn classify_getopt(opt: i32) -> (r: Option<GetoptEvent>)
    ensures
        r == spec_getopt_event(opt),
{
    if opt == -1 {
        return Some(GetoptEvent::End);
    }
    let c = opt as u8;
    if c == 105 || c == 108 || c == 114 {
        Some(GetoptEvent::Flag(c))
    } else if c == 102 {
        Some(GetoptEvent::Filename)
    } else if c == 58 {
        Some(GetoptEvent::MissingValue)
    } else if c == 63 {
        Some(GetoptEvent::Unknown)
    } else {
        None
    }
}

} // verus!
