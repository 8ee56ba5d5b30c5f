//! The clipboard bridge's decisions: what counts as clipboard text, and
//! how often and when a read is tried again while the clipboard settles.

use crate::text::{text_view, trim, trimmed};
use vstd::prelude::*;

verus! {

/// Pause between two reads of the clipboard, in milliseconds.
pub const RETRY_INTERVAL_MS: u64 = 50;

/// Most reads that one call makes.
pub const MAX_TRIES: u32 = 6;

/// What happens after one read of the clipboard.
#[derive(Debug, Clone, PartialEq, Eq)]
pub enum Poll {
    /// Polling ends with this text, or without any.
    Done(Option<String>),
    /// Sleep for `after_ms`, then make read number `attempt` (from 0).
    Retry { attempt: u32, after_ms: u64 },
}

/// A poll decision as a mathematical value.
pub enum PollView {
    Done(Option<Seq<char>>),
    Retry { attempt: u32, after_ms: u64 },
}

impl View for Poll {
    type V = PollView;

    open spec fn view(&self) -> PollView {
        match *self {
            Poll::Done(text) => PollView::Done(text_view(text)),
            Poll::Retry { attempt, after_ms } => PollView::Retry { attempt, after_ms },
        }
    }
}

/// The text that clipboard contents amount to: the contents trimmed, or
/// nothing if that leaves no character.
pub open spec fn clipboard_text(contents: Seq<char>) -> Option<Seq<char>> {
    if trimmed(contents).len() == 0 {
        None
    } else {
        Some(trimmed(contents))
    }
}

/// The text of one read, which may have found the clipboard unavailable.
pub open spec fn reading_text(reading: Option<Seq<char>>) -> Option<Seq<char>> {
    match reading {
        Some(contents) => clipboard_text(contents),
        None => None,
    }
}

/// Number of reads within `max_wait_ms`: one per retry interval, at least
/// one and at most `MAX_TRIES`.
pub open spec fn attempts(max_wait_ms: u64) -> int {
    let n = max_wait_ms as int / RETRY_INTERVAL_MS as int;
    if n < 1 {
        1
    } else if n > MAX_TRIES as int {
        MAX_TRIES as int
    } else {
        n
    }
}

/// The decision after read number `attempt` of `tries`: done with the
/// text if there is one, else retry while reads are left, else done with
/// nothing.
pub open spec fn poll_step(attempt: u32, tries: u32, reading: Option<Seq<char>>) -> PollView {
    match reading_text(reading) {
        Some(text) => PollView::Done(Some(text)),
        None => if attempt + 1 < tries {
            PollView::Retry { attempt: (attempt + 1) as u32, after_ms: RETRY_INTERVAL_MS }
        } else {
            PollView::Done(None)
        },
    }
}

/// Where polling ends when read number `attempt` and those after it find
/// `readings[attempt]`, `readings[attempt + 1]` and so on.
pub open spec fn polled(readings: Seq<Option<Seq<char>>>, attempt: u32, tries: u32) -> Option<
    Seq<char>,
>
    recommends
        tries <= readings.len(),
    decreases tries - attempt,
{
    if attempt >= tries {
        None
    } else {
        match poll_step(attempt, tries, readings[attempt as int]) {
            PollView::Done(text) => text,
            PollView::Retry { attempt: next, .. } => polled(readings, next, tries),
        }
    }
}

/// The text of the first read, from number `from` on and before `tries`,
/// that found any.
pub open spec fn first_text(readings: Seq<Option<Seq<char>>>, from: int, tries: int) -> Option<
    Seq<char>,
>
    decreases tries - from,
{
    if from >= tries {
        None
    } else if reading_text(readings[from]) is Some {
        reading_text(readings[from])
    } else {
        first_text(readings, from + 1, tries)
    }
}

/// Polling returns the first non-empty trimmed text among the reads it is
/// allowed, and nothing if every one of them is empty or unavailable.
pub proof fn lemma_polled_first_text(readings: Seq<Option<Seq<char>>>, attempt: u32, tries: u32)
    requires
        tries <= readings.len(),
    ensures
        polled(readings, attempt, tries) == first_text(readings, attempt as int, tries as int),
    decreases tries - attempt,
{
    if attempt < tries {
        if reading_text(readings[attempt as int]) is None && attempt + 1 < tries {
            lemma_polled_first_text(readings, (attempt + 1) as u32, tries);
        } else if reading_text(readings[attempt as int]) is None {
            assert(first_text(readings, attempt + 1, tries as int) is None);
        }
    }
}

/// The text that clipboard contents amount to: trimmed, and nothing when
/// the contents are empty or all white space.
pub fn read_text(contents: &str) -> (text: Option<String>)
    ensures
        text_view(text) == clipboard_text(contents@),
{
    let t: String = trim(contents);
    if t.as_str().is_empty() {
        None
    } else {
        Some(t)
    }
}

/// Number of reads to make within `max_wait_ms`.
pub fn retry_attempts(max_wait_ms: u64) -> (tries: u32)
    ensures
        tries == attempts(max_wait_ms),
        1 <= tries <= MAX_TRIES,
{
    let n: u64 = max_wait_ms / RETRY_INTERVAL_MS;
    if n < 1 {
        1
    } else if n > 6 {
        MAX_TRIES
    } else {
        n as u32
    }
}

/// Decides what follows read number `attempt` (from 0) of `tries`, which
/// found `reading`: the contents, or nothing if the clipboard was
/// unavailable.
pub fn retry_step(attempt: u32, tries: u32, reading: Option<&str>) -> (poll: Poll)
    ensures
        poll@ == poll_step(
            attempt,
            tries,
            match reading {
                Some(contents) => Some(contents@),
                None => None,
            },
        ),
{
    let text: Option<String> = match reading {
        Some(contents) => read_text(contents),
        None => None,
    };
    match text {
        Some(t) => Poll::Done(Some(t)),
        None => {
            if tries > 0 && attempt < tries - 1 {
                Poll::Retry { attempt: attempt + 1, after_ms: RETRY_INTERVAL_MS }
            } else {
                Poll::Done(None)
            }
        },
    }
}

} // verus!
