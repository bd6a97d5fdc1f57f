//! The outcome of a menu action's last run, and how the outcome of the
//! update check becomes one.

use vstd::prelude::*;

verus! {

/// Line feed, the byte that ends a line.
pub const LF: u8 = 10;

/// Carriage return, dropped from the end of a line that a line feed ends.
pub const CR: u8 = 13;

/// The outcome of an action's most recent run.
#[derive(Clone, Debug, PartialEq, Eq)]
pub enum RunStatus {
    /// The action has not been run yet.
    Never,
    /// The last run succeeded.
    Success,
    /// The last run failed, with a one-line diagnostic.
    Failed(String),
}

/// What a [`RunStatus`] holds, with the message as a sequence of characters.
pub enum RunStatusView {
    Never,
    Success,
    Failed(Seq<char>),
}

impl View for RunStatus {
    type V = RunStatusView;

    open spec fn view(&self) -> RunStatusView {
        match self {
            RunStatus::Never => RunStatusView::Never,
            RunStatus::Success => RunStatusView::Success,
            RunStatus::Failed(m) => RunStatusView::Failed(m@),
        }
    }
}

/// What came of an attempt to run the update check.
#[derive(Debug)]
pub enum UpdateOutcome {
    /// The command ran and exited; `success` tells its exit indicator, and
    /// `stderr` holds what it wrote to its error stream.
    Exited { success: bool, stderr: Vec<u8> },
    /// The command could not be started; the text describes why.
    LaunchFailed(String),
}

/// The index of the first line feed in `b` at or after `from`, or `b.len()`
/// where there is none.
pub open spec fn first_newline(b: Seq<u8>, from: int) -> int
    recommends
        0 <= from <= b.len(),
    decreases b.len() - from,
{
    if from >= b.len() || b[from] == LF {
        from
    } else {
        first_newline(b, from + 1)
    }
}

/// The first line of `b`, as a line iterator over text gives it: `None` for
/// empty input; otherwise the bytes before the first line feed, without a
/// carriage return that stands right before that line feed.
pub open spec fn first_line_of(b: Seq<u8>) -> Option<Seq<u8>> {
    if b.len() == 0 {
        None
    } else {
        let end = first_newline(b, 0);
        let line = b.take(end);
        if end < b.len() && line.len() > 0 && line.last() == CR {
            Some(line.drop_last())
        } else {
            Some(line)
        }
    }
}

/// The text that the standard library's lossy UTF-8 decoding gives for `b`:
/// each invalid sequence is replaced by U+FFFD.
pub uninterp spec fn utf8_lossy_of(b: Seq<u8>) -> Seq<char>;

/// The message recorded when the update check fails without a diagnostic.
pub open spec fn unknown_error() -> Seq<char> {
    "unknown error"@
}

/// The status that a failed run with the given first line of its error
/// stream records.
pub open spec fn failure_of(first_line: Option<Seq<char>>) -> RunStatusView {
    match first_line {
        Some(l) => RunStatusView::Failed(l),
        None => RunStatusView::Failed(unknown_error()),
    }
}

/// The status that an outcome of the update check records.
pub open spec fn outcome_status(o: UpdateOutcome) -> RunStatusView {
    match o {
        UpdateOutcome::Exited { success, stderr } => {
            if success {
                RunStatusView::Success
            } else {
                match first_line_of(stderr@) {
                    Some(l) => failure_of(Some(utf8_lossy_of(l))),
                    None => failure_of(None),
                }
            }
        },
        UpdateOutcome::LaunchFailed(e) => RunStatusView::Failed(e@),
    }
}

/// The note shown beside a menu item for its status.
pub open spec fn status_note(s: RunStatusView) -> Seq<char> {
    match s {
        RunStatusView::Never => " (never run)"@,
        RunStatusView::Success => " (success)"@,
        RunStatusView::Failed(m) => " (failed: "@ + m + ")"@,
    }
}

impl RunStatus {
    /// The note shown beside a menu item whose last run had this status.
    pub fn note(&self) -> (r: String)
        ensures
            r@ == status_note(self@),
    {
        match self {
            RunStatus::Never => String::from_str(" (never run)"),
            RunStatus::Success => String::from_str(" (success)"),
            RunStatus::Failed(m) => String::from_str(" (failed: ").concat(m.as_str()).concat(")"),
        }
    }
}

/// The first line of `bytes` (see [`first_line_of`]).
pub fn first_line(bytes: &Vec<u8>) -> (r: Option<Vec<u8>>)
    ensures
        r matches Some(l) ==> first_line_of(bytes@) == Some(l@),
        r is None <==> first_line_of(bytes@) is None,
{
    if bytes.len() == 0 {
        return None;
    }
    let mut end: usize = 0;
    while end < bytes.len() && bytes[end] != LF
        invariant
            0 <= end <= bytes@.len(),
            first_newline(bytes@, end as int) == first_newline(bytes@, 0),
        decreases bytes@.len() - end,
    {
        end = end + 1;
    }
    assert(first_newline(bytes@, end as int) == end);
    let mut stop: usize = end;
    if end < bytes.len() && end > 0 && bytes[end - 1] == CR {
        stop = end - 1;
    }
    let mut line: Vec<u8> = Vec::new();
    let mut i: usize = 0;
    while i < stop
        invariant
            stop <= bytes@.len(),
            i <= stop,
            line@ == bytes@.take(i as int),
        decreases stop - i,
    {
        line.push(bytes[i]);
        i = i + 1;
        assert(line@ =~= bytes@.take(i as int));
    }
    proof {
        if stop < end {
            assert(line@ =~= bytes@.take(end as int).drop_last());
        } else {
            assert(line@ =~= bytes@.take(end as int));
        }
    }
    Some(line)
}

/// Relies on `String::from_utf8_lossy`: decodes the bytes, replacing each
/// invalid sequence, and depends on the bytes alone.
#[verifier::external_body]
fn decode_lossy(bytes: &Vec<u8>) -> (r: String)
    ensures
        r@ == utf8_lossy_of(bytes@),
{
    String::from_utf8_lossy(bytes.as_slice()).into_owned()
}

/// The failed status for a run whose error stream began with `first_line`,
/// or held nothing.
pub fn failure_status(first_line: Option<String>) -> (r: RunStatus)
    ensures
        r@ == failure_of(
            match first_line {
                Some(l) => Some(l@),
                None => None,
            },
        ),
{
    match first_line {
        Some(l) => RunStatus::Failed(l),
        None => RunStatus::Failed(String::from_str("unknown error")),
    }
}

/// The status that `outcome` records for the update check.
pub fn outcome_to_status(outcome: UpdateOutcome) -> (r: RunStatus)
    ensures
        r@ == outcome_status(outcome),
{
    match outcome {
        UpdateOutcome::Exited { success, stderr } => {
            if success {
                RunStatus::Success
            } else {
                match first_line(&stderr) {
                    Some(l) => failure_status(Some(decode_lossy(&l))),
                    None => failure_status(None),
                }
            }
        },
        UpdateOutcome::LaunchFailed(e) => RunStatus::Failed(e),
    }
}

} // verus!
