use vstd::prelude::*;

verus! {

/// A notification published to the observer of an update session.
#[derive(Debug)]
pub enum ProgressEvent {
    /// Another chunk arrived; `bytes_downloaded` counts every byte of the
    /// session so far.
    Downloading { bytes_downloaded: u64, total_bytes: Option<u64> },
    /// The artifact is fully downloaded and is handed to the installer.
    Completed,
    /// The session ended in failure.
    Failed { message: String },
}

impl ProgressEvent {
    pub open spec fn is_terminal(&self) -> bool {
        self is Completed || self is Failed
    }

    /// The share of the artifact downloaded, as numerator and denominator,
    /// when the total is known and positive; `None` reads as no progress.
    /// A byte count above the total counts as the whole artifact.
    pub open spec fn fraction(&self) -> Option<(nat, nat)> {
        match self {
            ProgressEvent::Downloading { bytes_downloaded, total_bytes } => match total_bytes {
                Some(t) => if t > 0 {
                    if *bytes_downloaded <= *t {
                        Some((*bytes_downloaded as nat, *t as nat))
                    } else {
                        Some((*t as nat, *t as nat))
                    }
                } else {
                    None
                },
                None => None,
            },
            _ => None,
        }
    }

    /// The fraction from which the displayed percentage is computed as
    /// `100 * numerator / denominator`; `None` stands for a percentage of zero.
    pub fn progress_fraction(&self) -> (r: Option<(u64, u64)>)
        ensures
            r matches Some((n, d)) ==> self.fraction() == Some((n as nat, d as nat)),
            r is None ==> self.fraction() is None,
            r matches Some((n, d)) ==> n <= d && d > 0,
    {
        match self {
            ProgressEvent::Downloading { bytes_downloaded, total_bytes } => match total_bytes {
                Some(t) => if *t > 0 {
                    if *bytes_downloaded <= *t {
                        Some((*bytes_downloaded, *t))
                    } else {
                        Some((*t, *t))
                    }
                } else {
                    None
                },
                None => None,
            },
            _ => None,
        }
    }

    pub fn is_final(&self) -> (r: bool)
        ensures
            r == self.is_terminal(),
    {
        match self {
            ProgressEvent::Downloading { .. } => false,
            _ => true,
        }
    }
}

/// How many terminal events a sequence of events holds.
pub open spec fn terminal_count(log: Seq<ProgressEvent>) -> nat
    decreases log.len(),
{
    if log.len() == 0 {
        0
    } else {
        terminal_count(log.drop_last()) + if log.last().is_terminal() {
            1nat
        } else {
            0nat
        }
    }
}

pub proof fn lemma_terminal_count_push(log: Seq<ProgressEvent>, e: ProgressEvent)
    ensures
        terminal_count(log.push(e)) == terminal_count(log) + if e.is_terminal() {
            1nat
        } else {
            0nat
        },
{
    assert(log.push(e).drop_last() =~= log);
}

/// The byte counts reported by the download events of `log` never decrease.
pub open spec fn bytes_non_decreasing(log: Seq<ProgressEvent>) -> bool {
    forall|i: int, j: int|
        0 <= i < j < log.len() && #[trigger] log[i] is Downloading && #[trigger] log[j] is Downloading
            ==> log[i]->bytes_downloaded <= log[j]->bytes_downloaded
}

pub proof fn lemma_push_terminal_keeps_order(log: Seq<ProgressEvent>, e: ProgressEvent)
    requires
        bytes_non_decreasing(log),
        e.is_terminal(),
    ensures
        bytes_non_decreasing(log.push(e)),
{
    let pushed = log.push(e);
    assert forall|i: int, j: int|
        0 <= i < j < pushed.len() && #[trigger] pushed[i] is Downloading
            && #[trigger] pushed[j] is Downloading implies pushed[i]->bytes_downloaded
        <= pushed[j]->bytes_downloaded by {
        assert(pushed[i] == log[i]);
        assert(pushed[j] == log[j]);
    }
}

/// Every download event of `log` reports at most `bytes` bytes.
pub open spec fn bytes_at_most(log: Seq<ProgressEvent>, bytes: u64) -> bool {
    forall|i: int| 0 <= i < log.len() && #[trigger] log[i] is Downloading ==> log[i]->bytes_downloaded <= bytes
}

/// The events of a session that has ended: download reports in order of their
/// byte counts, closed by exactly one terminal event.
pub open spec fn session_closed_well(log: Seq<ProgressEvent>) -> bool {
    &&& log.len() > 0
    &&& log.last().is_terminal()
    &&& terminal_count(log) == 1
    &&& bytes_non_decreasing(log)
}

/// Whatever chunks arrived, every event's percentage lies between 0 and 100:
/// either no fraction (a percentage of zero), or one whose numerator does not
/// exceed its positive denominator.
pub proof fn lemma_progress_within_bounds(e: ProgressEvent)
    ensures
        e.fraction() matches Some((n, d)) ==> 0 <= n <= d && d > 0,
{
}

} // verus!
