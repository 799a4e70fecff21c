use vstd::prelude::*;

use crate::error::{CheckError, InstallError, UpdateError};
use crate::info::UpdateInfo;
use crate::progress::{
    bytes_at_most, bytes_non_decreasing, lemma_push_terminal_keeps_order, lemma_terminal_count_push, session_closed_well,
    terminal_count, ProgressEvent,
};

verus! {

/// Where the orchestrator stands between the host's calls.
#[derive(Debug)]
pub enum Phase {
    /// No operation in flight and no update on record.
    Idle,
    /// The last check found `info`; installation may be asked for.
    Available { info: UpdateInfo },
    /// A query of the update source is in flight.
    Checking,
    /// Installation was asked for; the source is queried again before any
    /// download, in case the update was withdrawn meanwhile.
    Confirming,
    /// The artifact of `info` is streaming in; `downloaded` bytes so far.
    Downloading { info: UpdateInfo, downloaded: u64 },
    /// The download completed and the installer has the artifact.
    Installing,
}

impl Phase {
    /// Some operation is in flight: a new one must not start.
    pub open spec fn in_flight(&self) -> bool {
        self is Checking || self is Confirming || self is Downloading || self is Installing
    }
}

/// What the host does after a transition: publish `publish`, if any, to the
/// progress observer, then return `result` to the caller.
#[derive(Debug)]
pub struct Transition {
    pub publish: Option<ProgressEvent>,
    pub result: Result<(), UpdateError>,
}

/// The byte count after a chunk of `chunk` bytes, saturating at `u64::MAX`.
pub open spec fn bytes_after(downloaded: u64, chunk: u64) -> u64 {
    if downloaded + chunk <= u64::MAX {
        (downloaded + chunk) as u64
    } else {
        u64::MAX
    }
}

/// The total announced with a chunk, or else the size that the update
/// source gave for the artifact.
pub open spec fn known_total(content_length: Option<u64>, info: UpdateInfo) -> Option<u64> {
    match content_length {
        Some(t) => Some(t),
        None => info.download_size,
    }
}

/// The check, download and install state machine.
///
/// The host performs the outside work (querying the source, streaming the
/// artifact, running the installer) and reports each outcome back; the
/// orchestrator decides what follows and which progress events are published.
pub struct Orchestrator {
    phase: Phase,
    /// Events published in the current (or last) download session.
    log: Ghost<Seq<ProgressEvent>>,
    /// Events of every download session that has ended, in order.
    ended: Ghost<Seq<Seq<ProgressEvent>>>,
}

impl Orchestrator {
    /// The phase, as seen by contracts.
    pub closed spec fn state(&self) -> Phase {
        self.phase
    }

    /// The events published so far in the current (or last) download session.
    pub closed spec fn session_log(&self) -> Seq<ProgressEvent> {
        self.log@
    }

    /// The events of each download session that has ended, oldest first.
    pub closed spec fn ended_sessions(&self) -> Seq<Seq<ProgressEvent>> {
        self.ended@
    }

    /// Ended sessions each closed with one terminal event; the open session
    /// has published none before the artifact is complete, and its download
    /// reports never exceed the bytes counted so far.
    pub closed spec fn wf(&self) -> bool {
        &&& forall|k: int| 0 <= k < self.ended@.len() ==> session_closed_well(#[trigger] self.ended@[k])
        &&& bytes_non_decreasing(self.log@)
        &&& match self.phase {
            Phase::Confirming => self.log@.len() == 0,
            Phase::Downloading { downloaded, .. } => {
                &&& terminal_count(self.log@) == 0
                &&& bytes_at_most(self.log@, downloaded)
            },
            Phase::Installing => {
                &&& session_closed_well(self.log@)
                &&& self.log@.last() is Completed
            },
            _ => true,
        }
    }

    pub fn new() -> (r: Orchestrator)
        ensures
            r.wf(),
            r.state() is Idle,
            r.session_log().len() == 0,
            r.ended_sessions().len() == 0,
    {
        Orchestrator { phase: Phase::Idle, log: Ghost(Seq::empty()), ended: Ghost(Seq::empty()) }
    }

    pub fn phase(&self) -> (r: &Phase)
        ensures
            *r == self.state(),
    {
        &self.phase
    }

    pub fn is_in_flight(&self) -> (r: bool)
        ensures
            r == self.state().in_flight(),
    {
        match self.phase {
            Phase::Idle | Phase::Available { .. } => false,
            _ => true,
        }
    }

    /// Starts a check. `Ok` tells the host to query the update source and
    /// report the answer through `finish_check`; while another operation is
    /// in flight the call is refused and nothing changes, so the source is
    /// not queried twice.
    pub fn begin_check(&mut self) -> (r: Result<(), UpdateError>)
        requires
            old(self).wf(),
        ensures
            final(self).wf(),
            old(self).state().in_flight() ==> r == Err::<(), UpdateError>(
                UpdateError::ConcurrentOperation,
            ) && *final(self) == *old(self),
            !old(self).state().in_flight() ==> {
                &&& r is Ok
                &&& final(self).state() is Checking
                &&& final(self).session_log() == old(self).session_log()
                &&& final(self).ended_sessions() == old(self).ended_sessions()
            },
    {
        if self.is_in_flight() {
            return Err(UpdateError::ConcurrentOperation);
        }
        self.phase = Phase::Checking;
        Ok(())
    }

    /// Takes the update source's answer to a check. A found update is
    /// returned and kept for installation; an absent one is reported as
    /// `NoUpdatesAvailable`. Either way no check is in flight afterwards.
    pub fn finish_check(&mut self, outcome: Result<Option<UpdateInfo>, CheckError>) -> (r: Result<
        UpdateInfo,
        UpdateError,
    >)
        requires
            old(self).wf(),
            old(self).state() is Checking,
        ensures
            final(self).wf(),
            final(self).session_log() == old(self).session_log(),
            final(self).ended_sessions() == old(self).ended_sessions(),
            outcome matches Ok(Some(info)) ==> r == Ok::<UpdateInfo, UpdateError>(info)
                && final(self).state() == (Phase::Available { info }),
            outcome matches Ok(None) ==> r == Err::<UpdateInfo, UpdateError>(
                UpdateError::NoUpdatesAvailable,
            ) && final(self).state() is Idle,
            outcome matches Err(e) ==> r == Err::<UpdateInfo, UpdateError>(UpdateError::Check(e))
                && final(self).state() is Idle,
    {
        match outcome {
            Ok(Some(info)) => {
                self.phase = Phase::Available { info: info.snapshot() };
                Ok(info)
            },
            Ok(None) => {
                self.phase = Phase::Idle;
                Err(UpdateError::NoUpdatesAvailable)
            },
            Err(e) => {
                self.phase = Phase::Idle;
                Err(UpdateError::Check(e))
            },
        }
    }

    /// Starts an installation. `Ok` opens a download session and tells the
    /// host to query the update source again and report the answer through
    /// `finish_confirm`. Refused while another operation is in flight, and
    /// without a check that found an update; nothing changes then.
    pub fn begin_install(&mut self) -> (r: Result<(), UpdateError>)
        requires
            old(self).wf(),
        ensures
            final(self).wf(),
            old(self).state().in_flight() ==> r == Err::<(), UpdateError>(
                UpdateError::ConcurrentOperation,
            ) && *final(self) == *old(self),
            old(self).state() is Idle ==> r == Err::<(), UpdateError>(UpdateError::NoSession)
                && *final(self) == *old(self),
            old(self).state() is Available ==> {
                &&& r is Ok
                &&& final(self).state() is Confirming
                &&& final(self).session_log().len() == 0
                &&& final(self).ended_sessions() == old(self).ended_sessions()
            },
    {
        match self.phase {
            Phase::Idle => Err(UpdateError::NoSession),
            Phase::Available { .. } => {
                self.phase = Phase::Confirming;
                self.log = Ghost(Seq::empty());
                Ok(())
            },
            _ => Err(UpdateError::ConcurrentOperation),
        }
    }

    /// Ends the current download session in failure with `err`: one `Failed`
    /// event carries the error's text.
    fn fail_session(&mut self, err: UpdateError) -> (r: Transition)
        requires
            old(self).wf(),
            old(self).state() is Confirming || old(self).state() is Downloading,
        ensures
            final(self).wf(),
            final(self).state() is Idle,
            r.publish matches Some(ProgressEvent::Failed { message }) && message@ == err.text(),
            r.result == Err::<(), UpdateError>(err),
            final(self).session_log() == old(self).session_log().push(r.publish->0),
            final(self).ended_sessions() == old(self).ended_sessions().push(
                final(self).session_log(),
            ),
    {
        let event = ProgressEvent::Failed { message: err.message() };
        proof {
            lemma_terminal_count_push(self.log@, event);
        }
        let ghost log = self.log@.push(event);
        proof {
            lemma_push_terminal_keeps_order(self.log@, event);
        }
        self.log = Ghost(log);
        self.ended = Ghost(self.ended@.push(log));
        self.phase = Phase::Idle;
        Transition { publish: Some(event), result: Err(err) }
    }

    /// Takes the update source's second answer, given before any download.
    /// A found update starts the download; an absent one ends the session
    /// with `NoLongerAvailable`, a failed query with the query's error.
    pub fn finish_confirm(&mut self, outcome: Result<Option<UpdateInfo>, CheckError>) -> (r:
        Transition)
        requires
            old(self).wf(),
            old(self).state() is Confirming,
        ensures
            final(self).wf(),
            outcome matches Ok(Some(info)) ==> {
                &&& r.publish is None
                &&& r.result is Ok
                &&& final(self).state() == (Phase::Downloading { info, downloaded: 0 })
                &&& final(self).session_log() == old(self).session_log()
                &&& final(self).ended_sessions() == old(self).ended_sessions()
            },
            outcome matches Ok(None) ==> r.result == Err::<(), UpdateError>(
                UpdateError::NoLongerAvailable,
            ),
            outcome matches Err(e) ==> r.result == Err::<(), UpdateError>(UpdateError::Check(e)),
            !(outcome matches Ok(Some(_))) ==> {
                &&& final(self).state() is Idle
                &&& r.publish matches Some(ProgressEvent::Failed { message }) && message@
                    == r.result->Err_0.text()
                &&& final(self).session_log() == old(self).session_log().push(r.publish->0)
                &&& final(self).ended_sessions() == old(self).ended_sessions().push(
                    final(self).session_log(),
                )
            },
    {
        match outcome {
            Ok(Some(info)) => {
                self.phase = Phase::Downloading { info, downloaded: 0 };
                Transition { publish: None, result: Ok(()) }
            },
            Ok(None) => self.fail_session(UpdateError::NoLongerAvailable),
            Err(e) => self.fail_session(UpdateError::Check(e)),
        }
    }

    /// Records a chunk of `chunk_len` bytes and returns the event to publish.
    /// The byte count is cumulative over the session and saturates at
    /// `u64::MAX`; the total is the one announced with the chunk, or else the
    /// artifact size that the update source gave.
    pub fn on_chunk(&mut self, chunk_len: u64, content_length: Option<u64>) -> (r: ProgressEvent)
        requires
            old(self).wf(),
            old(self).state() is Downloading,
        ensures
            final(self).wf(),
            ({
                let info = old(self).state()->Downloading_info;
                let bytes = bytes_after(old(self).state()->downloaded, chunk_len);
                &&& r == (ProgressEvent::Downloading {
                    bytes_downloaded: bytes,
                    total_bytes: known_total(content_length, info),
                })
                &&& final(self).state() == (Phase::Downloading { info, downloaded: bytes })
            }),
            final(self).session_log() == old(self).session_log().push(r),
            final(self).ended_sessions() == old(self).ended_sessions(),
    {
        let ghost old_log = self.log@;
        match &mut self.phase {
            Phase::Downloading { info, downloaded } => {
                let bytes = if chunk_len <= u64::MAX - *downloaded {
                    *downloaded + chunk_len
                } else {
                    u64::MAX
                };
                let total = match content_length {
                    Some(t) => Some(t),
                    None => info.download_size,
                };
                *downloaded = bytes;
                let event = ProgressEvent::Downloading { bytes_downloaded: bytes, total_bytes: total };
                proof {
                    lemma_terminal_count_push(old_log, event);
                }
                let ghost log = old_log.push(event);
                assert(bytes_at_most(log, bytes)) by {
                    assert forall|i: int| 0 <= i < log.len() && #[trigger] log[i] is Downloading implies log[i]->bytes_downloaded <= bytes by {
                        if i < old_log.len() {
                            assert(log[i] == old_log[i]);
                        }
                    }
                }
                assert(bytes_non_decreasing(log)) by {
                    assert forall|i: int, j: int|
                        0 <= i < j < log.len() && #[trigger] log[i] is Downloading
                            && #[trigger] log[j] is Downloading implies log[i]->bytes_downloaded
                        <= log[j]->bytes_downloaded by {
                        assert(log[i] == old_log[i]);
                        if j < old_log.len() {
                            assert(log[j] == old_log[j]);
                        }
                    }
                }
                self.log = Ghost(log);
                event
            },
            _ => {
                proof {
                    assert(false);
                }
                ProgressEvent::Completed
            },
        }
    }

    /// Reports that the artifact is fully downloaded: the session's one
    /// `Completed` event is returned for publishing, and the installer runs next.
    pub fn download_finished(&mut self) -> (r: ProgressEvent)
        requires
            old(self).wf(),
            old(self).state() is Downloading,
        ensures
            final(self).wf(),
            r is Completed,
            final(self).state() is Installing,
            final(self).session_log() == old(self).session_log().push(r),
            final(self).ended_sessions() == old(self).ended_sessions(),
    {
        let event = ProgressEvent::Completed;
        proof {
            lemma_terminal_count_push(self.log@, event);
            lemma_push_terminal_keeps_order(self.log@, event);
        }
        self.log = Ghost(self.log@.push(event));
        self.phase = Phase::Installing;
        event
    }

    /// Takes the outcome of the download and installation and ends the
    /// session. A failure before the download completed publishes one
    /// `Failed` event; once `Completed` was published, no second terminal
    /// event follows and an installer failure is only returned.
    pub fn finish_install(&mut self, outcome: Result<(), InstallError>) -> (r: Transition)
        requires
            old(self).wf(),
            old(self).state() is Downloading || old(self).state() is Installing,
        ensures
            final(self).wf(),
            final(self).state() is Idle,
            final(self).ended_sessions() == old(self).ended_sessions().push(
                final(self).session_log(),
            ),
            outcome is Ok ==> r.result is Ok,
            outcome matches Err(e) ==> r.result == Err::<(), UpdateError>(UpdateError::Install(e)),
            old(self).state() is Installing ==> r.publish is None && final(self).session_log()
                == old(self).session_log(),
            old(self).state() is Downloading ==> final(self).session_log() == old(
                self,
            ).session_log().push(r.publish->0),
            old(self).state() is Downloading && outcome is Ok ==> r.publish
                == Some(ProgressEvent::Completed),
            old(self).state() is Downloading && outcome is Err ==> (r.publish matches Some(
                ProgressEvent::Failed { message },
            ) && message@ == r.result->Err_0.text()),
    {
        match self.phase {
            Phase::Installing => {
                self.ended = Ghost(self.ended@.push(self.log@));
                self.phase = Phase::Idle;
                let result = match outcome {
                    Ok(()) => Ok(()),
                    Err(e) => Err(UpdateError::Install(e)),
                };
                Transition { publish: None, result }
            },
            _ => match outcome {
                Ok(()) => {
                    let event = self.download_finished();
                    self.ended = Ghost(self.ended@.push(self.log@));
                    self.phase = Phase::Idle;
                    Transition { publish: Some(event), result: Ok(()) }
                },
                Err(e) => self.fail_session(UpdateError::Install(e)),
            },
        }
    }
}

/// Every download session that has ended published exactly one terminal
/// event (`Completed` or `Failed`), as its last event, and its download
/// reports never went back in their byte counts.
pub proof fn lemma_ended_sessions_closed_well(o: Orchestrator, k: int)
    requires
        o.wf(),
        0 <= k < o.ended_sessions().len(),
    ensures
        session_closed_well(o.ended_sessions()[k]),
{
}

/// While a download session is open, before the artifact is complete, no
/// terminal event has been published.
pub proof fn lemma_open_session_has_no_terminal(o: Orchestrator)
    requires
        o.wf(),
        o.state() is Confirming || o.state() is Downloading,
    ensures
        terminal_count(o.session_log()) == 0,
{
    if o.state() is Confirming {
        assert(o.session_log().len() == 0);
    }
}

/// Whatever chunks arrive, the byte counts reported by the session's
/// download events never decrease, and none exceeds the count so far.
pub proof fn lemma_reported_bytes_non_decreasing(o: Orchestrator)
    requires
        o.wf(),
    ensures
        bytes_non_decreasing(o.session_log()),
        o.state() matches Phase::Downloading { downloaded, .. } ==> bytes_at_most(
            o.session_log(),
            downloaded,
        ),
{
}

} // verus!
