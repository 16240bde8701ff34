//! The readiness poller: after the inference server is started, its probe
//! is repeated, a fixed interval apart, until it reports presence or the
//! attempts run out.

use vstd::prelude::*;

use crate::error::{lift, Error, ErrorModel};

verus! {

/// How many probes are made at most.
pub const MAX_PROBES: u32 = 10;

/// Seconds to wait between two probes.
pub const PROBE_INTERVAL_SECS: u64 = 10;

/// What follows one probe.
#[derive(Debug, PartialEq, Eq)]
pub enum PollDecision {
    /// The service is ready.
    Ready,
    /// Wait the interval, then probe again.
    Retry,
    /// The attempts are spent.
    TimedOut,
    /// The probe itself failed.
    Failed(Error),
}

pub ghost enum PollModel {
    Ready,
    Retry,
    TimedOut,
    Failed(ErrorModel),
}

impl View for PollDecision {
    type V = PollModel;

    open spec fn view(&self) -> PollModel {
        match self {
            PollDecision::Ready => PollModel::Ready,
            PollDecision::Retry => PollModel::Retry,
            PollDecision::TimedOut => PollModel::TimedOut,
            PollDecision::Failed(e) => PollModel::Failed(e@),
        }
    }
}

/// The decision after a probe, when `probes` probes were made before it.
pub open spec fn poll_next(probes: nat, probed: Result<bool, ErrorModel>) -> PollModel {
    match probed {
        Err(e) => PollModel::Failed(e),
        Ok(true) => PollModel::Ready,
        Ok(false) => if probes + 1 >= MAX_PROBES {
            PollModel::TimedOut
        } else {
            PollModel::Retry
        },
    }
}

/// Polls with the given answers of successive probes, starting after
/// `probes` probes: how many probes were made in all, and the last decision.
pub open spec fn poll_run(probes: nat, answers: Seq<bool>) -> (nat, PollModel)
    decreases answers.len(),
{
    if answers.len() == 0 {
        (probes, PollModel::Retry)
    } else {
        match poll_next(probes, Ok(answers[0])) {
            PollModel::Retry => poll_run(probes + 1, answers.drop_first()),
            d => (probes + 1, d),
        }
    }
}

/// Counts the probes of one wait for readiness.
#[derive(Debug)]
pub struct Poller {
    pub probes: u32,
}

impl Poller {
    pub fn new() -> (r: Poller)
        ensures
            r.probes == 0,
    {
        Poller { probes: 0 }
    }

    /// Records the result of one probe and decides what follows.
    pub fn record(&mut self, probed: Result<bool, Error>) -> (r: PollDecision)
        requires
            old(self).probes < MAX_PROBES,
        ensures
            final(self).probes == old(self).probes + 1,
            r@ == poll_next(old(self).probes as nat, lift(probed)),
    {
        self.probes = self.probes + 1;
        match probed {
            Err(e) => PollDecision::Failed(e),
            Ok(true) => PollDecision::Ready,
            Ok(false) => {
                if self.probes >= MAX_PROBES {
                    PollDecision::TimedOut
                } else {
                    PollDecision::Retry
                }
            },
        }
    }
}

impl PollDecision {
    /// The wait's result once it is over: success when ready, a timeout,
    /// or the probe's own failure; `None` while it goes on.
    pub fn outcome(self) -> (r: Option<Result<(), Error>>)
        ensures
            match self@ {
                PollModel::Ready => r == Some(Ok::<(), Error>(())),
                PollModel::Retry => r is None,
                PollModel::TimedOut => r is Some && r->Some_0 is Err && r->Some_0->Err_0@ == ErrorModel::StartupTimeout,
                PollModel::Failed(e) => r is Some && r->Some_0 is Err && r->Some_0->Err_0@ == e,
            },
    {
        match self {
            PollDecision::Ready => Some(Ok(())),
            PollDecision::Retry => None,
            PollDecision::TimedOut => Some(Err(Error::StartupTimeout)),
            PollDecision::Failed(e) => Some(Err(e)),
        }
    }
}

proof fn lemma_poll_run_from(p: nat, answers: Seq<bool>)
    requires
        p < MAX_PROBES,
        answers.len() >= MAX_PROBES - p,
    ensures
        p < poll_run(p, answers).0 <= MAX_PROBES,
        poll_run(p, answers).1 is Ready || poll_run(p, answers).1 is TimedOut,
        (poll_run(p, answers).1 is TimedOut) <==> (forall|i: int|
            0 <= i < MAX_PROBES - p ==> !#[trigger] answers[i]),
        forall|k: int|
            0 <= k < MAX_PROBES - p && #[trigger] answers[k] && (forall|i: int| 0 <= i < k ==> !answers[i])
                ==> poll_run(p, answers) == ((p + k + 1) as nat, PollModel::Ready),
    decreases MAX_PROBES - p,
{
    let rest = answers.drop_first();
    if answers[0] {
        assert forall|k: int|
            0 <= k < MAX_PROBES - p && #[trigger] answers[k] && (forall|i: int| 0 <= i < k ==> !answers[i])
                implies poll_run(p, answers) == ((p + k + 1) as nat, PollModel::Ready) by {
            if k > 0 {
                assert(!answers[0]);
            }
        }
    } else if p + 1 >= MAX_PROBES {
        assert forall|i: int| 0 <= i < MAX_PROBES - p implies !#[trigger] answers[i] by {
            assert(i == 0);
        }
    } else {
        lemma_poll_run_from(p + 1, rest);
        assert((forall|i: int| 0 <= i < MAX_PROBES - (p + 1) ==> !#[trigger] rest[i]) <==> (forall|i: int|
            0 <= i < MAX_PROBES - p ==> !#[trigger] answers[i])) by {
            if forall|i: int| 0 <= i < MAX_PROBES - (p + 1) ==> !#[trigger] rest[i] {
                assert forall|i: int| 0 <= i < MAX_PROBES - p implies !#[trigger] answers[i] by {
                    if i > 0 {
                        assert(answers[i] == rest[i - 1]);
                    }
                }
            }
            if forall|i: int| 0 <= i < MAX_PROBES - p ==> !#[trigger] answers[i] {
                assert forall|i: int| 0 <= i < MAX_PROBES - (p + 1) implies !#[trigger] rest[i] by {
                    assert(rest[i] == answers[i + 1]);
                }
            }
        }
        assert forall|k: int|
            0 <= k < MAX_PROBES - p && #[trigger] answers[k] && (forall|i: int| 0 <= i < k ==> !answers[i])
                implies poll_run(p, answers) == ((p + k + 1) as nat, PollModel::Ready) by {
            assert(k > 0);
            assert(rest[k - 1] == answers[k]);
            assert forall|i: int| 0 <= i < k - 1 implies !rest[i] by {
                assert(rest[i] == answers[i + 1]);
            }
        }
    }
}

/// Polling makes at most `MAX_PROBES` probes; it times out exactly when
/// each of them reports absence, and it stops at the first probe that
/// reports presence, after exactly that many probes.
pub proof fn lemma_poll_bounded(answers: Seq<bool>)
    requires
        answers.len() >= MAX_PROBES,
    ensures
        0 < poll_run(0, answers).0 <= MAX_PROBES,
        (poll_run(0, answers).1 is TimedOut) <==> (forall|i: int|
            0 <= i < MAX_PROBES ==> !#[trigger] answers[i]),
        forall|k: int|
            0 <= k < MAX_PROBES && #[trigger] answers[k] && (forall|i: int| 0 <= i < k ==> !answers[i])
                ==> poll_run(0, answers) == ((k + 1) as nat, PollModel::Ready),
{
    lemma_poll_run_from(0, answers);
}

} // verus!
