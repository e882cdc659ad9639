//! Deciding, from a run of event polls, whether a quit was requested.
//!
//! The host polls the event queue until it is drained; each event is read
//! for its type. The scan below is the decision taken after each poll.
use vstd::prelude::*;

verus! {

/// The event type of a quit request.
pub const SDL_QUIT_EVENT: u32 = 0x100;

/// What one poll of the event queue gave.
#[derive(Debug, Clone, Copy, PartialEq, Eq)]
pub enum PollOutcome {
    /// The queue is empty.
    Drained,
    /// An event of this type was taken from the queue.
    Event(u32),
}

/// The state of a scan: whether a quit was seen, and whether the queue has
/// been drained (after which no more polls are made).
#[derive(Debug, Clone, Copy, PartialEq, Eq)]
pub struct QuitScan {
    pub quit: bool,
    pub done: bool,
}

pub open spec fn spec_start() -> QuitScan {
    QuitScan { quit: false, done: false }
}

pub open spec fn spec_step(s: QuitScan, o: PollOutcome) -> QuitScan {
    if s.done {
        s
    } else {
        match o {
            PollOutcome::Drained => QuitScan { quit: s.quit, done: true },
            PollOutcome::Event(t) => QuitScan { quit: s.quit || t == SDL_QUIT_EVENT, done: false },
        }
    }
}

/// The state after the polls `os`, in order, from the start.
pub open spec fn spec_scan(os: Seq<PollOutcome>) -> QuitScan
    decreases os.len(),
{
    if os.len() == 0 {
        spec_start()
    } else {
        spec_step(spec_scan(os.drop_last()), os.last())
    }
}

impl QuitScan {
    /// A scan before the first poll.
    pub fn new() -> (s: QuitScan)
        ensures
            s == spec_start(),
    {
        QuitScan { quit: false, done: false }
    }

    /// The scan after one more poll. Once the queue is drained the scan no
    /// longer changes.
    pub fn step(self, o: PollOutcome) -> (s: QuitScan)
        ensures
            s == spec_step(self, o),
    {
        if self.done {
            self
        } else {
            match o {
                PollOutcome::Drained => QuitScan { quit: self.quit, done: true },
                PollOutcome::Event(t) => QuitScan { quit: self.quit || t == SDL_QUIT_EVENT, done: false },
            }
        }
    }
}

/// A quit is reported exactly when a quit event was polled before the queue
/// was first drained, and the scan is over exactly when the queue was drained.
pub proof fn lemma_scan_reports_quit(os: Seq<PollOutcome>)
    ensures
        spec_scan(os).done <==> exists|k: int| 0 <= k < os.len() && os[k] is Drained,
        spec_scan(os).quit <==> exists|k: int|
            0 <= k < os.len() && os[k] == PollOutcome::Event(SDL_QUIT_EVENT)
                && forall|j: int| 0 <= j < k ==> !(#[trigger] os[j] is Drained),
    decreases os.len(),
{
    if os.len() > 0 {
        let init = os.drop_last();
        lemma_scan_reports_quit(init);
        let n = os.len() - 1;
        assert forall|k: int| 0 <= k < init.len() implies init[k] == os[k] by {}
        if spec_scan(os).quit {
            if !spec_scan(init).quit {
                assert(!spec_scan(init).done);
                assert(os[n] == PollOutcome::Event(SDL_QUIT_EVENT));
                assert forall|j: int| 0 <= j < n implies !(#[trigger] os[j] is Drained) by {
                    if os[j] is Drained {
                        assert(init[j] is Drained);
                    }
                }
            } else {
                let k = choose|k: int|
                    0 <= k < init.len() && init[k] == PollOutcome::Event(SDL_QUIT_EVENT)
                        && forall|j: int| 0 <= j < k ==> !(#[trigger] init[j] is Drained);
                assert(os[k] == PollOutcome::Event(SDL_QUIT_EVENT));
                assert forall|j: int| 0 <= j < k implies !(#[trigger] os[j] is Drained) by {
                    assert(init[j] == os[j]);
                }
            }
        }
        if exists|k: int|
            0 <= k < os.len() && os[k] == PollOutcome::Event(SDL_QUIT_EVENT)
                && forall|j: int| 0 <= j < k ==> !(#[trigger] os[j] is Drained) {
            let k = choose|k: int|
                0 <= k < os.len() && os[k] == PollOutcome::Event(SDL_QUIT_EVENT)
                    && forall|j: int| 0 <= j < k ==> !(#[trigger] os[j] is Drained);
            if k < n {
                assert(init[k] == PollOutcome::Event(SDL_QUIT_EVENT));
                assert forall|j: int| 0 <= j < k implies !(#[trigger] init[j] is Drained) by {
                    assert(init[j] == os[j]);
                }
            } else {
                assert forall|j: int| 0 <= j < init.len() implies !(#[trigger] init[j] is Drained) by {
                    assert(init[j] == os[j]);
                }
            }
        }
        if exists|k: int| 0 <= k < os.len() && os[k] is Drained {
            let k = choose|k: int| 0 <= k < os.len() && os[k] is Drained;
            if k < n {
                assert(init[k] is Drained);
            }
        }
    }
}

/// Polls made after the queue was drained change nothing.
pub proof fn lemma_drained_is_final(os: Seq<PollOutcome>, more: Seq<PollOutcome>)
    requires
        spec_scan(os).done,
    ensures
        spec_scan(os + more) == spec_scan(os),
    decreases more.len(),
{
    if more.len() > 0 {
        let front = more.drop_last();
        lemma_drained_is_final(os, front);
        assert((os + more).drop_last() =~= os + front);
    } else {
        assert(os + more =~= os);
    }
}

} // verus!
