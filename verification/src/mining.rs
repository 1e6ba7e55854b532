//! The decisions of the mining loop: how many workers to run, what to do
//! with the result of each attempt, and what a new template means for the
//! attempts in flight.
//!
//! The latest template wins. When a template arrives while workers are
//! running, every attempt in flight is asked to stop, and whatever such an
//! attempt still yields is never submitted: each worker is restarted on
//! the template that superseded the one it worked on.

use crate::types::{Target, Template, TemplateView};
use rand::Rng;
use vstd::prelude::*;

verus! {

/// The modulus of the field in which a nonce's limbs live: the Goldilocks
/// prime, 2^64 - 2^32 + 1.
pub const FIELD_PRIME: u64 = 18446744069414584321;

/// The number of limbs in a nonce.
pub const NONCE_LIMBS: usize = 5;

/// The number of workers to run on a machine with `logical_cores` cores:
/// two per core less four, but at least one, and no more than
/// `max_threads` where that is set.
pub open spec fn thread_count(logical_cores: u32, max_threads: Option<u32>) -> nat {
    let wanted: nat = if 2 * logical_cores > 5 {
        (2 * logical_cores - 4) as nat
    } else {
        1
    };
    match max_threads {
        Some(limit) => if limit < wanted {
            limit as nat
        } else {
            wanted
        },
        None => wanted,
    }
}

/// The number of workers to run.
pub fn mining_thread_count(logical_cores: u32, max_threads: Option<u32>) -> (n: u64)
    ensures
        n == thread_count(logical_cores, max_threads),
{
    let doubled: u64 = 2 * (logical_cores as u64);
    let wanted: u64 = if doubled > 5 {
        doubled - 4
    } else {
        1
    };
    match max_threads {
        Some(limit) => if (limit as u64) < wanted {
            limit as u64
        } else {
            wanted
        },
        None => wanted,
    }
}

/// `ThreadRng::gen::<u64>` on `rand::thread_rng()`: some 64-bit number.
/// Nothing is known of it.
#[verifier::external_body]
fn random_u64() -> u64 {
    rand::thread_rng().gen::<u64>()
}

/// The limb that a random number gives: its remainder by the field prime.
pub fn nonce_limb(raw: u64) -> (limb: u64)
    ensures
        limb == raw % FIELD_PRIME,
        limb < FIELD_PRIME,
{
    raw % FIELD_PRIME
}

/// A fresh nonce: five random limbs, each below the field prime, in the
/// order in which they were drawn.
pub fn fresh_nonce() -> (nonce: Vec<u64>)
    ensures
        nonce@.len() == NONCE_LIMBS,
        forall|i: int| 0 <= i < nonce@.len() ==> nonce@[i] < FIELD_PRIME,
{
    let mut nonce: Vec<u64> = Vec::new();
    let mut i: usize = 0;
    while i < NONCE_LIMBS
        invariant
            i <= NONCE_LIMBS,
            nonce@.len() == i,
            forall|j: int| 0 <= j < nonce@.len() ==> nonce@[j] < FIELD_PRIME,
        decreases NONCE_LIMBS - i,
    {
        nonce.push(nonce_limb(random_u64()));
        i += 1;
    }
    nonce
}

/// What an attempt yielded, as the mining kernel reports it: an atom, or
/// an effect with a tag.
pub enum AttemptResult {
    /// The result's head is an atom with these bytes.
    Atom(Vec<u8>),
    /// The result's head is an effect whose tag has these bytes.
    Effect(Vec<u8>),
}

/// The mathematical value of an `AttemptResult`.
pub enum AttemptResultView {
    Atom(Seq<u8>),
    Effect(Seq<u8>),
}

impl View for AttemptResult {
    type V = AttemptResultView;

    open spec fn view(&self) -> AttemptResultView {
        match *self {
            AttemptResult::Atom(b) => AttemptResultView::Atom(b@),
            AttemptResult::Effect(b) => AttemptResultView::Effect(b@),
        }
    }
}

/// The tag `miss`: the attempt hit no target.
pub open spec fn miss_tag() -> Seq<u8> {
    seq![0x6du8, 0x69u8, 0x73u8, 0x73u8]
}

/// The tag `pool`: the attempt hit the pool's target.
pub open spec fn pool_tag() -> Seq<u8> {
    seq![0x70u8, 0x6fu8, 0x6fu8, 0x6cu8]
}

/// The tag `network`: the attempt hit the network's target.
pub open spec fn network_tag() -> Seq<u8> {
    seq![0x6eu8, 0x65u8, 0x74u8, 0x77u8, 0x6fu8, 0x72u8, 0x6bu8]
}

/// Where a restarted worker takes its nonce from.
#[derive(Debug, Clone, Copy, PartialEq, Eq, Structural)]
pub enum NonceSource {
    /// A fresh random nonce.
    Fresh,
    /// The nonce that the miss handed back.
    FromMiss,
}

/// What to do with a worker whose attempt has finished.
#[derive(Debug, Clone, Copy, PartialEq, Eq, Structural)]
pub enum Decision {
    /// Start the worker again.
    Restart(NonceSource),
    /// Submit the solution for this target, then start the worker again
    /// with a fresh nonce.
    Submit(Target),
}

/// The decision on a finished attempt. `current` says whether the attempt
/// was started on the template that is still the latest.
///
/// An atom, which is what a cancelled attempt yields, and an effect that
/// is neither a miss nor a hit are restarted afresh. A miss goes on from the nonce it
/// handed back. A hit is submitted only if the attempt is current, and, in
/// network-only mode, only if it is a network hit.
pub open spec fn decision_on(result: AttemptResultView, current: bool, network_only: bool)
    -> Decision {
    match result {
        AttemptResultView::Atom(_) => Decision::Restart(NonceSource::Fresh),
        AttemptResultView::Effect(tag) => if tag == miss_tag() {
            Decision::Restart(NonceSource::FromMiss)
        } else if tag == network_tag() && current {
            Decision::Submit(Target::Network)
        } else if tag == pool_tag() && current && !network_only {
            Decision::Submit(Target::Pool)
        } else {
            Decision::Restart(NonceSource::Fresh)
        },
    }
}

fn tag_is(tag: &Vec<u8>, word: &[u8]) -> (same: bool)
    ensures
        same == (tag@ == word@),
{
    crate::codec::same_bytes(tag.as_slice(), word)
}

/// The decision on a finished attempt.
pub fn decide(result: &AttemptResult, current: bool, network_only: bool) -> (d: Decision)
    ensures
        d == decision_on(result@, current, network_only),
{
    match result {
        AttemptResult::Atom(_) => Decision::Restart(NonceSource::Fresh),
        AttemptResult::Effect(tag) => {
            let miss: [u8; 4] = [0x6du8, 0x69u8, 0x73u8, 0x73u8];
            let pool: [u8; 4] = [0x70u8, 0x6fu8, 0x6fu8, 0x6cu8];
            let network: [u8; 7] = [0x6eu8, 0x65u8, 0x74u8, 0x77u8, 0x6fu8, 0x72u8, 0x6bu8];
            assert(miss@ =~= miss_tag());
            assert(pool@ =~= pool_tag());
            assert(network@ =~= network_tag());
            if tag_is(tag, miss.as_slice()) {
                Decision::Restart(NonceSource::FromMiss)
            } else if tag_is(tag, network.as_slice()) && current {
                Decision::Submit(Target::Network)
            } else if tag_is(tag, pool.as_slice()) && current && !network_only {
                Decision::Submit(Target::Pool)
            } else {
                Decision::Restart(NonceSource::Fresh)
            }
        },
    }
}

/// What the mining loop is told.
pub enum MiningEvent {
    /// A new template has arrived.
    TemplateChanged(Template),
    /// The attempt of this worker has finished.
    AttemptFinished { worker: u64, result: AttemptResult },
}

/// The mathematical value of a `MiningEvent`.
pub enum MiningEventView {
    TemplateChanged(TemplateView),
    AttemptFinished { worker: u64, result: AttemptResultView },
}

impl View for MiningEvent {
    type V = MiningEventView;

    open spec fn view(&self) -> MiningEventView {
        match *self {
            MiningEvent::TemplateChanged(t) => MiningEventView::TemplateChanged(t@),
            MiningEvent::AttemptFinished { worker, result } => MiningEventView::AttemptFinished {
                worker,
                result: result@,
            },
        }
    }
}

/// What the mining loop asks of its caller.
pub enum MiningAction {
    /// Create `count` workers, numbered from 0, and start each on
    /// `template` with a fresh nonce.
    SpawnWorkers { count: u64, template: Template },
    /// Ask every attempt in flight to stop.
    CancelAll,
    /// Start the worker again on `template`.
    Restart { worker: u64, template: Template, nonce: NonceSource },
    /// Send the solution that the worker found as a submission for
    /// `target`, then start the worker again on `template` with a fresh
    /// nonce.
    SubmitAndRestart { worker: u64, target: Target, template: Template },
    /// There is nothing to do.
    Nothing,
}

/// The mathematical value of a `MiningAction`.
pub enum MiningActionView {
    SpawnWorkers { count: u64, template: TemplateView },
    CancelAll,
    Restart { worker: u64, template: TemplateView, nonce: NonceSource },
    SubmitAndRestart { worker: u64, target: Target, template: TemplateView },
    Nothing,
}

impl View for MiningAction {
    type V = MiningActionView;

    open spec fn view(&self) -> MiningActionView {
        match *self {
            MiningAction::SpawnWorkers { count, template } => MiningActionView::SpawnWorkers {
                count,
                template: template@,
            },
            MiningAction::CancelAll => MiningActionView::CancelAll,
            MiningAction::Restart { worker, template, nonce } => MiningActionView::Restart {
                worker,
                template: template@,
                nonce,
            },
            MiningAction::SubmitAndRestart { worker, target, template } => {
                MiningActionView::SubmitAndRestart { worker, target, template: template@ }
            },
            MiningAction::Nothing => MiningActionView::Nothing,
        }
    }
}

/// The state of the mining loop.
pub struct MiningLoop {
    network_only: bool,
    workers: u64,
    template: Option<Template>,
    started: bool,
    current: Vec<bool>,
}

/// The mathematical value of a `MiningLoop`.
pub struct MiningLoopView {
    /// Whether only network hits are submitted.
    pub network_only: bool,
    /// The number of workers to run.
    pub workers: u64,
    /// The latest template, if one has arrived.
    pub template: Option<TemplateView>,
    /// Whether the workers have been started.
    pub started: bool,
    /// For each worker, whether its attempt in flight was started on the
    /// latest template.
    pub current: Seq<bool>,
}

impl View for MiningLoop {
    type V = MiningLoopView;

    closed spec fn view(&self) -> MiningLoopView {
        MiningLoopView {
            network_only: self.network_only,
            workers: self.workers,
            template: match self.template {
                Some(t) => Some(t@),
                None => None,
            },
            started: self.started,
            current: self.current@,
        }
    }
}

/// A mining loop before the first template.
pub open spec fn mining_initial(network_only: bool, workers: u64) -> MiningLoopView {
    MiningLoopView { network_only, workers, template: None, started: false, current: Seq::empty() }
}

/// The transition function of the mining loop.
pub open spec fn mining_next(s: MiningLoopView, e: MiningEventView) -> (
    MiningLoopView,
    MiningActionView,
) {
    match e {
        MiningEventView::TemplateChanged(t) => if s.started {
            (
                MiningLoopView {
                    template: Some(t),
                    current: Seq::new(s.current.len(), |i: int| false),
                    ..s
                },
                MiningActionView::CancelAll,
            )
        } else {
            (
                MiningLoopView {
                    template: Some(t),
                    started: true,
                    current: Seq::new(s.workers as nat, |i: int| true),
                    ..s
                },
                MiningActionView::SpawnWorkers { count: s.workers, template: t },
            )
        },
        MiningEventView::AttemptFinished { worker, result } => match s.template {
            Some(template) => if worker < s.current.len() {
                let after = MiningLoopView { current: s.current.update(worker as int, true), ..s };
                match decision_on(result, s.current[worker as int], s.network_only) {
                    Decision::Restart(nonce) => (
                        after,
                        MiningActionView::Restart { worker, template, nonce },
                    ),
                    Decision::Submit(target) => (
                        after,
                        MiningActionView::SubmitAndRestart { worker, target, template },
                    ),
                }
            } else {
                (s, MiningActionView::Nothing)
            },
            None => (s, MiningActionView::Nothing),
        },
    }
}

impl MiningLoop {
    /// A mining loop for `workers` workers, before the first template.
    pub fn new(network_only: bool, workers: u64) -> (m: Self)
        ensures
            m@ == mining_initial(network_only, workers),
    {
        MiningLoop { network_only, workers, template: None, started: false, current: Vec::new() }
    }

    /// Takes an event and answers with the next action, as `mining_next`
    /// says.
    pub fn on_event(&mut self, event: MiningEvent) -> (action: MiningAction)
        ensures
            (final(self)@, action@) == mining_next(old(self)@, event@),
    {
        match event {
            MiningEvent::TemplateChanged(t) => {
                let copy = t.clone();
                self.template = Some(t);
                if self.started {
                    let n = self.current.len();
                    let mut i: usize = 0;
                    while i < n
                        invariant
                            i <= n,
                            self.current@.len() == n,
                            forall|j: int| 0 <= j < i ==> self.current@[j] == false,
                            self.network_only == old(self).network_only,
                            self.workers == old(self).workers,
                            self.started == old(self).started,
                            self.template == Some(t),
                        decreases n - i,
                    {
                        self.current.set(i, false);
                        i += 1;
                    }
                    assert(self.current@ =~= Seq::new(old(self).current@.len(), |i: int| false));
                    MiningAction::CancelAll
                } else {
                    let n = self.workers;
                    let mut flags: Vec<bool> = Vec::new();
                    let mut i: u64 = 0;
                    while i < n
                        invariant
                            i <= n,
                            flags@.len() == i,
                            forall|j: int| 0 <= j < i ==> flags@[j] == true,
                        decreases n - i,
                    {
                        flags.push(true);
                        i += 1;
                    }
                    assert(flags@ =~= Seq::new(self.workers as nat, |i: int| true));
                    self.current = flags;
                    self.started = true;
                    MiningAction::SpawnWorkers { count: self.workers, template: copy }
                }
            },
            MiningEvent::AttemptFinished { worker, result } => {
                let template = match &self.template {
                    Some(t) => Some(t.clone()),
                    None => None,
                };
                match template {
                    Some(template) => {
                        if worker < self.current.len() as u64 {
                            let w = worker as usize;
                            let d = decide(&result, self.current[w], self.network_only);
                            self.current.set(w, true);
                            match d {
                                Decision::Restart(nonce) => MiningAction::Restart {
                                    worker,
                                    template,
                                    nonce,
                                },
                                Decision::Submit(target) => MiningAction::SubmitAndRestart {
                                    worker,
                                    target,
                                    template,
                                },
                            }
                        } else {
                            MiningAction::Nothing
                        }
                    },
                    None => MiningAction::Nothing,
                }
            },
        }
    }
}

/// The mining loop after a run of events.
pub open spec fn mining_run(s: MiningLoopView, events: Seq<MiningEventView>) -> MiningLoopView
    decreases events.len(),
{
    if events.len() == 0 {
        s
    } else {
        mining_run(mining_next(s, events[0]).0, events.drop_first())
    }
}

/// Whether an event is the end of an attempt of worker `w`.
pub open spec fn finishes(e: MiningEventView, w: u64) -> bool {
    e matches MiningEventView::AttemptFinished { worker, .. } && worker == w
}

/// A solution is submitted only from an attempt that was started on the
/// latest template, and every worker that is started again is started on
/// the latest template.
pub proof fn theorem_submits_only_current_work(s: MiningLoopView, worker: u64, result:
    AttemptResultView)
    ensures
        ({
            let action = mining_next(s, MiningEventView::AttemptFinished { worker, result }).1;
            &&& action is SubmitAndRestart ==> worker < s.current.len() && s.current[worker as int]
                && s.template == Some(action->SubmitAndRestart_template)
            &&& action is Restart ==> s.template == Some(action->Restart_template)
            &&& action is SubmitAndRestart && s.network_only ==> action->target is Network
        }),
{
}

/// A new template supersedes all work in flight: once it has been
/// observed, every attempt that was running is asked to stop and none of
/// them is current any more.
pub proof fn theorem_new_template_supersedes(s: MiningLoopView, t: TemplateView)
    requires
        s.started,
    ensures
        ({
            let (after, action) = mining_next(s, MiningEventView::TemplateChanged(t));
            &&& action is CancelAll
            &&& after.template == Some(t)
            &&& after.current.len() == s.current.len()
            &&& forall|w: int| 0 <= w < after.current.len() ==> !after.current[w]
        }),
{
}

/// The latest template wins, for all interleavings. Let a template arrive
/// while a worker's attempt is in flight. Whatever happens next, further
/// templates and the ends of other workers' attempts included, and
/// whatever the attempt finally yields, a hit on either target included:
/// that attempt is not submitted, and the worker is started again on the
/// template that is then the latest.
pub proof fn theorem_latest_template_wins(
    s: MiningLoopView,
    t: TemplateView,
    between: Seq<MiningEventView>,
    worker: u64,
    result: AttemptResultView,
)
    requires
        s.started,
        worker < s.current.len(),
        forall|i: int| 0 <= i < between.len() ==> !finishes(#[trigger] between[i], worker),
    ensures
        ({
            let observed = mining_next(s, MiningEventView::TemplateChanged(t)).0;
            let later = mining_run(observed, between);
            let action = mining_next(later, MiningEventView::AttemptFinished { worker, result }).1;
            &&& !(action is SubmitAndRestart)
            &&& action is Restart
            &&& later.template == Some(action->Restart_template)
        }),
{
    let observed = mining_next(s, MiningEventView::TemplateChanged(t)).0;
    lemma_stale_stays_stale(observed, between, worker);
}

proof fn lemma_stale_stays_stale(s: MiningLoopView, events: Seq<MiningEventView>, worker: u64)
    requires
        s.started,
        s.template is Some,
        worker < s.current.len(),
        !s.current[worker as int],
        forall|i: int| 0 <= i < events.len() ==> !finishes(#[trigger] events[i], worker),
    ensures
        mining_run(s, events).started,
        mining_run(s, events).template is Some,
        mining_run(s, events).current.len() == s.current.len(),
        !mining_run(s, events).current[worker as int],
    decreases events.len(),
{
    if events.len() > 0 {
        let next = mining_next(s, events[0]).0;
        assert(!finishes(events[0], worker));
        assert forall|i: int| 0 <= i < events.drop_first().len() implies !finishes(
            #[trigger] events.drop_first()[i],
            worker,
        ) by {
            assert(events.drop_first()[i] == events[i + 1]);
        }
        lemma_stale_stays_stale(next, events.drop_first(), worker);
    }
}

} // verus!
