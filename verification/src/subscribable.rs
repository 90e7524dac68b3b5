//! The subscription-worker framework: the uniform lifecycle and
//! failure-escalation policy that drives one hardware backend's blocking poll
//! operation.
//!
//! A worker repeatedly invokes its poll operation; every successful result is
//! forwarded as a message through an [`Actor`] handle, and errors are
//! escalated by a three-strikes policy: a fatal error stops the worker at
//! once, while non-fatal errors are tolerated until the third consecutive one.
//! A delivery that fails because the model is gone stops the worker
//! gracefully. The blocking poll itself and the thread that hosts the loop
//! live outside this crate; here stand the decisions, as a step function from
//! worker state and poll outcome to the next state and action, together with
//! a runner that plays a whole scripted sequence of poll outcomes against an
//! owner.

use vstd::prelude::*;

use crate::threlm::{from_origin, origin_pred, Actor, Model, Threlm};

verus! {

/// How many consecutive non-fatal poll errors a worker tolerates before it
/// gives up on its backend.
pub const STRIKE_LIMIT: u32 = 3;

/// An error reported by one invocation of a poll operation: a human-readable
/// message and whether the backend considers the condition unrecoverable.
pub struct Error {
    message: String,
    fatal: bool,
}

impl Error {
    /// The human-readable description carried by this error.
    pub closed spec fn message_spec(self) -> Seq<char> {
        self.message@
    }

    /// Whether the backend reported the condition as unrecoverable.
    pub closed spec fn fatal_spec(self) -> bool {
        self.fatal
    }

    /// Build an error value.
    pub fn new(message: String, fatal: bool) -> (e: Self)
        ensures
            e.message_spec() == message@,
            e.fatal_spec() == fatal,
    {
        Error { message, fatal }
    }

    /// The human-readable description carried by this error.
    pub fn message(&self) -> (m: &String)
        ensures
            m@ == self.message_spec(),
    {
        &self.message
    }

    /// Whether the backend reported the condition as unrecoverable.
    pub fn is_fatal(&self) -> (r: bool)
        ensures
            r == self.fatal_spec(),
    {
        self.fatal
    }
}

/// Why a subscription worker stopped.
#[derive(Clone, Copy, Debug, PartialEq, Eq, Structural)]
pub enum StopReason {
    /// One fatal poll error.
    Fatal,
    /// The third consecutive non-fatal poll error.
    Escalated,
    /// A delivery found the model destroyed; the application is shutting
    /// down, and this stop is graceful rather than a backend failure.
    TargetDead,
}

/// What a polling worker does next after one poll outcome.
pub enum Step<M> {
    /// The poll succeeded: forward this message, then poll again.
    Deliver(M),
    /// A tolerated non-fatal error: poll again.
    Retry,
    /// Stop polling for the given reason.
    Stop(StopReason),
}

/// The state a subscription worker carries between poll invocations: its
/// consecutive-non-fatal-error counter.
pub struct Worker {
    err_count: u32,
}

impl Worker {
    /// The number of consecutive non-fatal errors on record.
    pub closed spec fn count(self) -> u32 {
        self.err_count
    }

    /// A polling worker has strictly fewer strikes than the limit; the
    /// counter reaches the limit only in the very step that stops the worker.
    pub open spec fn wf(self) -> bool {
        self.count() < STRIKE_LIMIT
    }

    /// A fresh worker with a clean error record.
    pub fn new() -> (w: Self)
        ensures
            w.wf(),
            w.count() == 0,
    {
        Worker { err_count: 0 }
    }

    /// The `Initializing` transition: a worker comes into being only if the
    /// poll-operation factory succeeded; a factory failure yields the
    /// factory's message and no worker, so nothing is ever polled or
    /// delivered for that module.
    pub fn from_factory<T>(factory_result: Result<T, String>) -> (r: Result<(T, Worker), String>)
        ensures
            factory_result is Ok <==> r is Ok,
            factory_result is Ok ==> r->Ok_0.0 == factory_result->Ok_0 && r->Ok_0.1.count() == 0,
            factory_result is Err ==> r->Err_0 == factory_result->Err_0,
    {
        match factory_result {
            Ok(op) => Ok((op, Worker::new())),
            Err(message) => Err(message),
        }
    }

    /// The number of consecutive non-fatal errors on record.
    pub fn strikes(&self) -> (n: u32)
        ensures
            n == self.count(),
    {
        self.err_count
    }

    /// The escalation policy, one poll outcome at a time.
    ///
    /// A success clears the error record and asks for the message to be
    /// delivered. A fatal error stops the worker at once, whatever the
    /// record. A non-fatal error adds a strike: the worker retries until the
    /// strike that reaches the limit, which stops it.
    pub fn on_poll<M>(&mut self, outcome: Result<M, Error>) -> (step: Step<M>)
        requires
            old(self).wf(),
        ensures
            outcome is Ok ==> final(self).count() == 0 && (step matches Step::Deliver(m)
                && m == outcome->Ok_0),
            outcome is Err && outcome->Err_0.fatal_spec() ==> final(self).count() == old(
                self,
            ).count() && (step matches Step::Stop(r) && r == StopReason::Fatal),
            outcome is Err && !outcome->Err_0.fatal_spec() ==> final(self).count() == old(
                self,
            ).count() + 1,
            outcome is Err && !outcome->Err_0.fatal_spec() && old(self).count() + 1
                < STRIKE_LIMIT ==> (step matches Step::Retry),
            outcome is Err && !outcome->Err_0.fatal_spec() && old(self).count() + 1
                >= STRIKE_LIMIT ==> (step matches Step::Stop(r) && r == StopReason::Escalated),
    {
        match outcome {
            Ok(message) => {
                self.err_count = 0;
                Step::Deliver(message)
            },
            Err(e) => {
                if e.is_fatal() {
                    Step::Stop(StopReason::Fatal)
                } else {
                    self.err_count = self.err_count + 1;
                    if self.err_count >= STRIKE_LIMIT {
                        Step::Stop(StopReason::Escalated)
                    } else {
                        Step::Retry
                    }
                }
            },
        }
    }
}

/// The messages a worker forwards when its poll operation yields the
/// outcomes in `script`, one per invocation, starting with `c` consecutive
/// non-fatal errors on record; `alive` says whether the target model exists.
/// A success is forwarded (when the target is alive) and clears the record; a
/// fatal error, the strike that reaches the limit, and a delivery to a dead
/// target each end the run.
pub open spec fn deliveries<M>(script: Seq<Result<M, Error>>, c: nat, alive: bool) -> Seq<M>
    decreases script.len(),
{
    if script.len() == 0 {
        Seq::empty()
    } else {
        match script[0] {
            Result::Ok(m) => if alive {
                seq![m] + deliveries(script.drop_first(), 0, alive)
            } else {
                Seq::empty()
            },
            Result::Err(e) => if e.fatal_spec() || c + 1 >= STRIKE_LIMIT {
                Seq::empty()
            } else {
                deliveries(script.drop_first(), c + 1, alive)
            },
        }
    }
}

/// Why the worker stops over `script`, or `None` where the script runs out
/// while the worker is still polling.
pub open spec fn stop_after<M>(script: Seq<Result<M, Error>>, c: nat, alive: bool) -> Option<
    StopReason,
>
    decreases script.len(),
{
    if script.len() == 0 {
        None
    } else {
        match script[0] {
            Result::Ok(m) => if alive {
                stop_after(script.drop_first(), 0, alive)
            } else {
                Some(StopReason::TargetDead)
            },
            Result::Err(e) => if e.fatal_spec() {
                Some(StopReason::Fatal)
            } else if c + 1 >= STRIKE_LIMIT {
                Some(StopReason::Escalated)
            } else {
                stop_after(script.drop_first(), c + 1, alive)
            },
        }
    }
}

/// The value of the consecutive-error counter after each poll outcome the
/// worker processes, in order; its length says how many outcomes were
/// processed before the worker stopped or the script ran out.
pub open spec fn counter_trace<M>(script: Seq<Result<M, Error>>, c: nat, alive: bool) -> Seq<nat>
    decreases script.len(),
{
    if script.len() == 0 {
        Seq::empty()
    } else {
        match script[0] {
            Result::Ok(m) => if alive {
                seq![0nat] + counter_trace(script.drop_first(), 0, alive)
            } else {
                seq![0nat]
            },
            Result::Err(e) => if e.fatal_spec() {
                seq![c]
            } else if c + 1 >= STRIKE_LIMIT {
                seq![(c + 1) as nat]
            } else {
                seq![(c + 1) as nat] + counter_trace(script.drop_first(), (c + 1) as nat, alive)
            },
        }
    }
}

/// Law (three strikes, tolerated): a worker with `c` strikes on record that
/// meets `k` further consecutive non-fatal errors and then a success — with
/// `c + k` still under the limit — survives them all: it forwards the
/// success, its counter climbs `c+1, …, c+k` and then resets to `0`, and the
/// rest of its life is exactly the run of the remaining script with a clean
/// record.
pub proof fn lemma_three_strikes_survive<M>(script: Seq<Result<M, Error>>, k: int, c: nat)
    requires
        0 <= k,
        c + k < STRIKE_LIMIT,
        k < script.len(),
        forall|i: int| 0 <= i < k ==> (#[trigger] script[i]) is Err
            && !script[i]->Err_0.fatal_spec(),
        script[k] is Ok,
    ensures
        deliveries(script, c, true) == seq![script[k]->Ok_0] + deliveries(
            script.skip(k + 1),
            0,
            true,
        ),
        stop_after(script, c, true) == stop_after(script.skip(k + 1), 0, true),
        counter_trace(script, c, true).len() > k,
        counter_trace(script, c, true)[k] == 0,
        forall|i: int| 0 <= i < k ==> counter_trace(script, c, true)[i] == c + i + 1,
    decreases k,
{
    if k == 0 {
        assert(script.skip(1) =~= script.drop_first());
    } else {
        lemma_three_strikes_survive(script.drop_first(), k - 1, (c + 1) as nat);
        assert(script.drop_first().skip(k) =~= script.skip(k + 1));
        assert forall|i: int| 0 <= i < k implies counter_trace(script, c, true)[i] == c + i
            + 1 by {
            if i > 0 {
                assert(counter_trace(script.drop_first(), (c + 1) as nat, true)[i - 1] == c + i
                    + 1);
            }
        }
    }
}

/// Law (three strikes, escalated): a worker whose next consecutive non-fatal
/// errors use up the whole strike limit stops with `Escalated` exactly at the
/// strike that reaches the limit, and forwards nothing.
pub proof fn lemma_three_strikes_stop<M>(script: Seq<Result<M, Error>>, c: nat, alive: bool)
    requires
        c < STRIKE_LIMIT,
        STRIKE_LIMIT - c <= script.len(),
        forall|i: int| 0 <= i < STRIKE_LIMIT - c ==> (#[trigger] script[i]) is Err
            && !script[i]->Err_0.fatal_spec(),
    ensures
        stop_after(script, c, alive) == Some(StopReason::Escalated),
        deliveries(script, c, alive) == Seq::<M>::empty(),
        counter_trace(script, c, alive).len() == STRIKE_LIMIT - c,
    decreases STRIKE_LIMIT - c,
{
    if c + 1 < STRIKE_LIMIT {
        lemma_three_strikes_stop(script.drop_first(), (c + 1) as nat, alive);
    }
}

/// Law (fatal short-circuit): one fatal poll error stops the worker with
/// `Fatal` at once and forwards nothing, whatever the error record and
/// whether or not the target is still alive.
pub proof fn lemma_fatal_short_circuit<M>(script: Seq<Result<M, Error>>, c: nat, alive: bool)
    requires
        script.len() > 0,
        script[0] is Err,
        script[0]->Err_0.fatal_spec(),
    ensures
        stop_after(script, c, alive) == Some(StopReason::Fatal),
        deliveries(script, c, alive) == Seq::<M>::empty(),
        counter_trace(script, c, alive) == seq![c],
{
}

/// Law (dead-target graceful exit): once the target model is gone, the next
/// successful poll stops the worker with `TargetDead` — without forwarding
/// anything and without retrying — whatever the error record.
pub proof fn lemma_dead_target_exit<M>(script: Seq<Result<M, Error>>, c: nat)
    requires
        script.len() > 0,
        script[0] is Ok,
    ensures
        stop_after(script, c, false) == Some(StopReason::TargetDead),
        deliveries(script, c, false) == Seq::<M>::empty(),
        counter_trace(script, c, false) == seq![0nat],
{
}

/// A worker processes at most as many poll outcomes as the script holds.
pub proof fn lemma_trace_len<M>(script: Seq<Result<M, Error>>, c: nat, alive: bool)
    ensures
        counter_trace(script, c, alive).len() <= script.len(),
    decreases script.len(),
{
    if script.len() > 0 {
        match script[0] {
            Result::Ok(m) => {
                lemma_trace_len(script.drop_first(), 0, alive);
            },
            Result::Err(e) => {
                if !e.fatal_spec() && c + 1 < STRIKE_LIMIT {
                    lemma_trace_len(script.drop_first(), (c + 1) as nat, alive);
                }
            },
        }
    }
}

/// Law (reset on success): wherever a success stands in the processed part
/// of a script, the error counter right after it is `0`.
pub proof fn lemma_counter_resets<M>(script: Seq<Result<M, Error>>, c: nat, alive: bool, i: int)
    requires
        0 <= i < counter_trace(script, c, alive).len(),
        script[i] is Ok,
    ensures
        counter_trace(script, c, alive)[i] == 0,
    decreases i,
{
    lemma_trace_len(script, c, alive);
    if i > 0 {
        match script[0] {
            Result::Ok(m) => {
                assert(script.drop_first()[i - 1] == script[i]);
                lemma_counter_resets(script.drop_first(), 0, alive, i - 1);
            },
            Result::Err(e) => {
                if !e.fatal_spec() && c + 1 < STRIKE_LIMIT {
                    assert(script.drop_first()[i - 1] == script[i]);
                    lemma_counter_resets(script.drop_first(), (c + 1) as nat, alive, i - 1);
                }
            },
        }
    }
}

/// Entries of a submission history tagged with one origin label.
pub open spec fn tag<M>(origin: u64, msgs: Seq<M>) -> Seq<(u64, M)> {
    msgs.map_values(|m: M| (origin, m))
}

/// What playing one scripted poll sequence left behind: why the worker
/// stopped (or `None` where the script ran out first) and the trace of the
/// consecutive-error counter, one value per processed outcome.
pub struct RunReport {
    pub stopped: Option<StopReason>,
    pub counters: Vec<u32>,
}

impl RunReport {
    /// The counter trace as the mathematical trace the run model speaks of.
    pub open spec fn trace(self) -> Seq<nat> {
        self.counters@.map_values(|c: u32| c as nat)
    }
}

/// Play a whole scripted sequence of poll outcomes through one worker: the
/// worker loop of a subscription, with the blocking poll operation replaced
/// by the next script entry. Every forwarded message is submitted through
/// `actor` into `owner`'s queue; nothing is applied here, the home thread
/// drains the queue separately.
pub fn run_script<C: Model>(
    owner: &mut Threlm<C>,
    actor: &Actor<C>,
    script: Vec<Result<C::Message, Error>>,
) -> (report: RunReport)
    requires
        old(owner).wf(),
    ensures
        final(owner).wf(),
        final(owner).alive() == old(owner).alive(),
        final(owner).applied() == old(owner).applied(),
        final(owner).discarded() == old(owner).discarded(),
        final(owner).history() == old(owner).history() + tag(
            actor.origin(),
            deliveries(script@, 0, old(owner).alive()),
        ),
        final(owner).pending() == old(owner).pending() + tag(
            actor.origin(),
            deliveries(script@, 0, old(owner).alive()),
        ),
        report.stopped == stop_after(script@, 0, old(owner).alive()),
        report.trace() == counter_trace(script@, 0, old(owner).alive()),
{
    let ghost script0 = script@;
    let ghost g_alive = old(owner).alive();
    let mut rest = script;
    let mut worker = Worker::new();
    let mut counters: Vec<u32> = Vec::new();
    let ghost mut done: Seq<C::Message> = Seq::empty();
    let mut stopped: Option<StopReason> = None;

    while stopped.is_none() && rest.len() > 0
        invariant
            owner.wf(),
            owner.alive() == g_alive,
            g_alive == old(owner).alive(),
            owner.applied() == old(owner).applied(),
            owner.discarded() == old(owner).discarded(),
            owner.history() == old(owner).history() + tag(actor.origin(), done),
            owner.pending() == old(owner).pending() + tag(actor.origin(), done),
            stopped is None ==> worker.wf(),
            stopped is None ==> deliveries(script0, 0, g_alive) == done + deliveries(
                rest@,
                worker.count() as nat,
                g_alive,
            ),
            stopped is None ==> stop_after(script0, 0, g_alive) == stop_after(
                rest@,
                worker.count() as nat,
                g_alive,
            ),
            stopped is None ==> counter_trace(script0, 0, g_alive) == counters@.map_values(
                |c: u32| c as nat,
            ) + counter_trace(rest@, worker.count() as nat, g_alive),
            stopped is Some ==> deliveries(script0, 0, g_alive) == done,
            stopped is Some ==> stop_after(script0, 0, g_alive) == stopped,
            stopped is Some ==> counter_trace(script0, 0, g_alive) == counters@.map_values(
                |c: u32| c as nat,
            ),
        decreases rest.len(),
    {
        let ghost rest_before = rest@;
        let ghost count_before = worker.count() as nat;
        let outcome = rest.remove(0);
        proof {
            assert(rest@ =~= rest_before.drop_first());
        }
        match worker.on_poll(outcome) {
            Step::Deliver(message) => {
                let ghost gm = message;
                match actor.tell(owner, message) {
                    Ok(_) => {
                        proof {
                            done = done.push(gm);
                            assert(tag(actor.origin(), done) =~= tag(
                                actor.origin(),
                                done.drop_last(),
                            ).push((actor.origin(), gm)));
                        }
                    },
                    Err(_) => {
                        stopped = Some(StopReason::TargetDead);
                    },
                }
            },
            Step::Retry => {},
            Step::Stop(reason) => {
                stopped = Some(reason);
            },
        }
        counters.push(worker.strikes());
        proof {
            assert(counters@.map_values(|c: u32| c as nat) =~= counters@.drop_last().map_values(
                |c: u32| c as nat,
            ).push(counters@.last() as nat));
        }
    }
    proof {
        if stopped is None {
            assert(rest@.len() == 0);
            assert(deliveries(rest@, worker.count() as nat, g_alive) =~= Seq::<
                C::Message,
            >::empty());
            assert(counter_trace(rest@, worker.count() as nat, g_alive) =~= Seq::<nat>::empty());
            assert(deliveries(script0, 0, g_alive) =~= done);
            assert(counter_trace(script0, 0, g_alive) =~= counters@.map_values(
                |c: u32| c as nat,
            ));
        }
    }
    RunReport { stopped, counters }
}

/// Law (isolation), as a runner: play two scripted workers against one live
/// owner, interleaved in whatever order `schedule` dictates (`true` steps the
/// first worker; a worker that is finished yields its turn, and an exhausted
/// schedule steps whichever worker remains). Whatever the interleaving, each
/// worker's fate — what it forwards, in which order, why it stops, and its
/// counter trace — is exactly the fate of its own script run alone: the
/// errors or escalation of the one never touch the deliveries or liveness of
/// the other.
pub fn run_two<C: Model>(
    owner: &mut Threlm<C>,
    actor_a: &Actor<C>,
    script_a: Vec<Result<C::Message, Error>>,
    actor_b: &Actor<C>,
    script_b: Vec<Result<C::Message, Error>>,
    schedule: Vec<bool>,
) -> (reports: (RunReport, RunReport))
    requires
        old(owner).wf(),
        old(owner).alive(),
        actor_a.origin() != actor_b.origin(),
    ensures
        final(owner).wf(),
        final(owner).alive(),
        final(owner).applied() == old(owner).applied(),
        from_origin(final(owner).history(), actor_a.origin()) == from_origin(
            old(owner).history(),
            actor_a.origin(),
        ) + tag(actor_a.origin(), deliveries(script_a@, 0, true)),
        from_origin(final(owner).history(), actor_b.origin()) == from_origin(
            old(owner).history(),
            actor_b.origin(),
        ) + tag(actor_b.origin(), deliveries(script_b@, 0, true)),
        reports.0.stopped == stop_after(script_a@, 0, true),
        reports.1.stopped == stop_after(script_b@, 0, true),
        reports.0.trace() == counter_trace(script_a@, 0, true),
        reports.1.trace() == counter_trace(script_b@, 0, true),
{
    let ghost sa0 = script_a@;
    let ghost sb0 = script_b@;
    let ghost oa = actor_a.origin();
    let ghost ob = actor_b.origin();
    let mut rest_a = script_a;
    let mut rest_b = script_b;
    let mut sched = schedule;
    let mut worker_a = Worker::new();
    let mut worker_b = Worker::new();
    let mut counters_a: Vec<u32> = Vec::new();
    let mut counters_b: Vec<u32> = Vec::new();
    let ghost mut done_a: Seq<C::Message> = Seq::empty();
    let ghost mut done_b: Seq<C::Message> = Seq::empty();
    let mut stopped_a: Option<StopReason> = None;
    let mut stopped_b: Option<StopReason> = None;

    while (stopped_a.is_none() && rest_a.len() > 0) || (stopped_b.is_none() && rest_b.len() > 0)
        invariant
            owner.wf(),
            owner.alive(),
            old(owner).alive(),
            oa == actor_a.origin(),
            ob == actor_b.origin(),
            oa != ob,
            owner.applied() == old(owner).applied(),
            owner.discarded() == old(owner).discarded(),
            from_origin(owner.history(), oa) == from_origin(old(owner).history(), oa) + tag(
                oa,
                done_a,
            ),
            from_origin(owner.history(), ob) == from_origin(old(owner).history(), ob) + tag(
                ob,
                done_b,
            ),
            stopped_a is None ==> worker_a.wf(),
            stopped_a is None ==> deliveries(sa0, 0, true) == done_a + deliveries(
                rest_a@,
                worker_a.count() as nat,
                true,
            ),
            stopped_a is None ==> stop_after(sa0, 0, true) == stop_after(
                rest_a@,
                worker_a.count() as nat,
                true,
            ),
            stopped_a is None ==> counter_trace(sa0, 0, true) == counters_a@.map_values(
                |c: u32| c as nat,
            ) + counter_trace(rest_a@, worker_a.count() as nat, true),
            stopped_a is Some ==> deliveries(sa0, 0, true) == done_a,
            stopped_a is Some ==> stop_after(sa0, 0, true) == stopped_a,
            stopped_a is Some ==> counter_trace(sa0, 0, true) == counters_a@.map_values(
                |c: u32| c as nat,
            ),
            stopped_b is None ==> worker_b.wf(),
            stopped_b is None ==> deliveries(sb0, 0, true) == done_b + deliveries(
                rest_b@,
                worker_b.count() as nat,
                true,
            ),
            stopped_b is None ==> stop_after(sb0, 0, true) == stop_after(
                rest_b@,
                worker_b.count() as nat,
                true,
            ),
            stopped_b is None ==> counter_trace(sb0, 0, true) == counters_b@.map_values(
                |c: u32| c as nat,
            ) + counter_trace(rest_b@, worker_b.count() as nat, true),
            stopped_b is Some ==> deliveries(sb0, 0, true) == done_b,
            stopped_b is Some ==> stop_after(sb0, 0, true) == stopped_b,
            stopped_b is Some ==> counter_trace(sb0, 0, true) == counters_b@.map_values(
                |c: u32| c as nat,
            ),
        decreases rest_a.len() + rest_b.len() + sched.len(),
    {
        let a_ready = stopped_a.is_none() && rest_a.len() > 0;
        let b_ready = stopped_b.is_none() && rest_b.len() > 0;
        let pick_a = if a_ready && b_ready {
            if sched.len() > 0 {
                sched.remove(0)
            } else {
                true
            }
        } else {
            a_ready
        };
        if pick_a {
            let ghost rest_before = rest_a@;
            let outcome = rest_a.remove(0);
            proof {
                assert(rest_a@ =~= rest_before.drop_first());
            }
            match worker_a.on_poll(outcome) {
                Step::Deliver(message) => {
                    let ghost gm = message;
                    let ghost h_before = owner.history();
                    match actor_a.tell(owner, message) {
                        Ok(_) => {
                            proof {
                                Seq::lemma_filter_push(
                                    h_before,
                                    (oa, gm),
                                    origin_pred::<C::Message>(oa),
                                );
                                Seq::lemma_filter_push(
                                    h_before,
                                    (oa, gm),
                                    origin_pred::<C::Message>(ob),
                                );
                                assert(tag(oa, done_a.push(gm)) =~= tag(oa, done_a).push(
                                    (oa, gm),
                                ));
                                done_a = done_a.push(gm);
                            }
                        },
                        Err(_) => {
                            stopped_a = Some(StopReason::TargetDead);
                        },
                    }
                },
                Step::Retry => {},
                Step::Stop(reason) => {
                    stopped_a = Some(reason);
                },
            }
            counters_a.push(worker_a.strikes());
            proof {
                assert(counters_a@.map_values(|c: u32| c as nat)
                    =~= counters_a@.drop_last().map_values(|c: u32| c as nat).push(
                    counters_a@.last() as nat,
                ));
            }
        } else {
            let ghost rest_before = rest_b@;
            let outcome = rest_b.remove(0);
            proof {
                assert(rest_b@ =~= rest_before.drop_first());
            }
            match worker_b.on_poll(outcome) {
                Step::Deliver(message) => {
                    let ghost gm = message;
                    let ghost h_before = owner.history();
                    match actor_b.tell(owner, message) {
                        Ok(_) => {
                            proof {
                                Seq::lemma_filter_push(
                                    h_before,
                                    (ob, gm),
                                    origin_pred::<C::Message>(oa),
                                );
                                Seq::lemma_filter_push(
                                    h_before,
                                    (ob, gm),
                                    origin_pred::<C::Message>(ob),
                                );
                                assert(tag(ob, done_b.push(gm)) =~= tag(ob, done_b).push(
                                    (ob, gm),
                                ));
                                done_b = done_b.push(gm);
                            }
                        },
                        Err(_) => {
                            stopped_b = Some(StopReason::TargetDead);
                        },
                    }
                },
                Step::Retry => {},
                Step::Stop(reason) => {
                    stopped_b = Some(reason);
                },
            }
            counters_b.push(worker_b.strikes());
            proof {
                assert(counters_b@.map_values(|c: u32| c as nat)
                    =~= counters_b@.drop_last().map_values(|c: u32| c as nat).push(
                    counters_b@.last() as nat,
                ));
            }
        }
    }
    proof {
        if stopped_a is None {
            assert(deliveries(rest_a@, worker_a.count() as nat, true) =~= Seq::<
                C::Message,
            >::empty());
            assert(counter_trace(rest_a@, worker_a.count() as nat, true) =~= Seq::<nat>::empty());
            assert(deliveries(sa0, 0, true) =~= done_a);
            assert(counter_trace(sa0, 0, true) =~= counters_a@.map_values(|c: u32| c as nat));
        }
        if stopped_b is None {
            assert(deliveries(rest_b@, worker_b.count() as nat, true) =~= Seq::<
                C::Message,
            >::empty());
            assert(counter_trace(rest_b@, worker_b.count() as nat, true) =~= Seq::<nat>::empty());
            assert(deliveries(sb0, 0, true) =~= done_b);
            assert(counter_trace(sb0, 0, true) =~= counters_b@.map_values(|c: u32| c as nat));
        }
    }
    (RunReport { stopped: stopped_a, counters: counters_a },
        RunReport { stopped: stopped_b, counters: counters_b },
    )
}

} // verus!
