//! The stepping engine: it owns the clock, the input sources, the optional
//! feedback channel, the action executor and a shared cancellation signal, and
//! drives the per-tick protocol — cancellation check, completion check,
//! action gathering, ordered execution, feedback wait, clock advance.

use vstd::prelude::*;
use std::sync::atomic::{AtomicBool, Ordering};
use std::sync::Arc;
use crate::callbacker::{create_callbacker, created_callbacker, CallBacker, CallBackerBox};
use crate::config::{dec_value, is_dec_string, Config, ConfigValue, PluginConfig};
use crate::replayer::{create_replayer, created_replayer, replayer_type_known, Replayer,
    ReplayerBox};
use crate::sender::{create_sender_controller, stable_sorted_of, Sender, SenderController,
    SenderControllerBox};
use crate::step::{Step, StepModel};

verus! {

/// The engine's lifecycle: `Aborted` and `Completed` are terminal.
#[derive(Clone, Copy, PartialEq, Eq, Structural, Debug)]
pub enum SimState {
    Uninitialized,
    Initialized,
    Running,
    Aborted,
    Completed,
}

/// The value of a configuration field that must hold a numeric string:
/// `Some` exactly when the field is a text field holding a plain decimal
/// numeral whose value fits the clock's machine range.
pub open spec fn scalar_dec(v: Option<ConfigValue>) -> Option<int> {
    match v {
        Some(ConfigValue::Text(s)) => if is_dec_string(s@) && dec_value(s@) <= u64::MAX {
            Some(dec_value(s@))
        } else {
            None
        },
        _ => None,
    }
}

/// Whether one source configuration is accepted: a known discriminator and
/// a configuration that the selected source itself accepts.
pub open spec fn replayer_item_ok(pc: PluginConfig) -> bool {
    replayer_type_known(pc) && created_replayer(pc).init_ok(pc)
}

/// The source that an accepted configuration yields, after its own
/// initialization.
pub open spec fn built_replayer(pc: PluginConfig) -> ReplayerBox {
    created_replayer(pc).inited(pc)
}

pub open spec fn built_replayers(l: Seq<PluginConfig>) -> Seq<ReplayerBox> {
    l.map_values(|pc: PluginConfig| built_replayer(pc))
}

/// Exactly the configurations that initialization accepts: a parsable
/// start time, a parsable positive step width, an end time that is absent
/// or numeric, a present source list whose every entry is accepted, an
/// absent or recognized feedback channel, and a present, recognized executor.
pub open spec fn config_accepted(c: Config) -> bool {
    &&& scalar_dec(c.start_time) is Some
    &&& match c.end_time {
        None => true,
        Some(ConfigValue::Number(_)) => true,
        Some(_) => false,
    }
    &&& match scalar_dec(c.step_width) {
        Some(w) => w > 0,
        None => false,
    }
    &&& c.replayer_list matches Some(l) && (forall|i: int|
        0 <= i < l@.len() ==> replayer_item_ok(#[trigger] l@[i]))
    &&& match c.callbacker {
        None => true,
        Some(pc) => crate::config::plugin_type_of(pc) == Some("mock"@),
    }
    &&& c.sender_controller matches Some(pc) && crate::config::plugin_type_of(pc) == Some(
        "simple"@,
    )
}

/// The accepted start time of an accepted configuration.
pub open spec fn accepted_start(c: Config) -> int {
    match scalar_dec(c.start_time) {
        Some(v) => v,
        None => 0,
    }
}

/// The accepted step width of an accepted configuration.
pub open spec fn accepted_width(c: Config) -> int {
    match scalar_dec(c.step_width) {
        Some(v) => v,
        None => 0,
    }
}

/// The stepping engine.
pub struct Simulation {
    start_time: u64,
    end_time: u64,
    step: Step,
    pub aborted: Arc<AtomicBool>,
    replayers: Vec<ReplayerBox>,
    callbacker: Option<CallBackerBox>,
    backdata: Option<i64>,
    sender_controller: Option<SenderControllerBox>,
    state: SimState,
}

impl Simulation {
    pub closed spec fn state_spec(self) -> SimState {
        self.state
    }

    pub closed spec fn replayers_spec(self) -> Seq<ReplayerBox> {
        self.replayers@
    }

    pub closed spec fn callbacker_spec(self) -> Option<CallBackerBox> {
        self.callbacker
    }

    pub closed spec fn controller_spec(self) -> Option<SenderControllerBox> {
        self.sender_controller
    }

    pub closed spec fn backdata_spec(self) -> Option<i64> {
        self.backdata
    }

    pub closed spec fn step_spec(self) -> StepModel {
        self.step@
    }

    pub open spec fn wf(self) -> bool {
        self.step_spec().wf()
    }

    /// Global completion: every source reports no further work.
    pub open spec fn all_finished(self) -> bool {
        forall|i: int|
            0 <= i < self.replayers_spec().len() ==> (#[trigger] self.replayers_spec()[i])
                .finished_spec()
    }

    /// The state that `new` yields: nothing constructed yet.
    pub open spec fn fresh(self) -> bool {
        &&& self.state_spec() is Uninitialized
        &&& self.replayers_spec().len() == 0
        &&& self.callbacker_spec() is None
        &&& self.controller_spec() is None
        &&& self.backdata_spec() is None
        &&& self.wf()
    }

    /// One tick's combined batch: the concatenation, in registration order,
    /// of what each source emits at the current time with the current
    /// feedback value.
    pub open spec fn tick_batch(self) -> Seq<Sender> {
        Seq::new(
            self.replayers_spec().len(),
            |i: int| self.replayers_spec()[i].emitted(self.step_spec().cur_time,
                self.backdata_spec()),
        ).flatten()
    }

    pub fn new() -> (r: Simulation)
        ensures
            r.fresh(),
    {
        Simulation {
            start_time: 0,
            end_time: 0,
            step: Step::new(0, 0),
            aborted: Arc::new(AtomicBool::new(false)),
            replayers: Vec::new(),
            callbacker: None,
            backdata: None,
            sender_controller: None,
            state: SimState::Uninitialized,
        }
    }

    /// Builds every sub-component from the configuration. Fails fast — and
    /// leaves the engine untouched — on any missing or malformed required
    /// field and on any unrecognized plugin discriminator; in particular an
    /// absent source list fails with no source constructed, and an
    /// unrecognized source discriminator fails before any source is ever
    /// stepped.
    #[verifier::loop_isolation(false)]
    pub fn init(&mut self, config: &Config) -> (r: bool)
        requires
            old(self).fresh(),
        ensures
            r == config_accepted(*config),
            !r ==> *final(self) == *old(self),
            config.replayer_list is None ==> !r && final(self).replayers_spec().len() == 0,
            (config.replayer_list matches Some(l) && (exists|i: int|
                0 <= i < l@.len() && !replayer_type_known(l@[i]))) ==> !r,
            r ==> final(self).state_spec() is Initialized,
            r ==> final(self).wf(),
            r ==> final(self).step_spec() == StepModel::fresh(
                accepted_start(*config),
                accepted_width(*config),
            ),
            r ==> (config.replayer_list matches Some(l) && final(self).replayers_spec()
                == built_replayers(l@)),
            r ==> final(self).backdata_spec() is None,
            r ==> final(self).callbacker_spec() == (match config.callbacker {
                Some(_) => Some(created_callbacker()),
                None => None::<CallBackerBox>,
            }),
            r ==> (final(self).controller_spec() matches Some(sc) && sc.executed()
                == Seq::<Sender>::empty()),
    {
        let start_time: u64 = match &config.start_time {
            Some(ConfigValue::Text(s)) => match crate::config::parse_u64(s.as_str()) {
                Some(v) => v,
                None => { return false; },
            },
            _ => { return false; },
        };
        let end_time: u64 = match &config.end_time {
            Some(ConfigValue::Number(n)) => *n,
            Some(_) => { return false; },
            None => 0,
        };
        let step_width: u64 = match &config.step_width {
            Some(ConfigValue::Text(s)) => match crate::config::parse_u64(s.as_str()) {
                Some(v) => v,
                None => { return false; },
            },
            _ => { return false; },
        };
        if step_width == 0 {
            return false;
        }
        let mut reps: Vec<ReplayerBox> = Vec::new();
        match &config.replayer_list {
            Some(items) => {
                let n = items.len();
                let mut i: usize = 0;
                while i < n
                    invariant
                        n == items@.len(),
                        i <= n,
                        forall|k: int| 0 <= k < i ==> replayer_item_ok(#[trigger] items@[k]),
                        reps@ == built_replayers(items@.take(i as int)),
                    decreases n - i,
                {
                    let item = &items[i];
                    let mut rep = match create_replayer(item) {
                        Ok(rp) => rp,
                        Err(_) => {
                            proof {
                                assert(!replayer_item_ok(items@[i as int]));
                            }
                            return false;
                        },
                    };
                    let ok = rep.init(item);
                    if !ok {
                        proof {
                            assert(!replayer_item_ok(items@[i as int]));
                        }
                        return false;
                    }
                    reps.push(rep);
                    proof {
                        assert(built_replayers(items@.take(i as int + 1)) =~= built_replayers(
                            items@.take(i as int),
                        ).push(built_replayer(items@[i as int])));
                    }
                    i = i + 1;
                }
                proof {
                    assert(items@.take(n as int) =~= items@);
                }
            },
            None => { return false; },
        }
        let cbk: Option<CallBackerBox> = match &config.callbacker {
            Some(pc) => match create_callbacker(pc) {
                Ok(c) => Some(c),
                Err(_) => { return false; },
            },
            None => None,
        };
        let ctl: SenderControllerBox = match &config.sender_controller {
            Some(pc) => match &pc.plugin_type {
                Some(ConfigValue::Text(s)) => match create_sender_controller(s.as_str()) {
                    Ok(c) => c,
                    Err(_) => { return false; },
                },
                _ => { return false; },
            },
            None => { return false; },
        };
        self.start_time = start_time;
        self.end_time = end_time;
        self.step.reset(start_time, step_width);
        self.replayers = reps;
        self.callbacker = cbk;
        self.sender_controller = Some(ctl);
        self.state = SimState::Initialized;
        true
    }

    /// One full tick: every source is stepped, in registration order, at
    /// the current time with the feedback stored on the previous tick; the
    /// combined batch is executed in stable timestamp order; the feedback channel — if
    /// configured — is awaited and its value stored as the next tick's
    /// feedback; the clock advances one step.
    #[verifier::loop_isolation(false)]
    pub fn tick(&mut self)
        requires
            old(self).wf(),
            old(self).step_spec().cur_time + old(self).step_spec().step_width <= u64::MAX,
            old(self).step_spec().cur_step + 1 <= u64::MAX,
        ensures
            final(self).wf(),
            final(self).state_spec() == old(self).state_spec(),
            final(self).step_spec() == old(self).step_spec().advanced(),
            final(self).replayers_spec().len() == old(self).replayers_spec().len(),
            forall|i: int|
                0 <= i < old(self).replayers_spec().len() ==> final(self).replayers_spec()[i]
                    == (#[trigger] old(self).replayers_spec()[i]).next_state(
                    old(self).step_spec().cur_time,
                    old(self).backdata_spec(),
                ),
            match (old(self).controller_spec(), final(self).controller_spec()) {
                (Some(c0), Some(c1)) => exists|b: Seq<Sender>|
                    #[trigger] stable_sorted_of(b, old(self).tick_batch()) && c1.executed()
                        == c0.executed() + b,
                (None, None) => true,
                _ => false,
            },
            match old(self).callbacker_spec() {
                Some(cb) => final(self).callbacker_spec() == Some(cb.wait_state())
                    && final(self).backdata_spec() == Some(cb.wait_value()),
                None => final(self).callbacker_spec() is None && final(self).backdata_spec()
                    == old(self).backdata_spec(),
            },
    {
        let ghost time0 = self.step@.cur_time;
        let ghost bd0 = self.backdata;
        let ghost reps0 = self.replayers@;
        let mut collector: Vec<Sender> = Vec::new();
        let n = self.replayers.len();
        let mut i: usize = 0;
        proof {
            assert(Seq::new(0, |k: int| reps0[k].emitted(time0, bd0)).flatten() =~= Seq::<
                Sender,
            >::empty());
        }
        while i < n
            invariant
                n == self.replayers@.len(),
                i <= n,
                self.step == old(self).step,
                self.backdata == bd0,
                self.callbacker == old(self).callbacker,
                self.sender_controller == old(self).sender_controller,
                self.state == old(self).state,
                reps0 == old(self).replayers@,
                time0 == old(self).step@.cur_time,
                forall|k: int|
                    0 <= k < i ==> self.replayers@[k] == (#[trigger] reps0[k]).next_state(
                        time0,
                        bd0,
                    ),
                forall|k: int| i <= k < n ==> self.replayers@[k] == reps0[k],
                collector@ == Seq::new(i as nat, |k: int| reps0[k].emitted(time0, bd0)).flatten(),
            decreases n - i,
        {
            let mut senders = self.replayers[i].step(&self.step, &self.backdata);
            collector.append(&mut senders);
            proof {
                let f = |k: int| reps0[k].emitted(time0, bd0);
                assert(Seq::new((i + 1) as nat, f) =~= Seq::new(i as nat, f).push(f(i as int)));
                Seq::new(i as nat, f).lemma_flatten_push(f(i as int));
            }
            i = i + 1;
        }
        proof {
            assert(collector@ == old(self).tick_batch());
        }
        match &mut self.sender_controller {
            Some(sc) => {
                sc.exec(&mut collector);
            },
            None => {},
        }
        match &mut self.callbacker {
            Some(cb) => {
                let v = cb.wait();
                self.backdata = Some(v);
            },
            None => {},
        }
        self.step.next();
    }

    /// Drives the tick loop until the cancellation signal is observed or
    /// every source is finished. Returns in a terminal state; `Completed`
    /// means every source had reported completion — and once that holds
    /// entering a tick, no further per-source call is made and the clock
    /// does not advance. A run whose clock can no longer advance within
    /// the machine range of its counters stops as `Aborted`.
    pub fn run(&mut self)
        requires
            old(self).wf(),
            old(self).step_spec().step_width >= 1,
            old(self).state_spec() is Initialized,
        ensures
            final(self).wf(),
            final(self).state_spec() is Aborted || final(self).state_spec() is Completed,
            final(self).state_spec() is Completed ==> final(self).all_finished(),
            final(self).step_spec().start_time == old(self).step_spec().start_time,
            final(self).step_spec().step_width == old(self).step_spec().step_width,
            final(self).step_spec().cur_step >= old(self).step_spec().cur_step,
            final(self).replayers_spec().len() == old(self).replayers_spec().len(),
            (final(self).callbacker_spec() is Some) == (old(self).callbacker_spec() is Some),
            match (old(self).controller_spec(), final(self).controller_spec()) {
                (Some(c0), Some(c1)) => c0.executed().is_prefix_of(c1.executed()),
                (None, None) => true,
                _ => false,
            },
            old(self).all_finished() ==> final(self).replayers_spec() == old(self).replayers_spec() && final(self).step_spec() == old(self).step_spec() && final(self).controller_spec() == old(self).controller_spec() && final(self).backdata_spec()
                == old(self).backdata_spec(),
    {
        self.state = SimState::Running;
        proof {
            self.step.view_bounded();
            if let Some(c) = self.controller_spec() {
                assert(c.executed().subrange(0, c.executed().len() as int) =~= c.executed());
            }
        }
        loop
            invariant_except_break
                self.wf(),
                self.step_spec().start_time == old(self).step_spec().start_time,
                self.step_spec().step_width == old(self).step_spec().step_width,
                self.step_spec().cur_step >= old(self).step_spec().cur_step,
                self.replayers_spec().len() == old(self).replayers_spec().len(),
                (self.callbacker_spec() is Some) == (old(self).callbacker_spec() is Some),
                match (old(self).controller_spec(), self.controller_spec()) {
                    (Some(c0), Some(c1)) => c0.executed().is_prefix_of(c1.executed()),
                    (None, None) => true,
                    _ => false,
                },
                self.step_spec().bounded(),
                self.step_spec().step_width >= 1,
                self.state_spec() is Running,
                old(self).all_finished() ==> self.replayers_spec() == old(self).replayers_spec()
                    && self.step_spec() == old(self).step_spec() && self.controller_spec()
                    == old(self).controller_spec() && self.backdata_spec() == old(self).backdata_spec(),
            ensures
                self.wf(),
                self.step_spec().start_time == old(self).step_spec().start_time,
                self.step_spec().step_width == old(self).step_spec().step_width,
                self.step_spec().cur_step >= old(self).step_spec().cur_step,
                self.replayers_spec().len() == old(self).replayers_spec().len(),
                (self.callbacker_spec() is Some) == (old(self).callbacker_spec() is Some),
                match (old(self).controller_spec(), self.controller_spec()) {
                    (Some(c0), Some(c1)) => c0.executed().is_prefix_of(c1.executed()),
                    (None, None) => true,
                    _ => false,
                },
                self.state_spec() is Aborted || self.state_spec() is Completed,
                self.state_spec() is Completed ==> self.all_finished(),
                old(self).all_finished() ==> self.replayers_spec() == old(self).replayers_spec()
                    && self.step_spec() == old(self).step_spec() && self.controller_spec()
                    == old(self).controller_spec() && self.backdata_spec() == old(self).backdata_spec(),
            decreases u64::MAX - self.step_spec().cur_time,
        {
            if self.aborted.load(Ordering::SeqCst) {
                self.state = SimState::Aborted;
                break;
            }
            if self.is_replayers_finished() {
                let ghost pre = *self;
                self.state = SimState::Completed;
                proof {
                    assert forall|k: int|
                        0 <= k < self.replayers_spec().len() implies (#[trigger] self
                        .replayers_spec()[k]).finished_spec() by {
                        assert(pre.replayers_spec()[k].finished_spec());
                    }
                }
                break;
            }
            if !self.step.can_advance() {
                self.state = SimState::Aborted;
                break;
            }
            let ghost sm = self.step@;
            let ghost mid = *self;
            self.tick();
            proof {
                self.step.view_bounded();
                let s = sm.cur_step;
                let w = sm.step_width;
                assert((s + 1) * w == s * w + w) by (nonlinear_arith);
                if let (Some(c0), Some(cm), Some(c1)) = (
                    old(self).controller_spec(),
                    mid.controller_spec(),
                    self.controller_spec(),
                ) {
                    let b = choose|b: Seq<Sender>|
                        stable_sorted_of(b, mid.tick_batch()) && c1.executed() == cm.executed()
                            + b;
                    let l0 = c0.executed().len() as int;
                    let lm = cm.executed().len() as int;
                    assert(c1.executed().subrange(0, lm) =~= cm.executed());
                    assert(c1.executed().subrange(0, lm).subrange(0, l0) =~= c1.executed()
                        .subrange(0, l0));
                    assert(c0.executed() =~= c1.executed().subrange(0, l0));
                }
            }
        }
    }

    #[verifier::loop_isolation(false)]
    fn is_replayers_finished(&self) -> (r: bool)
        ensures
            r == self.all_finished(),
    {
        let mut finished: bool = true;
        let n = self.replayers.len();
        let mut i: usize = 0;
        while i < n
            invariant
                n == self.replayers@.len(),
                i <= n,
                finished == (forall|k: int|
                    0 <= k < i ==> (#[trigger] self.replayers_spec()[k]).finished_spec()),
            decreases n - i,
        {
            let fi = self.replayers[i].finished();
            proof {
                assert(self.replayers_spec()[i as int] == self.replayers@[i as int]);
            }
            finished = finished && fi;
            i = i + 1;
        }
        finished
    }

    /// The engine's lifecycle state.
    pub fn current_state(&self) -> (s: SimState)
        ensures
            s == self.state_spec(),
    {
        self.state
    }

    /// The number of constructed sources.
    pub fn replayer_count(&self) -> (n: usize)
        ensures
            n == self.replayers_spec().len(),
    {
        self.replayers.len()
    }

    /// The engine's clock, for inspection.
    pub fn clock(&self) -> (s: &Step)
        ensures
            s@ == self.step_spec(),
    {
        &self.step
    }

    /// The executor's log of every action run so far, in execution order,
    /// when an executor is configured.
    pub fn executed_history(&self) -> (h: Option<&Vec<Sender>>)
        ensures
            match (h, self.controller_spec()) {
                (Some(v), Some(c)) => v@ == c.executed(),
                (None, None) => true,
                _ => false,
            },
    {
        match &self.sender_controller {
            Some(sc) => Some(sc.executed_log()),
            None => None,
        }
    }
}

} // verus!
