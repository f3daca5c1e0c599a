//! The input sources: each owns private state, emits a batch of timestamped
//! actions per tick, consumes the previous tick's feedback value, and
//! reports completion — which is monotonic: once finished, always finished.

use vstd::prelude::*;
use crate::config::{plugin_type_of, str_eq, ConfigValue, InitError, PluginConfig};
use crate::sender::{Sender, SenderPayload};
use crate::step::Step;

verus! {

/// The input-source contract. A source is deterministic in its own state,
/// the current time and the feedback value; its completion flag is
/// monotonic across ticks.
pub trait Replayer: Sized {
    /// Whether the source accepts its configuration object.
    spec fn init_ok(self, config: PluginConfig) -> bool;

    /// The source's state after initialization from its configuration.
    spec fn inited(self, config: PluginConfig) -> Self;

    /// The source's state after one tick at the given time with the given
    /// feedback.
    spec fn next_state(self, time: int, backdata: Option<i64>) -> Self;

    /// The actions one tick emits, in emission order.
    spec fn emitted(self, time: int, backdata: Option<i64>) -> Seq<Sender>;

    /// Whether the source has no further work.
    spec fn finished_spec(self) -> bool;

    /// Parses the source's own configuration subset; a failure here aborts
    /// the whole engine initialization.
    fn init(&mut self, config: &PluginConfig) -> (r: bool)
        ensures
            r == old(self).init_ok(*config),
            *final(self) == old(self).inited(*config),
    ;

    /// One tick: mutates internal state and returns this tick's actions.
    /// Once finished, a source stays finished.
    fn step(&mut self, step: &Step, backdata: &Option<i64>) -> (r: Vec<Sender>)
        ensures
            *final(self) == old(self).next_state(step@.cur_time, *backdata),
            r@ == old(self).emitted(step@.cur_time, *backdata),
            old(self).finished_spec() ==> final(self).finished_spec(),
    ;

    fn finished(&self) -> (r: bool)
        ensures
            r == self.finished_spec(),
    ;
}

/// Saturating signed addition, the arithmetic of the stand-in source.
pub open spec fn sat_add_i64(a: int, b: int) -> i64 {
    if a + b > i64::MAX {
        i64::MAX
    } else if a + b < i64::MIN {
        i64::MIN
    } else {
        (a + b) as i64
    }
}

/// A stand-in source with no domain logic: it accumulates the feedback
/// values it receives and emits two zero-timestamped actions per tick until
/// its accumulator passes a fixed bound.
pub struct MockReplayer {
    value: i64,
    finished: bool,
}

impl MockReplayer {
    spec fn stepped_value(self, backdata: Option<i64>) -> i64 {
        match backdata {
            Some(b) => sat_add_i64(self.value as int, b as int),
            None => self.value,
        }
    }

    spec fn note(time: int, off: int) -> u64 {
        if time >= off {
            (time - off) as u64
        } else {
            0
        }
    }
}

impl Replayer for MockReplayer {
    closed spec fn init_ok(self, config: PluginConfig) -> bool {
        true
    }

    closed spec fn inited(self, config: PluginConfig) -> Self {
        MockReplayer { value: 0, finished: false }
    }

    closed spec fn next_state(self, time: int, backdata: Option<i64>) -> Self {
        if self.value > 120 {
            MockReplayer { finished: true, ..self }
        } else {
            MockReplayer { value: self.stepped_value(backdata), ..self }
        }
    }

    closed spec fn emitted(self, time: int, backdata: Option<i64>) -> Seq<Sender> {
        if self.value > 120 {
            Seq::empty()
        } else {
            let v = self.stepped_value(backdata);
            seq![
                Sender {
                    timestamp: 0,
                    payload: SenderPayload { value: v, note_time: Self::note(time, 100) },
                },
                Sender {
                    timestamp: 0,
                    payload: SenderPayload { value: v, note_time: Self::note(time, 10) },
                },
            ]
        }
    }

    closed spec fn finished_spec(self) -> bool {
        self.finished
    }

    fn init(&mut self, config: &PluginConfig) -> (r: bool) {
        self.value = 0;
        self.finished = false;
        true
    }

    fn step(&mut self, step: &Step, backdata: &Option<i64>) -> (r: Vec<Sender>) {
        let mut vec: Vec<Sender> = Vec::new();
        if self.value > 120 {
            self.finished = true;
            return vec;
        }
        if let Some(b) = backdata {
            self.value = match self.value.checked_add(*b) {
                Some(v) => v,
                None => if *b >= 0 {
                    i64::MAX
                } else {
                    i64::MIN
                },
            };
        }
        let value = self.value;
        let timestamp = step.cur_time();
        vec.push(
            Sender {
                timestamp: 0,
                payload: SenderPayload {
                    value,
                    note_time: if timestamp >= 100 {
                        timestamp - 100
                    } else {
                        0
                    },
                },
            },
        );
        vec.push(
            Sender {
                timestamp: 0,
                payload: SenderPayload {
                    value,
                    note_time: if timestamp >= 10 {
                        timestamp - 10
                    } else {
                        0
                    },
                },
            },
        );
        vec
    }

    fn finished(&self) -> (r: bool) {
        self.finished
    }
}

/// A source that runs for a configured number of ticks: each tick it emits
/// one action stamped with the current time and carrying its countdown,
/// and it is finished once the countdown reaches zero.
pub struct CountReplayer {
    remaining: i64,
    finished: bool,
}

impl Replayer for CountReplayer {
    closed spec fn init_ok(self, config: PluginConfig) -> bool {
        match config.count {
            Some(ConfigValue::Number(n)) => n <= i64::MAX,
            _ => false,
        }
    }

    closed spec fn inited(self, config: PluginConfig) -> Self {
        match config.count {
            Some(ConfigValue::Number(n)) => if n <= i64::MAX {
                CountReplayer { remaining: n as i64, finished: n == 0 }
            } else {
                self
            },
            _ => self,
        }
    }

    closed spec fn next_state(self, time: int, backdata: Option<i64>) -> Self {
        if self.remaining > 0 {
            CountReplayer {
                remaining: (self.remaining - 1) as i64,
                finished: self.remaining == 1 || self.finished,
            }
        } else {
            CountReplayer { finished: true, ..self }
        }
    }

    closed spec fn emitted(self, time: int, backdata: Option<i64>) -> Seq<Sender> {
        if self.remaining > 0 {
            seq![
                Sender {
                    timestamp: time as u64,
                    payload: SenderPayload { value: self.remaining, note_time: time as u64 },
                },
            ]
        } else {
            Seq::empty()
        }
    }

    closed spec fn finished_spec(self) -> bool {
        self.finished
    }

    fn init(&mut self, config: &PluginConfig) -> (r: bool) {
        match &config.count {
            Some(ConfigValue::Number(n)) => {
                if *n <= i64::MAX as u64 {
                    self.remaining = *n as i64;
                    self.finished = *n == 0;
                    true
                } else {
                    false
                }
            },
            _ => false,
        }
    }

    fn step(&mut self, step: &Step, backdata: &Option<i64>) -> (r: Vec<Sender>) {
        let mut vec: Vec<Sender> = Vec::new();
        if self.remaining > 0 {
            let timestamp = step.cur_time();
            vec.push(
                Sender {
                    timestamp,
                    payload: SenderPayload { value: self.remaining, note_time: timestamp },
                },
            );
            self.remaining = self.remaining - 1;
            if self.remaining == 0 {
                self.finished = true;
            }
        } else {
            self.finished = true;
        }
        vec
    }

    fn finished(&self) -> (r: bool) {
        self.finished
    }
}

/// The closed set of source variants, selected by a `type` discriminator.
pub enum ReplayerBox {
    Mock(MockReplayer),
    Count(CountReplayer),
}

impl Replayer for ReplayerBox {
    closed spec fn init_ok(self, config: PluginConfig) -> bool {
        match self {
            ReplayerBox::Mock(m) => m.init_ok(config),
            ReplayerBox::Count(c) => c.init_ok(config),
        }
    }

    closed spec fn inited(self, config: PluginConfig) -> Self {
        match self {
            ReplayerBox::Mock(m) => ReplayerBox::Mock(m.inited(config)),
            ReplayerBox::Count(c) => ReplayerBox::Count(c.inited(config)),
        }
    }

    closed spec fn next_state(self, time: int, backdata: Option<i64>) -> Self {
        match self {
            ReplayerBox::Mock(m) => ReplayerBox::Mock(m.next_state(time, backdata)),
            ReplayerBox::Count(c) => ReplayerBox::Count(c.next_state(time, backdata)),
        }
    }

    closed spec fn emitted(self, time: int, backdata: Option<i64>) -> Seq<Sender> {
        match self {
            ReplayerBox::Mock(m) => m.emitted(time, backdata),
            ReplayerBox::Count(c) => c.emitted(time, backdata),
        }
    }

    closed spec fn finished_spec(self) -> bool {
        match self {
            ReplayerBox::Mock(m) => m.finished_spec(),
            ReplayerBox::Count(c) => c.finished_spec(),
        }
    }

    fn init(&mut self, config: &PluginConfig) -> (r: bool) {
        match self {
            ReplayerBox::Mock(m) => m.init(config),
            ReplayerBox::Count(c) => c.init(config),
        }
    }

    fn step(&mut self, step: &Step, backdata: &Option<i64>) -> (r: Vec<Sender>) {
        match self {
            ReplayerBox::Mock(m) => m.step(step, backdata),
            ReplayerBox::Count(c) => c.step(step, backdata),
        }
    }

    fn finished(&self) -> (r: bool) {
        match self {
            ReplayerBox::Mock(m) => m.finished(),
            ReplayerBox::Count(c) => c.finished(),
        }
    }
}

/// Whether the discriminator names a known source variant.
pub open spec fn replayer_type_known(pc: PluginConfig) -> bool {
    plugin_type_of(pc) == Some("mock"@) || plugin_type_of(pc) == Some("counter"@)
}

/// The source that `create_replayer` yields for an accepted discriminator,
/// before its own initialization.
pub closed spec fn created_replayer(pc: PluginConfig) -> ReplayerBox {
    if plugin_type_of(pc) == Some("mock"@) {
        ReplayerBox::Mock(MockReplayer { value: 0, finished: false })
    } else {
        ReplayerBox::Count(CountReplayer { remaining: 0, finished: false })
    }
}

/// Builds the source selected by the configuration's `type` discriminator.
/// A missing or non-text discriminator is a configuration error; an
/// unrecognized one is a typed construction error, never a crash.
pub fn create_replayer(config: &PluginConfig) -> (r: Result<ReplayerBox, InitError>)
    ensures
        r is Ok <==> replayer_type_known(*config),
        r is Ok ==> r->Ok_0 == created_replayer(*config),
        r is Err ==> r->Err_0 == (if plugin_type_of(*config) is None {
            InitError::Configuration
        } else {
            InitError::UnknownPluginType
        }),
{
    match &config.plugin_type {
        Some(ConfigValue::Text(s)) => {
            if str_eq(s.as_str(), "mock") {
                Ok(ReplayerBox::Mock(MockReplayer { value: 0, finished: false }))
            } else if str_eq(s.as_str(), "counter") {
                Ok(ReplayerBox::Count(CountReplayer { remaining: 0, finished: false }))
            } else {
                Err(InitError::UnknownPluginType)
            }
        },
        _ => Err(InitError::Configuration),
    }
}

} // verus!
