//! The feedback channel: a blocking call made at most once per tick, strictly
//! after the tick's batch has been executed; its result is handed to every
//! input source on the following tick.

use vstd::prelude::*;
use crate::config::{plugin_type_of, str_eq, ConfigValue, InitError, PluginConfig};

verus! {

/// The feedback-channel contract. A channel is deterministic in its own state:
/// one blocking wait moves it to `wait_state` and returns `wait_value`.
pub trait CallBacker: Sized {
    /// The channel's state after one blocking wait.
    spec fn wait_state(self) -> Self;

    /// The feedback value that one blocking wait returns.
    spec fn wait_value(self) -> i64;

    fn wait(&mut self) -> (r: i64)
        ensures
            *final(self) == old(self).wait_state(),
            r == old(self).wait_value(),
    ;
}

/// A stand-in channel: an internal counter, incremented (saturating at the
/// machine limit) and returned on every wait.
pub struct MockCallBacker {
    value: i64,
}

impl CallBacker for MockCallBacker {
    closed spec fn wait_state(self) -> Self {
        MockCallBacker {
            value: if self.value < i64::MAX {
                (self.value + 1) as i64
            } else {
                self.value
            },
        }
    }

    closed spec fn wait_value(self) -> i64 {
        if self.value < i64::MAX {
            (self.value + 1) as i64
        } else {
            self.value
        }
    }

    fn wait(&mut self) -> (r: i64) {
        if self.value < i64::MAX {
            self.value = self.value + 1;
        }
        self.value
    }
}

/// The closed set of channel variants, selected by a `type` discriminator.
pub enum CallBackerBox {
    Mock(MockCallBacker),
}

impl CallBacker for CallBackerBox {
    closed spec fn wait_state(self) -> Self {
        match self {
            CallBackerBox::Mock(c) => CallBackerBox::Mock(c.wait_state()),
        }
    }

    closed spec fn wait_value(self) -> i64 {
        match self {
            CallBackerBox::Mock(c) => c.wait_value(),
        }
    }

    fn wait(&mut self) -> (r: i64) {
        match self {
            CallBackerBox::Mock(c) => c.wait(),
        }
    }
}

/// The channel that `create_callbacker` yields for an accepted discriminator.
pub closed spec fn created_callbacker() -> CallBackerBox {
    CallBackerBox::Mock(MockCallBacker { value: 15 })
}

/// Builds the channel selected by the configuration's `type` discriminator.
/// A missing or non-text discriminator is a configuration error; an
/// unrecognized one is a typed construction error, never a crash.
pub fn create_callbacker(config: &PluginConfig) -> (r: Result<CallBackerBox, InitError>)
    ensures
        r is Ok <==> plugin_type_of(*config) == Some("mock"@),
        r is Ok ==> r->Ok_0 == created_callbacker(),
        r is Ok ==> r->Ok_0.wait_value() == 16,
        r is Err ==> r->Err_0 == (if plugin_type_of(*config) is None {
            InitError::Configuration
        } else {
            InitError::UnknownPluginType
        }),
{
    match &config.plugin_type {
        Some(ConfigValue::Text(s)) => {
            if str_eq(s.as_str(), "mock") {
                Ok(CallBackerBox::Mock(MockCallBacker { value: 15 }))
            } else {
                Err(InitError::UnknownPluginType)
            }
        },
        _ => Err(InitError::Configuration),
    }
}

} // verus!
