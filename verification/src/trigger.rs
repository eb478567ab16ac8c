//! Trigger configurations: what a user stores for a spell, and the
//! subscription that the trigger service is asked for.

use vstd::prelude::*;

verus! {

/// Longest period a clock trigger may have: one hundred years of 365 days,
/// in seconds.
pub const MAX_PERIOD_SEC: u32 = 3_153_600_000;

/// Clock part of a trigger configuration, in seconds since the epoch.
///
/// The clock is set when `start_sec` is not zero; the other two fields are
/// read only then. An `end_sec` of zero means that the clock never ends, a
/// `period_sec` of zero that it fires once, at `start_sec`.
#[derive(Clone, Copy, Debug, PartialEq, Eq, Structural)]
pub struct ClockConfig {
    pub start_sec: u32,
    pub end_sec: u32,
    pub period_sec: u32,
}

/// Peer events that a spell watches.
#[derive(Clone, Copy, Debug, PartialEq, Eq, Structural)]
pub struct ConnectionPoolConfig {
    pub connect: bool,
    pub disconnect: bool,
}

/// Trigger configuration of a spell as its owner stores it.
#[derive(Clone, Copy, Debug, PartialEq, Eq, Structural)]
pub struct TriggerConfig {
    pub clock: ClockConfig,
    pub connections: ConnectionPoolConfig,
}

/// Why a trigger configuration cannot be turned into a subscription.
#[derive(Clone, Copy, Debug, PartialEq, Eq, Structural)]
pub enum ConfigError {
    /// The clock period is longer than `MAX_PERIOD_SEC`.
    InvalidPeriod,
    /// The clock ends before it starts.
    InvalidEndSec,
}

/// Timer of a subscription.
#[derive(Clone, Copy, Debug, PartialEq, Eq, Structural)]
pub struct TimerConfig {
    pub period_sec: u32,
    pub start_at_sec: u32,
    pub end_at_sec: Option<u32>,
}

/// What the trigger service is asked to watch for one spell.
#[derive(Clone, Copy, Debug, PartialEq, Eq, Structural)]
pub struct Subscription {
    pub timer: Option<TimerConfig>,
    pub connect: bool,
    pub disconnect: bool,
}

impl ClockConfig {
    /// The clock is set.
    pub open spec fn is_set(self) -> bool {
        self.start_sec != 0
    }

    /// The first fault of a set clock, if it has one.
    pub open spec fn fault(self) -> Option<ConfigError> {
        if !self.is_set() {
            None
        } else if self.period_sec > MAX_PERIOD_SEC {
            Some(ConfigError::InvalidPeriod)
        } else if self.end_sec != 0 && self.end_sec < self.start_sec {
            Some(ConfigError::InvalidEndSec)
        } else {
            None
        }
    }

    /// The timer that a set clock without fault asks for.
    pub open spec fn timer(self) -> TimerConfig {
        TimerConfig {
            period_sec: self.period_sec,
            start_at_sec: self.start_sec,
            end_at_sec: if self.end_sec == 0 {
                None
            } else {
                Some(self.end_sec)
            },
        }
    }
}

impl TimerConfig {
    /// The timer has ended at `now_sec`.
    pub open spec fn ended(self, now_sec: u64) -> bool {
        self.end_at_sec matches Some(end) && end <= now_sec
    }

    /// The timer fires once and its moment lies before `now_sec`.
    pub open spec fn fired_once(self, now_sec: u64) -> bool {
        self.period_sec == 0 && self.start_at_sec < now_sec
    }

    /// The timer still has something to do at `now_sec`.
    pub open spec fn reschedulable(self, now_sec: u64) -> bool {
        !self.ended(now_sec) && !self.fired_once(now_sec)
    }

    /// The timer, if it still has something to do at `now_sec`.
    pub fn into_rescheduled(self, now_sec: u64) -> (r: Option<TimerConfig>)
        ensures
            r == if self.reschedulable(now_sec) {
                Some(self)
            } else {
                None
            },
    {
        let ended = match self.end_at_sec {
            Some(end) => end as u64 <= now_sec,
            None => false,
        };
        if ended {
            return None;
        }
        if self.period_sec == 0 && (self.start_at_sec as u64) < now_sec {
            return None;
        }
        Some(self)
    }
}

impl TriggerConfig {
    /// The configuration that asks for nothing.
    pub open spec fn spec_empty() -> TriggerConfig {
        TriggerConfig {
            clock: ClockConfig { start_sec: 0, end_sec: 0, period_sec: 0 },
            connections: ConnectionPoolConfig { connect: false, disconnect: false },
        }
    }

    /// The configuration of a spell that fires every `period_sec` seconds,
    /// from the first second of the epoch and without end.
    pub open spec fn spec_periodic(period_sec: u32) -> TriggerConfig {
        TriggerConfig {
            clock: ClockConfig { start_sec: 1, end_sec: 0, period_sec },
            connections: ConnectionPoolConfig { connect: false, disconnect: false },
        }
    }

    /// The configuration asks for nothing: no clock is set and no peer
    /// event is watched.
    pub open spec fn is_empty(self) -> bool {
        !self.clock.is_set() && !self.connections.connect && !self.connections.disconnect
    }

    /// What `from_user_config` returns.
    pub open spec fn subscription(self) -> Result<Option<Subscription>, ConfigError> {
        match self.clock.fault() {
            Some(e) => Err(e),
            None => if self.is_empty() {
                Ok(None)
            } else {
                Ok(
                    Some(
                        Subscription {
                            timer: if self.clock.is_set() {
                                Some(self.clock.timer())
                            } else {
                                None
                            },
                            connect: self.connections.connect,
                            disconnect: self.connections.disconnect,
                        },
                    ),
                )
            },
        }
    }

    #[verifier::when_used_as_spec(spec_empty)]
    pub fn empty() -> (r: TriggerConfig)
        ensures
            r == Self::spec_empty(),
    {
        TriggerConfig {
            clock: ClockConfig { start_sec: 0, end_sec: 0, period_sec: 0 },
            connections: ConnectionPoolConfig { connect: false, disconnect: false },
        }
    }

    #[verifier::when_used_as_spec(spec_periodic)]
    pub fn periodic(period_sec: u32) -> (r: TriggerConfig)
        ensures
            r == Self::spec_periodic(period_sec),
    {
        TriggerConfig {
            clock: ClockConfig { start_sec: 1, end_sec: 0, period_sec },
            connections: ConnectionPoolConfig { connect: false, disconnect: false },
        }
    }
}

impl Subscription {
    /// The subscription watches something.
    pub open spec fn is_nonempty(self) -> bool {
        self.timer is Some || self.connect || self.disconnect
    }

    /// The subscription of a spell that fires every `period_sec` seconds,
    /// from the first second of the epoch and without end.
    pub open spec fn spec_periodic(period_sec: u32) -> Subscription {
        Subscription {
            timer: Some(TimerConfig { period_sec, start_at_sec: 1, end_at_sec: None }),
            connect: false,
            disconnect: false,
        }
    }

    /// The subscription that the periodic configuration of `period_sec`
    /// asks for; `InvalidPeriod` where the period is longer than
    /// `MAX_PERIOD_SEC`.
    pub fn periodic(period_sec: u32) -> (r: Result<Subscription, ConfigError>)
        ensures
            r == if period_sec > MAX_PERIOD_SEC {
                Err::<Subscription, ConfigError>(ConfigError::InvalidPeriod)
            } else {
                Ok(Self::spec_periodic(period_sec))
            },
            TriggerConfig::periodic(period_sec).subscription() == match r {
                Ok(s) => Ok::<Option<Subscription>, ConfigError>(Some(s)),
                Err(e) => Err(e),
            },
    {
        match from_user_config(&TriggerConfig::periodic(period_sec)) {
            Ok(Some(s)) => Ok(s),
            Ok(None) => Err(ConfigError::InvalidPeriod),
            Err(e) => Err(e),
        }
    }

    /// What is left of the subscription at `now_sec`: a timer that has ended,
    /// or that fired its one time, is dropped; peer events stay.
    pub open spec fn remainder(self, now_sec: u64) -> Subscription {
        Subscription {
            timer: match self.timer {
                Some(t) => if t.reschedulable(now_sec) {
                    Some(t)
                } else {
                    None
                },
                None => None,
            },
            connect: self.connect,
            disconnect: self.disconnect,
        }
    }

    /// The subscription still watches something at `now_sec`.
    pub open spec fn reschedulable(self, now_sec: u64) -> bool {
        self.remainder(now_sec).is_nonempty()
    }

    /// What is left of the subscription at `now_sec`, if anything is.
    pub fn into_rescheduled(self, now_sec: u64) -> (r: Option<Subscription>)
        ensures
            r == if self.reschedulable(now_sec) {
                Some(self.remainder(now_sec))
            } else {
                None
            },
    {
        let timer = match self.timer {
            Some(t) => t.into_rescheduled(now_sec),
            None => None,
        };
        if timer.is_some() || self.connect || self.disconnect {
            Some(Subscription { timer, connect: self.connect, disconnect: self.disconnect })
        } else {
            None
        }
    }
}

/// Turns a stored trigger configuration into a subscription.
///
/// A set clock with a period over `MAX_PERIOD_SEC` is refused with
/// `InvalidPeriod`, one that ends before it starts with `InvalidEndSec`. A
/// configuration that asks for nothing gives `Ok(None)`. Any other gives the
/// subscription with the clock's timer, if the clock is set, and the watched
/// peer events.
pub fn from_user_config(config: &TriggerConfig) -> (r: Result<Option<Subscription>, ConfigError>)
    ensures
        r == config.subscription(),
        r matches Ok(Some(s)) ==> s.is_nonempty(),
{
    let clock = config.clock;
    let mut timer: Option<TimerConfig> = None;
    if clock.start_sec != 0 {
        if clock.period_sec > MAX_PERIOD_SEC {
            return Err(ConfigError::InvalidPeriod);
        }
        if clock.end_sec != 0 && clock.end_sec < clock.start_sec {
            return Err(ConfigError::InvalidEndSec);
        }
        let end_at_sec = if clock.end_sec == 0 {
            None
        } else {
            Some(clock.end_sec)
        };
        timer = Some(
            TimerConfig { period_sec: clock.period_sec, start_at_sec: clock.start_sec, end_at_sec },
        );
    }
    if timer.is_some() || config.connections.connect || config.connections.disconnect {
        Ok(
            Some(
                Subscription {
                    timer,
                    connect: config.connections.connect,
                    disconnect: config.connections.disconnect,
                },
            ),
        )
    } else {
        Ok(None)
    }
}

} // verus!
