//! The wait / fire / repeat control of an alarm, as a state machine. The
//! caller performs each action it returns (sleeping, delivering the
//! notification, exiting) and hands back what happened as the next event.
use crate::humanize::{humanize_secs, humanize_spec};
use vstd::prelude::*;
use vstd::string::*;

verus! {

/// What can go wrong while delivering a notification.
#[derive(Clone, Copy, Debug, PartialEq, Eq, Structural)]
pub enum DeliveryError {
    /// The audio device or decoder could not be used.
    BackendUnavailable,
    /// The speech engine could not be set up.
    EngineInitFailed,
    /// The speech engine failed to speak.
    SpeakFailed,
    /// The host has no known speech command; delivery degrades to nothing.
    UnsupportedPlatform,
}

pub open spec fn is_fatal_spec(e: DeliveryError) -> bool {
    e != DeliveryError::UnsupportedPlatform
}

impl DeliveryError {
    /// Whether this error ends the alarm; only an unsupported platform does not.
    pub fn is_fatal(&self) -> (r: bool)
        ensures
            r == is_fatal_spec(*self),
    {
        match self {
            DeliveryError::UnsupportedPlatform => false,
            _ => true,
        }
    }
}

/// How an alarm is set: a positive wait, whether it repeats, and how many
/// times the notification is given each time it fires (at least once).
#[derive(Clone, Copy, Debug, PartialEq, Eq, Structural)]
pub struct AlarmConfig {
    pub wait_secs: u64,
    pub repeat: bool,
    pub times_per_fire: usize,
}

impl AlarmConfig {
    pub open spec fn wf(&self) -> bool {
        self.wait_secs > 0 && self.times_per_fire >= 1
    }

    /// A configuration, or `None` when the wait is zero or the notification
    /// would be given zero times.
    pub fn new(wait_secs: u64, repeat: bool, times_per_fire: usize) -> (r: Option<AlarmConfig>)
        ensures
            r is Some <==> (wait_secs > 0 && times_per_fire >= 1),
            r matches Some(c) ==> c.wf() && c.wait_secs == wait_secs && c.repeat == repeat
                && c.times_per_fire == times_per_fire,
    {
        if wait_secs > 0 && times_per_fire >= 1 {
            Some(AlarmConfig { wait_secs, repeat, times_per_fire })
        } else {
            None
        }
    }
}

/// The line announced when an alarm is set.
pub open spec fn status_spec(c: AlarmConfig) -> Seq<char> {
    if c.repeat {
        "Recurring alarm set to play every "@ + humanize_spec(c.wait_secs as nat) + seq!['.']
    } else {
        "Alarm set to play after "@ + humanize_spec(c.wait_secs as nat) + seq!['.']
    }
}

/// The line announced when an alarm is set, naming its interval.
pub fn status_line(c: &AlarmConfig) -> (r: String)
    ensures
        r@ == status_spec(*c),
{
    let phrase = humanize_secs(c.wait_secs);
    let mut out = if c.repeat {
        String::from_str("Recurring alarm set to play every ")
    } else {
        String::from_str("Alarm set to play after ")
    };
    out.append(phrase.as_str());
    out.append(".");
    proof {
        reveal_strlit(".");
    }
    out
}

/// Where the alarm stands.
#[derive(Clone, Copy, Debug, PartialEq, Eq, Structural)]
pub enum Phase {
    Idle,
    Waiting,
    /// Delivering; `done` notifications of this fire have been given.
    Firing { done: usize },
    Done,
}

/// What the caller reports back.
#[derive(Clone, Copy, Debug, PartialEq, Eq, Structural)]
pub enum Event {
    Started,
    TimerExpired,
    Delivered,
    DeliveryFailed { error: DeliveryError },
}

/// What the caller is to do next.
#[derive(Clone, Copy, Debug, PartialEq, Eq, Structural)]
pub enum Action {
    /// Suspend for exactly this many seconds, then report `TimerExpired`.
    Sleep { secs: u64 },
    /// Give the notification once, then report how it went.
    Deliver,
    /// The alarm has fired and does not repeat: stop normally.
    Finish,
    /// A fatal delivery error: report it and stop with a failure.
    Abort { error: DeliveryError },
    /// The event does not apply in this phase; nothing changes.
    Ignore,
}

/// The step after a notification of a fire has been given, `done` having been
/// given before it.
pub open spec fn after_delivery(c: AlarmConfig, done: usize) -> (Phase, Action) {
    if done + 1 < c.times_per_fire {
        (Phase::Firing { done: (done + 1) as usize }, Action::Deliver)
    } else if c.repeat {
        (Phase::Waiting, Action::Sleep { secs: c.wait_secs })
    } else {
        (Phase::Done, Action::Finish)
    }
}

/// The next phase and action for an event in a phase.
pub open spec fn transition(c: AlarmConfig, p: Phase, e: Event) -> (Phase, Action) {
    match p {
        Phase::Idle => match e {
            Event::Started => (Phase::Waiting, Action::Sleep { secs: c.wait_secs }),
            _ => (p, Action::Ignore),
        },
        Phase::Waiting => match e {
            Event::TimerExpired => (Phase::Firing { done: 0 }, Action::Deliver),
            _ => (p, Action::Ignore),
        },
        Phase::Firing { done } => match e {
            Event::Delivered => after_delivery(c, done),
            Event::DeliveryFailed { error } => if is_fatal_spec(error) {
                (Phase::Done, Action::Abort { error })
            } else {
                after_delivery(c, done)
            },
            _ => (p, Action::Ignore),
        },
        Phase::Done => (p, Action::Ignore),
    }
}

pub open spec fn phase_fits(c: AlarmConfig, p: Phase) -> bool {
    match p {
        Phase::Firing { done } => done < c.times_per_fire,
        _ => true,
    }
}

/// The alarm's control: its configuration and where it stands.
pub struct AlarmScheduler {
    config: AlarmConfig,
    phase: Phase,
}

impl AlarmScheduler {
    pub closed spec fn config_spec(&self) -> AlarmConfig {
        self.config
    }

    pub closed spec fn phase_spec(&self) -> Phase {
        self.phase
    }

    /// The configuration is valid and the phase fits it.
    pub closed spec fn wf(&self) -> bool {
        self.config.wf() && phase_fits(self.config, self.phase)
    }

    /// A scheduler that has not started.
    pub fn new(config: AlarmConfig) -> (r: AlarmScheduler)
        requires
            config.wf(),
        ensures
            r.wf(),
            r.config_spec() == config,
            r.phase_spec() == Phase::Idle,
    {
        AlarmScheduler { config, phase: Phase::Idle }
    }

    pub fn config(&self) -> (r: AlarmConfig)
        ensures
            r == self.config_spec(),
    {
        self.config
    }

    pub fn phase(&self) -> (r: Phase)
        ensures
            r == self.phase_spec(),
    {
        self.phase
    }

    fn after_delivery(&mut self, done: usize) -> (a: Action)
        requires
            old(self).wf(),
            done < old(self).config_spec().times_per_fire,
        ensures
            final(self).wf(),
            final(self).config_spec() == old(self).config_spec(),
            (final(self).phase_spec(), a) == after_delivery(old(self).config_spec(), done),
    {
        if done + 1 < self.config.times_per_fire {
            self.phase = Phase::Firing { done: done + 1 };
            Action::Deliver
        } else if self.config.repeat {
            self.phase = Phase::Waiting;
            Action::Sleep { secs: self.config.wait_secs }
        } else {
            self.phase = Phase::Done;
            Action::Finish
        }
    }

    /// Takes in what happened and says what to do next.
    pub fn step(&mut self, event: Event) -> (a: Action)
        requires
            old(self).wf(),
        ensures
            final(self).wf(),
            final(self).config_spec() == old(self).config_spec(),
            (final(self).phase_spec(), a) == transition(old(self).config_spec(), old(self).phase_spec(), event),
    {
        match self.phase {
            Phase::Idle => match event {
                Event::Started => {
                    self.phase = Phase::Waiting;
                    Action::Sleep { secs: self.config.wait_secs }
                },
                _ => Action::Ignore,
            },
            Phase::Waiting => match event {
                Event::TimerExpired => {
                    self.phase = Phase::Firing { done: 0 };
                    Action::Deliver
                },
                _ => Action::Ignore,
            },
            Phase::Firing { done } => match event {
                Event::Delivered => self.after_delivery(done),
                Event::DeliveryFailed { error } => {
                    if error.is_fatal() {
                        self.phase = Phase::Done;
                        Action::Abort { error }
                    } else {
                        self.after_delivery(done)
                    }
                },
                _ => Action::Ignore,
            },
            Phase::Done => Action::Ignore,
        }
    }
}

} // verus!
