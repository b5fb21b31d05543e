//! The countdown to the start of the contest: what it shows at a given
//! time, and when it logs in. A time is a number of milliseconds since the
//! Unix epoch.
use vstd::prelude::*;

verus! {

/// What the countdown reads.
#[derive(Debug, Clone, Copy, PartialEq, Eq)]
pub enum CountdownLabel {
    /// Nothing.
    Blank,
    /// This many seconds remain.
    Seconds(i64),
    /// The start is reached.
    Starting,
}

/// What the countdown shows at one moment, and whether that moment is the
/// one to log in.
#[derive(Debug, Clone, Copy, PartialEq, Eq)]
pub struct CountdownFace {
    /// Whether the mark shows that tells that a start time is known.
    pub connected: bool,
    pub label: CountdownLabel,
    /// Whether to log in now.
    pub login: bool,
}

/// The state of the countdown.
#[derive(Debug, Clone, Copy, PartialEq, Eq)]
pub struct CountdownState {
    /// When the contest starts, where that is known.
    pub end_time: Option<i64>,
    /// The countdown shows once this many seconds remain, or always where
    /// none is set.
    pub from_seconds: Option<u64>,
    /// Whether to log in when the start is reached.
    pub end_login: bool,
    /// Whether the login for this start time was asked for already.
    pub triggered: bool,
}

/// Whole seconds from `now` to `end_time`: a second begun does not count,
/// before the start or after it.
pub open spec fn seconds_left(end_time: i64, now: i64) -> int {
    if end_time >= now {
        (end_time - now) / 1000
    } else {
        -((now - end_time) / 1000)
    }
}

/// Whether the countdown shows with this many seconds left.
pub open spec fn shows(from_seconds: Option<u64>, seconds: int) -> bool {
    match from_seconds {
        Some(threshold) => seconds <= threshold,
        None => true,
    }
}

/// What the countdown shows at the time `now`.
pub open spec fn face_at(state: CountdownState, now: i64) -> CountdownFace {
    match state.end_time {
        None => CountdownFace { connected: false, label: CountdownLabel::Blank, login: false },
        Some(end_time) => {
            let seconds = seconds_left(end_time, now);
            if !shows(state.from_seconds, seconds) {
                CountdownFace { connected: true, label: CountdownLabel::Blank, login: false }
            } else if seconds > 0 {
                CountdownFace {
                    connected: true,
                    label: CountdownLabel::Seconds(seconds as i64),
                    login: false,
                }
            } else {
                CountdownFace {
                    connected: true,
                    label: CountdownLabel::Starting,
                    login: state.end_login && !state.triggered,
                }
            }
        },
    }
}

/// How long from `now` until the countdown begins to show: the time left
/// less the span it shows for, and nothing once that moment has passed.
pub open spec fn delay(state: CountdownState, now: i64) -> Option<int> {
    match state.end_time {
        None => None,
        Some(end_time) => {
            let span = match state.from_seconds {
                Some(seconds) => seconds * 1000,
                None => 0,
            };
            let wait = end_time - now - span;
            Some(
                if wait > 0 {
                    wait
                } else {
                    0
                },
            )
        },
    }
}

impl CountdownState {
    /// A countdown to `end_time` that has not logged in yet.
    pub fn new(end_time: Option<i64>, from_seconds: Option<u64>, end_login: bool) -> (r: Self)
        ensures
            r == (CountdownState { end_time, from_seconds, end_login, triggered: false }),
    {
        Self { end_time, from_seconds, end_login, triggered: false }
    }

    /// Takes a new start time. A time that is given replaces the old one and
    /// may log in again; none given leaves the countdown as it is.
    pub fn update_endtime(&mut self, end_time: Option<i64>)
        ensures
            *final(self) == match end_time {
                Some(time) => CountdownState {
                    end_time: Some(time),
                    triggered: false,
                    ..*old(self)
                },
                None => *old(self),
            },
    {
        match end_time {
            Some(time) => {
                self.end_time = Some(time);
                self.triggered = false;
            },
            None => {},
        }
    }

    /// What the countdown shows at the time `now`. Where it says to log in,
    /// it remembers that it did, and does not say so again for this start
    /// time.
    pub fn tick(&mut self, now: i64) -> (r: CountdownFace)
        ensures
            r == face_at(*old(self), now),
            *final(self) == (CountdownState {
                triggered: old(self).triggered || r.login,
                ..*old(self)
            }),
    {
        match self.end_time {
            None => CountdownFace { connected: false, label: CountdownLabel::Blank, login: false },
            Some(end_time) => {
                let seconds: i128 = if end_time >= now {
                    (end_time as i128 - now as i128) / 1000
                } else {
                    -((now as i128 - end_time as i128) / 1000)
                };
                let show = match self.from_seconds {
                    Some(threshold) => seconds <= threshold as i128,
                    None => true,
                };
                if !show {
                    CountdownFace { connected: true, label: CountdownLabel::Blank, login: false }
                } else if seconds > 0 {
                    CountdownFace {
                        connected: true,
                        label: CountdownLabel::Seconds(seconds as i64),
                        login: false,
                    }
                } else {
                    let login = self.end_login && !self.triggered;
                    if login {
                        self.triggered = true;
                    }
                    CountdownFace { connected: true, label: CountdownLabel::Starting, login }
                }
            },
        }
    }

    /// How many milliseconds from `now` the countdown begins to show, where
    /// a start time is known.
    pub fn start_delay_ms(&self, now: i64) -> (r: Option<u64>)
        ensures
            match delay(*self, now) {
                Some(wait) => r == Some(wait as u64) && wait <= u64::MAX,
                None => r is None,
            },
    {
        match self.end_time {
            None => None,
            Some(end_time) => {
                let span: i128 = match self.from_seconds {
                    Some(seconds) => seconds as i128 * 1000,
                    None => 0,
                };
                let wait: i128 = end_time as i128 - now as i128 - span;
                if wait > 0 {
                    Some(wait as u64)
                } else {
                    Some(0)
                }
            },
        }
    }
}

} // verus!
