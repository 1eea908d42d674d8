//! The buzzer driver's decisions: when the buzzer should sound, how the
//! hardware line location is parsed, and the blink-task state machine with
//! its cached line location and consecutive-failure counter.
//!
//! The hardware commands themselves (resolving the line, driving it, the
//! one-second tick) are performed by the surrounding process, which reports
//! each outcome back to this state machine.

use vstd::prelude::*;
use vstd::string::StrSliceExecFns;

verus! {

/// The buzzer sounds exactly when it is administratively enabled, some
/// alert is active, and no mute window is.
pub open spec fn spec_buzzer_should_sound(enabled: bool, alerts_empty: bool, muted: bool) -> bool {
    enabled && !alerts_empty && !muted
}

pub fn buzzer_should_sound(enabled: bool, alerts_empty: bool, muted: bool) -> (r: bool)
    ensures
        r == spec_buzzer_should_sound(enabled, alerts_empty, muted),
{
    enabled && !alerts_empty && !muted
}

/// ASCII whitespace, as the line-location output separates its tokens.
pub open spec fn is_ws(c: char) -> bool {
    c == ' ' || c == '\t' || c == '\n' || c == '\r'
}

/// First index at or after `i` holding a non-whitespace character, or the
/// end of the sequence.
pub open spec fn skip_ws(s: Seq<char>, i: int) -> int
    decreases s.len() - i,
{
    if i < 0 || i >= s.len() {
        s.len() as int
    } else if is_ws(s[i]) {
        skip_ws(s, i + 1)
    } else {
        i
    }
}

/// First index at or after `i` holding a whitespace character, or the end
/// of the sequence.
pub open spec fn skip_token(s: Seq<char>, i: int) -> int
    decreases s.len() - i,
{
    if i < 0 || i >= s.len() {
        s.len() as int
    } else if !is_ws(s[i]) {
        skip_token(s, i + 1)
    } else {
        i
    }
}

/// The first two whitespace-separated tokens of the text, if it has two:
/// the hardware chip and line identifiers as the resolution command prints
/// them.
pub open spec fn gpio_tokens(s: Seq<char>) -> Option<(Seq<char>, Seq<char>)> {
    let a0 = skip_ws(s, 0);
    if a0 >= s.len() {
        None
    } else {
        let a1 = skip_token(s, a0);
        let b0 = skip_ws(s, a1);
        if b0 >= s.len() {
            None
        } else {
            let b1 = skip_token(s, b0);
            Some((s.subrange(a0, a1), s.subrange(b0, b1)))
        }
    }
}

/// Index of the first non-whitespace character at or after `from`.
fn scan_ws(s: &str, len: usize, from: usize) -> (r: usize)
    requires
        len == s@.len(),
        from <= len,
    ensures
        r == skip_ws(s@, from as int),
        from <= r <= len,
{
    let mut i = from;
    while i < len
        invariant
            len == s@.len(),
            from <= i <= len,
            skip_ws(s@, from as int) == skip_ws(s@, i as int),
        decreases len - i,
    {
        let c = s.get_char(i);
        if !(c == ' ' || c == '\t' || c == '\n' || c == '\r') {
            return i;
        }
        i += 1;
    }
    i
}

/// Index of the first whitespace character at or after `from`.
fn scan_token(s: &str, len: usize, from: usize) -> (r: usize)
    requires
        len == s@.len(),
        from <= len,
    ensures
        r == skip_token(s@, from as int),
        from <= r <= len,
    decreases len - from,
{
    let mut i = from;
    while i < len
        invariant
            len == s@.len(),
            from <= i <= len,
            skip_token(s@, from as int) == skip_token(s@, i as int),
        decreases len - i,
    {
        let c = s.get_char(i);
        if c == ' ' || c == '\t' || c == '\n' || c == '\r' {
            return i;
        }
        i += 1;
    }
    i
}

/// Parse the hardware line location out of the resolution command's output:
/// its first two whitespace-separated tokens, as chip and line identifiers.
pub fn parse_gpio_location(output: &str) -> (r: Option<(String, String)>)
    ensures
        match r {
            Some(t) => gpio_tokens(output@) == Some((t.0@, t.1@)),
            None => gpio_tokens(output@) is None,
        },
{
    let len = output.unicode_len();
    let a0 = scan_ws(output, len, 0);
    if a0 >= len {
        return None;
    }
    let a1 = scan_token(output, len, a0);
    let b0 = scan_ws(output, len, a1);
    if b0 >= len {
        return None;
    }
    let b1 = scan_token(output, len, b0);
    let chip = output.substring_char(a0, a1).to_owned();
    let line = output.substring_char(b0, b1).to_owned();
    Some((chip, line))
}

/// What a blink tick asks of its task.
#[derive(Clone, Copy, Debug, PartialEq, Eq, Structural)]
pub enum BlinkDirective {
    /// Keep blinking.
    Continue,
    /// Too many consecutive hardware failures: force the line low and end
    /// the task.
    StopAndForceLow,
    /// The task was superseded: end it without touching the line.
    Stop,
}

/// Consecutive hardware-command failures after which the blink task gives
/// up, forces the line low, and terminates itself.
pub const BLINK_FAILURE_LIMIT: u8 = 5;

/// State of the buzzer driver: the enable flag, whether a blink task runs,
/// the cached hardware line location, and the blink task's consecutive
/// failure count.
pub struct BuzzerDriver {
    enabled: bool,
    blink_active: bool,
    line_cache: Option<(String, String)>,
    consecutive_failures: u8,
}

impl BuzzerDriver {
    pub closed spec fn enabled(&self) -> bool {
        self.enabled
    }

    pub closed spec fn blink_active(&self) -> bool {
        self.blink_active
    }

    pub closed spec fn cache(&self) -> Option<(String, String)> {
        self.line_cache
    }

    pub closed spec fn failures(&self) -> u8 {
        self.consecutive_failures
    }

    /// At most one blink task exists, and one that runs has not yet reached
    /// the failure limit.
    pub open spec fn wf(&self) -> bool {
        &&& self.failures() <= BLINK_FAILURE_LIMIT
        &&& self.blink_active() ==> self.failures() < BLINK_FAILURE_LIMIT
    }

    pub fn new(enabled: bool) -> (r: BuzzerDriver)
        ensures
            r.wf(),
            r.enabled() == enabled,
            !r.blink_active(),
            r.cache() is None,
            r.failures() == 0,
    {
        BuzzerDriver { enabled, blink_active: false, line_cache: None, consecutive_failures: 0 }
    }

    /// Whether the blink task is running.
    pub fn is_blinking(&self) -> (r: bool)
        ensures
            r == self.blink_active(),
    {
        self.blink_active
    }

    /// Whether turning the buzzer on now needs the hardware line resolved
    /// first.
    pub fn needs_resolution(&self) -> (r: bool)
        ensures
            r == (self.enabled() && !self.blink_active() && self.cache() is None),
    {
        self.enabled && !self.blink_active && match &self.line_cache {
            Some(_) => false,
            None => true,
        }
    }

    /// The cached line location, for the caller's hardware commands.
    pub fn cached_line(&self) -> (r: Option<(String, String)>)
        ensures
            match r {
                Some(t) => self.cache() matches Some(c) && c.0@ == t.0@ && c.1@ == t.1@,
                None => self.cache() is None,
            },
    {
        match &self.line_cache {
            Some(t) => Some((t.0.clone(), t.1.clone())),
            None => None,
        }
    }

    /// Turn the buzzer on. `resolved` is the freshly resolved line location
    /// (consulted only when none is cached) and `drive_high_ok` the outcome
    /// of driving the line high. Disabled, the call succeeds without
    /// touching hardware; with a blink task already running it is an
    /// idempotent success; otherwise it caches the line, and on a
    /// successful high command starts the blink task. Any failure reports
    /// `false`, leaves no blink task, and leaves no cached line.
    pub fn set_state_on(&mut self, resolved: Option<(String, String)>, drive_high_ok: bool) -> (r:
        bool)
        requires
            old(self).wf(),
        ensures
            final(self).wf(),
            final(self).enabled() == old(self).enabled(),
            !old(self).enabled() ==> r && *final(self) == *old(self),
            old(self).enabled() && old(self).blink_active() ==> r && *final(self) == *old(self),
            old(self).enabled() && !old(self).blink_active() ==> {
                &&& (old(self).cache() is None && resolved is None) ==> !r && *final(self) == *old(self)
                &&& (old(self).cache() is Some || resolved is Some) ==> {
                    &&& r == drive_high_ok
                    &&& final(self).blink_active() == drive_high_ok
                    &&& drive_high_ok ==> final(self).failures() == 0 && final(self).cache()
                        == (if old(self).cache() is Some {
                        old(self).cache()
                    } else {
                        resolved
                    })
                    &&& !drive_high_ok ==> final(self).cache() is None
                }
            },
    {
        if !self.enabled {
            return true;
        }
        if self.blink_active {
            return true;
        }
        let had_cache = match &self.line_cache {
            Some(_) => true,
            None => false,
        };
        if !had_cache {
            match resolved {
                Some(loc) => {
                    self.line_cache = Some(loc);
                }
                None => {
                    return false;
                }
            }
        }
        if drive_high_ok {
            self.blink_active = true;
            self.consecutive_failures = 0;
            true
        } else {
            self.line_cache = None;
            false
        }
    }

    /// Turn the buzzer off: any blink task is ended either way. Disabled,
    /// the call succeeds without touching hardware; otherwise it reports
    /// the low command's outcome, and a failed command invalidates the
    /// cached line.
    pub fn set_state_off(&mut self, drive_low_ok: bool) -> (r: bool)
        requires
            old(self).wf(),
        ensures
            final(self).wf(),
            final(self).enabled() == old(self).enabled(),
            !final(self).blink_active(),
            final(self).failures() == 0,
            !old(self).enabled() ==> r && final(self).cache() == old(self).cache(),
            old(self).enabled() ==> r == drive_low_ok && (if drive_low_ok {
                final(self).cache() == old(self).cache()
            } else {
                final(self).cache() is None
            }),
    {
        self.blink_active = false;
        self.consecutive_failures = 0;
        if !self.enabled {
            return true;
        }
        if !drive_low_ok {
            self.line_cache = None;
        }
        drive_low_ok
    }

    /// One blink tick happened with outcome `toggle_ok`. A success resets
    /// the failure count; a failure invalidates the cached line and counts,
    /// and the fifth consecutive failure ends the task and forces the line
    /// low. A tick arriving after the task was ended is a stale no-op.
    pub fn blink_tick(&mut self, toggle_ok: bool) -> (r: BlinkDirective)
        requires
            old(self).wf(),
        ensures
            final(self).wf(),
            final(self).enabled() == old(self).enabled(),
            !old(self).blink_active() ==> r == BlinkDirective::Stop && *final(self) == *old(self),
            old(self).blink_active() && toggle_ok ==> r == BlinkDirective::Continue && final(self).blink_active() && final(self).failures() == 0 && final(self).cache() == old(self).cache(),
            old(self).blink_active() && !toggle_ok ==> {
                &&& final(self).cache() is None
                &&& final(self).failures() == old(self).failures() + 1
                &&& (old(self).failures() + 1 == BLINK_FAILURE_LIMIT ==> r
                    == BlinkDirective::StopAndForceLow && !final(self).blink_active())
                &&& (old(self).failures() + 1 < BLINK_FAILURE_LIMIT ==> r
                    == BlinkDirective::Continue && final(self).blink_active())
            },
    {
        if !self.blink_active {
            return BlinkDirective::Stop;
        }
        if toggle_ok {
            self.consecutive_failures = 0;
            BlinkDirective::Continue
        } else {
            self.line_cache = None;
            self.consecutive_failures = self.consecutive_failures + 1;
            if self.consecutive_failures >= BLINK_FAILURE_LIMIT {
                self.blink_active = false;
                BlinkDirective::StopAndForceLow
            } else {
                BlinkDirective::Continue
            }
        }
    }
}

} // verus!
