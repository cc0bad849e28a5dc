//! The pomodoro timer: alternating focus and break countdowns,
//! ticked once a second by the foreground loop. Times are whole
//! seconds; the notification sound and desktop notice that follow a
//! mode switch are the unverified shell's business.
use vstd::prelude::*;

verus! {

pub const FOCUS_SECS: u64 = 1500;

pub const BREAK_SECS: u64 = 300;

pub const FIVE_MINUTES_SECS: u64 = 300;

pub enum Mode {
    Focus,
    Break,
}

pub struct Pomodoro {
    pub visible: bool,
    pub running: bool,
    pub mode: Mode,
    /// Seconds left on the current countdown.
    pub remaining: u64,
    /// Length of a focus countdown, in seconds.
    pub focus_len: u64,
    /// Length of a break countdown, in seconds.
    pub break_len: u64,
}

impl Pomodoro {
    /// A fresh timer: visible, paused, a full focus countdown ahead.
    pub fn new() -> (p: Pomodoro)
        ensures
            p.visible,
            !p.running,
            p.mode is Focus,
            p.remaining == FOCUS_SECS,
            p.focus_len == FOCUS_SECS,
            p.break_len == BREAK_SECS,
    {
        Pomodoro {
            visible: true,
            running: false,
            mode: Mode::Focus,
            remaining: FOCUS_SECS,
            focus_len: FOCUS_SECS,
            break_len: BREAK_SECS,
        }
    }

    pub fn toggle_visible(&mut self)
        ensures
            *final(self) == (Pomodoro { visible: !old(self).visible, ..*old(self) }),
    {
        self.visible = !self.visible
    }

    pub fn start_pause(&mut self)
        ensures
            *final(self) == (Pomodoro { running: !old(self).running, ..*old(self) }),
    {
        self.running = !self.running
    }

    /// Back to a paused, full focus countdown.
    pub fn stop_reset(&mut self)
        ensures
            *final(self) == (Pomodoro {
                running: false,
                mode: Mode::Focus,
                remaining: old(self).focus_len,
                ..*old(self)
            }),
    {
        self.running = false;
        self.mode = Mode::Focus;
        self.remaining = self.focus_len;
    }

    pub fn add_five_minutes(&mut self)
        requires
            old(self).remaining + FIVE_MINUTES_SECS <= u64::MAX,
        ensures
            *final(self) == (Pomodoro {
                remaining: (old(self).remaining + FIVE_MINUTES_SECS) as u64,
                ..*old(self)
            }),
    {
        self.remaining = self.remaining + FIVE_MINUTES_SECS;
    }

    /// Tick one second. Returns true exactly when the countdown ran
    /// out and the mode switched (the shell then plays a notification);
    /// the switched-to countdown starts paused.
    pub fn tick_1s(&mut self) -> (switched: bool)
        ensures
            !old(self).running ==> *final(self) == *old(self) && !switched,
            old(self).running && old(self).remaining == 0 ==> switched && *final(self) == (
            Pomodoro {
                running: false,
                mode: (if old(self).mode is Focus {
                    Mode::Break
                } else {
                    Mode::Focus
                }),
                remaining: (if old(self).mode is Focus {
                    old(self).break_len
                } else {
                    old(self).focus_len
                }),
                ..*old(self)
            }),
            old(self).running && old(self).remaining > 0 ==> !switched && *final(self) == (
            Pomodoro { remaining: (old(self).remaining - 1) as u64, ..*old(self) }),
    {
        if !self.running {
            return false;
        }
        if self.remaining == 0 {
            self.running = false;
            self.mode = match self.mode {
                Mode::Focus => Mode::Break,
                Mode::Break => Mode::Focus,
            };
            self.remaining = match self.mode {
                Mode::Focus => self.focus_len,
                Mode::Break => self.break_len,
            };
            return true;
        }
        self.remaining = self.remaining - 1;
        false
    }

    /// The countdown as minutes and seconds on a clock face.
    pub fn mmss(&self) -> (r: (u64, u64))
        ensures
            r.0 == self.remaining / 60,
            r.1 == self.remaining % 60,
            r.1 < 60,
    {
        (self.remaining / 60, self.remaining % 60)
    }
}

} // verus!
