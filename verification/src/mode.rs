//! Game modes: Marathon, Sprint, Ultra.
//!
//! Timing is driven by a caller-supplied monotonic clock in milliseconds,
//! so the state machine itself stays deterministic.

use vstd::prelude::*;

use crate::text::{spec_padded_decimal, u64_to_padded_string};

verus! {

/// Sprint mode target in lines.
pub const SPRINT_TARGET_LINES: u32 = 40;

/// Ultra mode time limit in milliseconds (3 minutes).
pub const ULTRA_TIME_LIMIT_MS: u64 = 180000;

/// Available game modes.
#[derive(Debug, Clone, Copy, PartialEq, Eq, Structural, Default)]
pub enum GameMode {
    /// Endless; the level increases every 10 lines.
    #[default]
    Marathon,
    /// Clear 40 lines as fast as possible.
    Sprint,
    /// Score as much as possible in 3 minutes.
    Ultra,
}

impl GameMode {
    /// The display name of the mode.
    pub open spec fn spec_name(self) -> Seq<char> {
        match self {
            GameMode::Marathon => "Marathon"@,
            GameMode::Sprint => "Sprint"@,
            GameMode::Ultra => "Ultra"@,
        }
    }

    pub fn name(&self) -> (r: &'static str)
        ensures
            r@ == self.spec_name(),
    {
        match self {
            GameMode::Marathon => "Marathon",
            GameMode::Sprint => "Sprint",
            GameMode::Ultra => "Ultra",
        }
    }

    /// The one-line description of the mode.
    pub open spec fn spec_description(self) -> Seq<char> {
        match self {
            GameMode::Marathon => "Endless mode - level up every 10 lines"@,
            GameMode::Sprint => "Clear 40 lines as fast as possible"@,
            GameMode::Ultra => "Score as much as you can in 3 minutes"@,
        }
    }

    pub fn description(&self) -> (r: &'static str)
        ensures
            r@ == self.spec_description(),
    {
        match self {
            GameMode::Marathon => "Endless mode - level up every 10 lines",
            GameMode::Sprint => "Clear 40 lines as fast as possible",
            GameMode::Ultra => "Score as much as you can in 3 minutes",
        }
    }

    /// The level a game of this mode starts on.
    pub open spec fn spec_starting_level(self) -> u32 {
        match self {
            GameMode::Marathon => 1u32,
            GameMode::Sprint => 5u32,
            GameMode::Ultra => 5u32,
        }
    }

    pub fn starting_level(&self) -> (r: u32)
        ensures
            r == self.spec_starting_level(),
    {
        match self {
            GameMode::Marathon => 1,
            GameMode::Sprint => 5,
            GameMode::Ultra => 5,
        }
    }

    /// All modes, in menu order.
    pub fn all() -> (r: [GameMode; 3])
        ensures
            r@ == seq![GameMode::Marathon, GameMode::Sprint, GameMode::Ultra],
    {
        let r = [GameMode::Marathon, GameMode::Sprint, GameMode::Ultra];
        proof {
            assert(r@ =~= seq![GameMode::Marathon, GameMode::Sprint, GameMode::Ultra]);
        }
        r
    }
}

/// Mode-specific game state: the elapsed-time tracker and the mode's
/// completion targets.
#[derive(Debug, Clone, Copy, PartialEq, Eq, Structural)]
pub struct ModeState {
    pub mode: GameMode,
    /// The clock reading when the round started, if it has started.
    pub start_ms: Option<u64>,
    /// Elapsed play time in milliseconds, as of the last update.
    pub elapsed_ms: u64,
    /// For Sprint: lines to clear.
    pub target_lines: u32,
    /// For Ultra: the time limit in milliseconds.
    pub time_limit_ms: u64,
}

impl ModeState {
    pub fn new(mode: GameMode) -> (s: ModeState)
        ensures
            s == (ModeState {
                mode,
                start_ms: None::<u64>,
                elapsed_ms: 0u64,
                target_lines: SPRINT_TARGET_LINES,
                time_limit_ms: ULTRA_TIME_LIMIT_MS,
            }),
    {
        ModeState {
            mode,
            start_ms: None,
            elapsed_ms: 0,
            target_lines: SPRINT_TARGET_LINES,
            time_limit_ms: ULTRA_TIME_LIMIT_MS,
        }
    }

    /// Start the timer at the given clock reading.
    pub fn start(&mut self, now_ms: u64)
        ensures
            *final(self) == (ModeState { start_ms: Some(now_ms), ..*old(self) }),
    {
        self.start_ms = Some(now_ms);
    }

    /// The elapsed time the tracker shows after an update at `now_ms`:
    /// unchanged before the round starts, otherwise the time since start
    /// (zero if the clock reads earlier than the start).
    pub open spec fn spec_updated(self, now_ms: u64) -> ModeState {
        match self.start_ms {
            Some(start) => ModeState {
                elapsed_ms: if now_ms >= start {
                    (now_ms - start) as u64
                } else {
                    0u64
                },
                ..self
            },
            None => self,
        }
    }

    /// Update the elapsed-time tracker from the clock.
    pub fn update(&mut self, now_ms: u64)
        ensures
            *final(self) == old(self).spec_updated(now_ms),
    {
        if let Some(start) = self.start_ms {
            self.elapsed_ms = now_ms.saturating_sub(start);
        }
    }

    /// A mode is complete when its goal is reached: never for Marathon,
    /// at the target lines for Sprint, at the time limit for Ultra.
    pub open spec fn spec_is_complete(self, lines_cleared: u32) -> bool {
        match self.mode {
            GameMode::Marathon => false,
            GameMode::Sprint => lines_cleared >= self.target_lines,
            GameMode::Ultra => self.elapsed_ms >= self.time_limit_ms,
        }
    }

    /// Check if the game is complete based on the mode.
    pub fn is_complete(&self, lines_cleared: u32) -> (r: bool)
        ensures
            r == self.spec_is_complete(lines_cleared),
    {
        match self.mode {
            GameMode::Marathon => false,
            GameMode::Sprint => lines_cleared >= self.target_lines,
            GameMode::Ultra => self.elapsed_ms >= self.time_limit_ms,
        }
    }

    /// Get remaining time in milliseconds for Ultra mode (None otherwise).
    pub fn time_remaining(&self) -> (r: Option<u64>)
        ensures
            r == match self.mode {
                GameMode::Ultra => Some(
                    if self.time_limit_ms >= self.elapsed_ms {
                        (self.time_limit_ms - self.elapsed_ms) as u64
                    } else {
                        0u64
                    },
                ),
                _ => None::<u64>,
            },
    {
        match self.mode {
            GameMode::Ultra => Some(self.time_limit_ms.saturating_sub(self.elapsed_ms)),
            _ => None,
        }
    }

    /// Get lines remaining for Sprint mode (None otherwise).
    pub fn lines_remaining(&self, lines_cleared: u32) -> (r: Option<u32>)
        ensures
            r == match self.mode {
                GameMode::Sprint => Some(
                    if self.target_lines >= lines_cleared {
                        (self.target_lines - lines_cleared) as u32
                    } else {
                        0u32
                    },
                ),
                _ => None::<u32>,
            },
    {
        match self.mode {
            GameMode::Sprint => Some(self.target_lines.saturating_sub(lines_cleared)),
            _ => None,
        }
    }

    /// The elapsed time rendered as zero-padded minutes, seconds and
    /// milliseconds.
    pub open spec fn spec_format_time(self) -> Seq<char> {
        spec_padded_decimal((self.elapsed_ms as int / 60000) as nat, 2) + ":"@
            + spec_padded_decimal(((self.elapsed_ms as int % 60000) / 1000) as nat, 2) + "."@
            + spec_padded_decimal((self.elapsed_ms as int % 1000) as nat, 3)
    }

    /// Format elapsed time as MM:SS.mmm.
    pub fn format_time(&self) -> (s: String)
        ensures
            s@ == self.spec_format_time(),
    {
        let total_millis = self.elapsed_ms;
        let minutes = total_millis / 60000;
        let seconds = (total_millis % 60000) / 1000;
        let millis = total_millis % 1000;
        let s = u64_to_padded_string(minutes, 2);
        let s = s.concat(":");
        let s = s.concat(u64_to_padded_string(seconds, 2).as_str());
        let s = s.concat(".");
        let s = s.concat(u64_to_padded_string(millis, 3).as_str());
        s
    }

    /// The remaining Ultra time rendered as zero-padded minutes and seconds,
    /// for Ultra mode only.
    pub open spec fn spec_format_remaining(self, remaining_ms: u64) -> Seq<char> {
        spec_padded_decimal((remaining_ms as int / 1000 / 60) as nat, 2) + ":"@
            + spec_padded_decimal((remaining_ms as int / 1000 % 60) as nat, 2)
    }

    /// Format remaining time for Ultra mode as MM:SS (None otherwise).
    pub fn format_remaining(&self) -> (s: Option<String>)
        ensures
            match self.mode {
                GameMode::Ultra => s is Some && s.unwrap()@ == self.spec_format_remaining(
                    if self.time_limit_ms >= self.elapsed_ms {
                        (self.time_limit_ms - self.elapsed_ms) as u64
                    } else {
                        0u64
                    },
                ),
                _ => s is None,
            },
    {
        match self.time_remaining() {
            Some(remaining) => {
                let total_secs = remaining / 1000;
                let minutes = total_secs / 60;
                let seconds = total_secs % 60;
                let s = u64_to_padded_string(minutes, 2);
                let s = s.concat(":");
                let s = s.concat(u64_to_padded_string(seconds, 2).as_str());
                Some(s)
            },
            None => None,
        }
    }
}

} // verus!
