//! Scoring system following modern Tetris guidelines.

use vstd::prelude::*;

use crate::text::{spec_decimal, u64_to_string};

verus! {

/// Type of line clear for scoring.
#[derive(Debug, Clone, Copy, PartialEq, Eq, Structural)]
pub enum ClearType {
    /// Regular line clear (1-4 lines).
    Regular(u8),
    /// T-Spin with lines cleared (0-3).
    TSpin(u8),
    /// Mini T-Spin with lines cleared (0-1).
    MiniTSpin(u8),
}

/// Scoring state: points, level, total lines, combo and back-to-back.
#[derive(Debug, Clone, Default)]
pub struct Score {
    /// Current score. Monotonically non-decreasing within a game.
    pub points: u64,
    /// Current level, recomputed as total lines / 10 + 1 on every clear.
    pub level: u32,
    /// Total lines cleared.
    pub lines: u32,
    /// Current combo count (-1 = no combo).
    pub combo: i32,
    /// Whether the last scoring clear was "difficult" (Tetris or any
    /// T-spin variant).
    pub back_to_back: bool,
}

/// The base score, lines cleared and difficulty of a clear type.
/// A payload outside the defined ranges scores nothing.
pub open spec fn spec_clear_params(clear_type: ClearType) -> (int, int, bool) {
    match clear_type {
        ClearType::Regular(n) => if n == 1 {
            (100int, 1int, false)
        } else if n == 2 {
            (300int, 2int, false)
        } else if n == 3 {
            (500int, 3int, false)
        } else if n == 4 {
            (800int, 4int, true)
        } else {
            (0int, 0int, false)
        },
        ClearType::TSpin(n) => if n == 0 {
            (400int, 0int, true)
        } else if n == 1 {
            (800int, 1int, true)
        } else if n == 2 {
            (1200int, 2int, true)
        } else if n == 3 {
            (1600int, 3int, true)
        } else {
            (0int, 0int, false)
        },
        ClearType::MiniTSpin(n) => if n == 0 {
            (100int, 0int, false)
        } else if n == 1 {
            (200int, 1int, false)
        } else {
            (0int, 0int, false)
        },
    }
}

/// The display name of a clear type.
pub open spec fn spec_action_name(clear_type: ClearType) -> Seq<char> {
    match clear_type {
        ClearType::Regular(n) => if n == 1 {
            "Single"@
        } else if n == 2 {
            "Double"@
        } else if n == 3 {
            "Triple"@
        } else if n == 4 {
            "Tetris"@
        } else {
            ""@
        },
        ClearType::TSpin(n) => if n == 0 {
            "T-Spin"@
        } else if n == 1 {
            "T-Spin Single"@
        } else if n == 2 {
            "T-Spin Double"@
        } else if n == 3 {
            "T-Spin Triple"@
        } else {
            ""@
        },
        ClearType::MiniTSpin(n) => if n == 0 {
            "Mini T-Spin"@
        } else if n == 1 {
            "Mini T-Spin Single"@
        } else {
            ""@
        },
    }
}

/// The level-scaled flat bonus for clearing the whole board, keyed by lines
/// cleared; a back-to-back 4-line all clear is worth more.
pub open spec fn spec_all_clear_bonus(lines: int, back_to_back: bool) -> int {
    if lines == 1 {
        800int
    } else if lines == 2 {
        1200int
    } else if lines == 3 {
        1800int
    } else if lines == 4 && back_to_back {
        3200int
    } else if lines == 4 {
        2000int
    } else {
        0int
    }
}

/// Addition clipped to a maximum (saturating, for the unreachable top of
/// the counter ranges).
pub open spec fn spec_sat_add(a: int, b: int, max: int) -> int {
    if a + b > max {
        max
    } else {
        a + b
    }
}

impl Score {
    /// A scoring state is well formed when the combo counter is at least
    /// the "no combo" sentinel -1.
    pub open spec fn wf(self) -> bool {
        self.combo >= -1
    }

    /// The scoring state after a clear, step by step: (1) lines are added
    /// and the level recomputed; (2) the base score is scaled by the level;
    /// (3) a difficult clear on an active back-to-back multiplies by 3/2
    /// (integer division) and sets back-to-back, a non-difficult clear of
    /// at least one line drops it; (4) a clearing lock advances the combo
    /// and a running combo adds 50 x combo x level; (5) an all clear adds
    /// its level-scaled flat bonus; (6) the total is accumulated.
    pub open spec fn spec_add_clear(self, clear_type: ClearType, all_clear: bool) -> Score {
        let (base, lines_add, difficult) = spec_clear_params(clear_type);
        let lines2 = spec_sat_add(self.lines as int, lines_add, u32::MAX as int);
        let level2 = lines2 / 10 + 1;
        let scaled = if difficult && self.back_to_back {
            base * level2 * 3 / 2
        } else {
            base * level2
        };
        let b2b2 = if difficult {
            true
        } else if lines_add > 0 {
            false
        } else {
            self.back_to_back
        };
        let combo2 = if lines_add > 0 {
            if self.combo < i32::MAX {
                self.combo + 1
            } else {
                self.combo as int
            }
        } else {
            self.combo as int
        };
        let with_combo = scaled + if lines_add > 0 && combo2 > 0 {
            50 * combo2 * level2
        } else {
            0int
        };
        let gain = with_combo + if all_clear {
            spec_all_clear_bonus(lines_add, b2b2) * level2
        } else {
            0int
        };
        Score {
            points: spec_sat_add(self.points as int, gain, u64::MAX as int) as u64,
            level: level2 as u32,
            lines: lines2 as u32,
            combo: combo2 as i32,
            back_to_back: b2b2,
        }
    }

    /// The display string of a clear: the action name, a " Combo x{n}"
    /// suffix while a combo is running, a "B2B " prefix for a difficult
    /// clear of lines under an active back-to-back, and an " ALL CLEAR!"
    /// suffix for an all clear.
    pub open spec fn spec_add_clear_text(self, clear_type: ClearType, all_clear: bool) -> Seq<
        char,
    > {
        let (base, lines_add, difficult) = spec_clear_params(clear_type);
        let s2 = self.spec_add_clear(clear_type, all_clear);
        let name = spec_action_name(clear_type);
        let with_combo = if s2.combo > 0 {
            name + " Combo x"@ + spec_decimal(s2.combo as nat)
        } else {
            name
        };
        let with_b2b = if s2.back_to_back && difficult && lines_add > 0 {
            "B2B "@ + with_combo
        } else {
            with_combo
        };
        if all_clear {
            with_b2b + " ALL CLEAR!"@
        } else {
            with_b2b
        }
    }

    /// Create a fresh scoring state: no points, level 1, no combo.
    pub fn new() -> (s: Score)
        ensures
            s == (Score { points: 0u64, level: 1u32, lines: 0u32, combo: -1i32, back_to_back: false }),
            s.wf(),
    {
        Score { points: 0, level: 1, lines: 0, combo: -1, back_to_back: false }
    }

    /// Calculate and add score for a line clear.
    /// Returns the action name for display.
    #[verifier::rlimit(60)]
    pub fn add_clear(&mut self, clear_type: ClearType, all_clear: bool) -> (action: String)
        ensures
            *final(self) == old(self).spec_add_clear(clear_type, all_clear),
            action@ == old(self).spec_add_clear_text(clear_type, all_clear),
            old(self).wf() ==> final(self).wf(),
    {
        let (base, lines_add, is_difficult, action_name): (u64, u32, bool, &'static str) =
            match clear_type {
            ClearType::Regular(1) => (100, 1, false, "Single"),
            ClearType::Regular(2) => (300, 2, false, "Double"),
            ClearType::Regular(3) => (500, 3, false, "Triple"),
            ClearType::Regular(4) => (800, 4, true, "Tetris"),
            ClearType::TSpin(0) => (400, 0, true, "T-Spin"),
            ClearType::TSpin(1) => (800, 1, true, "T-Spin Single"),
            ClearType::TSpin(2) => (1200, 2, true, "T-Spin Double"),
            ClearType::TSpin(3) => (1600, 3, true, "T-Spin Triple"),
            ClearType::MiniTSpin(0) => (100, 0, false, "Mini T-Spin"),
            ClearType::MiniTSpin(1) => (200, 1, false, "Mini T-Spin Single"),
            _ => (0, 0, false, ""),
        };

        // Update lines cleared and level (every 10 lines)
        self.lines = self.lines.saturating_add(lines_add);
        self.level = self.lines / 10 + 1;

        // Calculate score with multipliers, in width that cannot overflow
        proof {
            vstd::arithmetic::mul::lemma_mul_upper_bound(
                base as int,
                1600,
                self.level as int,
                u32::MAX as int,
            );
        }
        let mut score: u128 = (base as u128) * (self.level as u128);

        // Back-to-back bonus (1.5x for consecutive difficult clears)
        if is_difficult {
            if self.back_to_back {
                score = score * 3 / 2;
            }
            self.back_to_back = true;
        } else if lines_add > 0 {
            self.back_to_back = false;
        }

        // Combo bonus
        if lines_add > 0 {
            if self.combo < i32::MAX {
                self.combo = self.combo + 1;
            }
            if self.combo > 0 {
                proof {
                    vstd::arithmetic::mul::lemma_mul_upper_bound(
                        50 * (self.combo as int),
                        50 * (i32::MAX as int),
                        self.level as int,
                        u32::MAX as int,
                    );
                }
                score = score + 50u128 * (self.combo as u128) * (self.level as u128);
            }
        }

        // All-clear bonus
        if all_clear {
            let all_clear_bonus: u128 = if lines_add == 1 {
                800
            } else if lines_add == 2 {
                1200
            } else if lines_add == 3 {
                1800
            } else if lines_add == 4 && self.back_to_back {
                3200
            } else if lines_add == 4 {
                2000
            } else {
                0
            };
            score = score + all_clear_bonus * (self.level as u128);
        }

        let total: u128 = (self.points as u128) + score;
        self.points = if total > u64::MAX as u128 {
            u64::MAX
        } else {
            total as u64
        };

        // Build action string
        let mut action = String::from_str(action_name);
        if self.combo > 0 {
            action = action.concat(" Combo x");
            let combo_digits = u64_to_string(self.combo as u64);
            action = action.concat(combo_digits.as_str());
        }
        if self.back_to_back && is_difficult && lines_add > 0 {
            action = String::from_str("B2B ").concat(action.as_str());
        }
        if all_clear {
            action = action.concat(" ALL CLEAR!");
        }
        action
    }

    /// The scoring state after a soft drop: one point per cell descended.
    pub open spec fn spec_add_soft_drop(self, cells: u32) -> Score {
        Score {
            points: spec_sat_add(self.points as int, cells as int, u64::MAX as int) as u64,
            ..self
        }
    }

    /// Add score for soft drop (1 point per cell).
    pub fn add_soft_drop(&mut self, cells: u32)
        ensures
            *final(self) == old(self).spec_add_soft_drop(cells),
    {
        self.points = self.points.saturating_add(cells as u64);
    }

    /// The scoring state after a hard drop: two points per cell descended.
    pub open spec fn spec_add_hard_drop(self, cells: u32) -> Score {
        Score {
            points: spec_sat_add(self.points as int, 2 * cells as int, u64::MAX as int) as u64,
            ..self
        }
    }

    /// Add score for hard drop (2 points per cell).
    pub fn add_hard_drop(&mut self, cells: u32)
        ensures
            *final(self) == old(self).spec_add_hard_drop(cells),
    {
        self.points = self.points.saturating_add((cells as u64) * 2);
    }

    /// The scoring state with the combo dropped back to -1 and everything
    /// else untouched.
    pub open spec fn spec_reset_combo(self) -> Score {
        Score { combo: -1i32, ..self }
    }

    /// Reset combo (called when a piece locks without clearing any line and
    /// without scoring a T-spin). Nothing else changes: in particular the
    /// back-to-back flag survives a non-clearing lock.
    pub fn reset_combo(&mut self)
        ensures
            *final(self) == old(self).spec_reset_combo(),
    {
        self.combo = -1;
    }

    /// The gravity interval in milliseconds for a level: the guideline
    /// formula (0.8 - (level - 1) * 0.007) ^ (level - 1) seconds, rounded
    /// to whole milliseconds and clamped at level 20.
    pub open spec fn spec_fall_speed_ms(level: u32) -> u64 {
        if level <= 1 {
            1000u64
        } else if level == 2 {
            793u64
        } else if level == 3 {
            618u64
        } else if level == 4 {
            473u64
        } else if level == 5 {
            355u64
        } else if level == 6 {
            262u64
        } else if level == 7 {
            190u64
        } else if level == 8 {
            135u64
        } else if level == 9 {
            94u64
        } else if level == 10 {
            64u64
        } else if level == 11 {
            43u64
        } else if level == 12 {
            28u64
        } else if level == 13 {
            18u64
        } else if level == 14 {
            11u64
        } else if level == 15 {
            7u64
        } else if level == 16 {
            4u64
        } else if level == 17 {
            3u64
        } else if level == 18 {
            1u64
        } else if level == 19 {
            1u64
        } else {
            0u64
        }
    }

    /// Get the fall interval in milliseconds for the current level.
    pub fn fall_speed_ms(&self) -> (ms: u64)
        ensures
            ms == Score::spec_fall_speed_ms(self.level),
    {
        let level = if self.level > 20 {
            20
        } else if self.level < 1 {
            1
        } else {
            self.level
        };
        match level {
            1 => 1000,
            2 => 793,
            3 => 618,
            4 => 473,
            5 => 355,
            6 => 262,
            7 => 190,
            8 => 135,
            9 => 94,
            10 => 64,
            11 => 43,
            12 => 28,
            13 => 18,
            14 => 11,
            15 => 7,
            16 => 4,
            17 => 3,
            18 => 1,
            19 => 1,
            _ => 0,
        }
    }
}

/// The fall interval never grows with the level: higher levels fall at
/// least as fast.
pub proof fn lemma_fall_speed_monotone(l1: u32, l2: u32)
    requires
        l1 <= l2,
    ensures
        Score::spec_fall_speed_ms(l1) >= Score::spec_fall_speed_ms(l2),
{
}

/// Points never decrease: every clear adds a non-negative gain (clipped at
/// the top of the counter), so the score is monotone within a game.
pub proof fn lemma_points_monotone(s: Score, clear_type: ClearType, all_clear: bool)
    requires
        s.wf(),
    ensures
        s.spec_add_clear(clear_type, all_clear).points >= s.points,
{
    let (base, lines_add, difficult) = spec_clear_params(clear_type);
    let lines2 = spec_sat_add(s.lines as int, lines_add, u32::MAX as int);
    let level2 = lines2 / 10 + 1;
    assert(level2 >= 1);
    assert(base >= 0 && lines_add >= 0);
    assert(base * level2 >= 0) by (nonlinear_arith)
        requires
            base >= 0,
            level2 >= 0,
    ;
    let combo2 = if lines_add > 0 {
        if s.combo < i32::MAX {
            s.combo + 1
        } else {
            s.combo as int
        }
    } else {
        s.combo as int
    };
    if lines_add > 0 && combo2 > 0 {
        assert(50 * combo2 * level2 >= 0) by (nonlinear_arith)
            requires
                combo2 > 0,
                level2 >= 1,
        ;
    }
    let b2b2 = if difficult {
        true
    } else if lines_add > 0 {
        false
    } else {
        s.back_to_back
    };
    assert(spec_all_clear_bonus(lines_add, b2b2) * level2 >= 0) by (nonlinear_arith)
        requires
            spec_all_clear_bonus(lines_add, b2b2) >= 0,
            level2 >= 1,
    ;
    assert(base * level2 * 3 / 2 >= 0) by (nonlinear_arith)
        requires
            base >= 0,
            level2 >= 1,
    ;
}

/// Two consecutive 4-line clears with no clear in between: the first scores
/// the plain Tetris value of 800 x level and starts a back-to-back chain;
/// the second scores the back-to-back value of 800 x level x 3 / 2 plus the
/// combo bonus 50 x 1 x level, with the combo counter at 1.
pub proof fn lemma_back_to_back_doubling(s: Score)
    requires
        s.combo == -1,
        !s.back_to_back,
        s.lines + 8 <= u32::MAX,
        s.points < 0x0100_0000_0000_0000,
    ensures
        ({
            let s1 = s.spec_add_clear(ClearType::Regular(4u8), false);
            let s2 = s1.spec_add_clear(ClearType::Regular(4u8), false);
            &&& s1.points == s.points + 800 * s1.level
            &&& s1.combo == 0
            &&& s1.back_to_back
            &&& s2.combo == 1
            &&& s2.back_to_back
            &&& s2.points == s1.points + (800 * s2.level) * 3 / 2 + 50 * 1 * s2.level
        }),
{
}

} // verus!
