//! Game settings and high scores.
//!
//! The data model and the high-score bookkeeping live here; reading and
//! writing the settings file is an external concern handled by the
//! application shell, which converts to its own serializable copy.

use vstd::prelude::*;

use crate::text::{spec_padded_decimal, u64_to_padded_string};

verus! {

/// Game settings.
#[derive(Debug, Clone)]
pub struct Settings {
    /// Key bindings.
    pub keys: KeyBindings,
    /// Visual settings.
    pub visual: VisualSettings,
    /// Gameplay settings.
    pub gameplay: GameplaySettings,
    /// Audio settings.
    pub audio: AudioSettings,
    /// High scores.
    pub high_scores: HighScores,
}

/// Key bindings (stored as key-name strings for easy editing).
/// Each action can have one or more keys bound to it.
#[derive(Debug, Clone)]
pub struct KeyBindings {
    pub move_left: Vec<String>,
    pub move_right: Vec<String>,
    pub soft_drop: Vec<String>,
    pub hard_drop: Vec<String>,
    pub rotate_cw: Vec<String>,
    pub rotate_ccw: Vec<String>,
    pub hold: Vec<String>,
    pub pause: Vec<String>,
    pub quit: Vec<String>,
}

/// Visual settings.
#[derive(Debug, Clone)]
pub struct VisualSettings {
    /// Ghost piece visibility.
    pub show_ghost: bool,
    /// Block style: "solid", "bracket" or "round".
    pub block_style: String,
}

/// Gameplay settings.
#[derive(Debug, Clone)]
pub struct GameplaySettings {
    /// Delayed Auto Shift in milliseconds.
    pub das_ms: u64,
    /// Auto Repeat Rate in milliseconds.
    pub arr_ms: u64,
}

/// Audio settings.
#[derive(Debug, Clone)]
pub struct AudioSettings {
    /// Background music volume (0-100).
    pub bgm_volume: u32,
    /// Sound effect volume (0-100).
    pub sfx_volume: u32,
    /// Selected background track name.
    pub bgm_track: String,
}

/// High scores for each mode.
#[derive(Debug, Clone)]
pub struct HighScores {
    pub marathon: Vec<ScoreEntry>,
    pub sprint: Vec<ScoreEntry>,
    pub ultra: Vec<ScoreEntry>,
}

/// A single high score entry.
#[derive(Debug, Clone)]
pub struct ScoreEntry {
    pub score: u64,
    pub lines: u32,
    pub level: u32,
    /// For Sprint mode: time in milliseconds.
    pub time_ms: Option<u64>,
    /// Date as a yyyy-mm-dd string.
    pub date: String,
}

impl Default for KeyBindings {
    fn default() -> (r: KeyBindings)
        ensures
            r.move_left@.len() == 1 && r.move_left@[0]@ == "Left"@,
            r.move_right@.len() == 1 && r.move_right@[0]@ == "Right"@,
            r.soft_drop@.len() == 1 && r.soft_drop@[0]@ == "Down"@,
            r.hard_drop@.len() == 1 && r.hard_drop@[0]@ == "Space"@,
            r.rotate_cw@.len() == 2 && r.rotate_cw@[0]@ == "Up"@ && r.rotate_cw@[1]@ == "x"@,
            r.rotate_ccw@.len() == 1 && r.rotate_ccw@[0]@ == "z"@,
            r.hold@.len() == 2 && r.hold@[0]@ == "c"@ && r.hold@[1]@ == "Shift"@,
            r.pause@.len() == 2 && r.pause@[0]@ == "p"@ && r.pause@[1]@ == "Esc"@,
            r.quit@.len() == 1 && r.quit@[0]@ == "q"@,
    {
        let mut move_left: Vec<String> = Vec::new();
        move_left.push(String::from_str("Left"));
        let mut move_right: Vec<String> = Vec::new();
        move_right.push(String::from_str("Right"));
        let mut soft_drop: Vec<String> = Vec::new();
        soft_drop.push(String::from_str("Down"));
        let mut hard_drop: Vec<String> = Vec::new();
        hard_drop.push(String::from_str("Space"));
        let mut rotate_cw: Vec<String> = Vec::new();
        rotate_cw.push(String::from_str("Up"));
        rotate_cw.push(String::from_str("x"));
        let mut rotate_ccw: Vec<String> = Vec::new();
        rotate_ccw.push(String::from_str("z"));
        let mut hold: Vec<String> = Vec::new();
        hold.push(String::from_str("c"));
        hold.push(String::from_str("Shift"));
        let mut pause: Vec<String> = Vec::new();
        pause.push(String::from_str("p"));
        pause.push(String::from_str("Esc"));
        let mut quit: Vec<String> = Vec::new();
        quit.push(String::from_str("q"));
        KeyBindings {
            move_left,
            move_right,
            soft_drop,
            hard_drop,
            rotate_cw,
            rotate_ccw,
            hold,
            pause,
            quit,
        }
    }
}

impl Default for VisualSettings {
    fn default() -> (r: VisualSettings)
        ensures
            r.show_ghost,
            r.block_style@ == "solid"@,
    {
        VisualSettings { show_ghost: true, block_style: String::from_str("solid") }
    }
}

impl Default for GameplaySettings {
    fn default() -> (r: GameplaySettings)
        ensures
            r == (GameplaySettings { das_ms: 170u64, arr_ms: 50u64 }),
    {
        GameplaySettings { das_ms: 170, arr_ms: 50 }
    }
}

impl Default for AudioSettings {
    fn default() -> (r: AudioSettings)
        ensures
            r.bgm_volume == 25,
            r.sfx_volume == 50,
            r.bgm_track@ == "Korobeiniki"@,
    {
        AudioSettings { bgm_volume: 25, sfx_volume: 50, bgm_track: String::from_str("Korobeiniki") }
    }
}

impl Default for HighScores {
    fn default() -> (r: HighScores)
        ensures
            r.marathon@ == Seq::<ScoreEntry>::empty(),
            r.sprint@ == Seq::<ScoreEntry>::empty(),
            r.ultra@ == Seq::<ScoreEntry>::empty(),
    {
        HighScores { marathon: Vec::new(), sprint: Vec::new(), ultra: Vec::new() }
    }
}

impl Default for Settings {
    fn default() -> (r: Settings)
        ensures
            r.visual.show_ghost,
            r.gameplay == (GameplaySettings { das_ms: 170u64, arr_ms: 50u64 }),
            r.high_scores.marathon@ == Seq::<ScoreEntry>::empty(),
            r.high_scores.sprint@ == Seq::<ScoreEntry>::empty(),
            r.high_scores.ultra@ == Seq::<ScoreEntry>::empty(),
    {
        Settings {
            keys: KeyBindings::default(),
            visual: VisualSettings::default(),
            gameplay: GameplaySettings::default(),
            audio: AudioSettings::default(),
            high_scores: HighScores::default(),
        }
    }
}

/// Scores are listed best first: descending by score.
pub open spec fn spec_sorted_by_score_desc(list: Seq<ScoreEntry>) -> bool {
    forall|i: int, j: int| 0 <= i <= j < list.len() ==> list[i].score >= list[j].score
}

/// Sprint entries are listed best first: ascending by time, with an absent
/// time sorting first.
pub open spec fn spec_time_le(a: Option<u64>, b: Option<u64>) -> bool {
    match (a, b) {
        (None, _) => true,
        (Some(_), None) => false,
        (Some(x), Some(y)) => x <= y,
    }
}

pub open spec fn spec_sorted_by_time_asc(list: Seq<ScoreEntry>) -> bool {
    forall|i: int, j: int|
        0 <= i <= j < list.len() ==> spec_time_le(list[i].time_ms, list[j].time_ms)
}

/// What inserting one entry into a top-ten table does: the entry goes
/// after every existing entry at least as good and before the first
/// strictly worse one (so existing entries keep their order), and the
/// table is clipped to ten entries.
pub open spec fn spec_top_ten_insert(
    old_list: Seq<ScoreEntry>,
    new_list: Seq<ScoreEntry>,
    pos: int,
    score: u64,
    lines: u32,
    level: u32,
    time_ms: Option<u64>,
) -> bool {
    &&& 0 <= pos <= old_list.len()
    &&& new_list.len() == (if old_list.len() + 1 <= 10 {
        old_list.len() + 1int
    } else {
        10int
    })
    &&& (if pos < 10 {
        &&& new_list[pos].score == score
        &&& new_list[pos].lines == lines
        &&& new_list[pos].level == level
        &&& new_list[pos].time_ms == time_ms
        &&& forall|j: int| 0 <= j < pos ==> new_list[j] == old_list[j]
        &&& forall|j: int| pos < j < new_list.len() ==> new_list[j] == old_list[j - 1]
    } else {
        new_list == old_list.take(10)
    })
}

impl Settings {
    /// Add a high score for Marathon mode, keeping the table sorted best
    /// first and clipped to ten entries.
    pub fn add_marathon_score(&mut self, score: u64, lines: u32, level: u32)
        requires
            spec_sorted_by_score_desc(old(self).high_scores.marathon@),
        ensures
            final(self).keys == old(self).keys,
            final(self).visual == old(self).visual,
            final(self).gameplay == old(self).gameplay,
            final(self).audio == old(self).audio,
            final(self).high_scores.sprint == old(self).high_scores.sprint,
            final(self).high_scores.ultra == old(self).high_scores.ultra,
            spec_sorted_by_score_desc(final(self).high_scores.marathon@),
            exists|pos: int|
                {
                    &&& (forall|j: int|
                        0 <= j < pos ==> old(self).high_scores.marathon@[j].score >= score)
                    &&& (pos == old(self).high_scores.marathon@.len() || old(
                        self,
                    ).high_scores.marathon@[pos].score < score)
                    &&& #[trigger] spec_top_ten_insert(
                        old(self).high_scores.marathon@,
                        final(self).high_scores.marathon@,
                        pos,
                        score,
                        lines,
                        level,
                        None,
                    )
                },
    {
        let entry = ScoreEntry { score, lines, level, time_ms: None, date: chrono_lite_now() };
        let ghost before = self.high_scores.marathon@;
        let list = &mut self.high_scores.marathon;
        let pos = insert_by_score(list, entry);
        proof {
            assert(spec_top_ten_insert(
                before,
                self.high_scores.marathon@,
                pos@,
                score,
                lines,
                level,
                None,
            ));
        }
    }

    /// Add a high score for Ultra mode, kept like the Marathon table.
    pub fn add_ultra_score(&mut self, score: u64, lines: u32, level: u32)
        requires
            spec_sorted_by_score_desc(old(self).high_scores.ultra@),
        ensures
            final(self).keys == old(self).keys,
            final(self).visual == old(self).visual,
            final(self).gameplay == old(self).gameplay,
            final(self).audio == old(self).audio,
            final(self).high_scores.marathon == old(self).high_scores.marathon,
            final(self).high_scores.sprint == old(self).high_scores.sprint,
            spec_sorted_by_score_desc(final(self).high_scores.ultra@),
            exists|pos: int|
                {
                    &&& (forall|j: int|
                        0 <= j < pos ==> old(self).high_scores.ultra@[j].score >= score)
                    &&& (pos == old(self).high_scores.ultra@.len() || old(
                        self,
                    ).high_scores.ultra@[pos].score < score)
                    &&& #[trigger] spec_top_ten_insert(
                        old(self).high_scores.ultra@,
                        final(self).high_scores.ultra@,
                        pos,
                        score,
                        lines,
                        level,
                        None,
                    )
                },
    {
        let entry = ScoreEntry { score, lines, level, time_ms: None, date: chrono_lite_now() };
        let ghost before = self.high_scores.ultra@;
        let list = &mut self.high_scores.ultra;
        let pos = insert_by_score(list, entry);
        proof {
            assert(spec_top_ten_insert(
                before,
                self.high_scores.ultra@,
                pos@,
                score,
                lines,
                level,
                None,
            ));
        }
    }

    /// Add a high score for Sprint mode (sorted by time, lower is better),
    /// keeping the table sorted best first and clipped to ten entries.
    pub fn add_sprint_score(&mut self, time_ms: u64, lines: u32, level: u32)
        requires
            spec_sorted_by_time_asc(old(self).high_scores.sprint@),
        ensures
            final(self).keys == old(self).keys,
            final(self).visual == old(self).visual,
            final(self).gameplay == old(self).gameplay,
            final(self).audio == old(self).audio,
            final(self).high_scores.marathon == old(self).high_scores.marathon,
            final(self).high_scores.ultra == old(self).high_scores.ultra,
            spec_sorted_by_time_asc(final(self).high_scores.sprint@),
            exists|pos: int|
                {
                    &&& (forall|j: int|
                        0 <= j < pos ==> spec_time_le(
                            old(self).high_scores.sprint@[j].time_ms,
                            Some(time_ms),
                        ))
                    &&& (pos == old(self).high_scores.sprint@.len() || !spec_time_le(
                        old(self).high_scores.sprint@[pos].time_ms,
                        Some(time_ms),
                    ))
                    &&& #[trigger] spec_top_ten_insert(
                        old(self).high_scores.sprint@,
                        final(self).high_scores.sprint@,
                        pos,
                        0u64,
                        lines,
                        level,
                        Some(time_ms),
                    )
                },
    {
        let entry = ScoreEntry {
            score: 0,
            lines,
            level,
            time_ms: Some(time_ms),
            date: chrono_lite_now(),
        };
        let list = &mut self.high_scores.sprint;
        let ghost orig = old(self).high_scores.sprint@;

        // Find the first entry strictly slower than the new time
        let mut pos: usize = 0;
        while pos < list.len() && entry_no_slower_than(&list[pos], time_ms)
            invariant
                pos <= list@.len(),
                list@ == orig,
                entry.time_ms == Some(time_ms),
                forall|j: int| 0 <= j < pos ==> spec_time_le((#[trigger] list@[j]).time_ms, entry.time_ms),
            decreases list@.len() - pos,
        {
            pos += 1;
        }
        let ghost gpos = pos as int;
        let ghost ins = orig.insert(gpos, entry);
        proof {
            orig.insert_ensures(gpos, entry);
        }
        if pos < 10 {
            if pos < list.len() {
                list.insert(pos, entry);
            } else {
                list.push(entry);
                proof {
                    assert(list@ =~= ins);
                }
            }
        }
        list.truncate(10);
        proof {
            if gpos < 10 {
                if ins.len() > 10 {
                    assert(list@ == ins.subrange(0, 10));
                }
            } else {
                assert(list@ =~= orig.take(10));
            }
            assert(spec_top_ten_insert(
                orig,
                list@,
                gpos,
                0u64,
                lines,
                level,
                Some(time_ms),
            ));
            assert forall|i: int, j: int|
                0 <= i <= j < list@.len() implies spec_time_le(
                list@[i].time_ms,
                list@[j].time_ms,
            ) by {
                if gpos < 10 {
                    if i == gpos {
                        if j > gpos {
                            assert(list@[j] == orig[j - 1]);
                            assert(!spec_time_le(orig[gpos].time_ms, entry.time_ms));
                            assert(spec_time_le(entry.time_ms, orig[gpos].time_ms));
                            assert(spec_time_le(orig[gpos].time_ms, orig[j - 1].time_ms));
                        }
                    } else if j == gpos {
                        assert(list@[i] == orig[i]);
                    } else {
                        if i < gpos && j > gpos {
                            assert(list@[i] == orig[i] && list@[j] == orig[j - 1]);
                        }
                    }
                } else {
                    assert(list@[i] == orig[i] && list@[j] == orig[j]);
                }
            }
            assert(spec_sorted_by_time_asc(self.high_scores.sprint@));
        }
    }

    /// Get the best score for Marathon mode.
    pub fn best_marathon(&self) -> (r: Option<u64>)
        ensures
            r == (if self.high_scores.marathon@.len() > 0 {
                Some(self.high_scores.marathon@[0].score)
            } else {
                None::<u64>
            }),
    {
        if self.high_scores.marathon.len() > 0 {
            Some(self.high_scores.marathon[0].score)
        } else {
            None
        }
    }

    /// Get the best time for Sprint mode (in milliseconds).
    pub fn best_sprint(&self) -> (r: Option<u64>)
        ensures
            r == (if self.high_scores.sprint@.len() > 0 {
                self.high_scores.sprint@[0].time_ms
            } else {
                None::<u64>
            }),
    {
        if self.high_scores.sprint.len() > 0 {
            self.high_scores.sprint[0].time_ms
        } else {
            None
        }
    }

    /// Get the best score for Ultra mode.
    pub fn best_ultra(&self) -> (r: Option<u64>)
        ensures
            r == (if self.high_scores.ultra@.len() > 0 {
                Some(self.high_scores.ultra@[0].score)
            } else {
                None::<u64>
            }),
    {
        if self.high_scores.ultra.len() > 0 {
            Some(self.high_scores.ultra[0].score)
        } else {
            None
        }
    }
}

/// Whether a table entry's time is no slower than a new time (an absent
/// time sorts first, so it is never slower).
fn entry_no_slower_than(e: &ScoreEntry, time_ms: u64) -> (r: bool)
    ensures
        r == spec_time_le(e.time_ms, Some(time_ms)),
{
    match e.time_ms {
        None => true,
        Some(t) => t <= time_ms,
    }
}

/// Insert an entry into a table kept descending by score, after any equal
/// scores, and clip to ten entries. Returns the insertion index.
fn insert_by_score(list: &mut Vec<ScoreEntry>, entry: ScoreEntry) -> (pos: Ghost<int>)
    requires
        spec_sorted_by_score_desc(old(list)@),
        entry.time_ms is None,
    ensures
        spec_sorted_by_score_desc(final(list)@),
        0 <= pos@ <= old(list)@.len(),
        forall|j: int| 0 <= j < pos@ ==> (#[trigger] old(list)@[j]).score >= entry.score,
        pos@ == old(list)@.len() || old(list)@[pos@].score < entry.score,
        spec_top_ten_insert(
            old(list)@,
            final(list)@,
            pos@,
            entry.score,
            entry.lines,
            entry.level,
            None,
        ),
{
    let ghost orig = old(list)@;
    // Find the first entry with a strictly lower score
    let mut pos: usize = 0;
    while pos < list.len() && list[pos].score >= entry.score
        invariant
            pos <= list@.len(),
            *list == *old(list),
            forall|j: int| 0 <= j < pos ==> (#[trigger] list@[j]).score >= entry.score,
        decreases list@.len() - pos,
    {
        pos += 1;
    }
    let ghost gpos = pos as int;
    let ghost ins = orig.insert(gpos, entry);
    proof {
        orig.insert_ensures(gpos, entry);
    }
    if pos < 10 {
        if pos < list.len() {
            list.insert(pos, entry);
        } else {
            list.push(entry);
            proof {
                assert(list@ =~= ins);
            }
        }
    }
    list.truncate(10);
    proof {
        if gpos < 10 {
            if ins.len() > 10 {
                assert(list@ == ins.subrange(0, 10));
            }
        } else {
            assert(list@ =~= orig.take(10));
        }
        assert(spec_top_ten_insert(
            orig,
            list@,
            gpos,
            entry.score,
            entry.lines,
            entry.level,
            None,
        ));
        assert forall|i: int, j: int|
            0 <= i <= j < list@.len() implies list@[i].score >= list@[j].score by {
            if gpos < 10 {
                if i == gpos {
                    if j > gpos {
                        assert(list@[j] == orig[j - 1]);
                        assert(orig[gpos].score < entry.score);
                    }
                } else if j == gpos {
                    assert(list@[i] == orig[i]);
                } else {
                    if i < gpos && j > gpos {
                        assert(list@[i] == orig[i] && list@[j] == orig[j - 1]);
                    }
                }
            } else {
                assert(list@[i] == orig[i] && list@[j] == orig[j]);
            }
        }
        assert(spec_sorted_by_score_desc(list@));
    }
    Ghost(gpos)
}

/// The date a Unix timestamp falls on, as yyyy-mm-dd, using the flat
/// 365-day-year and 30-day-month approximation the display uses.
pub open spec fn spec_date_string(secs: u64) -> Seq<char> {
    let days = secs as int / 86400;
    let years = 1970 + days / 365;
    let remaining_days = days % 365;
    let month = remaining_days / 30 + 1;
    let day = remaining_days % 30 + 1;
    spec_padded_decimal(years as nat, 4) + "-"@ + spec_padded_decimal(month as nat, 2) + "-"@
        + spec_padded_decimal(day as nat, 2)
}

/// Render a Unix timestamp as a yyyy-mm-dd date string.
pub fn date_string_from_unix(secs: u64) -> (s: String)
    ensures
        s@ == spec_date_string(secs),
{
    let days = secs / 86400;
    let years = 1970 + days / 365;
    let remaining_days = days % 365;
    let month = remaining_days / 30 + 1;
    let day = remaining_days % 30 + 1;

    let s = u64_to_padded_string(years, 4);
    let s = s.concat("-");
    let s = s.concat(u64_to_padded_string(month, 2).as_str());
    let s = s.concat("-");
    let s = s.concat(u64_to_padded_string(day, 2).as_str());
    s
}

/// A simple date string for high-score entries: the current date by the
/// system clock.
pub fn chrono_lite_now() -> (s: String)
    ensures
        exists|secs: u64| s@ == #[trigger] spec_date_string(secs),
{
    let secs = unix_time_secs();
    date_string_from_unix(secs)
}

/// Relies on std::time::SystemTime::now and duration_since: the seconds
/// since the Unix epoch, zero if the clock reads before it. Nothing more
/// is promised of a clock reading.
#[verifier::external_body]
fn unix_time_secs() -> u64 {
    std::time::SystemTime::now()
        .duration_since(std::time::UNIX_EPOCH)
        .unwrap_or_default()
        .as_secs()
}

impl VisualSettings {
    /// The pair of block glyphs (filled, ghost) for the configured style.
    pub fn block_chars(&self) -> (r: (&'static str, &'static str))
        ensures
            self.block_style@ == "bracket"@ ==> r.0@ == seq!['[', ']'] && r.1@ == seq!['.', '.'],
            self.block_style@ == "round"@ ==> r.0@ == seq!['(', ')'] && r.1@ == seq!['.', '.'],
            self.block_style@ != "bracket"@ && self.block_style@ != "round"@ ==> r.0@ == seq![
                '\u{2588}',
                '\u{2588}',
            ] && r.1@ == seq!['\u{2591}', '\u{2591}'],
    {
        proof {
            reveal_strlit("bracket");
            reveal_strlit("round");
            reveal_strlit("()");
            reveal_strlit("[]");
            reveal_strlit("..");
            reveal_strlit("\u{2588}\u{2588}");
            reveal_strlit("\u{2591}\u{2591}");
        }
        if self.block_style.eq(&String::from_str("bracket")) {
            proof {
                reveal_strlit("bracket");
                reveal_strlit("round");
                assert(("bracket")@.len() == 7);
                assert(("round")@.len() == 5);
                assert("bracket"@ != "round"@);
            }
            ("[]", "..")
        } else if self.block_style.eq(&String::from_str("round")) {
            proof {
                assert(("()")@ =~= seq!['(', ')']);
            }
            ("()", "..")
        } else {
            ("\u{2588}\u{2588}", "\u{2591}\u{2591}")
        }
    }
}

} // verus!
