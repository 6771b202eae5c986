use tetrs::score::{ClearType, Score};

#[test]
fn test_single_clear() {
    let mut score = Score::new();
    score.add_clear(ClearType::Regular(1), false);
    assert_eq!(score.points, 100);
    assert_eq!(score.lines, 1);
}

#[test]
fn test_tetris() {
    let mut score = Score::new();
    score.add_clear(ClearType::Regular(4), false);
    assert_eq!(score.points, 800);
    assert_eq!(score.lines, 4);
}

#[test]
fn test_back_to_back() {
    let mut score = Score::new();
    // First tetris
    score.add_clear(ClearType::Regular(4), false);
    assert_eq!(score.points, 800);
    // Second tetris (back-to-back = 1.5x, plus combo bonus of 50)
    score.add_clear(ClearType::Regular(4), false);
    // 800 base + 1200 (800*1.5 b2b) + 50 (combo 1) = 2050
    assert_eq!(score.points, 800 + 1200 + 50);
}

#[test]
fn test_combo() {
    let mut score = Score::new();
    score.add_clear(ClearType::Regular(1), false);
    score.add_clear(ClearType::Regular(1), false);
    // Second clear should have combo bonus
    assert!(score.points > 200);
}

#[test]
fn test_level_up() {
    let mut score = Score::new();
    for _ in 0..10 {
        score.add_clear(ClearType::Regular(1), false);
    }
    assert_eq!(score.level, 2);
}

#[test]
fn test_back_to_back_state() {
    let mut score = Score::new();
    score.add_clear(ClearType::Regular(4), false);
    assert!(score.back_to_back);
    assert_eq!(score.combo, 0);
    score.add_clear(ClearType::Regular(4), false);
    assert!(score.back_to_back);
    assert_eq!(score.combo, 1);
    // A non-difficult clear of lines drops back-to-back
    score.add_clear(ClearType::Regular(1), false);
    assert!(!score.back_to_back);
}

#[test]
fn test_reset_combo_keeps_everything_else() {
    let mut score = Score::new();
    score.add_clear(ClearType::Regular(4), false);
    let points = score.points;
    let lines = score.lines;
    let level = score.level;
    let b2b = score.back_to_back;
    score.reset_combo();
    assert_eq!(score.combo, -1);
    assert_eq!(score.points, points);
    assert_eq!(score.lines, lines);
    assert_eq!(score.level, level);
    assert_eq!(score.back_to_back, b2b);
}

#[test]
fn test_tspin_scores() {
    let mut score = Score::new();
    score.add_clear(ClearType::TSpin(0), false);
    assert_eq!(score.points, 400);
    assert!(score.back_to_back);

    let mut score = Score::new();
    score.add_clear(ClearType::TSpin(2), false);
    assert_eq!(score.points, 1200);

    let mut score = Score::new();
    score.add_clear(ClearType::MiniTSpin(1), false);
    assert_eq!(score.points, 200);
    assert!(!score.back_to_back);
}

#[test]
fn test_combo_action_text() {
    let mut score = Score::new();
    assert_eq!(score.add_clear(ClearType::Regular(1), false), "Single");
    assert_eq!(score.add_clear(ClearType::Regular(1), false), "Single Combo x1");
    assert_eq!(score.add_clear(ClearType::Regular(2), false), "Double Combo x2");
}

#[test]
fn test_b2b_action_text() {
    let mut score = Score::new();
    // The flag is raised before the text is built, so even the first
    // difficult clear carries the prefix
    assert_eq!(score.add_clear(ClearType::Regular(4), false), "B2B Tetris");
    assert_eq!(score.add_clear(ClearType::Regular(4), false), "B2B Tetris Combo x1");
}

#[test]
fn test_all_clear_bonus() {
    let mut score = Score::new();
    // Single with an all clear: 100 + 800, level 1
    score.add_clear(ClearType::Regular(1), true);
    assert_eq!(score.points, 900);
}

#[test]
fn test_drops_score() {
    let mut score = Score::new();
    score.add_soft_drop(3);
    assert_eq!(score.points, 3);
    score.add_hard_drop(10);
    assert_eq!(score.points, 23);
}

#[test]
fn test_fall_speed_decreases() {
    let mut score = Score::new();
    score.level = 1;
    assert_eq!(score.fall_speed_ms(), 1000);
    let mut last = u64::MAX;
    for level in 1..=25u32 {
        score.level = level;
        let ms = score.fall_speed_ms();
        assert!(ms <= last);
        last = ms;
    }
}
