use tetrs::settings::{date_string_from_unix, Settings};

#[test]
fn test_default_settings() {
    let settings = Settings::default();
    assert!(settings.visual.show_ghost);
    assert_eq!(settings.visual.block_style, "solid");
    assert_eq!(settings.gameplay.das_ms, 170);
    assert_eq!(settings.gameplay.arr_ms, 50);
    assert_eq!(settings.audio.bgm_volume, 25);
    assert_eq!(settings.audio.sfx_volume, 50);
    assert_eq!(settings.audio.bgm_track, "Korobeiniki");
    assert_eq!(settings.keys.move_left, vec!["Left".to_string()]);
    assert_eq!(
        settings.keys.rotate_cw,
        vec!["Up".to_string(), "x".to_string()]
    );
    assert!(settings.high_scores.marathon.is_empty());
}

#[test]
fn test_marathon_scores_sorted_descending() {
    let mut settings = Settings::default();
    settings.add_marathon_score(100, 1, 1);
    settings.add_marathon_score(300, 3, 1);
    settings.add_marathon_score(200, 2, 1);
    let scores: Vec<u64> = settings.high_scores.marathon.iter().map(|e| e.score).collect();
    assert_eq!(scores, vec![300, 200, 100]);
    assert_eq!(settings.best_marathon(), Some(300));
}

#[test]
fn test_marathon_table_keeps_ten() {
    let mut settings = Settings::default();
    for k in 0..12u64 {
        settings.add_marathon_score(k * 10, 1, 1);
    }
    assert_eq!(settings.high_scores.marathon.len(), 10);
    // The two lowest entries fell off
    assert_eq!(settings.high_scores.marathon[9].score, 20);
    assert_eq!(settings.best_marathon(), Some(110));
}

#[test]
fn test_sprint_scores_sorted_by_time() {
    let mut settings = Settings::default();
    settings.add_sprint_score(90_000, 40, 5);
    settings.add_sprint_score(60_000, 40, 5);
    settings.add_sprint_score(75_000, 40, 5);
    let times: Vec<Option<u64>> =
        settings.high_scores.sprint.iter().map(|e| e.time_ms).collect();
    assert_eq!(times, vec![Some(60_000), Some(75_000), Some(90_000)]);
    assert_eq!(settings.best_sprint(), Some(60_000));
}

#[test]
fn test_ultra_scores() {
    let mut settings = Settings::default();
    assert_eq!(settings.best_ultra(), None);
    settings.add_ultra_score(5000, 12, 5);
    settings.add_ultra_score(9000, 20, 5);
    assert_eq!(settings.best_ultra(), Some(9000));
}

#[test]
fn test_stable_order_for_equal_scores() {
    let mut settings = Settings::default();
    settings.add_marathon_score(100, 1, 1);
    settings.add_marathon_score(100, 2, 1);
    // The later equal score goes after the earlier one
    assert_eq!(settings.high_scores.marathon[0].lines, 1);
    assert_eq!(settings.high_scores.marathon[1].lines, 2);
}

#[test]
fn test_block_chars_styles() {
    let mut settings = Settings::default();
    assert_eq!(settings.visual.block_chars(), ("\u{2588}\u{2588}", "\u{2591}\u{2591}"));
    settings.visual.block_style = "bracket".to_string();
    assert_eq!(settings.visual.block_chars(), ("[]", ".."));
    settings.visual.block_style = "round".to_string();
    assert_eq!(settings.visual.block_chars(), ("()", ".."));
}

#[test]
fn test_date_string() {
    assert_eq!(date_string_from_unix(0), "1970-01-01");
    // 400 days: year 1971, remaining 35 days -> month 2, day 6
    assert_eq!(date_string_from_unix(400 * 86400), "1971-02-06");
}
