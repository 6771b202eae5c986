use tetrs::menu::{
    get_controls_hint, update_key_binding_pub, Menu, MenuAction, MenuScreen,
};
use tetrs::mode::GameMode;
use tetrs::settings::Settings;

#[test]
fn test_main_menu_layout() {
    let menu = Menu::new();
    assert_eq!(menu.screen, MenuScreen::Main);
    assert_eq!(menu.items.len(), 3);
    assert_eq!(menu.items[0].label, "Play");
    assert_eq!(menu.items[2].label, "Quit");
}

#[test]
fn test_selection_wraps() {
    let mut menu = Menu::main_menu();
    menu.move_up();
    assert_eq!(menu.selected, 2);
    menu.move_down();
    assert_eq!(menu.selected, 0);
    menu.move_down();
    assert_eq!(menu.selected, 1);
}

#[test]
fn test_select_returns_button_action() {
    let mut menu = Menu::mode_select();
    assert_eq!(menu.select(), Some(MenuAction::StartGame(GameMode::Marathon)));
    menu.move_down();
    assert_eq!(menu.select(), Some(MenuAction::StartGame(GameMode::Sprint)));
}

#[test]
fn test_text_input_editing() {
    let mut menu = Menu::join_game_menu();
    assert_eq!(menu.get_ticket_input(), None);
    menu.text_input_char('a');
    menu.text_input_char('b');
    assert_eq!(menu.get_ticket_input(), Some("ab".to_string()));
    menu.text_input_backspace();
    assert_eq!(menu.get_ticket_input(), Some("a".to_string()));
    menu.text_input_paste("xyz");
    assert_eq!(menu.get_ticket_input(), Some("axyz".to_string()));
}

#[test]
fn test_adjust_toggle_writes_settings() {
    let mut settings = Settings::default();
    let mut menu = Menu::settings_visual(&settings);
    assert!(settings.visual.show_ghost);
    menu.adjust_left(&mut settings);
    assert!(!settings.visual.show_ghost);
    menu.adjust_right(&mut settings);
    assert!(settings.visual.show_ghost);
}

#[test]
fn test_adjust_number_respects_bounds() {
    let mut settings = Settings::default();
    let mut menu = Menu::settings_gameplay(&settings);
    // DAS starts at 170, steps by 10, within [0, 500]
    menu.adjust_right(&mut settings);
    assert_eq!(settings.gameplay.das_ms, 180);
    for _ in 0..60 {
        menu.adjust_left(&mut settings);
    }
    assert_eq!(settings.gameplay.das_ms, 0);
}

#[test]
fn test_cycle_wraps_block_style() {
    let mut settings = Settings::default();
    let mut menu = Menu::settings_visual(&settings);
    menu.move_down();
    menu.adjust_right(&mut settings);
    assert_eq!(settings.visual.block_style, "bracket");
    menu.adjust_right(&mut settings);
    assert_eq!(settings.visual.block_style, "round");
    menu.adjust_right(&mut settings);
    assert_eq!(settings.visual.block_style, "solid");
    menu.adjust_left(&mut settings);
    assert_eq!(settings.visual.block_style, "round");
}

#[test]
fn test_go_back_paths() {
    let settings = Settings::default();
    let mut menu = Menu::settings_menu();
    menu.go_back(&settings);
    assert_eq!(menu.screen, MenuScreen::Main);
    menu.go_to(MenuScreen::JoinGame, &settings);
    menu.go_back(&settings);
    assert_eq!(menu.screen, MenuScreen::Multiplayer);
    menu.go_back(&settings);
    assert_eq!(menu.screen, MenuScreen::ModeSelect);
}

#[test]
fn test_rebind_adds_key() {
    let mut settings = Settings::default();
    let mut menu = Menu::settings_keys(&settings);
    menu.start_rebind();
    assert_eq!(menu.rebinding, Some(0));
    menu.add_key("j".to_string(), &mut settings);
    assert!(settings.keys.move_left.contains(&"j".to_string()));
    // Still rebinding, so more keys can be added
    assert_eq!(menu.rebinding, Some(0));
    menu.finish_rebind();
    assert_eq!(menu.rebinding, None);
}

#[test]
fn test_set_key_replaces_binding() {
    let mut settings = Settings::default();
    let mut menu = Menu::settings_keys(&settings);
    menu.start_rebind();
    menu.set_key("k".to_string(), &mut settings);
    assert_eq!(settings.keys.move_left, vec!["k".to_string()]);
    assert_eq!(menu.rebinding, None);
}

#[test]
fn test_update_key_binding_by_name() {
    let mut settings = Settings::default();
    update_key_binding_pub(&mut settings, "hold", vec!["v".to_string()]);
    assert_eq!(settings.keys.hold, vec!["v".to_string()]);
    // Unknown action names change nothing
    let before = settings.keys.pause.clone();
    update_key_binding_pub(&mut settings, "unknown", vec!["w".to_string()]);
    assert_eq!(settings.keys.pause, before);
}

#[test]
fn test_controls_hint_by_item() {
    let menu = Menu::main_menu();
    assert_eq!(get_controls_hint(&menu), "Up/Down Select  Enter Confirm  Esc Back");
    let settings = Settings::default();
    let mut keys_menu = Menu::settings_keys(&settings);
    assert_eq!(
        get_controls_hint(&keys_menu),
        "Up/Down Select  Enter Rebind  Del Clear  Esc Back"
    );
    keys_menu.start_rebind();
    assert_eq!(
        get_controls_hint(&keys_menu),
        "Key=Set | Shift+Key=Add more | Enter=Done | Esc=Cancel"
    );
}
