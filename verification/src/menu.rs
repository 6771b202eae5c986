//! Main menu system with settings configuration.
//!
//! Pure state: screens are fixed item tables, navigation moves a selection
//! cursor, and adjustments write straight through to the settings.

use vstd::prelude::*;

use crate::mode::GameMode;
use crate::settings::Settings;

verus! {

/// Menu screens.
#[derive(Debug, Clone, Copy, PartialEq, Eq, Structural)]
pub enum MenuScreen {
    Main,
    ModeSelect,
    Settings,
    SettingsKeys,
    SettingsVisual,
    SettingsGameplay,
    SettingsAudio,
    Multiplayer,
    HostGame,
    JoinGame,
}

/// Menu state: the current screen's items and the selection cursor.
#[derive(Debug, Clone)]
pub struct Menu {
    pub screen: MenuScreen,
    pub selected: usize,
    pub items: Vec<MenuItem>,
    /// For key rebinding: which item is waiting for input.
    pub rebinding: Option<usize>,
}

/// One menu row: a label and what the row does.
#[derive(Debug, Clone)]
pub struct MenuItem {
    pub label: String,
    pub item_type: MenuItemType,
}

/// What a menu row does.
#[derive(Debug, Clone)]
pub enum MenuItemType {
    /// Simple button that triggers an action.
    Button(MenuAction),
    /// Toggle a boolean setting.
    Toggle { key: SettingKey, value: bool },
    /// Cycle through options.
    Cycle { key: SettingKey, options: Vec<String>, current: usize },
    /// Numeric value with increment/decrement.
    Number { key: SettingKey, value: u64, min: u64, max: u64, step: u64 },
    /// Key binding (shows current keys, can rebind).
    KeyBind { action: String, keys: Vec<String> },
    /// Text input field.
    TextInput { value: String, placeholder: String },
    /// Display-only label (not selectable).
    Label { text: String },
}

/// What a button does when selected.
#[derive(Debug, Clone, Copy, PartialEq, Eq, Structural)]
pub enum MenuAction {
    StartGame(GameMode),
    GoToScreen(MenuScreen),
    Back,
    Quit,
    SaveSettings,
    /// Host a multiplayer game.
    HostGame,
    /// Join with the entered ticket.
    JoinGame,
}

/// Which setting a menu row modifies.
#[derive(Debug, Clone, Copy, PartialEq, Eq, Structural)]
pub enum SettingKey {
    ShowGhost,
    BlockStyle,
    DasMs,
    ArrMs,
    BgmVolume,
    SfxVolume,
    BgmTrack,
}

/// A row is a button with the given label and action.
pub open spec fn spec_button(item: MenuItem, label: Seq<char>, action: MenuAction) -> bool {
    &&& item.label@ == label
    &&& item.item_type == MenuItemType::Button(action)
}

/// The main menu: Play, Settings, Quit.
pub open spec fn spec_main_menu(m: Menu) -> bool {
    &&& m.screen == MenuScreen::Main
    &&& m.selected == 0
    &&& m.rebinding is None
    &&& m.items@.len() == 3
    &&& spec_button(m.items@[0], "Play"@, MenuAction::GoToScreen(MenuScreen::ModeSelect))
    &&& spec_button(m.items@[1], "Settings"@, MenuAction::GoToScreen(MenuScreen::Settings))
    &&& spec_button(m.items@[2], "Quit"@, MenuAction::Quit)
}

/// The mode-select menu: the three solo modes, online versus, back.
pub open spec fn spec_mode_select(m: Menu) -> bool {
    &&& m.screen == MenuScreen::ModeSelect
    &&& m.selected == 0
    &&& m.rebinding is None
    &&& m.items@.len() == 5
    &&& spec_button(m.items@[0], "Marathon"@, MenuAction::StartGame(GameMode::Marathon))
    &&& spec_button(m.items@[1], "Sprint (40 Lines)"@, MenuAction::StartGame(GameMode::Sprint))
    &&& spec_button(m.items@[2], "Ultra (3 Minutes)"@, MenuAction::StartGame(GameMode::Ultra))
    &&& spec_button(
        m.items@[3],
        "Versus (Online)"@,
        MenuAction::GoToScreen(MenuScreen::Multiplayer),
    )
    &&& spec_button(m.items@[4], "Back"@, MenuAction::Back)
}

/// The multiplayer menu: host, join, back.
pub open spec fn spec_multiplayer_menu(m: Menu) -> bool {
    &&& m.screen == MenuScreen::Multiplayer
    &&& m.selected == 0
    &&& m.rebinding is None
    &&& m.items@.len() == 3
    &&& spec_button(m.items@[0], "Host Game"@, MenuAction::GoToScreen(MenuScreen::HostGame))
    &&& spec_button(m.items@[1], "Join Game"@, MenuAction::GoToScreen(MenuScreen::JoinGame))
    &&& spec_button(m.items@[2], "Back"@, MenuAction::Back)
}

/// The host screen: before a ticket exists, a start button; once the
/// ticket is shown, display rows while waiting for the opponent.
pub open spec fn spec_host_game_menu(m: Menu, ticket: Option<Seq<char>>) -> bool {
    &&& m.screen == MenuScreen::HostGame
    &&& m.rebinding is None
    &&& match ticket {
        Some(t) => {
            &&& m.items@.len() == 3
            &&& m.selected == 2
            &&& m.items@[0].label@ == "Ticket"@
            &&& m.items@[0].item_type matches MenuItemType::Label { text } && text@ == t
            &&& m.items@[1].label@ == "Waiting for opponent..."@
            &&& m.items@[1].item_type matches MenuItemType::Label { text } && text@ == Seq::<
                char,
            >::empty()
            &&& spec_button(m.items@[2], "Back"@, MenuAction::Back)
        },
        None => {
            &&& m.items@.len() == 2
            &&& m.selected == 0
            &&& spec_button(m.items@[0], "Start Hosting"@, MenuAction::HostGame)
            &&& spec_button(m.items@[1], "Back"@, MenuAction::Back)
        },
    }
}

/// The join screen: a ticket input, connect, back.
pub open spec fn spec_join_game_menu(m: Menu) -> bool {
    &&& m.screen == MenuScreen::JoinGame
    &&& m.selected == 0
    &&& m.rebinding is None
    &&& m.items@.len() == 3
    &&& m.items@[0].label@ == "Ticket"@
    &&& m.items@[0].item_type matches MenuItemType::TextInput { value, placeholder } && value@
        == Seq::<char>::empty() && placeholder@ == "Empty = use clipboard"@
    &&& spec_button(m.items@[1], "Connect"@, MenuAction::JoinGame)
    &&& spec_button(m.items@[2], "Back"@, MenuAction::Back)
}

/// The settings hub: one entry per settings page, and back.
pub open spec fn spec_settings_menu(m: Menu) -> bool {
    &&& m.screen == MenuScreen::Settings
    &&& m.selected == 0
    &&& m.rebinding is None
    &&& m.items@.len() == 5
    &&& spec_button(
        m.items@[0],
        "Key Bindings"@,
        MenuAction::GoToScreen(MenuScreen::SettingsKeys),
    )
    &&& spec_button(m.items@[1], "Visual"@, MenuAction::GoToScreen(MenuScreen::SettingsVisual))
    &&& spec_button(
        m.items@[2],
        "Gameplay"@,
        MenuAction::GoToScreen(MenuScreen::SettingsGameplay),
    )
    &&& spec_button(m.items@[3], "Audio"@, MenuAction::GoToScreen(MenuScreen::SettingsAudio))
    &&& spec_button(m.items@[4], "Back"@, MenuAction::Back)
}

/// A key-binding row for one action, showing its current keys.
pub open spec fn spec_keybind_item(
    item: MenuItem,
    label: Seq<char>,
    action: Seq<char>,
    keys: Seq<String>,
) -> bool {
    &&& item.label@ == label
    &&& item.item_type matches MenuItemType::KeyBind { action: a, keys: k } && a@ == action && k@
        == keys
}

/// The key-bindings page: one row per action, from the settings, and back.
pub open spec fn spec_settings_keys(m: Menu, settings: Settings) -> bool {
    &&& m.screen == MenuScreen::SettingsKeys
    &&& m.selected == 0
    &&& m.rebinding is None
    &&& m.items@.len() == 9
    &&& spec_keybind_item(m.items@[0], "Move Left"@, "move_left"@, settings.keys.move_left@)
    &&& spec_keybind_item(m.items@[1], "Move Right"@, "move_right"@, settings.keys.move_right@)
    &&& spec_keybind_item(m.items@[2], "Soft Drop"@, "soft_drop"@, settings.keys.soft_drop@)
    &&& spec_keybind_item(m.items@[3], "Hard Drop"@, "hard_drop"@, settings.keys.hard_drop@)
    &&& spec_keybind_item(m.items@[4], "Rotate CW"@, "rotate_cw"@, settings.keys.rotate_cw@)
    &&& spec_keybind_item(m.items@[5], "Rotate CCW"@, "rotate_ccw"@, settings.keys.rotate_ccw@)
    &&& spec_keybind_item(m.items@[6], "Hold"@, "hold"@, settings.keys.hold@)
    &&& spec_keybind_item(m.items@[7], "Pause"@, "pause"@, settings.keys.pause@)
    &&& spec_button(m.items@[8], "Back"@, MenuAction::Back)
}

/// The visual page: ghost toggle, block style cycle, back.
pub open spec fn spec_settings_visual(m: Menu, settings: Settings) -> bool {
    &&& m.screen == MenuScreen::SettingsVisual
    &&& m.selected == 0
    &&& m.rebinding is None
    &&& m.items@.len() == 3
    &&& m.items@[0].label@ == "Ghost Piece"@
    &&& m.items@[0].item_type == (MenuItemType::Toggle {
        key: SettingKey::ShowGhost,
        value: settings.visual.show_ghost,
    })
    &&& m.items@[1].label@ == "Block Style"@
    &&& m.items@[1].item_type matches MenuItemType::Cycle { key, options, current } && key
        == SettingKey::BlockStyle && options@.len() == 3 && options@[0]@ == "solid"@ && options@[1]@
        == "bracket"@ && options@[2]@ == "round"@ && current == (
    if settings.visual.block_style@ == "solid"@ {
        0int
    } else if settings.visual.block_style@ == "bracket"@ {
        1int
    } else if settings.visual.block_style@ == "round"@ {
        2int
    } else {
        0int
    })
    &&& spec_button(m.items@[2], "Back"@, MenuAction::Back)
}

/// The gameplay page: DAS and ARR numbers, back.
pub open spec fn spec_settings_gameplay(m: Menu, settings: Settings) -> bool {
    &&& m.screen == MenuScreen::SettingsGameplay
    &&& m.selected == 0
    &&& m.rebinding is None
    &&& m.items@.len() == 3
    &&& m.items@[0].label@ == "DAS (ms)"@
    &&& m.items@[0].item_type == (MenuItemType::Number {
        key: SettingKey::DasMs,
        value: settings.gameplay.das_ms,
        min: 0u64,
        max: 500u64,
        step: 10u64,
    })
    &&& m.items@[1].label@ == "ARR (ms)"@
    &&& m.items@[1].item_type == (MenuItemType::Number {
        key: SettingKey::ArrMs,
        value: settings.gameplay.arr_ms,
        min: 0u64,
        max: 100u64,
        step: 5u64,
    })
    &&& spec_button(m.items@[2], "Back"@, MenuAction::Back)
}

/// The audio page: both volumes, the track cycle, back.
pub open spec fn spec_settings_audio(m: Menu, settings: Settings) -> bool {
    &&& m.screen == MenuScreen::SettingsAudio
    &&& m.selected == 0
    &&& m.rebinding is None
    &&& m.items@.len() == 4
    &&& m.items@[0].label@ == "BGM Volume"@
    &&& m.items@[0].item_type == (MenuItemType::Number {
        key: SettingKey::BgmVolume,
        value: settings.audio.bgm_volume as u64,
        min: 0u64,
        max: 100u64,
        step: 5u64,
    })
    &&& m.items@[1].label@ == "SFX Volume"@
    &&& m.items@[1].item_type == (MenuItemType::Number {
        key: SettingKey::SfxVolume,
        value: settings.audio.sfx_volume as u64,
        min: 0u64,
        max: 100u64,
        step: 5u64,
    })
    &&& m.items@[2].label@ == "BGM Track"@
    &&& m.items@[2].item_type matches MenuItemType::Cycle { key, options, current } && key
        == SettingKey::BgmTrack && options@.len() == 4 && options@[0]@ == "Korobeiniki"@
        && options@[1]@ == "Korobeiniki (Fast)"@ && options@[2]@ == "Kalinka"@ && options@[3]@
        == "Ievan Polkka"@ && current == (
    if settings.audio.bgm_track@ == "Korobeiniki"@ {
        0int
    } else if settings.audio.bgm_track@ == "Korobeiniki (Fast)"@ {
        1int
    } else if settings.audio.bgm_track@ == "Kalinka"@ {
        2int
    } else if settings.audio.bgm_track@ == "Ievan Polkka"@ {
        3int
    } else {
        0int
    })
    &&& spec_button(m.items@[3], "Back"@, MenuAction::Back)
}

impl Menu {
    /// The opening menu.
    pub fn new() -> (m: Menu)
        ensures
            spec_main_menu(m),
    {
        Menu::main_menu()
    }

    pub fn main_menu() -> (m: Menu)
        ensures
            spec_main_menu(m),
    {
        let mut items: Vec<MenuItem> = Vec::new();
        items.push(
            MenuItem {
                label: String::from_str("Play"),
                item_type: MenuItemType::Button(MenuAction::GoToScreen(MenuScreen::ModeSelect)),
            },
        );
        items.push(
            MenuItem {
                label: String::from_str("Settings"),
                item_type: MenuItemType::Button(MenuAction::GoToScreen(MenuScreen::Settings)),
            },
        );
        items.push(
            MenuItem {
                label: String::from_str("Quit"),
                item_type: MenuItemType::Button(MenuAction::Quit),
            },
        );
        Menu { screen: MenuScreen::Main, selected: 0, rebinding: None, items }
    }

    pub fn mode_select() -> (m: Menu)
        ensures
            spec_mode_select(m),
    {
        let mut items: Vec<MenuItem> = Vec::new();
        items.push(
            MenuItem {
                label: String::from_str("Marathon"),
                item_type: MenuItemType::Button(MenuAction::StartGame(GameMode::Marathon)),
            },
        );
        items.push(
            MenuItem {
                label: String::from_str("Sprint (40 Lines)"),
                item_type: MenuItemType::Button(MenuAction::StartGame(GameMode::Sprint)),
            },
        );
        items.push(
            MenuItem {
                label: String::from_str("Ultra (3 Minutes)"),
                item_type: MenuItemType::Button(MenuAction::StartGame(GameMode::Ultra)),
            },
        );
        items.push(
            MenuItem {
                label: String::from_str("Versus (Online)"),
                item_type: MenuItemType::Button(MenuAction::GoToScreen(MenuScreen::Multiplayer)),
            },
        );
        items.push(
            MenuItem {
                label: String::from_str("Back"),
                item_type: MenuItemType::Button(MenuAction::Back),
            },
        );
        Menu { screen: MenuScreen::ModeSelect, selected: 0, rebinding: None, items }
    }

    pub fn multiplayer_menu() -> (m: Menu)
        ensures
            spec_multiplayer_menu(m),
    {
        let mut items: Vec<MenuItem> = Vec::new();
        items.push(
            MenuItem {
                label: String::from_str("Host Game"),
                item_type: MenuItemType::Button(MenuAction::GoToScreen(MenuScreen::HostGame)),
            },
        );
        items.push(
            MenuItem {
                label: String::from_str("Join Game"),
                item_type: MenuItemType::Button(MenuAction::GoToScreen(MenuScreen::JoinGame)),
            },
        );
        items.push(
            MenuItem {
                label: String::from_str("Back"),
                item_type: MenuItemType::Button(MenuAction::Back),
            },
        );
        Menu { screen: MenuScreen::Multiplayer, selected: 0, rebinding: None, items }
    }

    pub fn host_game_menu(ticket: Option<&str>) -> (m: Menu)
        ensures
            spec_host_game_menu(
                m,
                match ticket {
                    Some(t) => Some(t@),
                    None => None,
                },
            ),
    {
        let mut items: Vec<MenuItem> = Vec::new();
        let selected: usize;

        match ticket {
            Some(t) => {
                items.push(
                    MenuItem {
                        label: String::from_str("Ticket"),
                        item_type: MenuItemType::Label { text: String::from_str(t) },
                    },
                );
                items.push(
                    MenuItem {
                        label: String::from_str("Waiting for opponent..."),
                        item_type: MenuItemType::Label { text: String::new() },
                    },
                );
                items.push(
                    MenuItem {
                        label: String::from_str("Back"),
                        item_type: MenuItemType::Button(MenuAction::Back),
                    },
                );
                selected = 2;
            },
            None => {
                items.push(
                    MenuItem {
                        label: String::from_str("Start Hosting"),
                        item_type: MenuItemType::Button(MenuAction::HostGame),
                    },
                );
                items.push(
                    MenuItem {
                        label: String::from_str("Back"),
                        item_type: MenuItemType::Button(MenuAction::Back),
                    },
                );
                selected = 0;
            },
        }

        Menu { screen: MenuScreen::HostGame, selected, rebinding: None, items }
    }

    pub fn join_game_menu() -> (m: Menu)
        ensures
            spec_join_game_menu(m),
    {
        let mut items: Vec<MenuItem> = Vec::new();
        items.push(
            MenuItem {
                label: String::from_str("Ticket"),
                item_type: MenuItemType::TextInput {
                    value: String::new(),
                    placeholder: String::from_str("Empty = use clipboard"),
                },
            },
        );
        items.push(
            MenuItem {
                label: String::from_str("Connect"),
                item_type: MenuItemType::Button(MenuAction::JoinGame),
            },
        );
        items.push(
            MenuItem {
                label: String::from_str("Back"),
                item_type: MenuItemType::Button(MenuAction::Back),
            },
        );
        Menu { screen: MenuScreen::JoinGame, selected: 0, rebinding: None, items }
    }

    /// Get the first nonempty text-input value (the entered ticket).
    pub fn get_ticket_input(&self) -> (r: Option<String>)
        ensures
            match r {
                Some(t) => t@.len() > 0 && exists|i: int|
                    0 <= i < self.items@.len() && ((#[trigger] self.items@[i].item_type) matches
                        MenuItemType::TextInput { value, .. } && value@ == t@),
                None => true,
            },
    {
        let mut i: usize = 0;
        while i < self.items.len()
            decreases self.items@.len() - i,
        {
            let found: Option<String> = match &self.items[i].item_type {
                MenuItemType::TextInput { value, .. } => {
                    if value.as_str().unicode_len() > 0 {
                        Some(value.clone())
                    } else {
                        None
                    }
                },
                _ => None,
            };
            if let Some(t) = found {
                proof {
                    assert(self.items@[i as int].item_type matches MenuItemType::TextInput {
                        value,
                        ..
                    } && value@ == t@);
                }
                return Some(t);
            }
            i += 1;
        }
        None
    }

    /// Append a character to the selected text input, if there is one.
    pub fn text_input_char(&mut self, c: char)
        ensures
            final(self).screen == old(self).screen,
            final(self).selected == old(self).selected,
            final(self).rebinding == old(self).rebinding,
            final(self).items@.len() == old(self).items@.len(),
            forall|i: int|
                0 <= i < old(self).items@.len() && i != old(self).selected
                    ==> #[trigger] final(self).items@[i] == old(self).items@[i],
            old(self).selected < old(self).items@.len() ==> {
                let item = old(self).items@[old(self).selected as int];
                let new_item = final(self).items@[old(self).selected as int];
                match item.item_type {
                    MenuItemType::TextInput { value, placeholder } => {
                        &&& new_item.label == item.label
                        &&& new_item.item_type matches MenuItemType::TextInput {
                            value: v2,
                            placeholder: p2,
                        } && v2@ == value@.push(c) && p2 == placeholder
                    },
                    _ => new_item == item,
                }
            },
    {
        if self.selected < self.items.len() {
            let item = &mut self.items[self.selected];
            if let MenuItemType::TextInput { value, .. } = &mut item.item_type {
                push_char(value, c);
            }
        }
    }

    /// Remove the last character of the selected text input, if any.
    pub fn text_input_backspace(&mut self)
        ensures
            final(self).screen == old(self).screen,
            final(self).selected == old(self).selected,
            final(self).rebinding == old(self).rebinding,
            final(self).items@.len() == old(self).items@.len(),
            forall|i: int|
                0 <= i < old(self).items@.len() && i != old(self).selected
                    ==> #[trigger] final(self).items@[i] == old(self).items@[i],
            old(self).selected < old(self).items@.len() ==> {
                let item = old(self).items@[old(self).selected as int];
                let new_item = final(self).items@[old(self).selected as int];
                match item.item_type {
                    MenuItemType::TextInput { value, placeholder } => {
                        &&& new_item.label == item.label
                        &&& new_item.item_type matches MenuItemType::TextInput {
                            value: v2,
                            placeholder: p2,
                        } && v2@ == (if value@.len() > 0 {
                            value@.drop_last()
                        } else {
                            value@
                        }) && p2 == placeholder
                    },
                    _ => new_item == item,
                }
            },
    {
        if self.selected < self.items.len() {
            let item = &mut self.items[self.selected];
            if let MenuItemType::TextInput { value, .. } = &mut item.item_type {
                pop_char(value);
            }
        }
    }

    /// Paste text into the selected text input, if there is one.
    pub fn text_input_paste(&mut self, text: &str)
        ensures
            final(self).screen == old(self).screen,
            final(self).selected == old(self).selected,
            final(self).rebinding == old(self).rebinding,
            final(self).items@.len() == old(self).items@.len(),
            forall|i: int|
                0 <= i < old(self).items@.len() && i != old(self).selected
                    ==> #[trigger] final(self).items@[i] == old(self).items@[i],
            old(self).selected < old(self).items@.len() ==> {
                let item = old(self).items@[old(self).selected as int];
                let new_item = final(self).items@[old(self).selected as int];
                match item.item_type {
                    MenuItemType::TextInput { value, placeholder } => {
                        &&& new_item.label == item.label
                        &&& new_item.item_type matches MenuItemType::TextInput {
                            value: v2,
                            placeholder: p2,
                        } && v2@ == value@ + text@ && p2 == placeholder
                    },
                    _ => new_item == item,
                }
            },
    {
        if self.selected < self.items.len() {
            let item = &mut self.items[self.selected];
            if let MenuItemType::TextInput { value, .. } = &mut item.item_type {
                value.append(text);
            }
        }
    }

    pub fn settings_menu() -> (m: Menu)
        ensures
            spec_settings_menu(m),
    {
        let mut items: Vec<MenuItem> = Vec::new();
        items.push(
            MenuItem {
                label: String::from_str("Key Bindings"),
                item_type: MenuItemType::Button(MenuAction::GoToScreen(MenuScreen::SettingsKeys)),
            },
        );
        items.push(
            MenuItem {
                label: String::from_str("Visual"),
                item_type: MenuItemType::Button(
                    MenuAction::GoToScreen(MenuScreen::SettingsVisual),
                ),
            },
        );
        items.push(
            MenuItem {
                label: String::from_str("Gameplay"),
                item_type: MenuItemType::Button(
                    MenuAction::GoToScreen(MenuScreen::SettingsGameplay),
                ),
            },
        );
        items.push(
            MenuItem {
                label: String::from_str("Audio"),
                item_type: MenuItemType::Button(MenuAction::GoToScreen(MenuScreen::SettingsAudio)),
            },
        );
        items.push(
            MenuItem {
                label: String::from_str("Back"),
                item_type: MenuItemType::Button(MenuAction::Back),
            },
        );
        Menu { screen: MenuScreen::Settings, selected: 0, rebinding: None, items }
    }

    pub fn settings_keys(settings: &Settings) -> (m: Menu)
        ensures
            spec_settings_keys(m, *settings),
    {
        let mut items: Vec<MenuItem> = Vec::new();
        items.push(
            MenuItem {
                label: String::from_str("Move Left"),
                item_type: MenuItemType::KeyBind {
                    action: String::from_str("move_left"),
                    keys: settings.keys.move_left.clone(),
                },
            },
        );
        items.push(
            MenuItem {
                label: String::from_str("Move Right"),
                item_type: MenuItemType::KeyBind {
                    action: String::from_str("move_right"),
                    keys: settings.keys.move_right.clone(),
                },
            },
        );
        items.push(
            MenuItem {
                label: String::from_str("Soft Drop"),
                item_type: MenuItemType::KeyBind {
                    action: String::from_str("soft_drop"),
                    keys: settings.keys.soft_drop.clone(),
                },
            },
        );
        items.push(
            MenuItem {
                label: String::from_str("Hard Drop"),
                item_type: MenuItemType::KeyBind {
                    action: String::from_str("hard_drop"),
                    keys: settings.keys.hard_drop.clone(),
                },
            },
        );
        items.push(
            MenuItem {
                label: String::from_str("Rotate CW"),
                item_type: MenuItemType::KeyBind {
                    action: String::from_str("rotate_cw"),
                    keys: settings.keys.rotate_cw.clone(),
                },
            },
        );
        items.push(
            MenuItem {
                label: String::from_str("Rotate CCW"),
                item_type: MenuItemType::KeyBind {
                    action: String::from_str("rotate_ccw"),
                    keys: settings.keys.rotate_ccw.clone(),
                },
            },
        );
        items.push(
            MenuItem {
                label: String::from_str("Hold"),
                item_type: MenuItemType::KeyBind {
                    action: String::from_str("hold"),
                    keys: settings.keys.hold.clone(),
                },
            },
        );
        items.push(
            MenuItem {
                label: String::from_str("Pause"),
                item_type: MenuItemType::KeyBind {
                    action: String::from_str("pause"),
                    keys: settings.keys.pause.clone(),
                },
            },
        );
        items.push(
            MenuItem {
                label: String::from_str("Back"),
                item_type: MenuItemType::Button(MenuAction::Back),
            },
        );
        proof {
            assert(items@[0].item_type matches MenuItemType::KeyBind { keys, .. } && keys@
                =~= settings.keys.move_left@);
            assert(items@[1].item_type matches MenuItemType::KeyBind { keys, .. } && keys@
                =~= settings.keys.move_right@);
            assert(items@[2].item_type matches MenuItemType::KeyBind { keys, .. } && keys@
                =~= settings.keys.soft_drop@);
            assert(items@[3].item_type matches MenuItemType::KeyBind { keys, .. } && keys@
                =~= settings.keys.hard_drop@);
            assert(items@[4].item_type matches MenuItemType::KeyBind { keys, .. } && keys@
                =~= settings.keys.rotate_cw@);
            assert(items@[5].item_type matches MenuItemType::KeyBind { keys, .. } && keys@
                =~= settings.keys.rotate_ccw@);
            assert(items@[6].item_type matches MenuItemType::KeyBind { keys, .. } && keys@
                =~= settings.keys.hold@);
            assert(items@[7].item_type matches MenuItemType::KeyBind { keys, .. } && keys@
                =~= settings.keys.pause@);
        }
        Menu { screen: MenuScreen::SettingsKeys, selected: 0, rebinding: None, items }
    }

    pub fn settings_visual(settings: &Settings) -> (m: Menu)
        ensures
            spec_settings_visual(m, *settings),
    {
        let mut block_styles: Vec<String> = Vec::new();
        block_styles.push(String::from_str("solid"));
        block_styles.push(String::from_str("bracket"));
        block_styles.push(String::from_str("round"));

        let current_style: usize = if settings.visual.block_style.eq(
            &String::from_str("solid"),
        ) {
            0
        } else if settings.visual.block_style.eq(&String::from_str("bracket")) {
            1
        } else if settings.visual.block_style.eq(&String::from_str("round")) {
            2
        } else {
            0
        };

        let mut items: Vec<MenuItem> = Vec::new();
        items.push(
            MenuItem {
                label: String::from_str("Ghost Piece"),
                item_type: MenuItemType::Toggle {
                    key: SettingKey::ShowGhost,
                    value: settings.visual.show_ghost,
                },
            },
        );
        items.push(
            MenuItem {
                label: String::from_str("Block Style"),
                item_type: MenuItemType::Cycle {
                    key: SettingKey::BlockStyle,
                    options: block_styles,
                    current: current_style,
                },
            },
        );
        items.push(
            MenuItem {
                label: String::from_str("Back"),
                item_type: MenuItemType::Button(MenuAction::Back),
            },
        );
        Menu { screen: MenuScreen::SettingsVisual, selected: 0, rebinding: None, items }
    }

    pub fn settings_gameplay(settings: &Settings) -> (m: Menu)
        ensures
            spec_settings_gameplay(m, *settings),
    {
        let mut items: Vec<MenuItem> = Vec::new();
        items.push(
            MenuItem {
                label: String::from_str("DAS (ms)"),
                item_type: MenuItemType::Number {
                    key: SettingKey::DasMs,
                    value: settings.gameplay.das_ms,
                    min: 0,
                    max: 500,
                    step: 10,
                },
            },
        );
        items.push(
            MenuItem {
                label: String::from_str("ARR (ms)"),
                item_type: MenuItemType::Number {
                    key: SettingKey::ArrMs,
                    value: settings.gameplay.arr_ms,
                    min: 0,
                    max: 100,
                    step: 5,
                },
            },
        );
        items.push(
            MenuItem {
                label: String::from_str("Back"),
                item_type: MenuItemType::Button(MenuAction::Back),
            },
        );
        Menu { screen: MenuScreen::SettingsGameplay, selected: 0, rebinding: None, items }
    }

    pub fn settings_audio(settings: &Settings) -> (m: Menu)
        ensures
            spec_settings_audio(m, *settings),
    {
        let mut bgm_tracks: Vec<String> = Vec::new();
        bgm_tracks.push(String::from_str("Korobeiniki"));
        bgm_tracks.push(String::from_str("Korobeiniki (Fast)"));
        bgm_tracks.push(String::from_str("Kalinka"));
        bgm_tracks.push(String::from_str("Ievan Polkka"));

        let current_track: usize = if settings.audio.bgm_track.eq(
            &String::from_str("Korobeiniki"),
        ) {
            0
        } else if settings.audio.bgm_track.eq(&String::from_str("Korobeiniki (Fast)")) {
            1
        } else if settings.audio.bgm_track.eq(&String::from_str("Kalinka")) {
            2
        } else if settings.audio.bgm_track.eq(&String::from_str("Ievan Polkka")) {
            3
        } else {
            0
        };

        let mut items: Vec<MenuItem> = Vec::new();
        items.push(
            MenuItem {
                label: String::from_str("BGM Volume"),
                item_type: MenuItemType::Number {
                    key: SettingKey::BgmVolume,
                    value: settings.audio.bgm_volume as u64,
                    min: 0,
                    max: 100,
                    step: 5,
                },
            },
        );
        items.push(
            MenuItem {
                label: String::from_str("SFX Volume"),
                item_type: MenuItemType::Number {
                    key: SettingKey::SfxVolume,
                    value: settings.audio.sfx_volume as u64,
                    min: 0,
                    max: 100,
                    step: 5,
                },
            },
        );
        items.push(
            MenuItem {
                label: String::from_str("BGM Track"),
                item_type: MenuItemType::Cycle {
                    key: SettingKey::BgmTrack,
                    options: bgm_tracks,
                    current: current_track,
                },
            },
        );
        items.push(
            MenuItem {
                label: String::from_str("Back"),
                item_type: MenuItemType::Button(MenuAction::Back),
            },
        );
        Menu { screen: MenuScreen::SettingsAudio, selected: 0, rebinding: None, items }
    }

    /// Move the selection up, wrapping to the bottom; frozen while
    /// rebinding.
    pub fn move_up(&mut self)
        ensures
            final(self).screen == old(self).screen,
            final(self).items == old(self).items,
            final(self).rebinding == old(self).rebinding,
            final(self).selected == (if old(self).rebinding is Some {
                old(self).selected as int
            } else if old(self).selected > 0 {
                old(self).selected - 1
            } else if old(self).items@.len() > 0 {
                old(self).items@.len() - 1
            } else {
                0int
            }),
    {
        if self.rebinding.is_some() {
            // No cursor movement while rebinding
            return ;
        }
        if self.selected > 0 {
            self.selected = self.selected - 1;
        } else {
            let len = self.items.len();
            self.selected = if len > 0 {
                len - 1
            } else {
                0
            };
        }
    }

    /// Move the selection down, wrapping to the top; frozen while
    /// rebinding.
    pub fn move_down(&mut self)
        ensures
            final(self).screen == old(self).screen,
            final(self).items == old(self).items,
            final(self).rebinding == old(self).rebinding,
            final(self).selected == (if old(self).rebinding is Some {
                old(self).selected as int
            } else if old(self).selected + 1 < old(self).items@.len() {
                old(self).selected + 1
            } else {
                0int
            }),
    {
        if self.rebinding.is_some() {
            return ;
        }
        let len = self.items.len();
        if len > 0 && self.selected < len - 1 {
            self.selected = self.selected + 1;
        } else {
            self.selected = 0;
        }
    }

    /// Get the action of the current selection, for button rows; nothing
    /// while rebinding or on non-button rows.
    pub fn select(&self) -> (r: Option<MenuAction>)
        ensures
            r == (if self.rebinding is None && self.selected < self.items@.len()
                && self.items@[self.selected as int].item_type matches MenuItemType::Button(_) {
                Some(self.items@[self.selected as int].item_type->Button_0)
            } else {
                None::<MenuAction>
            }),
    {
        if self.rebinding.is_some() {
            return None;
        }
        if self.selected < self.items.len() {
            if let MenuItemType::Button(action) = &self.items[self.selected].item_type {
                return Some(*action);
            }
        }
        None
    }

    /// Start rebinding the selected key-binding row.
    pub fn start_rebind(&mut self)
        ensures
            final(self).screen == old(self).screen,
            final(self).items == old(self).items,
            final(self).selected == old(self).selected,
            final(self).rebinding == (if old(self).selected < old(self).items@.len() && old(
                self,
            ).items@[old(self).selected as int].item_type matches MenuItemType::KeyBind { .. } {
                Some(old(self).selected)
            } else {
                old(self).rebinding
            }),
    {
        if self.selected < self.items.len() {
            if matches!(self.items[self.selected].item_type, MenuItemType::KeyBind { .. }) {
                self.rebinding = Some(self.selected);
            }
        }
    }

    /// Cancel rebinding.
    pub fn cancel_rebind(&mut self)
        ensures
            *final(self) == (Menu { rebinding: None::<usize>, ..*old(self) }),
    {
        self.rebinding = None;
    }

    /// Finish adding keys and exit rebind mode.
    pub fn finish_rebind(&mut self)
        ensures
            *final(self) == (Menu { rebinding: None::<usize>, ..*old(self) }),
    {
        self.rebinding = None;
    }
}

/// A settings value handed from a menu row to the settings.
enum SettingValue {
    Bool(bool),
    Text(String),
    Number(u64),
}

impl Menu {
    /// Adjust the selected row leftward: flip a toggle, step a cycle back
    /// (wrapping), or decrement a number by its step down to its minimum;
    /// the settings are updated in step. Frozen while rebinding.
    pub fn adjust_left(&mut self, settings: &mut Settings)
        ensures
            final(self).screen == old(self).screen,
            final(self).selected == old(self).selected,
            final(self).rebinding == old(self).rebinding,
            final(self).items@.len() == old(self).items@.len(),
            old(self).rebinding is Some ==> *final(self) == *old(self)
                && *final(settings) == *old(settings),
            forall|i: int|
                0 <= i < old(self).items@.len() && i != old(self).selected
                    ==> #[trigger] final(self).items@[i] == old(self).items@[i],
            (old(self).rebinding is None && old(self).selected < old(self).items@.len()) ==> {
                let item = old(self).items@[old(self).selected as int];
                let new_item = final(self).items@[old(self).selected as int];
                match item.item_type {
                    MenuItemType::Toggle { key, value } => {
                        &&& new_item.label == item.label
                        &&& new_item.item_type == (MenuItemType::Toggle { key, value: !value })
                        &&& spec_setting_applied(
                            *old(settings),
                            *final(settings),
                            key,
                            SettingPatch::Bool(!value),
                        )
                    },
                    MenuItemType::Cycle { key, options, current } => {
                        let next = if current == 0 {
                            if options@.len() > 0 {
                                options@.len() - 1
                            } else {
                                0int
                            }
                        } else {
                            current - 1
                        };
                        &&& new_item.label == item.label
                        &&& new_item.item_type matches MenuItemType::Cycle {
                            key: k2,
                            options: o2,
                            current: c2,
                        } && k2 == key && o2 == options && c2 == next
                        &&& (if 0 <= next < options@.len() {
                            spec_setting_applied(
                                *old(settings),
                                *final(settings),
                                key,
                                SettingPatch::Text(options@[next]@),
                            )
                        } else {
                            *final(settings) == *old(settings)
                        })
                    },
                    MenuItemType::Number { key, value, min, max, step } => {
                        let lowered = if value >= step {
                            value - step
                        } else {
                            0int
                        };
                        let next = if lowered >= min {
                            lowered
                        } else {
                            min as int
                        };
                        &&& new_item.label == item.label
                        &&& new_item.item_type == (MenuItemType::Number {
                            key,
                            value: next as u64,
                            min,
                            max,
                            step,
                        })
                        &&& spec_setting_applied(
                            *old(settings),
                            *final(settings),
                            key,
                            SettingPatch::Number(next as u64),
                        )
                    },
                    _ => new_item == item && *final(settings) == *old(settings),
                }
            },
    {
        if self.rebinding.is_some() {
            return ;
        }
        if self.selected >= self.items.len() {
            return ;
        }
        let item = &mut self.items[self.selected];
        match &mut item.item_type {
            MenuItemType::Toggle { key, value } => {
                *value = !*value;
                apply_setting(settings, key, &SettingValue::Bool(*value));
            },
            MenuItemType::Cycle { key, options, current } => {
                *current = if *current == 0 {
                    let n = options.len();
                    if n > 0 {
                        n - 1
                    } else {
                        0
                    }
                } else {
                    *current - 1
                };
                if *current < options.len() {
                    let chosen = options[*current].clone();
                    apply_setting(settings, key, &SettingValue::Text(chosen));
                }
            },
            MenuItemType::Number { key, value, min, step, .. } => {
                let lowered = value.saturating_sub(*step);
                *value = if lowered >= *min {
                    lowered
                } else {
                    *min
                };
                apply_setting(settings, key, &SettingValue::Number(*value));
            },
            _ => {},
        }
    }

    /// Adjust the selected row rightward: flip a toggle, step a cycle
    /// forward (wrapping), or increment a number by its step up to its
    /// maximum; the settings are updated in step. Frozen while rebinding.
    pub fn adjust_right(&mut self, settings: &mut Settings)
        ensures
            final(self).screen == old(self).screen,
            final(self).selected == old(self).selected,
            final(self).rebinding == old(self).rebinding,
            final(self).items@.len() == old(self).items@.len(),
            old(self).rebinding is Some ==> *final(self) == *old(self)
                && *final(settings) == *old(settings),
            forall|i: int|
                0 <= i < old(self).items@.len() && i != old(self).selected
                    ==> #[trigger] final(self).items@[i] == old(self).items@[i],
            (old(self).rebinding is None && old(self).selected < old(self).items@.len()) ==> {
                let item = old(self).items@[old(self).selected as int];
                let new_item = final(self).items@[old(self).selected as int];
                match item.item_type {
                    MenuItemType::Toggle { key, value } => {
                        &&& new_item.label == item.label
                        &&& new_item.item_type == (MenuItemType::Toggle { key, value: !value })
                        &&& spec_setting_applied(
                            *old(settings),
                            *final(settings),
                            key,
                            SettingPatch::Bool(!value),
                        )
                    },
                    MenuItemType::Cycle { key, options, current } => {
                        let next = if options@.len() > 0 {
                            if current < usize::MAX {
                                (current + 1) % options@.len() as int
                            } else {
                                0int
                            }
                        } else {
                            current as int
                        };
                        &&& new_item.label == item.label
                        &&& new_item.item_type matches MenuItemType::Cycle {
                            key: k2,
                            options: o2,
                            current: c2,
                        } && k2 == key && o2 == options && c2 == next
                        &&& options@.len() > 0 ==> spec_setting_applied(
                            *old(settings),
                            *final(settings),
                            key,
                            SettingPatch::Text(options@[next]@),
                        )
                    },
                    MenuItemType::Number { key, value, min, max, step } => {
                        let raised = value + step;
                        let next = if raised <= max {
                            raised
                        } else {
                            max as int
                        };
                        &&& new_item.label == item.label
                        &&& new_item.item_type == (MenuItemType::Number {
                            key,
                            value: next as u64,
                            min,
                            max,
                            step,
                        })
                        &&& spec_setting_applied(
                            *old(settings),
                            *final(settings),
                            key,
                            SettingPatch::Number(next as u64),
                        )
                    },
                    _ => new_item == item && *final(settings) == *old(settings),
                }
            },
    {
        if self.rebinding.is_some() {
            return ;
        }
        if self.selected >= self.items.len() {
            return ;
        }
        let item = &mut self.items[self.selected];
        match &mut item.item_type {
            MenuItemType::Toggle { key, value } => {
                *value = !*value;
                apply_setting(settings, key, &SettingValue::Bool(*value));
            },
            MenuItemType::Cycle { key, options, current } => {
                if options.len() > 0 {
                    *current = if *current < usize::MAX {
                        (*current + 1) % options.len()
                    } else {
                        0
                    };
                    let chosen = options[*current].clone();
                    apply_setting(settings, key, &SettingValue::Text(chosen));
                }
            },
            MenuItemType::Number { key, value, max, step, .. } => {
                let raised = value.saturating_add(*step);
                *value = if raised <= *max {
                    raised
                } else {
                    *max
                };
                apply_setting(settings, key, &SettingValue::Number(*value));
            },
            _ => {},
        }
    }

    /// Add a key to the action being rebound, staying in rebind mode so
    /// more keys can be added; a key already bound there is not repeated.
    pub fn add_key(&mut self, key_str: String, settings: &mut Settings)
        ensures
            final(self).screen == old(self).screen,
            final(self).selected == old(self).selected,
            final(self).rebinding == old(self).rebinding,
            old(self).rebinding is None ==> *final(self) == *old(self)
                && *final(settings) == *old(settings),
    {
        let idx = match self.rebinding {
            Some(idx) => idx,
            None => {
                return ;
            },
        };
        if idx >= self.items.len() {
            return ;
        }
        let item = &mut self.items[idx];
        if let MenuItemType::KeyBind { action, keys } = &mut item.item_type {
            if !contains_string(keys, &key_str) {
                keys.push(key_str);
                let action_copy = action.clone();
                let keys_copy = clone_strings(keys);
                update_key_binding_pub(settings, action_copy.as_str(), keys_copy);
            }
        }
        // Stay in rebinding mode to allow adding more keys
    }

    /// Replace the keys of the action being rebound with one key and exit
    /// rebind mode.
    pub fn set_key(&mut self, key_str: String, settings: &mut Settings)
        ensures
            final(self).screen == old(self).screen,
            final(self).selected == old(self).selected,
            final(self).rebinding is None,
            old(self).rebinding is None ==> final(self).items == old(self).items
                && *final(settings) == *old(settings),
    {
        let idx = match self.rebinding {
            Some(idx) => idx,
            None => {
                self.rebinding = None;
                return ;
            },
        };
        if idx < self.items.len() {
            let item = &mut self.items[idx];
            if let MenuItemType::KeyBind { action, keys } = &mut item.item_type {
                keys.clear();
                keys.push(key_str);
                let action_copy = action.clone();
                let keys_copy = clone_strings(keys);
                update_key_binding_pub(settings, action_copy.as_str(), keys_copy);
            }
        }
        self.rebinding = None;
    }

    /// Rebuild the menu for a screen from the settings.
    pub fn go_to(&mut self, screen: MenuScreen, settings: &Settings)
        ensures
            match screen {
                MenuScreen::Main => spec_main_menu(*final(self)),
                MenuScreen::ModeSelect => spec_mode_select(*final(self)),
                MenuScreen::Settings => spec_settings_menu(*final(self)),
                MenuScreen::SettingsKeys => spec_settings_keys(*final(self), *settings),
                MenuScreen::SettingsVisual => spec_settings_visual(*final(self), *settings),
                MenuScreen::SettingsGameplay => spec_settings_gameplay(*final(self), *settings),
                MenuScreen::SettingsAudio => spec_settings_audio(*final(self), *settings),
                MenuScreen::Multiplayer => spec_multiplayer_menu(*final(self)),
                MenuScreen::HostGame => spec_host_game_menu(*final(self), None::<Seq<char>>),
                MenuScreen::JoinGame => spec_join_game_menu(*final(self)),
            },
    {
        *self = match screen {
            MenuScreen::Main => Menu::main_menu(),
            MenuScreen::ModeSelect => Menu::mode_select(),
            MenuScreen::Settings => Menu::settings_menu(),
            MenuScreen::SettingsKeys => Menu::settings_keys(settings),
            MenuScreen::SettingsVisual => Menu::settings_visual(settings),
            MenuScreen::SettingsGameplay => Menu::settings_gameplay(settings),
            MenuScreen::SettingsAudio => Menu::settings_audio(settings),
            MenuScreen::Multiplayer => Menu::multiplayer_menu(),
            MenuScreen::HostGame => Menu::host_game_menu(None),
            MenuScreen::JoinGame => Menu::join_game_menu(),
        };
    }

    /// The screen one step back from a screen.
    pub open spec fn spec_back_screen(screen: MenuScreen) -> MenuScreen {
        match screen {
            MenuScreen::Main => MenuScreen::Main,
            MenuScreen::ModeSelect => MenuScreen::Main,
            MenuScreen::Settings => MenuScreen::Main,
            MenuScreen::SettingsKeys => MenuScreen::Settings,
            MenuScreen::SettingsVisual => MenuScreen::Settings,
            MenuScreen::SettingsGameplay => MenuScreen::Settings,
            MenuScreen::SettingsAudio => MenuScreen::Settings,
            MenuScreen::Multiplayer => MenuScreen::ModeSelect,
            MenuScreen::HostGame => MenuScreen::Multiplayer,
            MenuScreen::JoinGame => MenuScreen::Multiplayer,
        }
    }

    /// Go back to the previous screen.
    pub fn go_back(&mut self, settings: &Settings)
        ensures
            match Menu::spec_back_screen(old(self).screen) {
                MenuScreen::Main => spec_main_menu(*final(self)),
                MenuScreen::ModeSelect => spec_mode_select(*final(self)),
                MenuScreen::Settings => spec_settings_menu(*final(self)),
                MenuScreen::SettingsKeys => spec_settings_keys(*final(self), *settings),
                MenuScreen::SettingsVisual => spec_settings_visual(*final(self), *settings),
                MenuScreen::SettingsGameplay => spec_settings_gameplay(*final(self), *settings),
                MenuScreen::SettingsAudio => spec_settings_audio(*final(self), *settings),
                MenuScreen::Multiplayer => spec_multiplayer_menu(*final(self)),
                MenuScreen::HostGame => spec_host_game_menu(*final(self), None::<Seq<char>>),
                MenuScreen::JoinGame => spec_join_game_menu(*final(self)),
            },
    {
        let prev = match self.screen {
            MenuScreen::Main => MenuScreen::Main,
            MenuScreen::ModeSelect => MenuScreen::Main,
            MenuScreen::Settings => MenuScreen::Main,
            MenuScreen::SettingsKeys => MenuScreen::Settings,
            MenuScreen::SettingsVisual => MenuScreen::Settings,
            MenuScreen::SettingsGameplay => MenuScreen::Settings,
            MenuScreen::SettingsAudio => MenuScreen::Settings,
            MenuScreen::Multiplayer => MenuScreen::ModeSelect,
            MenuScreen::HostGame => MenuScreen::Multiplayer,
            MenuScreen::JoinGame => MenuScreen::Multiplayer,
        };
        self.go_to(prev, settings);
    }
}

/// A settings patch, for stating what an adjustment wrote.
pub enum SettingPatch {
    Bool(bool),
    Text(Seq<char>),
    Number(u64),
}

/// The settings after one key's value is replaced: exactly that field
/// changes, and only under its matching value shape.
pub open spec fn spec_setting_applied(
    pre: Settings,
    post: Settings,
    key: SettingKey,
    patch: SettingPatch,
) -> bool {
    match (key, patch) {
        (SettingKey::ShowGhost, SettingPatch::Bool(v)) => {
            &&& post.visual.show_ghost == v
            &&& post.visual.block_style == pre.visual.block_style
            &&& post.keys == pre.keys
            &&& post.gameplay == pre.gameplay
            &&& post.audio == pre.audio
            &&& post.high_scores == pre.high_scores
        },
        (SettingKey::BlockStyle, SettingPatch::Text(v)) => {
            &&& post.visual.block_style@ == v
            &&& post.visual.show_ghost == pre.visual.show_ghost
            &&& post.keys == pre.keys
            &&& post.gameplay == pre.gameplay
            &&& post.audio == pre.audio
            &&& post.high_scores == pre.high_scores
        },
        (SettingKey::DasMs, SettingPatch::Number(v)) => {
            &&& post.gameplay == (crate::settings::GameplaySettings {
                das_ms: v,
                arr_ms: pre.gameplay.arr_ms,
            })
            &&& post.keys == pre.keys
            &&& post.visual == pre.visual
            &&& post.audio == pre.audio
            &&& post.high_scores == pre.high_scores
        },
        (SettingKey::ArrMs, SettingPatch::Number(v)) => {
            &&& post.gameplay == (crate::settings::GameplaySettings {
                das_ms: pre.gameplay.das_ms,
                arr_ms: v,
            })
            &&& post.keys == pre.keys
            &&& post.visual == pre.visual
            &&& post.audio == pre.audio
            &&& post.high_scores == pre.high_scores
        },
        (SettingKey::BgmVolume, SettingPatch::Number(v)) => {
            &&& post.audio.bgm_volume == v as u32
            &&& post.audio.sfx_volume == pre.audio.sfx_volume
            &&& post.audio.bgm_track == pre.audio.bgm_track
            &&& post.keys == pre.keys
            &&& post.visual == pre.visual
            &&& post.gameplay == pre.gameplay
            &&& post.high_scores == pre.high_scores
        },
        (SettingKey::SfxVolume, SettingPatch::Number(v)) => {
            &&& post.audio.sfx_volume == v as u32
            &&& post.audio.bgm_volume == pre.audio.bgm_volume
            &&& post.audio.bgm_track == pre.audio.bgm_track
            &&& post.keys == pre.keys
            &&& post.visual == pre.visual
            &&& post.gameplay == pre.gameplay
            &&& post.high_scores == pre.high_scores
        },
        (SettingKey::BgmTrack, SettingPatch::Text(v)) => {
            &&& post.audio.bgm_track@ == v
            &&& post.audio.bgm_volume == pre.audio.bgm_volume
            &&& post.audio.sfx_volume == pre.audio.sfx_volume
            &&& post.keys == pre.keys
            &&& post.visual == pre.visual
            &&& post.gameplay == pre.gameplay
            &&& post.high_scores == pre.high_scores
        },
        _ => post == pre,
    }
}

/// Apply a setting change to the settings.
fn apply_setting(settings: &mut Settings, key: &SettingKey, value: &SettingValue)
    ensures
        spec_setting_applied(
            *old(settings),
            *final(settings),
            *key,
            match value {
                SettingValue::Bool(v) => SettingPatch::Bool(*v),
                SettingValue::Text(v) => SettingPatch::Text(v@),
                SettingValue::Number(v) => SettingPatch::Number(*v),
            },
        ),
{
    match (key, value) {
        (SettingKey::ShowGhost, SettingValue::Bool(v)) => {
            settings.visual.show_ghost = *v;
        },
        (SettingKey::BlockStyle, SettingValue::Text(v)) => {
            settings.visual.block_style = v.clone();
        },
        (SettingKey::DasMs, SettingValue::Number(v)) => {
            settings.gameplay.das_ms = *v;
        },
        (SettingKey::ArrMs, SettingValue::Number(v)) => {
            settings.gameplay.arr_ms = *v;
        },
        (SettingKey::BgmVolume, SettingValue::Number(v)) => {
            settings.audio.bgm_volume = clip_volume(*v);
        },
        (SettingKey::SfxVolume, SettingValue::Number(v)) => {
            settings.audio.sfx_volume = clip_volume(*v);
        },
        (SettingKey::BgmTrack, SettingValue::Text(v)) => {
            settings.audio.bgm_track = v.clone();
        },
        _ => {},
    }
}

/// A volume value narrowed to its field width.
fn clip_volume(v: u64) -> (r: u32)
    ensures
        r == v as u32,
{
    #[verifier::truncate]
    (v as u32)
}

/// Whether a list of key names contains a key.
fn contains_string(keys: &Vec<String>, key: &String) -> (r: bool)
    ensures
        r == exists|i: int| 0 <= i < keys@.len() && (#[trigger] keys@[i])@ == key@,
{
    let mut i: usize = 0;
    while i < keys.len()
        invariant
            i <= keys@.len(),
            forall|j: int| 0 <= j < i ==> (#[trigger] keys@[j])@ != key@,
        decreases keys@.len() - i,
    {
        if keys[i].eq(key) {
            return true;
        }
        i += 1;
    }
    false
}

/// A copy of a list of key names.
fn clone_strings(keys: &Vec<String>) -> (r: Vec<String>)
    ensures
        r@.len() == keys@.len(),
        forall|i: int| 0 <= i < keys@.len() ==> (#[trigger] r@[i])@ == keys@[i]@,
{
    let mut r: Vec<String> = Vec::new();
    let mut i: usize = 0;
    while i < keys.len()
        invariant
            i <= keys@.len(),
            r@.len() == i,
            forall|j: int| 0 <= j < i ==> (#[trigger] r@[j])@ == keys@[j]@,
        decreases keys@.len() - i,
    {
        r.push(keys[i].clone());
        i += 1;
    }
    r
}

/// Update one action's key binding in the settings, by the action's name;
/// an unknown action name changes nothing.
pub fn update_key_binding_pub(settings: &mut Settings, action: &str, keys: Vec<String>)
    ensures
        final(settings).visual == old(settings).visual,
        final(settings).gameplay == old(settings).gameplay,
        final(settings).audio == old(settings).audio,
        final(settings).high_scores == old(settings).high_scores,
        action@ == "move_left"@ ==> final(settings).keys == (crate::settings::KeyBindings {
            move_left: keys,
            ..old(settings).keys
        }),
        action@ == "move_right"@ ==> final(settings).keys == (crate::settings::KeyBindings {
            move_right: keys,
            ..old(settings).keys
        }),
        action@ == "soft_drop"@ ==> final(settings).keys == (crate::settings::KeyBindings {
            soft_drop: keys,
            ..old(settings).keys
        }),
        action@ == "hard_drop"@ ==> final(settings).keys == (crate::settings::KeyBindings {
            hard_drop: keys,
            ..old(settings).keys
        }),
        action@ == "rotate_cw"@ ==> final(settings).keys == (crate::settings::KeyBindings {
            rotate_cw: keys,
            ..old(settings).keys
        }),
        action@ == "rotate_ccw"@ ==> final(settings).keys == (crate::settings::KeyBindings {
            rotate_ccw: keys,
            ..old(settings).keys
        }),
        action@ == "hold"@ ==> final(settings).keys == (crate::settings::KeyBindings {
            hold: keys,
            ..old(settings).keys
        }),
        action@ == "pause"@ ==> final(settings).keys == (crate::settings::KeyBindings {
            pause: keys,
            ..old(settings).keys
        }),
        action@ == "quit"@ ==> final(settings).keys == (crate::settings::KeyBindings {
            quit: keys,
            ..old(settings).keys
        }),
{
    proof {
        lemma_action_names_distinct();
    }
    let name = String::from_str(action);
    if name.eq(&String::from_str("move_left")) {
        settings.keys.move_left = keys;
    } else if name.eq(&String::from_str("move_right")) {
        settings.keys.move_right = keys;
    } else if name.eq(&String::from_str("soft_drop")) {
        settings.keys.soft_drop = keys;
    } else if name.eq(&String::from_str("hard_drop")) {
        settings.keys.hard_drop = keys;
    } else if name.eq(&String::from_str("rotate_cw")) {
        settings.keys.rotate_cw = keys;
    } else if name.eq(&String::from_str("rotate_ccw")) {
        settings.keys.rotate_ccw = keys;
    } else if name.eq(&String::from_str("hold")) {
        settings.keys.hold = keys;
    } else if name.eq(&String::from_str("pause")) {
        settings.keys.pause = keys;
    } else if name.eq(&String::from_str("quit")) {
        settings.keys.quit = keys;
    }
}

/// The nine action names are pairwise distinct strings, so at most one
/// binding field can match a given name.
proof fn lemma_action_names_distinct()
    ensures
        "move_left"@ != "move_right"@,
        "move_left"@ != "soft_drop"@,
        "move_left"@ != "hard_drop"@,
        "move_left"@ != "rotate_cw"@,
        "move_left"@ != "rotate_ccw"@,
        "move_left"@ != "hold"@,
        "move_left"@ != "pause"@,
        "move_left"@ != "quit"@,
        "move_right"@ != "soft_drop"@,
        "move_right"@ != "hard_drop"@,
        "move_right"@ != "rotate_cw"@,
        "move_right"@ != "rotate_ccw"@,
        "move_right"@ != "hold"@,
        "move_right"@ != "pause"@,
        "move_right"@ != "quit"@,
        "soft_drop"@ != "hard_drop"@,
        "soft_drop"@ != "rotate_cw"@,
        "soft_drop"@ != "rotate_ccw"@,
        "soft_drop"@ != "hold"@,
        "soft_drop"@ != "pause"@,
        "soft_drop"@ != "quit"@,
        "hard_drop"@ != "rotate_cw"@,
        "hard_drop"@ != "rotate_ccw"@,
        "hard_drop"@ != "hold"@,
        "hard_drop"@ != "pause"@,
        "hard_drop"@ != "quit"@,
        "rotate_cw"@ != "rotate_ccw"@,
        "rotate_cw"@ != "hold"@,
        "rotate_cw"@ != "pause"@,
        "rotate_cw"@ != "quit"@,
        "rotate_ccw"@ != "hold"@,
        "rotate_ccw"@ != "pause"@,
        "rotate_ccw"@ != "quit"@,
        "hold"@ != "pause"@,
        "hold"@ != "quit"@,
        "pause"@ != "quit"@,
{
    reveal_strlit("move_left");
    reveal_strlit("move_right");
    reveal_strlit("soft_drop");
    reveal_strlit("hard_drop");
    reveal_strlit("rotate_cw");
    reveal_strlit("rotate_ccw");
    reveal_strlit("hold");
    reveal_strlit("pause");
    reveal_strlit("quit");
    assert(("move_left")@.len() == 9);
    assert(("move_right")@.len() == 10);
    assert(("soft_drop")@.len() == 9);
    assert(("hard_drop")@.len() == 9);
    assert(("rotate_cw")@.len() == 9);
    assert(("rotate_ccw")@.len() == 10);
    assert(("hold")@.len() == 4);
    assert(("pause")@.len() == 5);
    assert(("quit")@.len() == 4);
    assert(("move_left")@[0] == 'm' && ("soft_drop")@[0] == 's' && ("hard_drop")@[0] == 'h'
        && ("rotate_cw")@[0] == 'r');
    assert(("move_right")@[0] == 'm' && ("rotate_ccw")@[0] == 'r');
    assert(("hold")@[0] == 'h' && ("quit")@[0] == 'q');
}

/// Append one character to a string.
fn push_char(s: &mut String, c: char)
    ensures
        final(s)@ == old(s)@.push(c),
{
    char_onto(s, c);
}

/// Remove the last character of a string, if any.
fn pop_char(s: &mut String)
    ensures
        final(s)@ == (if old(s)@.len() > 0 {
            old(s)@.drop_last()
        } else {
            old(s)@
        }),
{
    string_pop(s);
}

/// Relies on String::push: appends exactly the one character.
#[verifier::external_body]
fn char_onto(s: &mut String, c: char)
    ensures
        final(s)@ == old(s)@.push(c),
{
    s.push(c);
}

/// Relies on String::pop: removes exactly the last character, or nothing
/// from an empty string.
#[verifier::external_body]
fn string_pop(s: &mut String)
    ensures
        final(s)@ == (if old(s)@.len() > 0 {
            old(s)@.drop_last()
        } else {
            old(s)@
        }),
{
    let _ = s.pop();
}

impl Default for Menu {
    fn default() -> (m: Menu)
        ensures
            spec_main_menu(m),
    {
        Menu::new()
    }
}

/// The hint line shown under a menu, by what the selected row can do.
pub open spec fn spec_controls_hint(menu: Menu) -> Seq<char> {
    if menu.rebinding is Some {
        "Key=Set | Shift+Key=Add more | Enter=Done | Esc=Cancel"@
    } else if menu.selected < menu.items@.len() {
        match menu.items@[menu.selected as int].item_type {
            MenuItemType::Button(_) => "Up/Down Select  Enter Confirm  Esc Back"@,
            MenuItemType::Toggle { .. } => "Up/Down Select  Left/Right Adjust  Esc Back"@,
            MenuItemType::Cycle { .. } => "Up/Down Select  Left/Right Adjust  Esc Back"@,
            MenuItemType::Number { .. } => "Up/Down Select  Left/Right Adjust  Esc Back"@,
            MenuItemType::KeyBind { .. } => "Up/Down Select  Enter Rebind  Del Clear  Esc Back"@,
            MenuItemType::TextInput { .. } => "Type to enter  Backspace to delete  Esc Back"@,
            MenuItemType::Label { .. } => "Up/Down Select  Esc Back"@,
        }
    } else {
        "Up/Down Select  Enter Confirm  Esc Back"@
    }
}

/// The hint line shown under a menu.
pub fn get_controls_hint(menu: &Menu) -> (r: String)
    ensures
        r@ == spec_controls_hint(*menu),
{
    if menu.rebinding.is_some() {
        return String::from_str("Key=Set | Shift+Key=Add more | Enter=Done | Esc=Cancel");
    }

    if menu.selected < menu.items.len() {
        match &menu.items[menu.selected].item_type {
            MenuItemType::Button(_) => String::from_str(
                "Up/Down Select  Enter Confirm  Esc Back",
            ),
            MenuItemType::Toggle { .. } => String::from_str(
                "Up/Down Select  Left/Right Adjust  Esc Back",
            ),
            MenuItemType::Cycle { .. } => String::from_str(
                "Up/Down Select  Left/Right Adjust  Esc Back",
            ),
            MenuItemType::Number { .. } => String::from_str(
                "Up/Down Select  Left/Right Adjust  Esc Back",
            ),
            MenuItemType::KeyBind { .. } => String::from_str(
                "Up/Down Select  Enter Rebind  Del Clear  Esc Back",
            ),
            MenuItemType::TextInput { .. } => String::from_str(
                "Type to enter  Backspace to delete  Esc Back",
            ),
            MenuItemType::Label { .. } => String::from_str("Up/Down Select  Esc Back"),
        }
    } else {
        String::from_str("Up/Down Select  Enter Confirm  Esc Back")
    }
}

} // verus!
