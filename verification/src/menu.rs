//! The game's states, the main menu's buttons and what they do, and the
//! ticker of the custom game screen.

use vstd::prelude::*;

verus! {

/// The states the game goes through.
#[derive(Debug, Clone, Copy, PartialEq, Eq, Structural, Hash)]
pub enum GameState {
    AssetLoading,
    Loading,
    MainMenu,
    CustomGame,
    MatchLoadingState,
    SingleplayerGame,
    MultiplayerGame,
}

impl Default for GameState {
    fn default() -> (r: Self)
        ensures
            r == GameState::AssetLoading,
    {
        GameState::AssetLoading
    }
}

/// The buttons of the top menu.
#[derive(Debug, Clone, Copy, PartialEq, Eq, Structural)]
pub enum TopMenuButtonsEvent {
    Campaign,
    Skirmish,
    Options,
    Quit,
}

/// The buttons of the campaign menu.
#[derive(Debug, Clone, Copy, PartialEq, Eq, Structural)]
pub enum CampaignButtonsEvent {
    Continue,
    LevelSelect,
    LoadGame,
    CustomGame,
    Back,
}

/// The buttons of the skirmish menu.
#[derive(Debug, Clone, Copy, PartialEq, Eq, Structural)]
pub enum SkirmishButtonsEvent {
    Continue,
    NewGame,
    LoadGame,
    Back,
}

/// A button of the main menu, by the menu it belongs to.
#[derive(Debug, Clone, Copy, PartialEq, Eq, Structural)]
pub enum MainMenuButtons {
    TopMenu(TopMenuButtonsEvent),
    Campaign(CampaignButtonsEvent),
    Skirmish(SkirmishButtonsEvent),
}

/// How the pointer interacts with a button this frame.
#[derive(Debug, Clone, Copy, PartialEq, Eq, Structural)]
pub enum ButtonInteraction {
    Pressed,
    Hovered,
    Untouched,
}

/// The sub-menus of the main menu.
#[derive(Debug, Clone, Copy, PartialEq, Eq, Structural)]
pub enum MenuPanel {
    Campaign,
    CustomGame,
}

/// What pressing a main menu button does.
#[derive(Debug, Clone, PartialEq, Eq)]
pub enum MenuAction {
    /// Hide a sub-menu.
    Close(MenuPanel),
    /// Show a hidden sub-menu, or hide a shown one.
    Toggle(MenuPanel),
    /// Leave the game.
    Quit,
    /// Load the match from this save file.
    OpenSaveFile(String),
    /// Go to this state.
    SetState(GameState),
}

/// The path of the campaign's save file.
pub open spec fn campaign_save_path() -> Seq<char> {
    "saves/developer.ron"@
}

/// The path of the campaign's first level.
pub open spec fn campaign_level_path() -> Seq<char> {
    "levels/developer.ron"@
}

/// The actions of a pressed button, as a model: save files by their paths.
pub enum ActionSpec {
    Close(MenuPanel),
    Toggle(MenuPanel),
    Quit,
    OpenSaveFile(Seq<char>),
    SetState(GameState),
}

/// The model of an action.
pub open spec fn action_view(a: MenuAction) -> ActionSpec {
    match a {
        MenuAction::Close(p) => ActionSpec::Close(p),
        MenuAction::Toggle(p) => ActionSpec::Toggle(p),
        MenuAction::Quit => ActionSpec::Quit,
        MenuAction::OpenSaveFile(s) => ActionSpec::OpenSaveFile(s@),
        MenuAction::SetState(g) => ActionSpec::SetState(g),
    }
}

/// What each button does, in order: the top menu switches between the
/// campaign and skirmish sub-menus or quits; the campaign continues the saved
/// match or starts its first level; the skirmish menu opens the custom game;
/// the back buttons close their sub-menu. The other buttons do nothing yet.
pub open spec fn menu_actions_spec(button: MainMenuButtons) -> Seq<ActionSpec> {
    match button {
        MainMenuButtons::TopMenu(TopMenuButtonsEvent::Campaign) =>
            seq![ActionSpec::Close(MenuPanel::CustomGame), ActionSpec::Toggle(MenuPanel::Campaign)],
        MainMenuButtons::TopMenu(TopMenuButtonsEvent::Skirmish) =>
            seq![ActionSpec::Close(MenuPanel::Campaign), ActionSpec::Toggle(MenuPanel::CustomGame)],
        MainMenuButtons::TopMenu(TopMenuButtonsEvent::Quit) => seq![ActionSpec::Quit],
        MainMenuButtons::Campaign(CampaignButtonsEvent::Continue) =>
            seq![ActionSpec::OpenSaveFile(campaign_save_path()), ActionSpec::SetState(GameState::MatchLoadingState)],
        MainMenuButtons::Campaign(CampaignButtonsEvent::LevelSelect) =>
            seq![ActionSpec::OpenSaveFile(campaign_level_path()), ActionSpec::SetState(GameState::MatchLoadingState)],
        MainMenuButtons::Campaign(CampaignButtonsEvent::Back) => seq![ActionSpec::Close(MenuPanel::Campaign)],
        MainMenuButtons::Skirmish(SkirmishButtonsEvent::Back) => seq![ActionSpec::Close(MenuPanel::CustomGame)],
        MainMenuButtons::Skirmish(SkirmishButtonsEvent::NewGame) => seq![ActionSpec::SetState(GameState::CustomGame)],
        _ => Seq::empty(),
    }
}

/// The Back button of a sub-menu closes that very sub-menu and does nothing
/// else; the top menu's Campaign and Skirmish buttons close the other sub-menu
/// and then show or hide their own; Quit only quits; Continue and Level Select
/// load a match file and then go to match loading.
pub proof fn lemma_buttons_act_on_their_menus()
    ensures
        menu_actions_spec(MainMenuButtons::Campaign(CampaignButtonsEvent::Back))
            == seq![ActionSpec::Close(MenuPanel::Campaign)],
        menu_actions_spec(MainMenuButtons::Skirmish(SkirmishButtonsEvent::Back))
            == seq![ActionSpec::Close(MenuPanel::CustomGame)],
        menu_actions_spec(MainMenuButtons::TopMenu(TopMenuButtonsEvent::Campaign))
            == seq![ActionSpec::Close(MenuPanel::CustomGame), ActionSpec::Toggle(MenuPanel::Campaign)],
        menu_actions_spec(MainMenuButtons::TopMenu(TopMenuButtonsEvent::Skirmish))
            == seq![ActionSpec::Close(MenuPanel::Campaign), ActionSpec::Toggle(MenuPanel::CustomGame)],
        menu_actions_spec(MainMenuButtons::TopMenu(TopMenuButtonsEvent::Quit)) == seq![ActionSpec::Quit],
        menu_actions_spec(MainMenuButtons::Campaign(CampaignButtonsEvent::Continue))
            == seq![ActionSpec::OpenSaveFile("saves/developer.ron"@), ActionSpec::SetState(GameState::MatchLoadingState)],
        menu_actions_spec(MainMenuButtons::Campaign(CampaignButtonsEvent::LevelSelect))
            == seq![ActionSpec::OpenSaveFile("levels/developer.ron"@), ActionSpec::SetState(GameState::MatchLoadingState)],
        menu_actions_spec(MainMenuButtons::Skirmish(SkirmishButtonsEvent::NewGame))
            == seq![ActionSpec::SetState(GameState::CustomGame)],
{
}

/// The actions of a pressed main menu button, in the order they are taken.
pub fn menu_actions(button: MainMenuButtons) -> (r: Vec<MenuAction>)
    ensures
        r@.map_values(|a: MenuAction| action_view(a)) == menu_actions_spec(button),
{
    let mut r: Vec<MenuAction> = Vec::new();
    match button {
        MainMenuButtons::TopMenu(TopMenuButtonsEvent::Campaign) => {
            r.push(MenuAction::Close(MenuPanel::CustomGame));
            r.push(MenuAction::Toggle(MenuPanel::Campaign));
        },
        MainMenuButtons::TopMenu(TopMenuButtonsEvent::Skirmish) => {
            r.push(MenuAction::Close(MenuPanel::Campaign));
            r.push(MenuAction::Toggle(MenuPanel::CustomGame));
        },
        MainMenuButtons::TopMenu(TopMenuButtonsEvent::Quit) => {
            r.push(MenuAction::Quit);
        },
        MainMenuButtons::Campaign(CampaignButtonsEvent::Continue) => {
            r.push(MenuAction::OpenSaveFile("saves/developer.ron".to_owned()));
            r.push(MenuAction::SetState(GameState::MatchLoadingState));
        },
        MainMenuButtons::Campaign(CampaignButtonsEvent::LevelSelect) => {
            r.push(MenuAction::OpenSaveFile("levels/developer.ron".to_owned()));
            r.push(MenuAction::SetState(GameState::MatchLoadingState));
        },
        MainMenuButtons::Campaign(CampaignButtonsEvent::Back) => {
            r.push(MenuAction::Close(MenuPanel::Campaign));
        },
        MainMenuButtons::Skirmish(SkirmishButtonsEvent::Back) => {
            r.push(MenuAction::Close(MenuPanel::CustomGame));
        },
        MainMenuButtons::Skirmish(SkirmishButtonsEvent::NewGame) => {
            r.push(MenuAction::SetState(GameState::CustomGame));
        },
        _ => {},
    }
    proof {
        assert(r@.map_values(|a: MenuAction| action_view(a)) =~= menu_actions_spec(button));
    }
    r
}

/// The main menu's user interface.
pub struct MainMenuUIPlugin;

impl MainMenuUIPlugin {
    /// The button event that a button sends this frame: a visible button that
    /// is pressed sends its own event; others send nothing.
    pub fn main_menu_ui_button_event_writer(
        interaction: ButtonInteraction,
        button: MainMenuButtons,
        visible: bool,
    ) -> (r: Option<MainMenuButtons>)
        ensures
            r == (if visible && interaction == ButtonInteraction::Pressed { Some(button) } else { None::<MainMenuButtons> }),
    {
        if !visible {
            return None;
        }
        match interaction {
            ButtonInteraction::Pressed => Some(button),
            ButtonInteraction::Hovered => None,
            ButtonInteraction::Untouched => None,
        }
    }
}

/// The numeric value of a string of decimal digits.
pub open spec fn digits_value(s: Seq<char>) -> int
    decreases s.len(),
{
    if s.len() == 0 {
        0
    } else {
        digits_value(s.drop_last()) * 10 + (s.last() as int - '0' as int)
    }
}

/// Every character is a decimal digit.
pub open spec fn all_digits(s: Seq<char>) -> bool {
    forall|i: int| 0 <= i < s.len() ==> '0' <= #[trigger] s[i] <= '9'
}

/// The value of decimal text as a 32-bit integer, the way Rust's `i32` parser
/// reads it: an optional `+` or `-`, then at least one decimal digit and
/// nothing else, with a value in range.
pub open spec fn parse_i32_spec(s: Seq<char>) -> Option<i32> {
    let negative = s.len() > 0 && s[0] == '-';
    let signed = s.len() > 0 && (s[0] == '-' || s[0] == '+');
    let digits = if signed { s.drop_first() } else { s };
    let value = if negative { -digits_value(digits) } else { digits_value(digits) };
    if digits.len() > 0 && all_digits(digits) && i32::MIN <= value <= i32::MAX {
        Some(value as i32)
    } else {
        None
    }
}

/// The decimal digits of a natural number, without leading zeros.
pub open spec fn natural_digits(n: nat) -> Seq<char>
    decreases n,
{
    if n < 10 {
        seq![(n + '0' as nat) as char]
    } else {
        natural_digits(n / 10).push(((n % 10) + '0' as nat) as char)
    }
}

/// The decimal text of an integer, with a `-` when it is negative.
pub open spec fn decimal_text(v: int) -> Seq<char> {
    if v < 0 { seq!['-'] + natural_digits((-v) as nat) } else { natural_digits(v as nat) }
}

/// The decimal digits of a natural number are digits, at least one of them,
/// and read back as the number.
proof fn lemma_natural_digits(n: nat)
    ensures
        natural_digits(n).len() > 0,
        all_digits(natural_digits(n)),
        digits_value(natural_digits(n)) == n,
    decreases n,
{
    if n >= 10 {
        lemma_natural_digits(n / 10);
        let rest = natural_digits(n / 10);
        let d = ((n % 10) + '0' as nat) as char;
        assert(natural_digits(n) == rest.push(d));
        assert(rest.push(d).drop_last() =~= rest);
        assert(d as int == n % 10 + '0' as int);
        assert(forall|i: int| 0 <= i < rest.len() ==> rest.push(d)[i] == rest[i]);
        assert(digits_value(rest.push(d)) == digits_value(rest) * 10 + (n % 10));
        assert((n / 10) * 10 + n % 10 == n) by (nonlinear_arith);
    } else {
        let d = (n + '0' as nat) as char;
        assert(d as int == n + '0' as int);
        assert(natural_digits(n) == seq![d]);
        assert(seq![d].drop_last() =~= Seq::<char>::empty());
        assert(digits_value(Seq::<char>::empty()) == 0);
        assert(digits_value(seq![d]) == n);
    }
}

/// The decimal text of a 32-bit integer reads back as that integer: what the
/// ticker shows after a tick can be ticked again.
pub proof fn lemma_decimal_text_parses(v: i32)
    ensures
        parse_i32_spec(decimal_text(v as int)) == Some(v),
{
    let t = decimal_text(v as int);
    if v < 0 {
        let n = (-(v as int)) as nat;
        lemma_natural_digits(n);
        assert(t == seq!['-'] + natural_digits(n));
        assert(t[0] == '-');
        assert(t.drop_first() =~= natural_digits(n));
    } else {
        let n = v as nat;
        lemma_natural_digits(n);
        let ds = natural_digits(n);
        assert(t == ds);
        assert('0' <= ds[0] <= '9');
    }
}

/// `str::parse::<i32>`: the value of the text, read as the standard library
/// documents for integers: an optional sign, then only decimal digits, in range.
#[verifier::external_body]
fn parse_i32(text: &str) -> (r: Option<i32>)
    ensures
        r == parse_i32_spec(text@),
{
    text.parse::<i32>().ok()
}

/// `i32::to_string`: the decimal text of the value.
#[verifier::external_body]
fn i32_to_string(value: i32) -> (r: String)
    ensures
        r@ == decimal_text(value as int),
{
    value.to_string()
}

/// The custom game screen.
pub struct CustomGameUIPlugin;

impl CustomGameUIPlugin {
    /// Whether the tick button sends a request to the server this frame: only a
    /// visible, pressed button does.
    pub fn send_uptick(interaction: ButtonInteraction, visible: bool) -> (r: bool)
        ensures
            r == (visible && interaction == ButtonInteraction::Pressed),
    {
        if !visible {
            return false;
        }
        match interaction {
            ButtonInteraction::Pressed => true,
            ButtonInteraction::Hovered => false,
            ButtonInteraction::Untouched => false,
        }
    }

    /// Whether the ticker shows a count that can be moved up by one.
    pub fn can_uptick(text: &str) -> (r: bool)
        ensures
            r == (parse_i32_spec(text@) matches Some(v) && v < i32::MAX),
    {
        match parse_i32(text) {
            Some(v) => v < i32::MAX,
            None => false,
        }
    }

    /// The ticker's text after one server command: its count, plus one.
    pub fn uptick(text: &str) -> (r: String)
        requires
            parse_i32_spec(text@) matches Some(v) && v < i32::MAX,
        ensures
            r@ == decimal_text(parse_i32_spec(text@)->0 + 1),
            parse_i32_spec(r@) == Some((parse_i32_spec(text@)->0 + 1) as i32),
    {
        let value = match parse_i32(text) {
            Some(v) => v,
            None => 0,
        };
        proof { lemma_decimal_text_parses((value + 1) as i32); }
        i32_to_string(value + 1)
    }
}

} // verus!
