use mode_menu::app::App;
use mode_menu::effect::ScreenEffect;
use mode_menu::mode::{AppMode, Key};

fn pl(s: &str) -> ScreenEffect {
    ScreenEffect::PrintLine(s.to_string())
}

fn main_screen() -> Vec<ScreenEffect> {
    vec![
        pl("=== MAIN MODE ==="),
        pl(""),
        pl("Welcome to the multi-mode CLI application!"),
        pl(""),
        pl("Press keys 1-3 to switch modes:"),
        pl("  1: Main mode"),
        pl("  2: Info mode"),
        pl("  3: Settings mode"),
        pl("  h: Help"),
        pl("  q: Quit"),
        pl(""),
        pl("Main mode specific commands:"),
        pl("  a: Action 1"),
        pl("  b: Action 2"),
        ScreenEffect::FlushOut,
    ]
}

fn info_screen() -> Vec<ScreenEffect> {
    vec![
        pl("=== INFO MODE ==="),
        pl(""),
        pl("This is the info mode. Here you can view various information."),
        pl(""),
        pl("Press keys 1-3 to switch modes:"),
        pl("  1: Main mode"),
        pl("  2: Info mode"),
        pl("  3: Settings mode"),
        pl("  h: Help"),
        pl("  q: Quit"),
        pl(""),
        pl("Info mode specific commands:"),
        pl("  v: View stats"),
        pl("  d: Display report"),
        ScreenEffect::FlushOut,
    ]
}

fn settings_screen() -> Vec<ScreenEffect> {
    vec![
        pl("=== SETTINGS MODE ==="),
        pl(""),
        pl("Configure application settings here."),
        pl(""),
        pl("Press keys 1-3 to switch modes:"),
        pl("  1: Main mode"),
        pl("  2: Info mode"),
        pl("  3: Settings mode"),
        pl("  h: Help"),
        pl("  q: Quit"),
        pl(""),
        pl("Settings mode specific commands:"),
        pl("  c: Change config"),
        pl("  r: Reset settings"),
        ScreenEffect::FlushOut,
    ]
}

fn help_screen() -> Vec<ScreenEffect> {
    vec![
        pl("=== HELP MODE ==="),
        pl(""),
        pl("Multi-mode CLI Application Help"),
        pl(""),
        pl("Global commands:"),
        pl("  1: Switch to Main mode"),
        pl("  2: Switch to Info mode"),
        pl("  3: Switch to Settings mode"),
        pl("  h: Show this help"),
        pl("  q: Quit application"),
        pl(""),
        pl("Each mode has its own specific commands."),
        pl("Return to a mode to see its available commands."),
        pl(""),
        pl("Press any key to return to previous mode..."),
        ScreenEffect::FlushOut,
    ]
}

fn transition(screen: Vec<ScreenEffect>) -> Vec<ScreenEffect> {
    let mut v = vec![ScreenEffect::ClearScreen];
    v.extend(screen);
    v
}

#[test]
fn new_app_starts_in_main_and_running() {
    let app = App::new();
    assert_eq!(app.current(), AppMode::Main);
    assert!(app.is_running());
}

#[test]
fn render_shows_current_mode_screen() {
    let app = App::new();
    assert_eq!(app.render(), main_screen());
}

#[test]
fn global_keys_switch_mode_from_every_mode() {
    let targets = [
        ('1', AppMode::Main),
        ('2', AppMode::Info),
        ('3', AppMode::Settings),
        ('h', AppMode::Help),
    ];
    let priors = ['1', '2', '3', 'h'];
    for &prior in priors.iter() {
        for &(key, target) in targets.iter() {
            let mut app = App::new();
            app.handle_key_event(Key::Char(prior));
            let effects = app.handle_key_event(Key::Char(key));
            assert_eq!(app.current(), target);
            assert!(app.is_running());
            let screen = match target {
                AppMode::Main => main_screen(),
                AppMode::Info => info_screen(),
                AppMode::Settings => settings_screen(),
                AppMode::Help => help_screen(),
                AppMode::Exit => unreachable!(),
            };
            assert_eq!(effects, transition(screen));
        }
    }
}

#[test]
fn change_mode_emits_clear_then_target_screen() {
    let mut app = App::new();
    let effects = app.change_mode(AppMode::Settings);
    assert_eq!(app.current(), AppMode::Settings);
    assert!(app.is_running());
    assert_eq!(effects, transition(settings_screen()));
}

#[test]
fn quit_key_stops_from_every_mode() {
    for &prior in ['1', '2', '3', 'h'].iter() {
        let mut app = App::new();
        app.handle_key_event(Key::Char(prior));
        let mode_before = app.current();
        let effects = app.handle_key_event(Key::Char('q'));
        assert!(!app.is_running());
        assert_eq!(app.current(), mode_before);
        assert!(effects.is_empty());
    }
}

#[test]
fn unrecognized_key_changes_nothing() {
    let mut app = App::new();
    let effects = app.handle_key_event(Key::Char('x'));
    assert_eq!(app.current(), AppMode::Main);
    assert!(app.is_running());
    assert!(effects.is_empty());
}

#[test]
fn other_keys_are_unbound_outside_help() {
    for &prior in ['1', '2', '3'].iter() {
        let mut app = App::new();
        app.handle_key_event(Key::Char(prior));
        let mode_before = app.current();
        let effects = app.handle_key_event(Key::Other);
        assert_eq!(app.current(), mode_before);
        assert!(app.is_running());
        assert!(effects.is_empty());
    }
}

#[test]
fn foreign_mode_keys_are_unbound() {
    // Keys bound in one mode do nothing in a mode that does not bind them.
    let mut app = App::new();
    app.handle_key_event(Key::Char('2'));
    let effects = app.handle_key_event(Key::Char('a'));
    assert_eq!(app.current(), AppMode::Info);
    assert!(effects.is_empty());
}

#[test]
fn help_returns_to_main_on_any_unclaimed_key() {
    for key in [Key::Char('a'), Key::Char('v'), Key::Char('c'), Key::Char('x'), Key::Other] {
        let mut app = App::new();
        app.handle_key_event(Key::Char('h'));
        assert_eq!(app.current(), AppMode::Help);
        let effects = app.handle_key_event(key);
        assert_eq!(app.current(), AppMode::Main);
        assert!(app.is_running());
        assert_eq!(effects, transition(main_screen()));
    }
}

#[test]
fn main_mode_actions_show_message_and_rerender() {
    let mut app = App::new();
    let effects = app.handle_key_event(Key::Char('a'));
    let mut expected = vec![
        ScreenEffect::ClearScreen,
        pl("Executing Main Mode - Action 1"),
        pl("\nPress any key to return..."),
        ScreenEffect::WaitKey,
        ScreenEffect::ClearScreen,
    ];
    expected.extend(main_screen());
    assert_eq!(effects, expected);
    assert_eq!(app.current(), AppMode::Main);

    let effects = app.handle_key_event(Key::Char('b'));
    let mut expected = vec![
        ScreenEffect::ClearScreen,
        pl("Executing Main Mode - Action 2"),
        pl("\nPress any key to return..."),
        ScreenEffect::WaitKey,
        ScreenEffect::ClearScreen,
    ];
    expected.extend(main_screen());
    assert_eq!(effects, expected);
}

#[test]
fn settings_reset_holds_then_rerenders() {
    let mut app = App::new();
    app.handle_key_event(Key::Char('3'));
    let effects = app.handle_key_event(Key::Char('r'));
    let mut expected = vec![
        ScreenEffect::ClearScreen,
        pl("Resetting all settings to default..."),
        ScreenEffect::SleepMs(1000),
        pl("Settings reset complete!"),
        pl("\nPress any key to return..."),
        ScreenEffect::WaitKey,
        ScreenEffect::ClearScreen,
    ];
    expected.extend(settings_screen());
    assert_eq!(effects, expected);
    assert_eq!(app.current(), AppMode::Settings);
}

#[test]
fn scenario_info_stats_then_quit() {
    // Start in Main, switch to Info, view stats, then quit.
    let mut app = App::new();
    assert_eq!(app.current(), AppMode::Main);

    let effects = app.handle_key_event(Key::Char('2'));
    assert_eq!(app.current(), AppMode::Info);
    assert_eq!(effects, transition(info_screen()));

    let effects = app.handle_key_event(Key::Char('v'));
    let mut expected = vec![
        ScreenEffect::ClearScreen,
        pl("Viewing Stats:"),
        pl("- Users: 1,024"),
        pl("- Sessions: 8,192"),
        pl("- Uptime: 99.9%"),
        pl("\nPress any key to return..."),
        ScreenEffect::WaitKey,
        ScreenEffect::ClearScreen,
    ];
    expected.extend(info_screen());
    assert_eq!(effects, expected);
    assert_eq!(app.current(), AppMode::Info);
    assert!(app.is_running());

    let effects = app.handle_key_event(Key::Char('q'));
    assert!(!app.is_running());
    assert_eq!(app.current(), AppMode::Info);
    assert!(effects.is_empty());
}

#[test]
fn scenario_settings_config_walkthrough() {
    // Three prompts, each gated by a key wait; nothing is persisted: the
    // dispatch leaves mode and running flag as they were.
    let mut app = App::new();
    app.handle_key_event(Key::Char('3'));
    assert_eq!(app.current(), AppMode::Settings);

    let effects = app.handle_key_event(Key::Char('c'));
    let mut expected = vec![
        ScreenEffect::ClearScreen,
        pl("Changing configuration"),
        pl("Option [1/3]: Debug mode (y/n): "),
        ScreenEffect::WaitKey,
        pl("Option [2/3]: Verbose logging (y/n): "),
        ScreenEffect::WaitKey,
        pl("Option [3/3]: Dark mode (y/n): "),
        ScreenEffect::WaitKey,
        pl("\nConfiguration updated!"),
        pl("\nPress any key to return..."),
        ScreenEffect::WaitKey,
        ScreenEffect::ClearScreen,
    ];
    expected.extend(settings_screen());
    assert_eq!(effects, expected);
    assert_eq!(app.current(), AppMode::Settings);
    assert!(app.is_running());
}

#[test]
fn scenario_unbound_key_in_main() {
    let mut app = App::new();
    let before_screen = app.render();
    let effects = app.handle_key_event(Key::Char('x'));
    assert_eq!(app.current(), AppMode::Main);
    assert!(app.is_running());
    assert!(effects.is_empty());
    assert_eq!(app.render(), before_screen);
}
