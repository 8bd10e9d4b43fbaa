//! The main mode: the landing screen, with two demonstration actions.

use vstd::prelude::*;

use crate::effect::{EffectModel, ScreenEffect, print_then_flush};
use crate::mode::{Followup, Key, KeyAction, Mode};

verus! {

pub struct MainMode {}

/// The fixed screen of the main mode.
pub open spec fn main_mode_screen() -> Seq<Seq<char>> {
    seq![
        "=== MAIN MODE ==="@,
        ""@,
        "Welcome to the multi-mode CLI application!"@,
        ""@,
        "Press keys 1-3 to switch modes:"@,
        "  1: Main mode"@,
        "  2: Info mode"@,
        "  3: Settings mode"@,
        "  h: Help"@,
        "  q: Quit"@,
        ""@,
        "Main mode specific commands:"@,
        "  a: Action 1"@,
        "  b: Action 2"@,
    ]
}

/// The interstitial script of one action: clear, show the message, wait for
/// an acknowledgment key, clear again before the owner re-renders.
pub open spec fn main_action_script(message: Seq<char>) -> Seq<EffectModel> {
    seq![
        EffectModel::ClearScreen,
        EffectModel::PrintLine(message),
        EffectModel::PrintLine("\nPress any key to return..."@),
        EffectModel::WaitKey,
        EffectModel::ClearScreen,
    ]
}

/// The main mode's action table: `a` and `b` run their message action and
/// ask for a re-render; every other key is a no-op.
pub open spec fn main_key_effects(key: Key) -> Seq<EffectModel> {
    if key == Key::Char('a') {
        main_action_script("Executing Main Mode - Action 1"@)
    } else if key == Key::Char('b') {
        main_action_script("Executing Main Mode - Action 2"@)
    } else {
        Seq::empty()
    }
}

pub open spec fn main_key_followup(key: Key) -> Followup {
    if key == Key::Char('a') || key == Key::Char('b') {
        Followup::RerenderOwner
    } else {
        Followup::Stay
    }
}

impl Mode for MainMode {
    open spec fn screen(&self) -> Seq<Seq<char>> {
        main_mode_screen()
    }

    open spec fn key_effects(&self, key: Key) -> Seq<EffectModel> {
        main_key_effects(key)
    }

    open spec fn key_followup(&self, key: Key) -> Followup {
        main_key_followup(key)
    }

    fn new() -> Self {
        Self {  }
    }

    fn render(&self) -> (r: Vec<ScreenEffect>) {
        let mut r: Vec<ScreenEffect> = Vec::new();
        r.push(ScreenEffect::PrintLine(String::from_str("=== MAIN MODE ===")));
        r.push(ScreenEffect::PrintLine(String::from_str("")));
        r.push(ScreenEffect::PrintLine(String::from_str("Welcome to the multi-mode CLI application!")));
        r.push(ScreenEffect::PrintLine(String::from_str("")));
        r.push(ScreenEffect::PrintLine(String::from_str("Press keys 1-3 to switch modes:")));
        r.push(ScreenEffect::PrintLine(String::from_str("  1: Main mode")));
        r.push(ScreenEffect::PrintLine(String::from_str("  2: Info mode")));
        r.push(ScreenEffect::PrintLine(String::from_str("  3: Settings mode")));
        r.push(ScreenEffect::PrintLine(String::from_str("  h: Help")));
        r.push(ScreenEffect::PrintLine(String::from_str("  q: Quit")));
        r.push(ScreenEffect::PrintLine(String::from_str("")));
        r.push(ScreenEffect::PrintLine(String::from_str("Main mode specific commands:")));
        r.push(ScreenEffect::PrintLine(String::from_str("  a: Action 1")));
        r.push(ScreenEffect::PrintLine(String::from_str("  b: Action 2")));
        r.push(ScreenEffect::FlushOut);
        proof {
            assert(r.deep_view() =~= print_then_flush(main_mode_screen()));
        }
        r
    }

    fn handle_key(&self, key: Key) -> (r: KeyAction) {
        match key {
            Key::Char('a') => {
                let mut effects: Vec<ScreenEffect> = Vec::new();
                effects.push(ScreenEffect::ClearScreen);
                effects.push(ScreenEffect::PrintLine(String::from_str("Executing Main Mode - Action 1")));
                effects.push(ScreenEffect::PrintLine(String::from_str("\nPress any key to return...")));
                effects.push(ScreenEffect::WaitKey);
                effects.push(ScreenEffect::ClearScreen);
                proof {
                    assert(effects.deep_view() =~= main_key_effects(key));
                }
                KeyAction { effects, followup: Followup::RerenderOwner }
            }
            Key::Char('b') => {
                let mut effects: Vec<ScreenEffect> = Vec::new();
                effects.push(ScreenEffect::ClearScreen);
                effects.push(ScreenEffect::PrintLine(String::from_str("Executing Main Mode - Action 2")));
                effects.push(ScreenEffect::PrintLine(String::from_str("\nPress any key to return...")));
                effects.push(ScreenEffect::WaitKey);
                effects.push(ScreenEffect::ClearScreen);
                proof {
                    assert(effects.deep_view() =~= main_key_effects(key));
                }
                KeyAction { effects, followup: Followup::RerenderOwner }
            }
            _ => {
                let effects: Vec<ScreenEffect> = Vec::new();
                proof {
                    assert(effects.deep_view() =~= main_key_effects(key));
                }
                KeyAction { effects, followup: Followup::Stay }
            }
        }
    }
}

} // verus!
