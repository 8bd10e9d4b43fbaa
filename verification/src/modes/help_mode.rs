//! The help mode: a key legend; any unclaimed key returns to the main mode.

use vstd::prelude::*;

use crate::effect::{EffectModel, ScreenEffect, print_then_flush};
use crate::mode::{AppMode, Followup, Key, KeyAction, Mode};

verus! {

pub struct HelpMode {}

/// The fixed screen of the help mode.
pub open spec fn help_mode_screen() -> Seq<Seq<char>> {
    seq![
        "=== HELP MODE ==="@,
        ""@,
        "Multi-mode CLI Application Help"@,
        ""@,
        "Global commands:"@,
        "  1: Switch to Main mode"@,
        "  2: Switch to Info mode"@,
        "  3: Switch to Settings mode"@,
        "  h: Show this help"@,
        "  q: Quit application"@,
        ""@,
        "Each mode has its own specific commands."@,
        "Return to a mode to see its available commands."@,
        ""@,
        "Press any key to return to previous mode..."@,
    ]
}

/// Help emits nothing of its own for any key.
pub open spec fn help_key_effects(key: Key) -> Seq<EffectModel> {
    Seq::empty()
}

/// Help ignores the key's identity entirely: every key it is handed asks
/// for a switch to the main mode.
pub open spec fn help_key_followup(key: Key) -> Followup {
    Followup::Switch(AppMode::Main)
}

impl Mode for HelpMode {
    open spec fn screen(&self) -> Seq<Seq<char>> {
        help_mode_screen()
    }

    open spec fn key_effects(&self, key: Key) -> Seq<EffectModel> {
        help_key_effects(key)
    }

    open spec fn key_followup(&self, key: Key) -> Followup {
        help_key_followup(key)
    }

    fn new() -> Self {
        Self {  }
    }

    fn render(&self) -> (r: Vec<ScreenEffect>) {
        let mut r: Vec<ScreenEffect> = Vec::new();
        r.push(ScreenEffect::PrintLine(String::from_str("=== HELP MODE ===")));
        r.push(ScreenEffect::PrintLine(String::from_str("")));
        r.push(ScreenEffect::PrintLine(String::from_str("Multi-mode CLI Application Help")));
        r.push(ScreenEffect::PrintLine(String::from_str("")));
        r.push(ScreenEffect::PrintLine(String::from_str("Global commands:")));
        r.push(ScreenEffect::PrintLine(String::from_str("  1: Switch to Main mode")));
        r.push(ScreenEffect::PrintLine(String::from_str("  2: Switch to Info mode")));
        r.push(ScreenEffect::PrintLine(String::from_str("  3: Switch to Settings mode")));
        r.push(ScreenEffect::PrintLine(String::from_str("  h: Show this help")));
        r.push(ScreenEffect::PrintLine(String::from_str("  q: Quit application")));
        r.push(ScreenEffect::PrintLine(String::from_str("")));
        r.push(ScreenEffect::PrintLine(String::from_str("Each mode has its own specific commands.")));
        r.push(ScreenEffect::PrintLine(String::from_str("Return to a mode to see its available commands.")));
        r.push(ScreenEffect::PrintLine(String::from_str("")));
        r.push(ScreenEffect::PrintLine(String::from_str("Press any key to return to previous mode...")));
        r.push(ScreenEffect::FlushOut);
        proof {
            assert(r.deep_view() =~= print_then_flush(help_mode_screen()));
        }
        r
    }

    fn handle_key(&self, key: Key) -> (r: KeyAction) {
        let effects: Vec<ScreenEffect> = Vec::new();
        proof {
            assert(effects.deep_view() =~= help_key_effects(key));
        }
        KeyAction { effects, followup: Followup::Switch(AppMode::Main) }
    }
}

} // verus!
