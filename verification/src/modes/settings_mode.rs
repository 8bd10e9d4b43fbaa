//! The settings mode: a decorative configuration walkthrough and a reset.

use vstd::prelude::*;

use crate::effect::{EffectModel, ScreenEffect, print_then_flush};
use crate::mode::{Followup, Key, KeyAction, Mode};

verus! {

pub struct SettingsMode {}

/// The fixed screen of the settings mode.
pub open spec fn settings_mode_screen() -> Seq<Seq<char>> {
    seq![
        "=== SETTINGS MODE ==="@,
        ""@,
        "Configure application settings here."@,
        ""@,
        "Press keys 1-3 to switch modes:"@,
        "  1: Main mode"@,
        "  2: Info mode"@,
        "  3: Settings mode"@,
        "  h: Help"@,
        "  q: Quit"@,
        ""@,
        "Settings mode specific commands:"@,
        "  c: Change config"@,
        "  r: Reset settings"@,
    ]
}

/// The configuration walkthrough: three prompts, each gated by a key wait.
/// No answer is read or stored; the prompts are decorative.
pub open spec fn settings_config_script() -> Seq<EffectModel> {
    seq![
        EffectModel::ClearScreen,
        EffectModel::PrintLine("Changing configuration"@),
        EffectModel::PrintLine("Option [1/3]: Debug mode (y/n): "@),
        EffectModel::WaitKey,
        EffectModel::PrintLine("Option [2/3]: Verbose logging (y/n): "@),
        EffectModel::WaitKey,
        EffectModel::PrintLine("Option [3/3]: Dark mode (y/n): "@),
        EffectModel::WaitKey,
        EffectModel::PrintLine("\nConfiguration updated!"@),
        EffectModel::PrintLine("\nPress any key to return..."@),
        EffectModel::WaitKey,
        EffectModel::ClearScreen,
    ]
}

/// The reset action: a message, a fixed one-second hold, the completion
/// text, wait, clear.
pub open spec fn settings_reset_script() -> Seq<EffectModel> {
    seq![
        EffectModel::ClearScreen,
        EffectModel::PrintLine("Resetting all settings to default..."@),
        EffectModel::SleepMs(1000),
        EffectModel::PrintLine("Settings reset complete!"@),
        EffectModel::PrintLine("\nPress any key to return..."@),
        EffectModel::WaitKey,
        EffectModel::ClearScreen,
    ]
}

/// The settings mode's action table: `c` runs the walkthrough, `r` the
/// reset, both then re-render; every other key is a no-op.
pub open spec fn settings_key_effects(key: Key) -> Seq<EffectModel> {
    if key == Key::Char('c') {
        settings_config_script()
    } else if key == Key::Char('r') {
        settings_reset_script()
    } else {
        Seq::empty()
    }
}

pub open spec fn settings_key_followup(key: Key) -> Followup {
    if key == Key::Char('c') || key == Key::Char('r') {
        Followup::RerenderOwner
    } else {
        Followup::Stay
    }
}

impl Mode for SettingsMode {
    open spec fn screen(&self) -> Seq<Seq<char>> {
        settings_mode_screen()
    }

    open spec fn key_effects(&self, key: Key) -> Seq<EffectModel> {
        settings_key_effects(key)
    }

    open spec fn key_followup(&self, key: Key) -> Followup {
        settings_key_followup(key)
    }

    fn new() -> Self {
        Self {  }
    }

    fn render(&self) -> (r: Vec<ScreenEffect>) {
        let mut r: Vec<ScreenEffect> = Vec::new();
        r.push(ScreenEffect::PrintLine(String::from_str("=== SETTINGS MODE ===")));
        r.push(ScreenEffect::PrintLine(String::from_str("")));
        r.push(ScreenEffect::PrintLine(String::from_str("Configure application settings here.")));
        r.push(ScreenEffect::PrintLine(String::from_str("")));
        r.push(ScreenEffect::PrintLine(String::from_str("Press keys 1-3 to switch modes:")));
        r.push(ScreenEffect::PrintLine(String::from_str("  1: Main mode")));
        r.push(ScreenEffect::PrintLine(String::from_str("  2: Info mode")));
        r.push(ScreenEffect::PrintLine(String::from_str("  3: Settings mode")));
        r.push(ScreenEffect::PrintLine(String::from_str("  h: Help")));
        r.push(ScreenEffect::PrintLine(String::from_str("  q: Quit")));
        r.push(ScreenEffect::PrintLine(String::from_str("")));
        r.push(ScreenEffect::PrintLine(String::from_str("Settings mode specific commands:")));
        r.push(ScreenEffect::PrintLine(String::from_str("  c: Change config")));
        r.push(ScreenEffect::PrintLine(String::from_str("  r: Reset settings")));
        r.push(ScreenEffect::FlushOut);
        proof {
            assert(r.deep_view() =~= print_then_flush(settings_mode_screen()));
        }
        r
    }

    fn handle_key(&self, key: Key) -> (r: KeyAction) {
        match key {
            Key::Char('c') => {
                let mut effects: Vec<ScreenEffect> = Vec::new();
                effects.push(ScreenEffect::ClearScreen);
                effects.push(ScreenEffect::PrintLine(String::from_str("Changing configuration")));
                effects.push(ScreenEffect::PrintLine(String::from_str("Option [1/3]: Debug mode (y/n): ")));
                effects.push(ScreenEffect::WaitKey);
                effects.push(ScreenEffect::PrintLine(String::from_str("Option [2/3]: Verbose logging (y/n): ")));
                effects.push(ScreenEffect::WaitKey);
                effects.push(ScreenEffect::PrintLine(String::from_str("Option [3/3]: Dark mode (y/n): ")));
                effects.push(ScreenEffect::WaitKey);
                effects.push(ScreenEffect::PrintLine(String::from_str("\nConfiguration updated!")));
                effects.push(ScreenEffect::PrintLine(String::from_str("\nPress any key to return...")));
                effects.push(ScreenEffect::WaitKey);
                effects.push(ScreenEffect::ClearScreen);
                proof {
                    assert(effects.deep_view() =~= settings_key_effects(key));
                }
                KeyAction { effects, followup: Followup::RerenderOwner }
            }
            Key::Char('r') => {
                let mut effects: Vec<ScreenEffect> = Vec::new();
                effects.push(ScreenEffect::ClearScreen);
                effects.push(ScreenEffect::PrintLine(String::from_str("Resetting all settings to default...")));
                effects.push(ScreenEffect::SleepMs(1000));
                effects.push(ScreenEffect::PrintLine(String::from_str("Settings reset complete!")));
                effects.push(ScreenEffect::PrintLine(String::from_str("\nPress any key to return...")));
                effects.push(ScreenEffect::WaitKey);
                effects.push(ScreenEffect::ClearScreen);
                proof {
                    assert(effects.deep_view() =~= settings_key_effects(key));
                }
                KeyAction { effects, followup: Followup::RerenderOwner }
            }
            _ => {
                let effects: Vec<ScreenEffect> = Vec::new();
                proof {
                    assert(effects.deep_view() =~= settings_key_effects(key));
                }
                KeyAction { effects, followup: Followup::Stay }
            }
        }
    }
}

} // verus!
