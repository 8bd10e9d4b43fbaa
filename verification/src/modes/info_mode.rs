//! The info mode: a stats view and a simulated report generation.

use vstd::prelude::*;

use crate::effect::{EffectModel, ScreenEffect, print_then_flush};
use crate::mode::{Followup, Key, KeyAction, Mode};
use crate::utils::{simulate_progress, spec_progress};

verus! {

pub struct InfoMode {}

/// The fixed screen of the info mode.
pub open spec fn info_mode_screen() -> Seq<Seq<char>> {
    seq![
        "=== INFO MODE ==="@,
        ""@,
        "This is the info mode. Here you can view various information."@,
        ""@,
        "Press keys 1-3 to switch modes:"@,
        "  1: Main mode"@,
        "  2: Info mode"@,
        "  3: Settings mode"@,
        "  h: Help"@,
        "  q: Quit"@,
        ""@,
        "Info mode specific commands:"@,
        "  v: View stats"@,
        "  d: Display report"@,
    ]
}

/// The stats view: clear, the fixed stats lines, wait, clear.
pub open spec fn info_stats_script() -> Seq<EffectModel> {
    seq![
        EffectModel::ClearScreen,
        EffectModel::PrintLine("Viewing Stats:"@),
        EffectModel::PrintLine("- Users: 1,024"@),
        EffectModel::PrintLine("- Sessions: 8,192"@),
        EffectModel::PrintLine("- Uptime: 99.9%"@),
        EffectModel::PrintLine("\nPress any key to return..."@),
        EffectModel::WaitKey,
        EffectModel::ClearScreen,
    ]
}

/// The report action: clear, the ten-step progress simulation paced at
/// 100 ms, the completion text, wait, clear.
pub open spec fn info_report_script() -> Seq<EffectModel> {
    seq![EffectModel::ClearScreen] + spec_progress("Generating report"@, 10, 100) + seq![
        EffectModel::PrintLine("\nReport complete!"@),
        EffectModel::PrintLine("\nPress any key to return..."@),
        EffectModel::WaitKey,
        EffectModel::ClearScreen,
    ]
}

/// The info mode's action table: `v` shows stats, `d` runs the report
/// simulation, both then re-render; every other key is a no-op.
pub open spec fn info_key_effects(key: Key) -> Seq<EffectModel> {
    if key == Key::Char('v') {
        info_stats_script()
    } else if key == Key::Char('d') {
        info_report_script()
    } else {
        Seq::empty()
    }
}

pub open spec fn info_key_followup(key: Key) -> Followup {
    if key == Key::Char('v') || key == Key::Char('d') {
        Followup::RerenderOwner
    } else {
        Followup::Stay
    }
}

impl Mode for InfoMode {
    open spec fn screen(&self) -> Seq<Seq<char>> {
        info_mode_screen()
    }

    open spec fn key_effects(&self, key: Key) -> Seq<EffectModel> {
        info_key_effects(key)
    }

    open spec fn key_followup(&self, key: Key) -> Followup {
        info_key_followup(key)
    }

    fn new() -> Self {
        Self {  }
    }

    fn render(&self) -> (r: Vec<ScreenEffect>) {
        let mut r: Vec<ScreenEffect> = Vec::new();
        r.push(ScreenEffect::PrintLine(String::from_str("=== INFO MODE ===")));
        r.push(ScreenEffect::PrintLine(String::from_str("")));
        r.push(ScreenEffect::PrintLine(String::from_str("This is the info mode. Here you can view various information.")));
        r.push(ScreenEffect::PrintLine(String::from_str("")));
        r.push(ScreenEffect::PrintLine(String::from_str("Press keys 1-3 to switch modes:")));
        r.push(ScreenEffect::PrintLine(String::from_str("  1: Main mode")));
        r.push(ScreenEffect::PrintLine(String::from_str("  2: Info mode")));
        r.push(ScreenEffect::PrintLine(String::from_str("  3: Settings mode")));
        r.push(ScreenEffect::PrintLine(String::from_str("  h: Help")));
        r.push(ScreenEffect::PrintLine(String::from_str("  q: Quit")));
        r.push(ScreenEffect::PrintLine(String::from_str("")));
        r.push(ScreenEffect::PrintLine(String::from_str("Info mode specific commands:")));
        r.push(ScreenEffect::PrintLine(String::from_str("  v: View stats")));
        r.push(ScreenEffect::PrintLine(String::from_str("  d: Display report")));
        r.push(ScreenEffect::FlushOut);
        proof {
            assert(r.deep_view() =~= print_then_flush(info_mode_screen()));
        }
        r
    }

    fn handle_key(&self, key: Key) -> (r: KeyAction) {
        match key {
            Key::Char('v') => {
                let mut effects: Vec<ScreenEffect> = Vec::new();
                effects.push(ScreenEffect::ClearScreen);
                effects.push(ScreenEffect::PrintLine(String::from_str("Viewing Stats:")));
                effects.push(ScreenEffect::PrintLine(String::from_str("- Users: 1,024")));
                effects.push(ScreenEffect::PrintLine(String::from_str("- Sessions: 8,192")));
                effects.push(ScreenEffect::PrintLine(String::from_str("- Uptime: 99.9%")));
                effects.push(ScreenEffect::PrintLine(String::from_str("\nPress any key to return...")));
                effects.push(ScreenEffect::WaitKey);
                effects.push(ScreenEffect::ClearScreen);
                proof {
                    assert(effects.deep_view() =~= info_key_effects(key));
                }
                KeyAction { effects, followup: Followup::RerenderOwner }
            }
            Key::Char('d') => {
                let mut effects: Vec<ScreenEffect> = Vec::new();
                effects.push(ScreenEffect::ClearScreen);
                let mut progress = simulate_progress("Generating report", 10, 100);
                effects.append(&mut progress);
                effects.push(ScreenEffect::PrintLine(String::from_str("\nReport complete!")));
                effects.push(ScreenEffect::PrintLine(String::from_str("\nPress any key to return...")));
                effects.push(ScreenEffect::WaitKey);
                effects.push(ScreenEffect::ClearScreen);
                proof {
                    assert(effects.deep_view() =~= info_key_effects(key));
                }
                KeyAction { effects, followup: Followup::RerenderOwner }
            }
            _ => {
                let effects: Vec<ScreenEffect> = Vec::new();
                proof {
                    assert(effects.deep_view() =~= info_key_effects(key));
                }
                KeyAction { effects, followup: Followup::Stay }
            }
        }
    }
}

} // verus!
