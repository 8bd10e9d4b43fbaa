//! The application controller: current mode, running flag, and key dispatch.
//!
//! `spec_dispatch` is the controller's state machine: given the current mode,
//! the running flag and one key, it gives the next mode, the next flag, and
//! the exact effect script the dispatch emits. `handle_key_event` is proved
//! to follow it on every key.

use vstd::prelude::*;

use crate::effect::{EffectModel, ScreenEffect, print_then_flush};
use crate::mode::{AppMode, Followup, Key, KeyAction, Mode};
use crate::modes::help_mode::{HelpMode, help_key_effects, help_key_followup, help_mode_screen};
use crate::modes::info_mode::{InfoMode, info_key_effects, info_key_followup, info_mode_screen};
use crate::modes::main_mode::{MainMode, main_key_effects, main_key_followup, main_mode_screen};
use crate::modes::settings_mode::{
    SettingsMode, settings_key_effects, settings_key_followup, settings_mode_screen,
};

verus! {

/// The full render script of one mode: its screen printed then flushed;
/// nothing for the reserved `Exit` state.
pub open spec fn spec_render(m: AppMode) -> Seq<EffectModel> {
    match m {
        AppMode::Main => print_then_flush(main_mode_screen()),
        AppMode::Info => print_then_flush(info_mode_screen()),
        AppMode::Settings => print_then_flush(settings_mode_screen()),
        AppMode::Help => print_then_flush(help_mode_screen()),
        AppMode::Exit => Seq::empty(),
    }
}

/// The script of a mode transition: clear the screen, then render the target.
pub open spec fn transition_script(target: AppMode) -> Seq<EffectModel> {
    seq![EffectModel::ClearScreen] + spec_render(target)
}

/// The fixed global key table, checked before any mode-specific binding:
/// `1`, `2`, `3` and `h` switch modes. (`q`, the global quit, is handled
/// separately since it changes the running flag, not the mode.)
pub open spec fn global_target(key: Key) -> Option<AppMode> {
    if key == Key::Char('1') {
        Some(AppMode::Main)
    } else if key == Key::Char('2') {
        Some(AppMode::Info)
    } else if key == Key::Char('3') {
        Some(AppMode::Settings)
    } else if key == Key::Char('h') {
        Some(AppMode::Help)
    } else {
        None
    }
}

/// The interstitial effects the current mode emits for a key the global
/// table did not claim.
pub open spec fn mode_key_effects(m: AppMode, key: Key) -> Seq<EffectModel> {
    match m {
        AppMode::Main => main_key_effects(key),
        AppMode::Info => info_key_effects(key),
        AppMode::Settings => settings_key_effects(key),
        AppMode::Help => help_key_effects(key),
        AppMode::Exit => Seq::empty(),
    }
}

/// The followup the current mode requests for a key the global table did
/// not claim.
pub open spec fn mode_key_followup(m: AppMode, key: Key) -> Followup {
    match m {
        AppMode::Main => main_key_followup(key),
        AppMode::Info => info_key_followup(key),
        AppMode::Settings => settings_key_followup(key),
        AppMode::Help => help_key_followup(key),
        AppMode::Exit => Followup::Stay,
    }
}

/// Whether mode `m`'s own table binds `key` (help claims every key handed
/// to it; the reserved `Exit` state binds none).
pub open spec fn mode_binds(m: AppMode, key: Key) -> bool {
    match m {
        AppMode::Main => key == Key::Char('a') || key == Key::Char('b'),
        AppMode::Info => key == Key::Char('v') || key == Key::Char('d'),
        AppMode::Settings => key == Key::Char('c') || key == Key::Char('r'),
        AppMode::Help => true,
        AppMode::Exit => false,
    }
}

/// The controller's state machine, one dispatched key at a time: the next
/// mode, the next running flag, and the exact effect script emitted.
/// Global keys are checked first and win over every mode-specific binding;
/// what the global table leaves goes to the current mode's table.
pub open spec fn spec_dispatch(m: AppMode, running: bool, key: Key) -> (
    AppMode,
    bool,
    Seq<EffectModel>,
) {
    if key == Key::Char('q') {
        (m, false, Seq::empty())
    } else {
        match global_target(key) {
            Some(target) => (target, running, transition_script(target)),
            None => {
                let effects = mode_key_effects(m, key);
                match mode_key_followup(m, key) {
                    Followup::Stay => (m, running, effects),
                    Followup::RerenderOwner => (m, running, effects + spec_render(m)),
                    Followup::Switch(target) => (target, running, effects + transition_script(
                        target,
                    )),
                }
            }
        }
    }
}

/// The application state: the current mode, the running flag, and the four
/// long-lived mode instances.
pub struct App {
    current_mode: AppMode,
    running: bool,
    main_mode: MainMode,
    info_mode: InfoMode,
    settings_mode: SettingsMode,
    help_mode: HelpMode,
}

impl App {
    /// The mode the application currently shows.
    pub closed spec fn spec_current(self) -> AppMode {
        self.current_mode
    }

    /// Whether the main loop keeps going.
    pub closed spec fn spec_running(self) -> bool {
        self.running
    }

    /// A fresh application: main mode, running.
    pub fn new() -> (r: Self)
        ensures
            r.spec_current() == AppMode::Main,
            r.spec_running() == true,
    {
        Self {
            current_mode: AppMode::Main,
            running: true,
            main_mode: MainMode::new(),
            info_mode: InfoMode::new(),
            settings_mode: SettingsMode::new(),
            help_mode: HelpMode::new(),
        }
    }

    /// The current mode, for observers.
    pub fn current(&self) -> (r: AppMode)
        ensures
            r == self.spec_current(),
    {
        self.current_mode
    }

    /// The running flag, for the main loop.
    pub fn is_running(&self) -> (r: bool)
        ensures
            r == self.spec_running(),
    {
        self.running
    }

    /// Switch to `mode` and emit the transition script: clear, then the
    /// target's render. The running flag is untouched.
    pub fn change_mode(&mut self, mode: AppMode) -> (r: Vec<ScreenEffect>)
        ensures
            final(self).spec_current() == mode,
            final(self).spec_running() == old(self).spec_running(),
            r.deep_view() == transition_script(mode),
    {
        self.current_mode = mode;
        let mut r: Vec<ScreenEffect> = Vec::new();
        r.push(ScreenEffect::ClearScreen);
        let mut rest = self.render();
        let ghost rest_model = rest.deep_view();
        r.append(&mut rest);
        proof {
            assert(r.deep_view() =~= seq![EffectModel::ClearScreen] + rest_model);
        }
        r
    }

    /// Emit the current mode's render script.
    pub fn render(&self) -> (r: Vec<ScreenEffect>)
        ensures
            r.deep_view() == spec_render(self.spec_current()),
    {
        match self.current_mode {
            AppMode::Main => self.main_mode.render(),
            AppMode::Info => self.info_mode.render(),
            AppMode::Settings => self.settings_mode.render(),
            AppMode::Help => self.help_mode.render(),
            AppMode::Exit => {
                let r: Vec<ScreenEffect> = Vec::new();
                proof {
                    assert(r.deep_view() =~= Seq::<EffectModel>::empty());
                }
                r
            }
        }
    }

    /// Dispatch one captured key: the global table first, then the current
    /// mode's own table. Follows `spec_dispatch` exactly.
    pub fn handle_key_event(&mut self, key: Key) -> (r: Vec<ScreenEffect>)
        ensures
            final(self).spec_current() == spec_dispatch(
                old(self).spec_current(),
                old(self).spec_running(),
                key,
            ).0,
            final(self).spec_running() == spec_dispatch(
                old(self).spec_current(),
                old(self).spec_running(),
                key,
            ).1,
            r.deep_view() == spec_dispatch(
                old(self).spec_current(),
                old(self).spec_running(),
                key,
            ).2,
    {
        match key {
            Key::Char('q') => {
                self.running = false;
                let r: Vec<ScreenEffect> = Vec::new();
                proof {
                    assert(r.deep_view() =~= Seq::<EffectModel>::empty());
                }
                r
            }
            Key::Char('1') => self.change_mode(AppMode::Main),
            Key::Char('2') => self.change_mode(AppMode::Info),
            Key::Char('3') => self.change_mode(AppMode::Settings),
            Key::Char('h') => self.change_mode(AppMode::Help),
            _ => {
                let action = match self.current_mode {
                    AppMode::Main => self.main_mode.handle_key(key),
                    AppMode::Info => self.info_mode.handle_key(key),
                    AppMode::Settings => self.settings_mode.handle_key(key),
                    AppMode::Help => self.help_mode.handle_key(key),
                    AppMode::Exit => KeyAction {
                        effects: Vec::new(),
                        followup: Followup::Stay,
                    },
                };
                let KeyAction { mut effects, followup } = action;
                let ghost interstitial = effects.deep_view();
                proof {
                    assert(interstitial =~= mode_key_effects(self.current_mode, key));
                }
                match followup {
                    Followup::Stay => effects,
                    Followup::RerenderOwner => {
                        let mut rest = self.render();
                        let ghost rest_model = rest.deep_view();
                        effects.append(&mut rest);
                        proof {
                            assert(effects.deep_view() =~= interstitial + rest_model);
                        }
                        effects
                    }
                    Followup::Switch(target) => {
                        let mut rest = self.change_mode(target);
                        let ghost rest_model = rest.deep_view();
                        effects.append(&mut rest);
                        proof {
                            assert(effects.deep_view() =~= interstitial + rest_model);
                        }
                        effects
                    }
                }
            }
        }
    }
}

/// Global keys take priority in every mode: dispatching a key the global
/// table binds switches to its target and replays that target's screen,
/// whatever the prior mode — even one whose own table binds the same key —
/// and leaves the running flag alone.
pub proof fn lemma_global_key_priority(m: AppMode, running: bool, key: Key, target: AppMode)
    requires
        global_target(key) == Some(target),
    ensures
        spec_dispatch(m, running, key).0 == target,
        spec_dispatch(m, running, key).1 == running,
        spec_dispatch(m, running, key).2 == transition_script(target),
{
}

/// Dispatching `q` stops the application from every mode: the running flag
/// drops to false, the mode is untouched, and nothing is emitted, so the
/// main loop exits after the current iteration.
pub proof fn lemma_quit_key(m: AppMode, running: bool)
    ensures
        spec_dispatch(m, running, Key::Char('q')).0 == m,
        spec_dispatch(m, running, Key::Char('q')).1 == false,
        spec_dispatch(m, running, Key::Char('q')).2 == Seq::<EffectModel>::empty(),
{
}

/// Dispatching a key bound neither in the global table nor in the current
/// mode's own table changes nothing: mode and running flag keep their
/// values and no output is emitted.
pub proof fn lemma_unrecognized_key(m: AppMode, running: bool, key: Key)
    requires
        key != Key::Char('q'),
        global_target(key) is None,
        !mode_binds(m, key),
    ensures
        spec_dispatch(m, running, key) == (m, running, Seq::<EffectModel>::empty()),
{
}

/// In help mode, every key the global table leaves — including keys that
/// are mode-specific elsewhere — returns to the main mode and replays its
/// screen. (The five global keys keep their global meaning even here.)
pub proof fn lemma_help_returns_to_main(running: bool, key: Key)
    requires
        key != Key::Char('q'),
        global_target(key) is None,
    ensures
        spec_dispatch(AppMode::Help, running, key).0 == AppMode::Main,
        spec_dispatch(AppMode::Help, running, key).1 == running,
        spec_dispatch(AppMode::Help, running, key).2 == transition_script(AppMode::Main),
{
    assert(Seq::<EffectModel>::empty() + transition_script(AppMode::Main) =~= transition_script(
        AppMode::Main,
    ));
}

} // verus!
