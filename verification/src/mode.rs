//! The mode identifiers, key events, and the contract every mode satisfies.

use vstd::prelude::*;

use crate::effect::{EffectModel, ScreenEffect, print_then_flush};

verus! {

/// The application modes. `Exit` is a reserved terminal state that no mode
/// implements: rendering or dispatching in it is a no-op.
#[derive(Debug, Clone, Copy, PartialEq, Eq, Structural)]
pub enum AppMode {
    Main,
    Info,
    Settings,
    Help,
    Exit,
}

/// One captured key press: a printable character, or any other key
/// (arrows, function keys, ...). Only characters carry bindings; every
/// other key is unbound everywhere but in help, which ignores the identity.
#[derive(Debug, Clone, Copy, PartialEq, Eq, Structural)]
pub enum Key {
    Char(char),
    Other,
}

/// What the controller must do after a mode has handled a key: nothing,
/// re-render the mode that handled it, or switch to another mode.
#[derive(Debug, Clone, Copy, PartialEq, Eq, Structural)]
pub enum Followup {
    Stay,
    RerenderOwner,
    Switch(AppMode),
}

/// The outcome of one mode-specific key: the interstitial effects to play,
/// then a followup the controller consumes.
pub struct KeyAction {
    pub effects: Vec<ScreenEffect>,
    pub followup: Followup,
}

/// The contract every concrete mode satisfies: a fixed screen, and a fixed
/// action table over keys. The spec functions pin both down so that the
/// controller's dispatch contract can name them.
pub trait Mode: Sized {
    /// The fixed lines of this mode's screen, in print order.
    spec fn screen(&self) -> Seq<Seq<char>>;

    /// The interstitial effects this mode emits for one key.
    spec fn key_effects(&self, key: Key) -> Seq<EffectModel>;

    /// The followup this mode requests for one key.
    spec fn key_followup(&self, key: Key) -> Followup;

    fn new() -> Self;

    /// Emit the mode's fixed screen: each line, then a flush.
    fn render(&self) -> (r: Vec<ScreenEffect>)
        ensures
            r.deep_view() == print_then_flush(self.screen()),
    ;

    /// Handle one key not claimed by the global table.
    fn handle_key(&self, key: Key) -> (r: KeyAction)
        ensures
            r.effects.deep_view() == self.key_effects(key),
            r.followup == self.key_followup(key),
    ;
}

} // verus!
