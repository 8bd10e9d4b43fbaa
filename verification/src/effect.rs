//! Terminal effects, modeled as data.
//!
//! The core never touches the terminal itself: every operation returns a
//! script of `ScreenEffect` values, and the surrounding binary plays the
//! script against the real terminal. Contracts speak of `EffectModel`, the
//! mathematical image of one effect.

use vstd::prelude::*;

verus! {

/// One terminal action: clear the screen and home the cursor, print one line,
/// flush the output sink, block until the next key press, or sleep.
#[derive(Debug, PartialEq, Eq)]
pub enum ScreenEffect {
    ClearScreen,
    PrintLine(String),
    FlushOut,
    WaitKey,
    SleepMs(u64),
}

/// The mathematical image of a `ScreenEffect`: a printed line is its
/// character sequence.
pub enum EffectModel {
    ClearScreen,
    PrintLine(Seq<char>),
    FlushOut,
    WaitKey,
    SleepMs(u64),
}

impl View for ScreenEffect {
    type V = EffectModel;

    open spec fn view(&self) -> EffectModel {
        match self {
            ScreenEffect::ClearScreen => EffectModel::ClearScreen,
            ScreenEffect::PrintLine(s) => EffectModel::PrintLine(s@),
            ScreenEffect::FlushOut => EffectModel::FlushOut,
            ScreenEffect::WaitKey => EffectModel::WaitKey,
            ScreenEffect::SleepMs(d) => EffectModel::SleepMs(*d),
        }
    }
}

impl DeepView for ScreenEffect {
    type V = EffectModel;

    open spec fn deep_view(&self) -> EffectModel {
        self.view()
    }
}

/// The script a screen render emits: each line printed in order, then one
/// flush of the output sink.
pub open spec fn print_then_flush(lines: Seq<Seq<char>>) -> Seq<EffectModel> {
    lines.map(|i: int, l: Seq<char>| EffectModel::PrintLine(l)).push(EffectModel::FlushOut)
}

} // verus!
