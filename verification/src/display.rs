//! How a pad is drawn: idle, part of the selected pattern, or under the
//! playhead.

use vstd::prelude::*;
use crate::pattern::PatternStore;

verus! {

/// The three ways to draw a pad.
#[derive(Clone, Copy, Debug, PartialEq, Eq, Structural)]
pub enum PadShade {
    /// Neither playing nor part of the selected track's pattern.
    Idle,
    /// The selected track sounds on this pad's step.
    Active,
    /// The playhead is on this pad.
    Current,
}

/// A colour as red, green and blue.
#[derive(Clone, Copy, Debug, PartialEq, Eq, Structural)]
pub struct Rgb {
    /// Red.
    pub r: u8,
    /// Green.
    pub g: u8,
    /// Blue.
    pub b: u8,
}

/// The shade of a pad. The playhead wins over the pattern: while playing,
/// the pad of the current step is `Current` whatever the pattern says.
pub open spec fn spec_pad_shade(
    store: &PatternStore,
    selected: int,
    pad: int,
    playing: bool,
    step: int,
) -> PadShade {
    if playing && pad == step {
        PadShade::Current
    } else if store.active(selected, pad) {
        PadShade::Active
    } else {
        PadShade::Idle
    }
}

/// Chooses the shade of pad `pad` when track `selected` is shown, given
/// whether playback runs and which step is current. A track or pad that the
/// store does not hold is never `Active`.
pub fn pad_shade(
    store: &PatternStore,
    selected: usize,
    pad: usize,
    playing: bool,
    step: usize,
) -> (shade: PadShade)
    requires
        store.wf(),
    ensures
        shade == spec_pad_shade(store, selected as int, pad as int, playing, step as int),
{
    if playing && pad == step {
        return PadShade::Current;
    }
    match store.is_active(selected, pad) {
        Ok(true) => PadShade::Active,
        _ => PadShade::Idle,
    }
}

/// The fill colour of a shade.
pub fn shade_color(shade: PadShade) -> (color: Rgb)
    ensures
        color == match shade {
            PadShade::Idle => (Rgb { r: 134, g: 179, b: 44 }),
            PadShade::Active => (Rgb { r: 181, g: 89, b: 44 }),
            PadShade::Current => (Rgb { r: 190, g: 223, b: 124 }),
        },
{
    match shade {
        PadShade::Idle => Rgb { r: 134, g: 179, b: 44 },
        PadShade::Active => Rgb { r: 181, g: 89, b: 44 },
        PadShade::Current => Rgb { r: 190, g: 223, b: 124 },
    }
}

/// The colour of the outline round every button and pad.
pub fn outline_color() -> (color: Rgb)
    ensures
        color == (Rgb { r: 0, g: 70, b: 70 }),
{
    Rgb { r: 0, g: 70, b: 70 }
}

/// The colour of the window behind the buttons.
pub fn background_color() -> (color: Rgb)
    ensures
        color == (Rgb { r: 29, g: 115, b: 115 }),
{
    Rgb { r: 29, g: 115, b: 115 }
}

} // verus!
