//! Text attributes and the effect of Select Graphic Rendition codes on them.

use vstd::prelude::*;

verus! {

/// Weight of the text.
#[derive(Clone, Copy, Debug, PartialEq, Eq, Structural)]
pub enum Intensity {
    Bold,
    Faint,
}

/// A colour: a palette slot named by the code that selected it, or a
/// red/green/blue triple.
#[derive(Clone, Copy, Debug, PartialEq, Eq, Structural)]
pub enum Color {
    N(i64),
    RGB(i64, i64, i64),
}

/// The attributes a character is written with. Each of the three channels is
/// either unset or holds a value.
#[derive(Clone, Copy, Debug, PartialEq, Eq, Structural)]
pub struct VisualState {
    pub intensity: Option<Intensity>,
    pub fg: Option<Color>,
    pub bg: Option<Color>,
}

impl VisualState {
    /// The state with all three channels unset.
    pub open spec fn unset() -> VisualState {
        VisualState { intensity: None, fg: None, bg: None }
    }

    /// The state with all three channels unset.
    pub fn new() -> (state: VisualState)
        ensures
            state == VisualState::unset(),
    {
        VisualState { intensity: None, fg: None, bg: None }
    }

    /// This state with the intensity channel replaced.
    pub open spec fn with_intensity(self, intensity: Option<Intensity>) -> VisualState {
        VisualState { intensity, ..self }
    }

    /// This state with the foreground channel replaced.
    pub open spec fn with_fg(self, fg: Option<Color>) -> VisualState {
        VisualState { fg, ..self }
    }

    /// This state with the background channel replaced.
    pub open spec fn with_bg(self, bg: Option<Color>) -> VisualState {
        VisualState { bg, ..self }
    }

    /// The state after one Select Graphic Rendition code. A code outside the
    /// table leaves the state as it is.
    pub open spec fn sgr(self, code: u16) -> VisualState {
        if code == 0 {
            VisualState::unset()
        } else if code == 1 {
            self.with_intensity(Some(Intensity::Bold))
        } else if code == 22 {
            self.with_intensity(None)
        } else if 30 <= code <= 37 || 90 <= code <= 97 {
            self.with_fg(Some(Color::N(code as i64)))
        } else if code == 39 {
            self.with_fg(None)
        } else if 40 <= code <= 47 || 100 <= code <= 107 {
            self.with_bg(Some(Color::N(code as i64)))
        } else if code == 49 {
            self.with_bg(None)
        } else {
            self
        }
    }

    /// The state after a sequence of codes, applied first to last.
    pub open spec fn sgr_all(self, codes: Seq<u16>) -> VisualState
        decreases codes.len(),
    {
        if codes.len() == 0 {
            self
        } else {
            self.sgr_all(codes.drop_last()).sgr(codes.last())
        }
    }
}

} // verus!
