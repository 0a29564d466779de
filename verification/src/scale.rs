//! The outcome of scale selection.

use vstd::prelude::*;

verus! {

/// The two interchangeable scale strategies.
#[derive(Clone, Copy, Debug, PartialEq, Eq, Structural)]
pub enum ScaleKind {
    Linear,
    Logarithmic,
}

/// The scales of a chart: one for the main view, one for the preview.
#[derive(Clone, Copy, Debug, PartialEq, Eq, Structural)]
pub struct ScalePair {
    pub main: ScaleKind,
    pub preview: ScaleKind,
}

impl ScalePair {
    /// Main and preview never differ in kind.
    pub open spec fn uniform(self) -> bool {
        self.main == self.preview
    }

    /// Turns the verdict of the coverage comparison into the chart's
    /// scales: logarithmic for both views where the logarithmic scale won,
    /// linear for both otherwise.
    pub fn select(logarithmic_wins: bool) -> (pair: ScalePair)
        ensures
            pair.uniform(),
            pair.main == if logarithmic_wins {
                ScaleKind::Logarithmic
            } else {
                ScaleKind::Linear
            },
    {
        let kind = if logarithmic_wins {
            ScaleKind::Logarithmic
        } else {
            ScaleKind::Linear
        };
        ScalePair { main: kind, preview: kind }
    }
}

} // verus!
