//! How a progress bar is shown.
use vstd::prelude::*;
use crate::download::Progress;

verus! {

/// The progress-bar presentation mode.
pub enum ProgressMode {
    /// No progress bar is shown.
    Hidden,
    /// A bar filled to the given fraction.
    Determinate(Progress),
    /// An indeterminate, pulsing bar.
    Pulse,
}

impl ProgressMode {
    /// The fraction to feed a progress bar, or `None` where no bar is shown;
    /// a pulsing bar sits at one half.
    pub fn value(self) -> (v: Option<Progress>)
        ensures
            v == (match self {
                ProgressMode::Hidden => None,
                ProgressMode::Determinate(p) => Some(p),
                ProgressMode::Pulse => Some(Progress { done: 1, total: 2 }),
            }),
    {
        match self {
            ProgressMode::Hidden => None,
            ProgressMode::Determinate(p) => Some(p),
            ProgressMode::Pulse => Some(Progress { done: 1, total: 2 }),
        }
    }
}

} // verus!
