use vstd::prelude::*;

verus! {

/// The colour class that a figure is drawn in, from least to most alarming.
#[derive(Clone, Copy, Debug, PartialEq, Eq, Structural)]
pub enum Level {
    Muted,
    Info,
    Normal,
    Warning,
    Critical,
}

} // verus!
