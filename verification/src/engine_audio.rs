//! Audio backend selection.

use vstd::prelude::*;

verus! {

/// The audio engine that plays sound.
#[derive(Debug, Clone, Copy, PartialEq, Eq, Structural)]
pub enum AudioBackend {
    Kira,
}

} // verus!
