use vstd::prelude::*;

verus! {

/// The media source a command works on.
#[derive(Debug, Clone, Copy, PartialEq, Eq, Structural)]
pub enum MediaSource {
    Booies,
}

/// When the details cache is refreshed from its source.
#[derive(Debug, Clone, Copy, PartialEq, Eq, Structural)]
pub enum BooiesDetailsCacheRefresh {
    Never,
    Auto,
    Forced,
}

} // verus!
