//! Marshaling between the managed runtime's spellings of option and state
//! values and the types the engine works with.

use vstd::prelude::*;

verus! {

/// How a caller asks the engine to trade latency against stability when a
/// realtime context is created: one of three named categories.
#[derive(Clone, Copy, PartialEq, Eq, Structural, Debug)]
pub enum LatencyCategory {
    Interactive,
    Balanced,
    Playback,
}

/// The lifecycle state of an audio context, as the engine reports it.
#[derive(Clone, Copy, PartialEq, Eq, Structural, Debug)]
pub enum ContextState {
    Suspended,
    Running,
    Closed,
}

/// Maps a latency-category name, as a managed caller spells it in context
/// options, to the category it denotes; every other string maps to `None`.
pub fn parse_latency_category(s: &str) -> (r: Option<LatencyCategory>)
    ensures
        (r == Some(LatencyCategory::Interactive)) <==> s@ == "interactive"@,
        (r == Some(LatencyCategory::Balanced)) <==> s@ == "balanced"@,
        (r == Some(LatencyCategory::Playback)) <==> s@ == "playback"@,
        (r is None) <==> (s@ != "interactive"@ && s@ != "balanced"@ && s@ != "playback"@),
{
    proof {
        reveal_strlit("interactive");
        reveal_strlit("balanced");
        reveal_strlit("playback");
        assert("interactive"@.len() == 11);
        assert("balanced"@.len() == 8);
        assert("playback"@.len() == 8);
        assert("balanced"@[0] == 'b');
        assert("playback"@[0] == 'p');
    }
    let owned: String = s.to_owned();
    if owned == "interactive".to_owned() {
        Some(LatencyCategory::Interactive)
    } else if owned == "balanced".to_owned() {
        Some(LatencyCategory::Balanced)
    } else if owned == "playback".to_owned() {
        Some(LatencyCategory::Playback)
    } else {
        None
    }
}

/// The name under which a context state is reported to managed callers.
pub fn state_label(s: ContextState) -> (r: &'static str)
    ensures
        s == ContextState::Suspended ==> r@ == "suspended"@,
        s == ContextState::Running ==> r@ == "running"@,
        s == ContextState::Closed ==> r@ == "closed"@,
{
    match s {
        ContextState::Suspended => "suspended",
        ContextState::Running => "running",
        ContextState::Closed => "closed",
    }
}

} // verus!
