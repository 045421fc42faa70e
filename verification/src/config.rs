//! The fixed choices of startup: the window that is asked for, the GPU
//! context version, and which display configuration is taken.

use vstd::prelude::*;

verus! {

/// Width of the window at startup, in pixels.
pub const INITIAL_WIDTH: u32 = 800;

/// Height of the window at startup, in pixels.
pub const INITIAL_HEIGHT: u32 = 600;

/// Major version of the OpenGL core profile that the context is created for.
pub const CONTEXT_VERSION_MAJOR: u8 = 3;

/// Minor version of the OpenGL core profile that the context is created for.
pub const CONTEXT_VERSION_MINOR: u8 = 3;

/// The title of the window.
pub fn window_title() -> (title: &'static str)
    ensures
        title@ == "OpenGL Example"@,
{
    "OpenGL Example"
}

/// Whether `index` names the configuration to take: the first of those with
/// the most samples per pixel.
pub open spec fn is_first_maximum(samples: Seq<u8>, index: int) -> bool {
    &&& 0 <= index < samples.len()
    &&& forall|j: int| 0 <= j < samples.len() ==> samples[j] <= samples[index]
    &&& forall|j: int| 0 <= j < index ==> samples[j] < samples[index]
}

/// Picks a display configuration by the sample counts of the candidates, in
/// the order in which the platform offers them: the one with the most
/// samples, the earliest of these. Without candidates there is no choice.
pub fn select_config(samples: &[u8]) -> (choice: Option<usize>)
    ensures
        choice is None <==> samples@.len() == 0,
        choice matches Some(index) ==> is_first_maximum(samples@, index as int),
{
    if samples.len() == 0 {
        return None;
    }
    let mut best: usize = 0;
    let mut i: usize = 1;
    while i < samples.len()
        invariant
            1 <= i <= samples@.len(),
            best < i,
            forall|j: int| 0 <= j < i ==> samples@[j] <= samples@[best as int],
            forall|j: int| 0 <= j < best ==> samples@[j] < samples@[best as int],
        decreases samples@.len() - i,
    {
        if samples[i] > samples[best] {
            best = i;
        }
        i = i + 1;
    }
    Some(best)
}

/// The configuration that `select_config` takes is the only one that is a
/// first maximum.
pub proof fn lemma_first_maximum_is_unique(samples: Seq<u8>, a: int, b: int)
    requires
        is_first_maximum(samples, a),
        is_first_maximum(samples, b),
    ensures
        a == b,
{
    if a < b {
        assert(samples[a] < samples[b]);
        assert(samples[b] <= samples[a]);
    } else if b < a {
        assert(samples[b] < samples[a]);
        assert(samples[a] <= samples[b]);
    }
}

} // verus!
