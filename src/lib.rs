//! Reactive bindings between declared map state and a mapping library's
//! objects: the decisions that keep a map and its markers in step.
use vstd::prelude::*;

pub mod map;
pub mod marker;
pub mod transform;

use crate::map::MapSession;
use crate::marker::MarkerSync;

verus! {

/// A map that is made and then torn down at once, with a marker on it, ends
/// clean: the map and the marker are each removed exactly once, the
/// marker's position poll no longer runs nor reads, and nothing reaches the
/// map afterwards.
pub proof fn lemma_create_then_teardown(m: MapSession, k: MarkerSync)
    requires
        m.phase is DomMounted,
        k.phase is Waiting,
    ensures
        ({
            let m1 = m.mounted_spec().0;
            let k1 = k.map_ready_spec().0;
            let (m2, map_removed) = m1.teardown_spec();
            let (k2, marker_removed) = k1.teardown_spec();
            &&& map_removed && marker_removed
            &&& !k2.polling() && !k2.live()
            &&& !m2.teardown_spec().1 && !k2.teardown_spec().1
            &&& !m2.flies()
        }),
{
}

} // verus!
