//! The life of a map container: its element's id, the creation of the map
//! once the element is in the document, re-centring, and removal.
use vstd::prelude::*;

verus! {

#[verifier::external_type_specification]
#[verifier::external_body]
pub struct ExLeafletMap(leaflet::Map);

/// Holds the live map of a container, once there is one.
#[derive(Debug, Clone)]
pub struct LeafletMap {
    pub map: Option<leaflet::Map>,
}

impl LeafletMap {
    /// A holder without a map.
    pub fn new() -> (r: Self)
        ensures
            r.map is None,
    {
        LeafletMap { map: None }
    }
}

impl Default for LeafletMap {
    fn default() -> (r: Self)
        ensures
            r.map is None,
    {
        LeafletMap::new()
    }
}

pub open spec fn digit_char(d: nat) -> char {
    seq!['0', '1', '2', '3', '4', '5', '6', '7', '8', '9'][d as int]
}

/// The decimal digits of `n`, most significant first, without leading zeros.
pub open spec fn decimal(n: nat) -> Seq<char>
    decreases n,
{
    if n < 10 {
        seq![digit_char(n)]
    } else {
        decimal(n / 10).push(digit_char(n % 10))
    }
}

/// The element id made from the number `n`: `map-` and its decimal digits.
pub open spec fn map_id(n: nat) -> Seq<char> {
    seq!['m', 'a', 'p', '-'] + decimal(n)
}

/// Relies on rand::random: a `u64` drawn from the thread-local generator.
/// Nothing is known of its value.
#[verifier::external_body]
fn random_u64() -> u64 {
    rand::random::<u64>()
}

fn append_decimal(out: &mut String, n: u64)
    ensures
        final(out)@ == old(out)@ + decimal(n as nat),
    decreases n,
{
    if n >= 10 {
        append_decimal(out, n / 10);
    }
    let d = (n % 10) as usize;
    let digits = "0123456789";
    proof {
        reveal_strlit("0123456789");
    }
    let s = digits.substring_char(d, d + 1);
    assert(s@ =~= seq![digit_char(d as nat)]);
    let ghost before = out@;
    out.append(s);
    assert(out@ =~= before + seq![digit_char(d as nat)]);
    if n >= 10 {
        assert(decimal(n as nat) == decimal((n / 10) as nat).push(digit_char((n % 10) as nat)));
    }
}

/// The id to give the map's element, whose id is now `current`, with the
/// number `random` at hand: `map-<random>` where the element has no id, and
/// `None` (keep it) where it has one.
pub fn element_id(current: &str, random: u64) -> (r: Option<String>)
    ensures
        current@.len() == 0 ==> r is Some && r->0@ == map_id(random as nat),
        current@.len() > 0 ==> r is None,
{
    if !current.is_empty() {
        return None;
    }
    let mut id = String::new();
    proof {
        reveal_strlit("map-");
    }
    id.append("map-");
    append_decimal(&mut id, random);
    assert(id@ =~= map_id(random as nat));
    Some(id)
}

/// Where a map container stands in its life.
#[derive(Clone, Copy, PartialEq, Eq, Structural, Debug)]
pub enum MapPhase {
    /// Its element is not in the document yet.
    Unmounted,
    /// Its element exists and has its id; the map is not made yet.
    DomMounted,
    /// The map exists and follows the centre.
    Active,
    /// Torn down; the map, if there was one, is removed.
    Disposed,
}

/// How geolocation is asked for once the map exists.
#[derive(Clone, Copy, PartialEq, Eq, Structural, Debug)]
pub struct LocateRequest {
    pub enable_high_accuracy: bool,
    pub set_view: bool,
    pub watch: bool,
}

/// What to do when the element is mounted: make the map at the initial
/// centre and zoom, wire its events, ask for geolocation where `locate` is
/// set, and publish the map to the context and the caller's slot.
#[derive(Clone, Copy, Debug)]
pub struct MapSetup {
    pub locate: Option<LocateRequest>,
}

/// The decisions of a map container, one per event of its life.
#[derive(Clone, Copy, Debug)]
pub struct MapSession {
    pub phase: MapPhase,
    /// Whether geolocation is asked for.
    pub locate: bool,
    pub options: LocateRequest,
}

impl MapSession {
    pub open spec fn locate_spec(self) -> Option<LocateRequest> {
        if self.locate {
            Some(self.options)
        } else {
            None
        }
    }

    /// The state after the element is mounted, and what to set up.
    pub open spec fn mounted_spec(self) -> (MapSession, Option<MapSetup>) {
        if self.phase is DomMounted {
            (MapSession { phase: MapPhase::Active, ..self }, Some(MapSetup { locate: self.locate_spec() }))
        } else {
            (self, None)
        }
    }

    /// Whether a change of the centre moves the map.
    pub open spec fn flies(self) -> bool {
        self.phase is Active
    }

    /// The state after teardown, and whether the map is to be removed.
    pub open spec fn teardown_spec(self) -> (MapSession, bool) {
        (MapSession { phase: MapPhase::Disposed, ..self }, self.phase is Active)
    }

    /// A container whose element is not mounted yet.
    pub fn new(locate: bool, enable_high_accuracy: bool, set_view: bool, watch: bool) -> (r: Self)
        ensures
            r.phase == MapPhase::Unmounted,
            r.locate == locate,
            r.options == (LocateRequest { enable_high_accuracy, set_view, watch }),
    {
        MapSession {
            phase: MapPhase::Unmounted,
            locate,
            options: LocateRequest { enable_high_accuracy, set_view, watch },
        }
    }

    /// The element is in the document with the id `current`. The first time,
    /// the container moves on to `DomMounted` and returns the id to give an
    /// element that has none, drawn at random: `map-<n>` for some `u64` `n`.
    pub fn element_loaded(&mut self, current: &str) -> (r: Option<String>)
        ensures
            old(self).phase is Unmounted ==> final(self).phase is DomMounted && (current@.len()
                == 0 ==> r is Some && exists|n: u64| r->0@ == map_id(n as nat)) && (
            current@.len() > 0 ==> r is None),
            !(old(self).phase is Unmounted) ==> *final(self) == *old(self) && r is None,
            final(self).locate == old(self).locate,
            final(self).options == old(self).options,
    {
        if self.phase != MapPhase::Unmounted {
            return None;
        }
        self.phase = MapPhase::DomMounted;
        if !current.is_empty() {
            return None;
        }
        let n = random_u64();
        element_id(current, n)
    }

    /// The element is mounted: from `DomMounted` the map is made.
    pub fn element_mounted(&mut self) -> (r: Option<MapSetup>)
        ensures
            (*final(self), r) == old(self).mounted_spec(),
    {
        if self.phase != MapPhase::DomMounted {
            return None;
        }
        self.phase = MapPhase::Active;
        let locate = if self.locate {
            Some(self.options)
        } else {
            None
        };
        Some(MapSetup { locate })
    }

    /// The centre changed: whether to fly the map there, at the zoom given
    /// when the container was made.
    pub fn center_changed(&self) -> (r: bool)
        ensures
            r == self.flies(),
    {
        self.phase == MapPhase::Active
    }

    /// Teardown: the container is disposed, and the map is removed if it
    /// exists.
    pub fn teardown(&mut self) -> (r: bool)
        ensures
            (*final(self), r) == old(self).teardown_spec(),
    {
        let remove = self.phase == MapPhase::Active;
        self.phase = MapPhase::Disposed;
        remove
    }
}

} // verus!
