//! The decisions of a marker: which icon it gets, when it is made, which
//! change of a watched property reaches the live marker, and teardown.
//!
//! Values that are numbers with a fraction (coordinates, opacity, rotation)
//! stay with the caller; each event hands over what the decision reads: that
//! a position moved, that an opacity is set, or a rotation's whole degrees.
use vstd::prelude::*;

verus! {

/// The icon a marker is made with.
#[derive(Clone, Debug)]
pub enum IconChoice {
    /// An image icon from this URL.
    Image(String),
    /// A DOM icon with this CSS class.
    ClassName(String),
    /// The mapping library's own default icon.
    LibraryDefault,
}

/// The icon for the given URL and class: an image where a URL is given, else
/// a class icon where a class is given, else the library's default.
pub fn resolve_icon(icon_url: Option<String>, icon_class: Option<String>) -> (r: IconChoice)
    ensures
        icon_url is Some ==> r is Image && r->Image_0@ == icon_url->0@,
        icon_url is None && icon_class is Some ==> r is ClassName && r->ClassName_0@
            == icon_class->0@,
        icon_url is None && icon_class is None ==> r is LibraryDefault,
{
    match icon_url {
        Some(url) => IconChoice::Image(url),
        None => match icon_class {
            Some(class) => IconChoice::ClassName(class),
            None => IconChoice::LibraryDefault,
        },
    }
}

/// Where a marker stands in its life.
#[derive(Clone, Copy, PartialEq, Eq, Structural, Debug)]
pub enum MarkerPhase {
    /// No map yet, so no marker.
    Waiting,
    /// The marker exists on the map.
    Live,
    /// Torn down: watchers and the position poll are stopped.
    Disposed,
}

/// A call on the marker's built-in drag handler.
#[derive(Clone, Copy, PartialEq, Eq, Structural, Debug)]
pub enum DragCall {
    Enable,
    Disable,
}

/// The decisions of one marker.
#[derive(Clone, Copy, Debug)]
pub struct MarkerSync {
    pub phase: MarkerPhase,
    /// The whole degrees of the rotation last seen, if one was set.
    pub last_rotation: Option<i64>,
}

impl MarkerSync {
    pub open spec fn live(self) -> bool {
        self.phase is Live
    }

    /// Whether the position poll is still running.
    pub open spec fn polling(self) -> bool {
        !(self.phase is Disposed)
    }

    pub open spec fn map_ready_spec(self) -> (MarkerSync, bool) {
        if self.phase is Waiting {
            (MarkerSync { phase: MarkerPhase::Live, ..self }, true)
        } else {
            (self, false)
        }
    }

    /// Whether a change of the watched position sets the marker's
    /// coordinates.
    pub open spec fn moves(self, moved: bool) -> bool {
        self.live() && moved
    }

    pub open spec fn drag_spec(self, enabled: bool) -> Option<DragCall> {
        if self.live() {
            Some(
                if enabled {
                    DragCall::Enable
                } else {
                    DragCall::Disable
                },
            )
        } else {
            None
        }
    }

    /// The state after the rotation became `degrees` (whole degrees), and
    /// whether the icon's transform is to be rewritten.
    pub open spec fn rotation_spec(self, degrees: Option<i64>) -> (MarkerSync, bool) {
        if self.phase is Disposed {
            (self, false)
        } else {
            (
                MarkerSync { last_rotation: degrees, ..self },
                self.live() && degrees is Some && degrees != self.last_rotation,
            )
        }
    }

    pub open spec fn teardown_spec(self) -> (MarkerSync, bool) {
        (MarkerSync { phase: MarkerPhase::Disposed, ..self }, self.live())
    }

    /// A marker waiting for its map, whose rotation starts at
    /// `initial_rotation` whole degrees, if set.
    pub fn new(initial_rotation: Option<i64>) -> (r: Self)
        ensures
            r.phase == MarkerPhase::Waiting,
            r.last_rotation == initial_rotation,
    {
        MarkerSync { phase: MarkerPhase::Waiting, last_rotation: initial_rotation }
    }

    /// The map became available: whether to make the marker now (the first
    /// time only).
    pub fn map_ready(&mut self) -> (r: bool)
        ensures
            (*final(self), r) == old(self).map_ready_spec(),
    {
        if self.phase != MarkerPhase::Waiting {
            return false;
        }
        self.phase = MarkerPhase::Live;
        true
    }

    /// The watched position changed; `moved` says whether the new value
    /// differs from the old. Whether to set the marker's coordinates.
    pub fn position_changed(&self, moved: bool) -> (r: bool)
        ensures
            r == self.moves(moved),
    {
        self.phase == MarkerPhase::Live && moved
    }

    /// The watched opacity changed; `present` says whether it is set.
    /// Whether to set the marker's opacity.
    pub fn opacity_changed(&self, present: bool) -> (r: bool)
        ensures
            r == (self.live() && present),
    {
        self.phase == MarkerPhase::Live && present
    }

    /// The draggable flag changed to `enabled`: the call to make on the drag
    /// handler, if the marker exists.
    pub fn draggable_changed(&self, enabled: bool) -> (r: Option<DragCall>)
        ensures
            r == self.drag_spec(enabled),
    {
        if self.phase != MarkerPhase::Live {
            None
        } else if enabled {
            Some(DragCall::Enable)
        } else {
            Some(DragCall::Disable)
        }
    }

    /// The rotation changed to `degrees` whole degrees (`None`: unset).
    /// The transform is rewritten only when the marker exists, a rotation is
    /// set and its whole degrees differ from those last seen.
    pub fn rotation_changed(&mut self, degrees: Option<i64>) -> (r: bool)
        ensures
            (*final(self), r) == old(self).rotation_spec(degrees),
    {
        if self.phase == MarkerPhase::Disposed {
            return false;
        }
        let prev = self.last_rotation;
        self.last_rotation = degrees;
        if self.phase != MarkerPhase::Live {
            return false;
        }
        match (degrees, prev) {
            (Some(d), Some(p)) => d != p,
            (Some(_), None) => true,
            (None, _) => false,
        }
    }

    /// A tick of the position poll: whether to read the marker's coordinates
    /// back into the caller's feedback slot.
    pub fn poll_tick(&self) -> (r: bool)
        ensures
            r == self.live(),
    {
        self.phase == MarkerPhase::Live
    }

    /// Teardown: watchers and poll stop, and the marker is removed if it
    /// exists.
    pub fn teardown(&mut self) -> (r: bool)
        ensures
            (*final(self), r) == old(self).teardown_spec(),
    {
        let remove = self.phase == MarkerPhase::Live;
        self.phase = MarkerPhase::Disposed;
        remove
    }
}

/// A live marker's coordinates are set once for each change of the position
/// that moves it, and not at all for one that leaves it where it is.
pub proof fn lemma_position_follows(s: MarkerSync, moved: bool)
    requires
        s.live(),
    ensures
        s.moves(moved) == moved,
{
}

/// Two rotations with the same whole degrees rewrite the transform at most
/// once: the second never does, and a later rotation with other whole
/// degrees does.
pub proof fn lemma_rotation_by_whole_degrees(s: MarkerSync, first: i64, second: i64, third: i64)
    requires
        s.live(),
        first == second,
        third != second,
    ensures
        s.rotation_spec(Some(first)).1 == (s.last_rotation != Some(first)),
        s.rotation_spec(Some(first)).0.rotation_spec(Some(second)).1 == false,
        s.rotation_spec(Some(first)).0.rotation_spec(Some(second)).0.rotation_spec(Some(third)).1,
{
}

/// Turning dragging on and then off again on a live marker makes exactly two
/// calls on the drag handler: enable, then disable.
pub proof fn lemma_drag_toggle(s: MarkerSync)
    requires
        s.live(),
    ensures
        seq![s.drag_spec(true), s.drag_spec(false)].filter(|c: Option<DragCall>| c is Some)
            == seq![Some(DragCall::Enable), Some(DragCall::Disable)],
{
    let calls = seq![s.drag_spec(true), s.drag_spec(false)];
    reveal_with_fuel(Seq::filter, 3);
    assert(calls.drop_last() =~= seq![s.drag_spec(true)]);
    assert(calls.drop_last().drop_last() =~= Seq::<Option<DragCall>>::empty());
    assert(calls.filter(|c: Option<DragCall>| c is Some) =~= seq![
        Some(DragCall::Enable),
        Some(DragCall::Disable),
    ]);
}

} // verus!
