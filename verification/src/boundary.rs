//! The play-area boundary a map author draws: a list of waypoints that becomes a
//! polygon once it has at least three of them.

use vstd::prelude::*;
use crate::text::{decimal, decimal_text};

verus! {

/// Fewest waypoints that make a polygon.
pub const MIN_BOUNDARY_POINTS: usize = 3;

/// What the map editor reports: a click on the map, a waypoint dragged to a new
/// place, or a message it does not know.
pub enum BoundaryEvent<P> {
    Click(P),
    Drag(usize, P),
    Other,
}

pub open spec fn boundary_after<P>(boundary: Seq<P>, event: BoundaryEvent<P>) -> Seq<P> {
    match event {
        BoundaryEvent::Click(p) => boundary.push(p),
        BoundaryEvent::Drag(i, p) => if i < boundary.len() {
            boundary.update(i as int, p)
        } else {
            boundary
        },
        BoundaryEvent::Other => boundary,
    }
}

/// Applies an editor event: a click adds a waypoint at the end, a drag moves the
/// waypoint it names (if there is one), anything else changes nothing. A
/// read-only editor never changes the boundary.
pub fn apply_boundary_event<P>(boundary: &mut Vec<P>, event: BoundaryEvent<P>, readonly: bool)
    ensures
        readonly ==> final(boundary)@ == old(boundary)@,
        !readonly ==> final(boundary)@ == boundary_after(old(boundary)@, event),
{
    if readonly {
        return;
    }
    match event {
        BoundaryEvent::Click(p) => boundary.push(p),
        BoundaryEvent::Drag(i, p) => {
            if i < boundary.len() {
                boundary.set(i, p);
            }
        },
        BoundaryEvent::Other => {},
    }
}

/// What each editor event does to the waypoints: a click appends its point and
/// keeps all others; a drag of an existing waypoint, the last one included, puts
/// it at the new point and keeps every other waypoint where it was; a drag of a
/// waypoint that does not exist, or any other message, changes nothing.
pub proof fn boundary_events_move_only_their_waypoint<P>(boundary: Seq<P>, i: usize, p: P)
    ensures
        ({
            let b = boundary_after(boundary, BoundaryEvent::Click(p));
            &&& b.len() == boundary.len() + 1
            &&& b[boundary.len() as int] == p
            &&& forall|j: int| 0 <= j < boundary.len() ==> b[j] == boundary[j]
        }),
        ({
            let b = boundary_after(boundary, BoundaryEvent::Drag(i, p));
            &&& b.len() == boundary.len()
            &&& i < boundary.len() ==> b[i as int] == p
            &&& forall|j: int| 0 <= j < boundary.len() && j != i ==> b[j] == boundary[j]
            &&& i >= boundary.len() ==> b == boundary
        }),
        boundary_after(boundary, BoundaryEvent::Other) == boundary,
{
}

/// Removes the waypoint at position `i` (its "×" button).
pub fn remove_waypoint<P>(boundary: &mut Vec<P>, i: usize)
    requires
        i < old(boundary).len(),
    ensures
        final(boundary)@ == old(boundary)@.remove(i as int),
{
    boundary.remove(i);
}

/// Whether `n` waypoints make a polygon.
pub fn is_polygon_ready(n: usize) -> (b: bool)
    ensures
        b == (n >= 3),
{
    n >= MIN_BOUNDARY_POINTS
}

pub open spec fn editor_hint_text(n: nat) -> Seq<char> {
    if n == 0 {
        "Click on the map to place boundary waypoints. At least 3 required."@
    } else if n >= 3 {
        decimal(n) + " waypoint(s) placed"@ + " — polygon ready"@
    } else {
        decimal(n) + " waypoint(s) placed"@ + " — need at least 3"@
    }
}

/// The hint under the boundary editor's map.
pub fn editor_hint(n: usize) -> (s: String)
    ensures
        s@ == editor_hint_text(n as nat),
{
    if n == 0 {
        "Click on the map to place boundary waypoints. At least 3 required.".to_owned()
    } else {
        let mut s = decimal_text(n);
        s.append(" waypoint(s) placed");
        if n >= 3 {
            s.append(" — polygon ready");
        } else {
            s.append(" — need at least 3");
        }
        s
    }
}

pub open spec fn wizard_hint_text(n: nat) -> Seq<char> {
    if n >= 3 {
        decimal(n) + " waypoint(s) placed — polygon ready"@
    } else if n > 0 {
        decimal(n) + " waypoint(s) — need at least 3"@
    } else {
        "Click on the map to place boundary waypoints"@
    }
}

/// The hint in the first step of the map wizard.
pub fn wizard_hint(n: usize) -> (s: String)
    ensures
        s@ == wizard_hint_text(n as nat),
{
    if n >= 3 {
        let mut s = decimal_text(n);
        s.append(" waypoint(s) placed — polygon ready");
        s
    } else if n > 0 {
        let mut s = decimal_text(n);
        s.append(" waypoint(s) — need at least 3");
        s
    } else {
        "Click on the map to place boundary waypoints".to_owned()
    }
}

pub open spec fn boundary_step_hint_text(n: nat) -> Seq<char> {
    if n == 0 {
        "No points yet."@
    } else if n >= 3 {
        decimal(n) + " waypoint(s)"@ + " — polygon ready ✓"@
    } else {
        decimal(n) + " waypoint(s)"@ + " — need at least 3"@
    }
}

/// The hint on the boundary page of the map editor.
pub fn boundary_step_hint(n: usize) -> (s: String)
    ensures
        s@ == boundary_step_hint_text(n as nat),
{
    if n == 0 {
        "No points yet.".to_owned()
    } else {
        let mut s = decimal_text(n);
        s.append(" waypoint(s)");
        if n >= 3 {
            s.append(" — polygon ready ✓");
        } else {
            s.append(" — need at least 3");
        }
        s
    }
}

/// Whether the editor still has to fit the map to the boundary: with auto-zoom
/// on, the map is fitted once, on the first draw of a boundary that has points.
pub struct AutoFit {
    pub enabled: bool,
    pub fitted: bool,
}

/// One draw of a boundary of `n_points` waypoints: the fit state after it, and
/// whether this draw fits the map.
pub open spec fn auto_fit_step(s: AutoFit, n_points: nat) -> (AutoFit, bool) {
    let fit = s.enabled && !s.fitted && n_points > 0;
    (AutoFit { enabled: s.enabled, fitted: s.fitted || fit }, fit)
}

/// The fit state after the first `k` draws of a run, their sizes in `counts`.
pub open spec fn auto_fit_after(s: AutoFit, counts: Seq<nat>, k: int) -> AutoFit
    decreases k,
{
    if k <= 0 {
        s
    } else {
        auto_fit_step(auto_fit_after(s, counts, k - 1), counts[k - 1]).0
    }
}

/// Whether draw `k` of a run fits the map.
pub open spec fn fits_at(s: AutoFit, counts: Seq<nat>, k: int) -> bool {
    auto_fit_step(auto_fit_after(s, counts, k), counts[k]).1
}

impl AutoFit {
    /// A fresh editor: auto-zoom as given, nothing fitted yet.
    pub fn new(enabled: bool) -> (s: Self)
        ensures
            s.enabled == enabled,
            !s.fitted,
    {
        AutoFit { enabled, fitted: false }
    }

    /// Takes one draw of a boundary of `n_points` waypoints and says whether to
    /// fit the map to it.
    pub fn on_draw(&mut self, n_points: usize) -> (fit: bool)
        ensures
            (*final(self), fit) == auto_fit_step(*old(self), n_points as nat),
    {
        let fit = self.enabled && !self.fitted && n_points > 0;
        if fit {
            self.fitted = true;
        }
        fit
    }
}

/// With auto-zoom on, over any run of draws the map is fitted exactly once: on
/// the first draw of a boundary with points, and never after; with it off, never.
pub proof fn auto_fit_once(enabled: bool, counts: Seq<nat>)
    ensures
        forall|k: int|
            0 <= k < counts.len() ==> (fits_at(AutoFit { enabled, fitted: false }, counts, k) <==> (enabled
                && counts[k] > 0 && forall|j: int| 0 <= j < k ==> counts[j] == 0)),
    decreases counts.len(),
{
    let s = AutoFit { enabled, fitted: false };
    assert forall|k: int| 0 <= k < counts.len() implies (fits_at(s, counts, k) <==> (enabled && counts[k] > 0
        && forall|j: int| 0 <= j < k ==> counts[j] == 0)) by {
        lemma_fitted_after(s, counts, k);
    }
}

/// After `k` draws the map has been fitted exactly when auto-zoom is on and one
/// of those draws had points.
proof fn lemma_fitted_after(s: AutoFit, counts: Seq<nat>, k: int)
    requires
        !s.fitted,
        0 <= k <= counts.len(),
    ensures
        auto_fit_after(s, counts, k).enabled == s.enabled,
        auto_fit_after(s, counts, k).fitted <==> (s.enabled && exists|j: int| 0 <= j < k && #[trigger] counts[j] > 0),
    decreases k,
{
    if k > 0 {
        lemma_fitted_after(s, counts, k - 1);
        if counts[k - 1] > 0 {
            assert(0 <= k - 1 < k && counts[k - 1] > 0);
        }
        if s.enabled && exists|j: int| 0 <= j < k && #[trigger] counts[j] > 0 {
            let j = choose|j: int| 0 <= j < k && #[trigger] counts[j] > 0;
            if j < k - 1 {
                assert(0 <= j < k - 1 && counts[j] > 0);
            }
        }
    }
}

} // verus!
