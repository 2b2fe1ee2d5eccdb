//! The radar question ("Are you within X km of [location]?"): choosing its centre
//! on the map, locking in the answer as an exclusion zone, and highlighting the
//! zones of questions already asked.

use vstd::prelude::*;

verus! {

pub open spec fn radar_label_text(yes: bool) -> Seq<char> {
    if yes {
        "Radar: Yes"@
    } else {
        "Radar: No"@
    }
}

/// The label of the zone a radar answer creates.
pub fn radar_label(yes: bool) -> (s: &'static str)
    ensures
        s@ == radar_label_text(yes),
{
    if yes {
        "Radar: Yes"
    } else {
        "Radar: No"
    }
}

pub open spec fn radar_impact_text(yes: bool) -> Seq<char> {
    if yes {
        "Yes → everything outside this circle is excluded."@
    } else {
        "No → this circle is excluded."@
    }
}

/// What an answer means for the map.
pub fn radar_impact(yes: bool) -> (s: &'static str)
    ensures
        s@ == radar_impact_text(yes),
{
    if yes {
        "Yes → everything outside this circle is excluded."
    } else {
        "No → this circle is excluded."
    }
}

/// The question whose zone is highlighted after clicking the highlight button of
/// question `q`: none if it was that one, else `q`.
pub open spec fn toggled_highlight(current: Option<u128>, q: u128) -> Option<u128> {
    if current == Some(q) {
        None
    } else {
        Some(q)
    }
}

/// Toggles the highlight of a question's zone.
pub fn toggle_highlight(current: Option<u128>, q: u128) -> (next: Option<u128>)
    ensures
        next == toggled_highlight(current, q),
{
    match current {
        Some(c) => if c == q {
            None
        } else {
            Some(q)
        },
        None => Some(q),
    }
}

/// Clicking a question's highlight button highlights it exactly when it was not
/// highlighted; clicking twice returns to no highlight, or to that question.
pub proof fn highlight_toggle_laws(current: Option<u128>, q: u128)
    ensures
        (toggled_highlight(current, q) == Some(q)) == (current != Some(q)),
        (current is None || current == Some(q)) ==> toggled_highlight(toggled_highlight(current, q), q)
            == current,
{
}

pub open spec fn highlight_button_text(is_highlighted: bool) -> Seq<char> {
    if is_highlighted {
        "Unhighlight"@
    } else {
        "Highlight"@
    }
}

/// The highlight button's caption.
pub fn highlight_button_label(is_highlighted: bool) -> (s: &'static str)
    ensures
        s@ == highlight_button_text(is_highlighted),
{
    if is_highlighted {
        "Unhighlight"
    } else {
        "Highlight"
    }
}

/// Whether the lock-in button shows: only for seekers, once a centre is set.
pub fn lock_in_visible(is_seeker: bool, has_center: bool) -> (b: bool)
    ensures
        b == (is_seeker && has_center),
{
    is_seeker && has_center
}

/// The radar panel's state; the centre is a map position, carried unread. The
/// player's role is fixed when the panel opens.
pub struct RadarState<C> {
    pub is_seeker: bool,
    pub expanded: bool,
    pub center: Option<C>,
    pub picking_center: bool,
    pub yes: bool,
    pub adding: bool,
    pub error: Option<String>,
}

/// What happens in the radar panel.
pub enum RadarEvent<C> {
    /// "Questions ▼" / "Questions ▲": the panel opens or closes.
    ToggleClicked,
    /// "Set center" (again, to cancel).
    PickCenterClicked,
    /// The map was clicked at this position.
    MapClicked(C),
    /// "Yes" or "No" chosen.
    AnswerChosen(bool),
    /// "Lock in".
    LockInClicked,
    LockInSucceeded,
    LockInFailed(String),
}

/// What the panel asks to be done.
pub enum RadarAction<C> {
    Nothing,
    /// Wait for one click on the map.
    AwaitMapClick,
    /// Add the zone for this centre and answer, under the answer's label.
    AddZone { center: C, exclude_outside: bool },
    /// The zone was added: record the question as asked.
    ZoneAdded,
}

/// Whether the lock-in button is on screen: for seekers, in the open panel, once
/// a centre is set.
pub open spec fn lock_in_shown<C>(s: RadarState<C>) -> bool {
    s.is_seeker && s.expanded && s.center is Some
}

/// The panel after one event, and what it asks to be done. "Lock in" counts
/// only while its button is shown and no zone is being added.
pub open spec fn radar_step<C>(s: RadarState<C>, event: RadarEvent<C>) -> (RadarState<C>, RadarAction<C>) {
    match event {
        RadarEvent::ToggleClicked => (RadarState { expanded: !s.expanded, ..s }, RadarAction::Nothing),
        RadarEvent::PickCenterClicked => if s.picking_center {
            (RadarState { picking_center: false, ..s }, RadarAction::Nothing)
        } else {
            (RadarState { picking_center: true, ..s }, RadarAction::AwaitMapClick)
        },
        RadarEvent::MapClicked(p) => if s.picking_center {
            (RadarState { center: Some(p), picking_center: false, ..s }, RadarAction::Nothing)
        } else {
            (s, RadarAction::Nothing)
        },
        RadarEvent::AnswerChosen(y) => (RadarState { yes: y, ..s }, RadarAction::Nothing),
        RadarEvent::LockInClicked => if s.adding || !lock_in_shown(s) {
            (s, RadarAction::Nothing)
        } else {
            (
                RadarState { adding: true, error: None, ..s },
                RadarAction::AddZone { center: s.center->Some_0, exclude_outside: s.yes },
            )
        },
        RadarEvent::LockInSucceeded => (RadarState { adding: false, center: None, ..s }, RadarAction::ZoneAdded),
        RadarEvent::LockInFailed(msg) => (RadarState { adding: false, error: Some(msg), ..s }, RadarAction::Nothing),
    }
}

/// The panel after the first `n` of a run of events.
pub open spec fn radar_after<C>(s: RadarState<C>, events: Seq<RadarEvent<C>>, n: int) -> RadarState<C>
    decreases n,
{
    if n <= 0 {
        s
    } else {
        radar_step(radar_after(s, events, n - 1), events[n - 1]).0
    }
}

impl<C: Copy> RadarState<C> {
    /// A fresh, closed panel for a player of the given role: no centre, answer
    /// "No", nothing pending.
    pub fn new(is_seeker: bool) -> (s: Self)
        ensures
            s.is_seeker == is_seeker,
            !s.expanded && s.center is None && !s.picking_center && !s.yes && !s.adding && s.error is None,
    {
        RadarState {
            is_seeker,
            expanded: false,
            center: None,
            picking_center: false,
            yes: false,
            adding: false,
            error: None,
        }
    }

    /// Whether the lock-in button is shown.
    pub fn shows_lock_in(&self) -> (b: bool)
        ensures
            b == lock_in_shown(*self),
    {
        self.expanded && lock_in_visible(self.is_seeker, self.center.is_some())
    }

    /// Takes one event and says what to do next.
    pub fn handle(&mut self, event: RadarEvent<C>) -> (action: RadarAction<C>)
        ensures
            (*final(self), action) == radar_step(*old(self), event),
    {
        match event {
            RadarEvent::ToggleClicked => {
                self.expanded = !self.expanded;
                RadarAction::Nothing
            },
            RadarEvent::PickCenterClicked => {
                if self.picking_center {
                    self.picking_center = false;
                    RadarAction::Nothing
                } else {
                    self.picking_center = true;
                    RadarAction::AwaitMapClick
                }
            },
            RadarEvent::MapClicked(p) => {
                if self.picking_center {
                    self.center = Some(p);
                    self.picking_center = false;
                }
                RadarAction::Nothing
            },
            RadarEvent::AnswerChosen(y) => {
                self.yes = y;
                RadarAction::Nothing
            },
            RadarEvent::LockInClicked => {
                if self.adding || !self.shows_lock_in() {
                    return RadarAction::Nothing;
                }
                match self.center {
                    None => RadarAction::Nothing,
                    Some(c) => {
                        self.adding = true;
                        self.error = None;
                        RadarAction::AddZone { center: c, exclude_outside: self.yes }
                    },
                }
            },
            RadarEvent::LockInSucceeded => {
                self.adding = false;
                self.center = None;
                RadarAction::ZoneAdded
            },
            RadarEvent::LockInFailed(msg) => {
                self.adding = false;
                self.error = Some(msg);
                RadarAction::Nothing
            },
        }
    }
}

/// A hider's panel never asks for a zone nor shows the lock-in button, whatever
/// run of events it is sent; its role stays the same throughout.
pub proof fn hider_never_adds_zone<C>(s: RadarState<C>, events: Seq<RadarEvent<C>>)
    requires
        !s.is_seeker,
    ensures
        forall|n: int| 0 <= n <= events.len() ==> !(#[trigger] radar_after(s, events, n)).is_seeker
            && !lock_in_shown(radar_after(s, events, n)),
        forall|n: int| 0 <= n < events.len() ==> !(#[trigger] radar_step(radar_after(s, events, n), events[n]).1 is AddZone),
    decreases events.len(),
{
    if events.len() > 0 {
        let prefix = events.drop_last();
        hider_never_adds_zone(s, prefix);
        assert forall|n: int| 0 <= n <= events.len() implies !(#[trigger] radar_after(s, events, n)).is_seeker
            && !lock_in_shown(radar_after(s, events, n)) by {
            let m = if n < events.len() { n } else { n - 1 };
            lemma_after_prefix(s, events, prefix, m);
            assert(!radar_after(s, prefix, m).is_seeker);
        }
        assert forall|n: int| 0 <= n < events.len() implies !(#[trigger] radar_step(radar_after(s, events, n), events[n]).1 is AddZone) by {
            lemma_after_prefix(s, events, prefix, n);
            assert(!radar_after(s, prefix, n).is_seeker);
        }
    }
}

/// Running a longer list agrees with running its prefix, as far as the prefix goes.
proof fn lemma_after_prefix<C>(s: RadarState<C>, events: Seq<RadarEvent<C>>, prefix: Seq<RadarEvent<C>>, n: int)
    requires
        prefix.len() <= events.len(),
        forall|i: int| 0 <= i < prefix.len() ==> prefix[i] == events[i],
        0 <= n <= prefix.len(),
    ensures
        radar_after(s, events, n) == radar_after(s, prefix, n),
    decreases n,
{
    if n > 0 {
        lemma_after_prefix(s, events, prefix, n - 1);
    }
}

/// Locking in records the answer last chosen: after "Yes" or "No" is chosen, a
/// lock-in by a seeker whose button is shown asks for the zone at the chosen
/// centre that excludes the outside of the circle exactly for "Yes", and the
/// circle itself for "No". Choosing an answer changes nothing else.
pub proof fn lock_in_records_chosen_answer<C>(s: RadarState<C>, answer: bool)
    requires
        lock_in_shown(s),
        !s.adding,
    ensures
        radar_step(s, RadarEvent::AnswerChosen(answer)).0.yes == answer,
        radar_step(s, RadarEvent::AnswerChosen(answer)).0.center == s.center,
        radar_step(s, RadarEvent::AnswerChosen(answer)).0.is_seeker == s.is_seeker,
        ({
            let t = radar_step(s, RadarEvent::AnswerChosen(answer)).0;
            let a = radar_step(t, RadarEvent::LockInClicked).1;
            &&& a is AddZone
            &&& a->center == s.center->Some_0
            &&& a->exclude_outside == answer
        }),
        ({
            let a = radar_step(s, RadarEvent::LockInClicked).1;
            &&& a is AddZone
            &&& a->exclude_outside == s.yes
        }),
{
}

} // verus!
