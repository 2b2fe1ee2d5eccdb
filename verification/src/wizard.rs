//! The map-creation wizard: its step indicator, and the two-step form (draw the
//! boundary, then choose transit routes) that creates a map in one go.

use vstd::prelude::*;
use crate::forms::{FormError, form_error_text};
use crate::text::{trimmed, trimmed_string, is_blank};
use crate::transit::{select_all, count_selected_spec, count_selected_upto};

verus! {

/// Where a step stands relative to the current one.
#[derive(Clone, Copy, Debug, PartialEq, Eq, Structural)]
pub enum StepStatus {
    Done,
    Active,
    Upcoming,
}

pub open spec fn step_status_spec(num: u8, current: u8) -> StepStatus {
    if num < current {
        StepStatus::Done
    } else if num == current {
        StepStatus::Active
    } else {
        StepStatus::Upcoming
    }
}

/// The status of step `num` when the wizard is at step `current`.
pub fn step_status(num: u8, current: u8) -> (s: StepStatus)
    ensures
        s == step_status_spec(num, current),
{
    if num < current {
        StepStatus::Done
    } else if num == current {
        StepStatus::Active
    } else {
        StepStatus::Upcoming
    }
}

pub open spec fn step_class_text(s: StepStatus) -> Seq<char> {
    match s {
        StepStatus::Done => "wizard-step wizard-step--done"@,
        StepStatus::Active => "wizard-step wizard-step--active"@,
        StepStatus::Upcoming => "wizard-step wizard-step--upcoming"@,
    }
}

/// The style of a step in the indicator.
pub fn step_class(s: StepStatus) -> (c: &'static str)
    ensures
        c@ == step_class_text(s),
{
    match s {
        StepStatus::Done => "wizard-step wizard-step--done",
        StepStatus::Active => "wizard-step wizard-step--active",
        StepStatus::Upcoming => "wizard-step wizard-step--upcoming",
    }
}

/// A numbered step of the map editor.
pub struct WizardStepInfo {
    pub num: u8,
    pub label: &'static str,
}

/// The steps of the map editor: Info, Boundary, Transit, Confirm.
pub fn editor_steps() -> (v: Vec<WizardStepInfo>)
    ensures
        v.len() == 4,
        forall|i: int| 0 <= i < 4 ==> (#[trigger] v@[i]).num == i + 1,
        v@[0].label@ == "Info"@,
        v@[1].label@ == "Boundary"@,
        v@[2].label@ == "Transit"@,
        v@[3].label@ == "Confirm"@,
{
    let mut v = Vec::new();
    v.push(WizardStepInfo { num: 1, label: "Info" });
    v.push(WizardStepInfo { num: 2, label: "Boundary" });
    v.push(WizardStepInfo { num: 3, label: "Transit" });
    v.push(WizardStepInfo { num: 4, label: "Confirm" });
    v
}

/// At any step of the editor, exactly that step is active, the ones before it
/// are done and the ones after it are upcoming.
pub proof fn one_active_step(current: u8)
    requires
        1 <= current <= 4,
    ensures
        forall|num: u8| 1 <= num <= 4 ==> ((step_status_spec(num, current) == StepStatus::Active) <==> num == current),
        forall|num: u8| 1 <= num <= 4 ==> ((step_status_spec(num, current) == StepStatus::Done) <==> num < current),
{
}

/// The two steps of the map-creation form.
#[derive(Clone, Copy, Debug, PartialEq, Eq, Structural)]
pub enum WizardStep {
    Boundary,
    Transit,
}

/// The classes of the two steps in the form's indicator.
pub fn two_step_classes(step: WizardStep) -> (c: (&'static str, &'static str))
    ensures
        step == WizardStep::Boundary ==> c.0@ == step_class_text(StepStatus::Active) && c.1@ == step_class_text(StepStatus::Upcoming),
        step == WizardStep::Transit ==> c.0@ == step_class_text(StepStatus::Done) && c.1@ == step_class_text(StepStatus::Active),
{
    match step {
        WizardStep::Boundary => (step_class(StepStatus::Active), step_class(StepStatus::Upcoming)),
        WizardStep::Transit => (step_class(StepStatus::Done), step_class(StepStatus::Active)),
    }
}

/// Whether transit can be fetched: a polygon and a name.
pub fn can_fetch_transit(boundary_len: usize, name_input: &str) -> (b: bool)
    ensures
        b == (boundary_len >= 3 && trimmed(name_input@).len() > 0),
{
    boundary_len >= 3 && !is_blank(name_input)
}

/// What the map-creation form remembers between events.
pub struct WizardState {
    pub step: WizardStep,
    pub fetching: bool,
    pub transit_error: Option<String>,
    pub saving: bool,
    pub save_error: Option<String>,
    pub selected: Vec<bool>,
}

/// What happens in the map-creation form.
pub enum WizardEvent {
    /// "Next: Fetch Transit" or "Retry".
    FetchRequested,
    /// Transit arrived, with this many routes.
    FetchSucceeded(usize),
    FetchFailed(String),
    /// "Save Map" (with the selected routes) or "Save without transit".
    SaveRequested { name_input: String, boundary_len: usize, with_transit: bool },
    SaveSucceeded,
    SaveFailed(String),
    /// "← Back" from the transit step.
    Back,
}

/// What the form asks to be done after an event.
pub enum WizardAction {
    Nothing,
    FetchTransit,
    /// Create the map under this (trimmed) name, with the selected routes or none.
    CreateMap { name: String, with_transit: bool },
    MapCreated,
}

impl WizardState {
    /// The form as it opens: boundary step, nothing pending, no routes.
    pub fn new() -> (s: Self)
        ensures
            s.step == WizardStep::Boundary,
            !s.fetching && !s.saving,
            s.transit_error is None && s.save_error is None,
            s.selected@.len() == 0,
    {
        WizardState {
            step: WizardStep::Boundary,
            fetching: false,
            transit_error: None,
            saving: false,
            save_error: None,
            selected: Vec::new(),
        }
    }

    /// Takes one event and says what to do next.
    pub fn handle(&mut self, event: WizardEvent) -> (action: WizardAction)
        ensures
            match event {
                WizardEvent::FetchRequested => if old(self).fetching {
                    action is Nothing && *final(self) == *old(self)
                } else {
                    &&& action is FetchTransit
                    &&& *final(self) == (WizardState { fetching: true, transit_error: None, ..*old(self) })
                },
                WizardEvent::FetchSucceeded(n) => {
                    &&& action is Nothing
                    &&& final(self).step == WizardStep::Transit
                    &&& !final(self).fetching
                    &&& final(self).selected@.len() == n
                    &&& forall|i: int| 0 <= i < n ==> final(self).selected@[i]
                    &&& final(self).transit_error == old(self).transit_error
                    &&& final(self).saving == old(self).saving
                    &&& final(self).save_error == old(self).save_error
                },
                WizardEvent::FetchFailed(msg) => {
                    &&& action is Nothing
                    &&& *final(self) == (WizardState { fetching: false, transit_error: Some(msg), ..*old(self) })
                },
                WizardEvent::SaveRequested { name_input, boundary_len, with_transit } => if old(self).saving {
                    action is Nothing && *final(self) == *old(self)
                } else if trimmed(name_input@).len() == 0 {
                    &&& action is Nothing
                    &&& final(self).save_error is Some
                    &&& final(self).save_error->Some_0@ == form_error_text(FormError::WizardMissingMapName)
                    &&& *final(self) == (WizardState { save_error: final(self).save_error, ..*old(self) })
                } else if boundary_len < 3 {
                    &&& action is Nothing
                    &&& final(self).save_error is Some
                    &&& final(self).save_error->Some_0@ == form_error_text(FormError::WizardTooFewPoints)
                    &&& *final(self) == (WizardState { save_error: final(self).save_error, ..*old(self) })
                } else {
                    &&& action matches WizardAction::CreateMap { name, with_transit: w } && name@ == trimmed(name_input@) && w == with_transit
                    &&& *final(self) == (WizardState { saving: true, save_error: None, ..*old(self) })
                },
                WizardEvent::SaveSucceeded => {
                    &&& action is MapCreated
                    &&& *final(self) == (WizardState { saving: false, ..*old(self) })
                },
                WizardEvent::SaveFailed(msg) => {
                    &&& action is Nothing
                    &&& *final(self) == (WizardState { saving: false, save_error: Some(msg), ..*old(self) })
                },
                WizardEvent::Back => {
                    &&& action is Nothing
                    &&& *final(self) == (WizardState { step: WizardStep::Boundary, transit_error: None, save_error: None, ..*old(self) })
                },
            },
    {
        match event {
            WizardEvent::FetchRequested => {
                if self.fetching {
                    WizardAction::Nothing
                } else {
                    self.fetching = true;
                    self.transit_error = None;
                    WizardAction::FetchTransit
                }
            },
            WizardEvent::FetchSucceeded(n) => {
                self.selected = select_all(n);
                self.fetching = false;
                self.step = WizardStep::Transit;
                WizardAction::Nothing
            },
            WizardEvent::FetchFailed(msg) => {
                self.fetching = false;
                self.transit_error = Some(msg);
                WizardAction::Nothing
            },
            WizardEvent::SaveRequested { name_input, boundary_len, with_transit } => {
                if self.saving {
                    return WizardAction::Nothing;
                }
                let name = trimmed_string(name_input.as_str());
                if name.as_str().is_empty() {
                    self.save_error = Some(FormError::WizardMissingMapName.message().to_owned());
                    return WizardAction::Nothing;
                }
                if boundary_len < 3 {
                    self.save_error = Some(FormError::WizardTooFewPoints.message().to_owned());
                    return WizardAction::Nothing;
                }
                self.save_error = None;
                self.saving = true;
                WizardAction::CreateMap { name, with_transit }
            },
            WizardEvent::SaveSucceeded => {
                self.saving = false;
                WizardAction::MapCreated
            },
            WizardEvent::SaveFailed(msg) => {
                self.saving = false;
                self.save_error = Some(msg);
                WizardAction::Nothing
            },
            WizardEvent::Back => {
                self.step = WizardStep::Boundary;
                self.transit_error = None;
                self.save_error = None;
                WizardAction::Nothing
            },
        }
    }
}

/// Right after routes arrive, all of them count as selected.
pub proof fn fetched_routes_all_selected(sel: Seq<bool>, n: nat)
    requires
        sel.len() == n,
        forall|i: int| 0 <= i < n ==> sel[i],
    ensures
        count_selected_spec(sel) == n,
{
    lemma_all_true_count(sel, n as int);
}

proof fn lemma_all_true_count(sel: Seq<bool>, k: int)
    requires
        0 <= k <= sel.len(),
        forall|i: int| 0 <= i < sel.len() ==> sel[i],
    ensures
        count_selected_upto(sel, k) == k,
    decreases k,
{
    if k > 0 {
        lemma_all_true_count(sel, k - 1);
    }
}

} // verus!
