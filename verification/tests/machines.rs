use hideseek::navigation::Route;
use hideseek::radar::{
    highlight_button_label, lock_in_visible, radar_impact, radar_label, toggle_highlight, RadarAction, RadarEvent,
    RadarState,
};
use hideseek::requests::PendingRequest;
use hideseek::transit_editor::{
    combine_loads, fetch_button_label, PageLoad, TransitEditorAction, TransitEditorEvent, TransitEditorState,
};
use hideseek::wizard::{
    can_fetch_transit, editor_steps, step_class, step_status, two_step_classes, StepStatus, WizardAction, WizardEvent,
    WizardState, WizardStep,
};

fn save(name: &str, len: usize, with_transit: bool) -> WizardEvent {
    WizardEvent::SaveRequested { name_input: name.to_string(), boundary_len: len, with_transit }
}

#[test]
fn wizard_fetches_once_at_a_time() {
    let mut w = WizardState::new();
    assert!(matches!(w.handle(WizardEvent::FetchRequested), WizardAction::FetchTransit));
    assert!(w.fetching);
    assert!(matches!(w.handle(WizardEvent::FetchRequested), WizardAction::Nothing));
    w.handle(WizardEvent::FetchFailed("timeout".to_string()));
    assert!(!w.fetching);
    assert_eq!(w.transit_error.as_deref(), Some("timeout"));
    assert_eq!(w.step, WizardStep::Boundary);
    assert!(matches!(w.handle(WizardEvent::FetchRequested), WizardAction::FetchTransit));
    assert_eq!(w.transit_error, None);
    w.handle(WizardEvent::FetchSucceeded(3));
    assert_eq!(w.step, WizardStep::Transit);
    assert_eq!(w.selected, vec![true, true, true]);
    assert!(!w.fetching);
}

#[test]
fn wizard_save_checks_name_then_points() {
    let mut w = WizardState::new();
    assert!(matches!(w.handle(save("  ", 5, true)), WizardAction::Nothing));
    assert_eq!(w.save_error.as_deref(), Some("Map name is required"));
    assert!(matches!(w.handle(save("City", 2, true)), WizardAction::Nothing));
    assert_eq!(w.save_error.as_deref(), Some("At least 3 boundary points required"));
    match w.handle(save(" City ", 3, false)) {
        WizardAction::CreateMap { name, with_transit } => {
            assert_eq!(name, "City");
            assert!(!with_transit);
        }
        _ => panic!("expected a create request"),
    }
    assert!(w.saving);
    assert_eq!(w.save_error, None);
    assert!(matches!(w.handle(save("City", 3, true)), WizardAction::Nothing));
    w.handle(WizardEvent::SaveFailed("conflict".to_string()));
    assert!(!w.saving);
    assert_eq!(w.save_error.as_deref(), Some("conflict"));
    assert!(matches!(w.handle(save("City", 3, true)), WizardAction::CreateMap { .. }));
    assert!(matches!(w.handle(WizardEvent::SaveSucceeded), WizardAction::MapCreated));
    assert!(!w.saving);
}

#[test]
fn wizard_back_clears_errors() {
    let mut w = WizardState::new();
    w.handle(WizardEvent::FetchSucceeded(2));
    w.handle(save("", 3, true));
    w.transit_error = Some("old".to_string());
    w.handle(WizardEvent::Back);
    assert_eq!(w.step, WizardStep::Boundary);
    assert_eq!(w.transit_error, None);
    assert_eq!(w.save_error, None);
    assert_eq!(w.selected, vec![true, true]);
}

#[test]
fn fetch_needs_polygon_and_name() {
    assert!(can_fetch_transit(3, "City"));
    assert!(!can_fetch_transit(2, "City"));
    assert!(!can_fetch_transit(3, "   "));
}

#[test]
fn step_indicator() {
    assert_eq!(step_status(1, 2), StepStatus::Done);
    assert_eq!(step_status(2, 2), StepStatus::Active);
    assert_eq!(step_status(4, 2), StepStatus::Upcoming);
    for current in 1..=4u8 {
        let active = (1..=4u8).filter(|&n| step_status(n, current) == StepStatus::Active).count();
        assert_eq!(active, 1);
    }
    assert_eq!(step_class(StepStatus::Done), "wizard-step wizard-step--done");
    assert_eq!(step_class(StepStatus::Active), "wizard-step wizard-step--active");
    assert_eq!(step_class(StepStatus::Upcoming), "wizard-step wizard-step--upcoming");
    assert_eq!(two_step_classes(WizardStep::Boundary), ("wizard-step wizard-step--active", "wizard-step wizard-step--upcoming"));
    assert_eq!(two_step_classes(WizardStep::Transit), ("wizard-step wizard-step--done", "wizard-step wizard-step--active"));
    let steps: Vec<(u8, &str)> = editor_steps().iter().map(|s| (s.num, s.label)).collect();
    assert_eq!(steps, vec![(1, "Info"), (2, "Boundary"), (3, "Transit"), (4, "Confirm")]);
}

#[test]
fn transit_page_flow() {
    let id = 0xabcu128;
    let mut t = TransitEditorState::new(id);
    t.handle(TransitEditorEvent::Loaded(2));
    assert_eq!(t.selected, vec![true, true]);
    t.selected[0] = false;
    t.handle(TransitEditorEvent::Loaded(5));
    assert_eq!(t.selected, vec![false, true]);
    assert!(matches!(t.handle(TransitEditorEvent::FetchRequested), TransitEditorAction::FetchAndStore));
    assert!(matches!(t.handle(TransitEditorEvent::FetchRequested), TransitEditorAction::Nothing));
    t.handle(TransitEditorEvent::FetchNotStored(4, "disk full".to_string()));
    assert!(!t.fetching);
    assert_eq!(t.transit_error.as_deref(), Some("Fetched 4 route(s) but could not save: disk full"));
    assert_eq!(t.selected, vec![false, true]);
    t.handle(TransitEditorEvent::FetchRequested);
    assert_eq!(t.transit_error, None);
    t.handle(TransitEditorEvent::FetchStored(3));
    assert_eq!(t.selected, vec![true, true, true]);
    t.handle(TransitEditorEvent::FetchRequested);
    t.handle(TransitEditorEvent::FetchFailed("overpass".to_string()));
    assert_eq!(t.transit_error.as_deref(), Some("overpass"));
    assert!(matches!(t.handle(TransitEditorEvent::SaveRequested), TransitEditorAction::SaveSelection));
    assert!(matches!(t.handle(TransitEditorEvent::SaveRequested), TransitEditorAction::Nothing));
    t.handle(TransitEditorEvent::SaveFailed("nope".to_string()));
    assert_eq!(t.save_error.as_deref(), Some("nope"));
    assert!(!t.saving);
    t.handle(TransitEditorEvent::SaveRequested);
    match t.handle(TransitEditorEvent::SaveSucceeded) {
        TransitEditorAction::Navigate(r) => assert_eq!(r, Route::EditMapConfirm { id }),
        _ => panic!("expected navigation"),
    }
    assert_eq!(fetch_button_label(true, true), "Fetching…");
    assert_eq!(fetch_button_label(false, true), "Re-fetch from OSM");
    assert_eq!(fetch_button_label(false, false), "Fetch Transit Routes");
}

#[test]
fn two_loads() {
    let ok_a: Option<Result<u8, String>> = Some(Ok(1));
    let ok_b: Option<Result<u8, String>> = Some(Ok(2));
    assert!(matches!(combine_loads(None::<Result<u8, String>>, ok_b.clone()), PageLoad::Loading));
    assert!(matches!(combine_loads(Some(Err::<u8, String>("a".into())), None::<Result<u8, String>>), PageLoad::Loading));
    match combine_loads(Some(Err::<u8, String>("a".into())), Some(Err::<u8, String>("b".into()))) {
        PageLoad::Failed(e) => assert_eq!(e, "a"),
        _ => panic!(),
    }
    match combine_loads(ok_a.clone(), Some(Err::<u8, String>("b".into()))) {
        PageLoad::Failed(e) => assert_eq!(e, "b"),
        _ => panic!(),
    }
    match combine_loads(ok_a, ok_b) {
        PageLoad::Ready(p) => assert_eq!(p, (1, 2)),
        _ => panic!(),
    }
}

#[test]
fn radar_picks_and_locks_in() {
    let mut r: RadarState<[i32; 2]> = RadarState::new(true);
    assert!(!r.expanded);
    r.handle(RadarEvent::ToggleClicked);
    assert!(r.expanded);
    assert!(!r.shows_lock_in());
    assert!(matches!(r.handle(RadarEvent::LockInClicked), RadarAction::Nothing));
    r.handle(RadarEvent::MapClicked([1, 2]));
    assert_eq!(r.center, None);
    assert!(matches!(r.handle(RadarEvent::PickCenterClicked), RadarAction::AwaitMapClick));
    assert!(r.picking_center);
    assert!(matches!(r.handle(RadarEvent::PickCenterClicked), RadarAction::Nothing));
    assert!(!r.picking_center);
    r.handle(RadarEvent::PickCenterClicked);
    r.handle(RadarEvent::MapClicked([5, 6]));
    assert_eq!(r.center, Some([5, 6]));
    assert!(!r.picking_center);
    assert!(r.shows_lock_in());
    r.handle(RadarEvent::AnswerChosen(true));
    match r.handle(RadarEvent::LockInClicked) {
        RadarAction::AddZone { center, exclude_outside } => {
            assert_eq!(center, [5, 6]);
            assert!(exclude_outside);
        }
        _ => panic!("expected a zone"),
    }
    assert!(r.adding);
    assert!(matches!(r.handle(RadarEvent::LockInClicked), RadarAction::Nothing));
    r.handle(RadarEvent::LockInFailed("denied".to_string()));
    assert_eq!(r.error.as_deref(), Some("denied"));
    assert!(!r.adding);
    assert_eq!(r.center, Some([5, 6]));
    r.handle(RadarEvent::LockInClicked);
    assert_eq!(r.error, None);
    assert!(matches!(r.handle(RadarEvent::LockInSucceeded), RadarAction::ZoneAdded));
    assert_eq!(r.center, None);
    assert!(r.yes);
}

#[test]
fn radar_hider_never_locks_in() {
    let mut r: RadarState<[i32; 2]> = RadarState::new(false);
    r.handle(RadarEvent::ToggleClicked);
    r.handle(RadarEvent::PickCenterClicked);
    r.handle(RadarEvent::MapClicked([5, 6]));
    assert_eq!(r.center, Some([5, 6]));
    assert!(!r.shows_lock_in());
    assert!(matches!(r.handle(RadarEvent::LockInClicked), RadarAction::Nothing));
    assert!(!r.adding);
    assert!(!r.is_seeker);
}

#[test]
fn radar_lock_in_needs_open_panel() {
    let mut r: RadarState<[i32; 2]> = RadarState::new(true);
    r.handle(RadarEvent::PickCenterClicked);
    r.handle(RadarEvent::MapClicked([1, 1]));
    assert!(!r.shows_lock_in());
    assert!(matches!(r.handle(RadarEvent::LockInClicked), RadarAction::Nothing));
    r.handle(RadarEvent::ToggleClicked);
    assert!(r.shows_lock_in());
    assert!(matches!(r.handle(RadarEvent::LockInClicked), RadarAction::AddZone { .. }));
}

#[test]
fn radar_texts_and_highlight() {
    assert_eq!(radar_label(true), "Radar: Yes");
    assert_eq!(radar_label(false), "Radar: No");
    assert_eq!(radar_impact(true), "Yes → everything outside this circle is excluded.");
    assert_eq!(radar_impact(false), "No → this circle is excluded.");
    assert_eq!(toggle_highlight(None, 3), Some(3));
    assert_eq!(toggle_highlight(Some(3), 3), None);
    assert_eq!(toggle_highlight(Some(4), 3), Some(3));
    assert_eq!(toggle_highlight(toggle_highlight(None, 9), 9), None);
    assert_eq!(highlight_button_label(true), "Unhighlight");
    assert_eq!(highlight_button_label(false), "Highlight");
    assert!(lock_in_visible(true, true));
    assert!(!lock_in_visible(false, true));
    assert!(!lock_in_visible(true, false));
}

#[test]
fn one_request_at_a_time() {
    let mut p = PendingRequest::new();
    assert!(p.begin());
    assert!(!p.begin());
    p.fail("boom".to_string());
    assert!(!p.busy);
    assert_eq!(p.error.as_deref(), Some("boom"));
    assert!(p.begin());
    assert_eq!(p.error, None);
    p.succeed();
    assert!(!p.busy);
    p.reject("Enter your name".to_string());
    assert_eq!(p.error.as_deref(), Some("Enter your name"));
    assert!(!p.busy);
}
