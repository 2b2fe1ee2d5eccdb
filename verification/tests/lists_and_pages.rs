use hideseek::boundary::{
    apply_boundary_event, boundary_step_hint, AutoFit, editor_hint, is_polygon_ready, remove_waypoint, wizard_hint,
    BoundaryEvent,
};
use hideseek::cards::{add_drawn_cards, card_type_class, card_type_label, hand_heading, Card, CardType, DrawnCard};
use hideseek::forms::TeamRole;
use hideseek::ids::remove_with_id;
use hideseek::navigation::{
    back_route, error_banner_text, map_option_class, next_route, not_found_message, route_after_draft_created,
    route_after_game_created, screen_after_join, screen_after_start, size_option_class, PlayerScreen, Route,
};
use hideseek::zones::{zone_layer, zone_tag, Zone, ZoneLayer};

fn zone(id: u128) -> Zone<(f64, f64, f64)> {
    Zone { id, label: None, exclude_outside: false, area: (51.5, -0.12, 500.0) }
}

fn card(id: u128, t: CardType) -> DrawnCard {
    DrawnCard { id, card: Card { name: format!("card {id}"), effect: "effect".into(), flavor_text: None, card_type: t } }
}

#[test]
fn removing_a_zone_keeps_the_others_in_order() {
    let zones = vec![zone(1), zone(2), zone(3), zone(2)];
    let kept = remove_with_id(zones, 2);
    assert_eq!(kept.iter().map(|z| z.id).collect::<Vec<_>>(), vec![1, 3]);
    let kept = remove_with_id(kept, 99);
    assert_eq!(kept.iter().map(|z| z.id).collect::<Vec<_>>(), vec![1, 3]);
    let mut zones = vec![zone(1), zone(3)];
    zones.push(zone(4));
    let kept = remove_with_id(zones, 4);
    assert_eq!(kept.iter().map(|z| z.id).collect::<Vec<_>>(), vec![1, 3]);
}

#[test]
fn hand_of_cards() {
    let mut hand = vec![card(1, CardType::Bonus)];
    add_drawn_cards(&mut hand, vec![card(2, CardType::Curse), card(3, CardType::Bonus)]);
    assert_eq!(hand.iter().map(|c| c.id).collect::<Vec<_>>(), vec![1, 2, 3]);
    let hand = remove_with_id(hand, 2);
    assert_eq!(hand.iter().map(|c| c.id).collect::<Vec<_>>(), vec![1, 3]);
    assert_eq!(hand_heading(hand.len()), "Your Hand (2 cards)");
    assert_eq!(hand_heading(0), "Your Hand (0 cards)");
    assert_eq!(card_type_class(CardType::Bonus), "card--bonus");
    assert_eq!(card_type_class(CardType::Curse), "card--curse");
    assert_eq!(card_type_label(CardType::Bonus), "Bonus");
    assert_eq!(card_type_label(CardType::Curse), "Curse");
}

#[test]
fn zone_layers() {
    assert_eq!(zone_layer(false, true), ZoneLayer::Skipped);
    assert_eq!(zone_layer(true, true), ZoneLayer::OutsideRing);
    assert_eq!(zone_layer(true, false), ZoneLayer::Disc);
    assert_eq!(zone_tag(true), " · inside only");
    assert_eq!(zone_tag(false), "");
}

#[test]
fn boundary_editing() {
    let mut b: Vec<(i32, i32)> = Vec::new();
    apply_boundary_event(&mut b, BoundaryEvent::Click((1, 1)), false);
    apply_boundary_event(&mut b, BoundaryEvent::Click((2, 2)), false);
    apply_boundary_event(&mut b, BoundaryEvent::Click((3, 3)), false);
    assert_eq!(b, vec![(1, 1), (2, 2), (3, 3)]);
    apply_boundary_event(&mut b, BoundaryEvent::Drag(1, (9, 9)), false);
    assert_eq!(b, vec![(1, 1), (9, 9), (3, 3)]);
    apply_boundary_event(&mut b, BoundaryEvent::Drag(7, (0, 0)), false);
    apply_boundary_event(&mut b, BoundaryEvent::Other, false);
    assert_eq!(b, vec![(1, 1), (9, 9), (3, 3)]);
    apply_boundary_event(&mut b, BoundaryEvent::Click((4, 4)), true);
    apply_boundary_event(&mut b, BoundaryEvent::Drag(0, (5, 5)), true);
    assert_eq!(b, vec![(1, 1), (9, 9), (3, 3)]);
    remove_waypoint(&mut b, 0);
    assert_eq!(b, vec![(9, 9), (3, 3)]);
    assert!(!is_polygon_ready(b.len()));
    assert!(is_polygon_ready(3));
}

#[test]
fn boundary_hints() {
    assert_eq!(editor_hint(0), "Click on the map to place boundary waypoints. At least 3 required.");
    assert_eq!(editor_hint(2), "2 waypoint(s) placed — need at least 3");
    assert_eq!(editor_hint(3), "3 waypoint(s) placed — polygon ready");
    assert_eq!(wizard_hint(0), "Click on the map to place boundary waypoints");
    assert_eq!(wizard_hint(1), "1 waypoint(s) — need at least 3");
    assert_eq!(wizard_hint(12), "12 waypoint(s) placed — polygon ready");
    assert_eq!(boundary_step_hint(0), "No points yet.");
    assert_eq!(boundary_step_hint(2), "2 waypoint(s) — need at least 3");
    assert_eq!(boundary_step_hint(105), "105 waypoint(s) — polygon ready ✓");
}

#[test]
fn editor_navigation() {
    let id = 5;
    assert_eq!(next_route(Route::EditMapInfo { id }), Some(Route::EditMapBoundary { id }));
    assert_eq!(next_route(Route::EditMapBoundary { id }), Some(Route::EditMapTransit { id }));
    assert_eq!(next_route(Route::EditMapTransit { id }), Some(Route::EditMapConfirm { id }));
    assert_eq!(next_route(Route::EditMapConfirm { id }), Some(Route::HostSetup));
    assert_eq!(next_route(Route::LandingPage), None);
    assert_eq!(back_route(Route::EditMapBoundary { id }), Some(Route::EditMapInfo { id }));
    assert_eq!(back_route(Route::EditMapTransit { id }), Some(Route::EditMapBoundary { id }));
    assert_eq!(back_route(Route::EditMapConfirm { id }), Some(Route::EditMapTransit { id }));
    assert_eq!(back_route(Route::EditMapInfo { id }), None);
    for r in [Route::EditMapInfo { id }, Route::EditMapBoundary { id }, Route::EditMapTransit { id }] {
        assert_eq!(back_route(next_route(r).unwrap()), Some(r));
    }
    assert_eq!(route_after_draft_created(8), Route::EditMapBoundary { id: 8 });
    assert_eq!(route_after_game_created(8), Route::GameView { game_id: 8 });
}

#[test]
fn player_screens() {
    assert_eq!(screen_after_join(TeamRole::Seeker), PlayerScreen::Seeker);
    assert_eq!(screen_after_join(TeamRole::Hider), PlayerScreen::Hider);
    assert_eq!(screen_after_start(true, TeamRole::Seeker), PlayerScreen::Host);
    assert_eq!(screen_after_start(false, TeamRole::Seeker), PlayerScreen::Seeker);
    assert_eq!(screen_after_start(false, TeamRole::Hider), PlayerScreen::Hider);
}

#[test]
fn page_texts() {
    assert_eq!(not_found_message(&vec![]), "Page not found: /");
    assert_eq!(not_found_message(&vec!["maps".into(), "x".into(), "edit".into()]), "Page not found: /maps/x/edit");
    assert_eq!(error_banner_text(&None), None);
    assert_eq!(error_banner_text(&Some("Oops".into())), Some("⚠ Oops".to_string()));
    assert_eq!(map_option_class(true), "map-option map-option--selected");
    assert_eq!(map_option_class(false), "map-option");
    assert_eq!(size_option_class(true), "size-option size-option--selected");
    assert_eq!(size_option_class(false), "size-option");
}

#[test]
fn auto_fit_on_first_non_empty_draw_only() {
    let mut f = AutoFit::new(true);
    assert!(!f.on_draw(0));
    assert!(f.on_draw(1));
    assert!(!f.on_draw(1));
    assert!(!f.on_draw(5));
    let mut off = AutoFit::new(false);
    assert!(!off.on_draw(3));
    assert!(!off.on_draw(4));
}
