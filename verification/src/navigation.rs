//! Pages of the app and how a player moves between them: the order of the
//! map editor's steps, which game screen a player gets, and the not-found page.

use vstd::prelude::*;
use crate::forms::TeamRole;

verus! {

/// A page of the app; map and game pages carry the map's or game's id.
#[derive(Clone, Copy, Debug, PartialEq, Eq, Structural)]
pub enum Route {
    LandingPage,
    HostSetup,
    NewMap,
    EditMapInfo { id: u128 },
    EditMapBoundary { id: u128 },
    EditMapTransit { id: u128 },
    EditMapConfirm { id: u128 },
    GameView { game_id: u128 },
}

pub open spec fn next_route_spec(r: Route) -> Option<Route> {
    match r {
        Route::NewMap => None,
        Route::EditMapInfo { id } => Some(Route::EditMapBoundary { id }),
        Route::EditMapBoundary { id } => Some(Route::EditMapTransit { id }),
        Route::EditMapTransit { id } => Some(Route::EditMapConfirm { id }),
        Route::EditMapConfirm { .. } => Some(Route::HostSetup),
        _ => None,
    }
}

/// Where a step of the map editor leads once its changes are saved (the review
/// step, once the map is published).
pub fn next_route(r: Route) -> (n: Option<Route>)
    ensures
        n == next_route_spec(r),
{
    match r {
        Route::EditMapInfo { id } => Some(Route::EditMapBoundary { id }),
        Route::EditMapBoundary { id } => Some(Route::EditMapTransit { id }),
        Route::EditMapTransit { id } => Some(Route::EditMapConfirm { id }),
        Route::EditMapConfirm { .. } => Some(Route::HostSetup),
        _ => None,
    }
}

/// The page a new map goes to once its draft is created.
pub fn route_after_draft_created(map_id: u128) -> (r: Route)
    ensures
        r == (Route::EditMapBoundary { id: map_id }),
{
    Route::EditMapBoundary { id: map_id }
}

/// The page a host goes to once the game is created.
pub fn route_after_game_created(game_id: u128) -> (r: Route)
    ensures
        r == (Route::GameView { game_id }),
{
    Route::GameView { game_id }
}

pub open spec fn back_route_spec(r: Route) -> Option<Route> {
    match r {
        Route::EditMapBoundary { id } => Some(Route::EditMapInfo { id }),
        Route::EditMapTransit { id } => Some(Route::EditMapBoundary { id }),
        Route::EditMapConfirm { id } => Some(Route::EditMapTransit { id }),
        _ => None,
    }
}

/// Where a step's "← Back" button leads.
pub fn back_route(r: Route) -> (b: Option<Route>)
    ensures
        b == back_route_spec(r),
{
    match r {
        Route::EditMapBoundary { id } => Some(Route::EditMapInfo { id }),
        Route::EditMapTransit { id } => Some(Route::EditMapBoundary { id }),
        Route::EditMapConfirm { id } => Some(Route::EditMapTransit { id }),
        _ => None,
    }
}

/// Going on from a step and then back returns to that step.
pub proof fn back_undoes_next(r: Route)
    requires
        r is EditMapInfo || r is EditMapBoundary || r is EditMapTransit,
    ensures
        next_route_spec(r) is Some,
        back_route_spec(next_route_spec(r)->Some_0) == Some(r),
{
}

/// The game screen a player sees.
#[derive(Clone, Copy, Debug, PartialEq, Eq, Structural)]
pub enum PlayerScreen {
    Host,
    Seeker,
    Hider,
}

/// After joining: seekers get the seeker screen, everyone else the hider screen.
pub fn screen_after_join(role: TeamRole) -> (s: PlayerScreen)
    ensures
        role == TeamRole::Seeker ==> s == PlayerScreen::Seeker,
        role != TeamRole::Seeker ==> s == PlayerScreen::Hider,
{
    if role == TeamRole::Seeker {
        PlayerScreen::Seeker
    } else {
        PlayerScreen::Hider
    }
}

/// When the game starts: the host gets the host screen, then seekers and hiders
/// their own.
pub fn screen_after_start(is_host: bool, role: TeamRole) -> (s: PlayerScreen)
    ensures
        is_host ==> s == PlayerScreen::Host,
        !is_host && role == TeamRole::Seeker ==> s == PlayerScreen::Seeker,
        !is_host && role != TeamRole::Seeker ==> s == PlayerScreen::Hider,
{
    if is_host {
        PlayerScreen::Host
    } else if role == TeamRole::Seeker {
        PlayerScreen::Seeker
    } else {
        PlayerScreen::Hider
    }
}

/// The segments joined by `/`.
pub open spec fn joined_segments(segments: Seq<Seq<char>>, n: int) -> Seq<char>
    decreases n,
{
    if n <= 0 {
        Seq::empty()
    } else if n == 1 {
        segments[0]
    } else {
        joined_segments(segments, n - 1) + "/"@ + segments[n - 1]
    }
}

pub open spec fn not_found_text(segments: Seq<String>) -> Seq<char> {
    "Page not found: /"@ + joined_segments(segments.map_values(|s: String| s@), segments.len() as int)
}

/// The not-found page's message for the path segments it was given.
pub fn not_found_message(segments: &Vec<String>) -> (s: String)
    ensures
        s@ == not_found_text(segments@),
{
    let ghost views = segments@.map_values(|s: String| s@);
    let mut s = "Page not found: /".to_owned();
    let mut i: usize = 0;
    while i < segments.len()
        invariant
            i <= segments.len(),
            views == segments@.map_values(|s: String| s@),
            s@ == "Page not found: /"@ + joined_segments(views, i as int),
        decreases segments.len() - i,
    {
        if i > 0 {
            s.append("/");
        }
        s.append(segments[i].as_str());
        proof {
            assert(views[i as int] == segments@[i as int]@);
            if i == 0 {
                assert(joined_segments(views, 0) == Seq::<char>::empty());
            }
        }
        i = i + 1;
    }
    s
}

pub open spec fn banner_text(message: Option<String>) -> Option<Seq<char>> {
    match message {
        Some(m) => Some("⚠ "@ + m@),
        None => None,
    }
}

/// The text of the error banner: nothing without a message.
pub fn error_banner_text(message: &Option<String>) -> (t: Option<String>)
    ensures
        (t is Some) == (message is Some),
        t is Some ==> Some(t->Some_0@) == banner_text(*message),
{
    match message {
        Some(m) => {
            let mut t = "⚠ ".to_owned();
            t.append(m.as_str());
            Some(t)
        },
        None => None,
    }
}

pub open spec fn map_option_class_text(selected: bool) -> Seq<char> {
    if selected {
        "map-option map-option--selected"@
    } else {
        "map-option"@
    }
}

/// The style of a map in the host's list.
pub fn map_option_class(selected: bool) -> (c: &'static str)
    ensures
        c@ == map_option_class_text(selected),
{
    if selected {
        "map-option map-option--selected"
    } else {
        "map-option"
    }
}

pub open spec fn size_option_class_text(selected: bool) -> Seq<char> {
    if selected {
        "size-option size-option--selected"@
    } else {
        "size-option"@
    }
}

/// The style of a size choice.
pub fn size_option_class(selected: bool) -> (c: &'static str)
    ensures
        c@ == size_option_class_text(selected),
{
    if selected {
        "size-option size-option--selected"
    } else {
        "size-option"
    }
}

} // verus!
