//! The transit page of the map editor: fetching routes for the map's boundary
//! (stored as soon as they arrive), choosing which to keep, and saving the choice.

use vstd::prelude::*;
use crate::navigation::Route;
use crate::transit::{select_all, unsaved_fetch_message, unsaved_fetch_text};

verus! {

/// What the transit page remembers between events.
pub struct TransitEditorState {
    pub map_id: u128,
    pub initialized: bool,
    pub fetching: bool,
    pub transit_error: Option<String>,
    pub saving: bool,
    pub save_error: Option<String>,
    pub selected: Vec<bool>,
}

/// What happens on the transit page.
pub enum TransitEditorEvent {
    /// The map's stored routes were loaded; there are this many.
    Loaded(usize),
    /// "Fetch Transit Routes" / "Re-fetch from OSM".
    FetchRequested,
    /// Routes were fetched and stored; there are this many.
    FetchStored(usize),
    /// This many routes were fetched but storing them failed with this message.
    FetchNotStored(usize, String),
    FetchFailed(String),
    /// "Next: Confirm".
    SaveRequested,
    SaveSucceeded,
    SaveFailed(String),
}

/// What the page asks to be done.
pub enum TransitEditorAction {
    Nothing,
    /// Fetch routes for the boundary and store them.
    FetchAndStore,
    /// Store the selected routes.
    SaveSelection,
    Navigate(Route),
}

impl TransitEditorState {
    /// The page before anything is loaded.
    pub fn new(map_id: u128) -> (s: Self)
        ensures
            s.map_id == map_id,
            !s.initialized && !s.fetching && !s.saving,
            s.transit_error is None && s.save_error is None,
            s.selected@.len() == 0,
    {
        TransitEditorState {
            map_id,
            initialized: false,
            fetching: false,
            transit_error: None,
            saving: false,
            save_error: None,
            selected: Vec::new(),
        }
    }

    /// Takes one event and says what to do next.
    pub fn handle(&mut self, event: TransitEditorEvent) -> (action: TransitEditorAction)
        ensures
            match event {
                TransitEditorEvent::Loaded(n) => if old(self).initialized {
                    action is Nothing && *final(self) == *old(self)
                } else {
                    &&& action is Nothing
                    &&& final(self).initialized
                    &&& final(self).selected@.len() == n
                    &&& forall|i: int| 0 <= i < n ==> final(self).selected@[i]
                    &&& *final(self) == (TransitEditorState { initialized: true, selected: final(self).selected, ..*old(self) })
                },
                TransitEditorEvent::FetchRequested => if old(self).fetching {
                    action is Nothing && *final(self) == *old(self)
                } else {
                    action is FetchAndStore && *final(self) == (TransitEditorState { fetching: true, transit_error: None, ..*old(self) })
                },
                TransitEditorEvent::FetchStored(n) => {
                    &&& action is Nothing
                    &&& final(self).selected@.len() == n
                    &&& forall|i: int| 0 <= i < n ==> final(self).selected@[i]
                    &&& *final(self) == (TransitEditorState { fetching: false, selected: final(self).selected, ..*old(self) })
                },
                TransitEditorEvent::FetchNotStored(n, err) => {
                    &&& action is Nothing
                    &&& final(self).transit_error is Some
                    &&& final(self).transit_error->Some_0@ == unsaved_fetch_text(n as nat, err@)
                    &&& *final(self) == (TransitEditorState { fetching: false, transit_error: final(self).transit_error, ..*old(self) })
                },
                TransitEditorEvent::FetchFailed(err) => {
                    &&& action is Nothing
                    &&& *final(self) == (TransitEditorState { fetching: false, transit_error: Some(err), ..*old(self) })
                },
                TransitEditorEvent::SaveRequested => if old(self).saving {
                    action is Nothing && *final(self) == *old(self)
                } else {
                    action is SaveSelection && *final(self) == (TransitEditorState { saving: true, save_error: None, ..*old(self) })
                },
                TransitEditorEvent::SaveSucceeded => {
                    &&& action == TransitEditorAction::Navigate(Route::EditMapConfirm { id: old(self).map_id })
                    &&& *final(self) == *old(self)
                },
                TransitEditorEvent::SaveFailed(err) => {
                    &&& action is Nothing
                    &&& *final(self) == (TransitEditorState { saving: false, save_error: Some(err), ..*old(self) })
                },
            },
    {
        match event {
            TransitEditorEvent::Loaded(n) => {
                if !self.initialized {
                    self.selected = select_all(n);
                    self.initialized = true;
                }
                TransitEditorAction::Nothing
            },
            TransitEditorEvent::FetchRequested => {
                if self.fetching {
                    TransitEditorAction::Nothing
                } else {
                    self.fetching = true;
                    self.transit_error = None;
                    TransitEditorAction::FetchAndStore
                }
            },
            TransitEditorEvent::FetchStored(n) => {
                self.selected = select_all(n);
                self.fetching = false;
                TransitEditorAction::Nothing
            },
            TransitEditorEvent::FetchNotStored(n, err) => {
                self.fetching = false;
                self.transit_error = Some(unsaved_fetch_message(n, err.as_str()));
                TransitEditorAction::Nothing
            },
            TransitEditorEvent::FetchFailed(err) => {
                self.fetching = false;
                self.transit_error = Some(err);
                TransitEditorAction::Nothing
            },
            TransitEditorEvent::SaveRequested => {
                if self.saving {
                    TransitEditorAction::Nothing
                } else {
                    self.saving = true;
                    self.save_error = None;
                    TransitEditorAction::SaveSelection
                }
            },
            TransitEditorEvent::SaveSucceeded => {
                TransitEditorAction::Navigate(Route::EditMapConfirm { id: self.map_id })
            },
            TransitEditorEvent::SaveFailed(err) => {
                self.saving = false;
                self.save_error = Some(err);
                TransitEditorAction::Nothing
            },
        }
    }
}

pub open spec fn fetch_button_text(fetching: bool, has_routes: bool) -> Seq<char> {
    if fetching {
        "Fetching…"@
    } else if has_routes {
        "Re-fetch from OSM"@
    } else {
        "Fetch Transit Routes"@
    }
}

/// The caption of the fetch button.
pub fn fetch_button_label(fetching: bool, has_routes: bool) -> (s: &'static str)
    ensures
        s@ == fetch_button_text(fetching, has_routes),
{
    if fetching {
        "Fetching…"
    } else if has_routes {
        "Re-fetch from OSM"
    } else {
        "Fetch Transit Routes"
    }
}

/// A page that shows data it loads: still loading, failed, or ready.
pub enum PageLoad<T, E> {
    Loading,
    Failed(E),
    Ready(T),
}

/// A page that needs two loads: loading while either is pending, then the first
/// failure (the map's before the routes'), else both results.
pub fn combine_loads<A, B, E>(a: Option<Result<A, E>>, b: Option<Result<B, E>>) -> (p: PageLoad<(A, B), E>)
    ensures
        a is None || b is None ==> p is Loading,
        a is Some && b is Some && a->Some_0 is Err ==> p == PageLoad::<(A, B), E>::Failed(a->Some_0->Err_0),
        a is Some && b is Some && a->Some_0 is Ok && b->Some_0 is Err ==> p == PageLoad::<(A, B), E>::Failed(b->Some_0->Err_0),
        a is Some && b is Some && a->Some_0 is Ok && b->Some_0 is Ok ==> p == PageLoad::<(A, B), E>::Ready((a->Some_0->Ok_0, b->Some_0->Ok_0)),
{
    match (a, b) {
        (Some(ra), Some(rb)) => match ra {
            Err(e) => PageLoad::Failed(e),
            Ok(x) => match rb {
                Err(e) => PageLoad::Failed(e),
                Ok(y) => PageLoad::Ready((x, y)),
            },
        },
        _ => PageLoad::Loading,
    }
}

} // verus!
