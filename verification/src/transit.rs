//! Transit routes of a map: their kinds, labels and colours, the order in which
//! the kinds are listed, and which fetched routes the map author keeps.

use vstd::prelude::*;
use crate::text::{decimal, decimal_text};

verus! {

/// The kind of vehicle that serves a transit route.
#[derive(Clone, Copy, Debug, PartialEq, Eq, Structural)]
pub enum TransitRouteType {
    Bus,
    Tram,
    Subway,
    Train,
    Ferry,
    LightRail,
    Monorail,
    Trolleybus,
    Funicular,
}

pub open spec fn route_type_label_text(rt: TransitRouteType) -> Seq<char> {
    match rt {
        TransitRouteType::Bus => "Bus"@,
        TransitRouteType::Tram => "Tram"@,
        TransitRouteType::Subway => "Subway"@,
        TransitRouteType::Train => "Train"@,
        TransitRouteType::Ferry => "Ferry"@,
        TransitRouteType::LightRail => "Light Rail"@,
        TransitRouteType::Monorail => "Monorail"@,
        TransitRouteType::Trolleybus => "Trolleybus"@,
        TransitRouteType::Funicular => "Funicular"@,
    }
}

pub open spec fn route_type_color_text(rt: TransitRouteType) -> Seq<char> {
    match rt {
        TransitRouteType::Bus => "#1a73e8"@,
        TransitRouteType::Tram => "#e8a81a"@,
        TransitRouteType::Subway => "#dc3545"@,
        TransitRouteType::Train => "#198754"@,
        TransitRouteType::Ferry => "#0dcaf0"@,
        TransitRouteType::LightRail => "#6f42c1"@,
        TransitRouteType::Monorail => "#fd7e14"@,
        TransitRouteType::Trolleybus => "#20c997"@,
        TransitRouteType::Funicular => "#d63384"@,
    }
}

/// The name shown for a kind of route.
pub fn route_type_label(rt: TransitRouteType) -> (s: &'static str)
    ensures
        s@ == route_type_label_text(rt),
{
    match rt {
        TransitRouteType::Bus => "Bus",
        TransitRouteType::Tram => "Tram",
        TransitRouteType::Subway => "Subway",
        TransitRouteType::Train => "Train",
        TransitRouteType::Ferry => "Ferry",
        TransitRouteType::LightRail => "Light Rail",
        TransitRouteType::Monorail => "Monorail",
        TransitRouteType::Trolleybus => "Trolleybus",
        TransitRouteType::Funicular => "Funicular",
    }
}

/// The default colour of a kind of route, used when the route has none of its own.
pub fn route_type_color(rt: TransitRouteType) -> (s: &'static str)
    ensures
        s@ == route_type_color_text(rt),
{
    match rt {
        TransitRouteType::Bus => "#1a73e8",
        TransitRouteType::Tram => "#e8a81a",
        TransitRouteType::Subway => "#dc3545",
        TransitRouteType::Train => "#198754",
        TransitRouteType::Ferry => "#0dcaf0",
        TransitRouteType::LightRail => "#6f42c1",
        TransitRouteType::Monorail => "#fd7e14",
        TransitRouteType::Trolleybus => "#20c997",
        TransitRouteType::Funicular => "#d63384",
    }
}

/// The order in which the kinds of route are listed: rail first, then road,
/// then water and cable.
pub open spec fn mode_order_spec() -> Seq<TransitRouteType> {
    seq![
        TransitRouteType::Train,
        TransitRouteType::Subway,
        TransitRouteType::Tram,
        TransitRouteType::LightRail,
        TransitRouteType::Monorail,
        TransitRouteType::Trolleybus,
        TransitRouteType::Bus,
        TransitRouteType::Ferry,
        TransitRouteType::Funicular,
    ]
}

/// The kinds of route in listing order.
pub fn mode_order() -> (v: Vec<TransitRouteType>)
    ensures
        v@ == mode_order_spec(),
{
    let mut v = Vec::new();
    v.push(TransitRouteType::Train);
    v.push(TransitRouteType::Subway);
    v.push(TransitRouteType::Tram);
    v.push(TransitRouteType::LightRail);
    v.push(TransitRouteType::Monorail);
    v.push(TransitRouteType::Trolleybus);
    v.push(TransitRouteType::Bus);
    v.push(TransitRouteType::Ferry);
    v.push(TransitRouteType::Funicular);
    assert(v@ =~= mode_order_spec());
    v
}

/// Every kind of route is listed, exactly once.
pub proof fn mode_order_lists_each_kind_once(rt: TransitRouteType)
    ensures
        mode_order_spec().contains(rt),
        mode_order_spec().no_duplicates(),
{
    let s = mode_order_spec();
    let k: int = match rt {
        TransitRouteType::Train => 0,
        TransitRouteType::Subway => 1,
        TransitRouteType::Tram => 2,
        TransitRouteType::LightRail => 3,
        TransitRouteType::Monorail => 4,
        TransitRouteType::Trolleybus => 5,
        TransitRouteType::Bus => 6,
        TransitRouteType::Ferry => 7,
        TransitRouteType::Funicular => 8,
    };
    assert(s[k] == rt);
    assert forall|i: int, j: int| 0 <= i < s.len() && 0 <= j < s.len() && i != j implies s[i]
        != s[j] by {}
}

/// What the map editor reads of a transit route: its names, kind, own colour
/// and number of stops.
#[derive(Clone, Debug, PartialEq)]
pub struct TransitRoute {
    pub name: String,
    pub long_name: Option<String>,
    pub route_type: TransitRouteType,
    pub color: Option<String>,
    pub stop_count: usize,
}

pub open spec fn effective_color_text(route: TransitRoute) -> Seq<char> {
    match route.color {
        Some(c) => c@,
        None => route_type_color_text(route.route_type),
    }
}

/// The colour a route is drawn in: its own, else the default of its kind.
pub fn effective_color(route: &TransitRoute) -> (s: String)
    ensures
        s@ == effective_color_text(*route),
{
    match &route.color {
        Some(c) => c.clone(),
        None => route_type_color(route.route_type).to_owned(),
    }
}

/// Indices, in order, of the routes among the first `n` whose kind is `m`.
pub open spec fn indices_of_mode(routes: Seq<TransitRoute>, m: TransitRouteType, n: int) -> Seq<usize>
    decreases n,
{
    if n <= 0 {
        Seq::empty()
    } else {
        let r = indices_of_mode(routes, m, n - 1);
        if routes[n - 1].route_type == m {
            r.push((n - 1) as usize)
        } else {
            r
        }
    }
}

/// The groups shown for the first `k` kinds of the listing order: each kind that
/// has routes, with the indices of its routes.
pub open spec fn groups_upto(routes: Seq<TransitRoute>, k: int) -> Seq<(TransitRouteType, Seq<usize>)>
    decreases k,
{
    if k <= 0 {
        Seq::empty()
    } else {
        let g = groups_upto(routes, k - 1);
        let m = mode_order_spec()[k - 1];
        let idx = indices_of_mode(routes, m, routes.len() as int);
        if idx.len() > 0 {
            g.push((m, idx))
        } else {
            g
        }
    }
}

/// The groups of the route list: kinds in listing order, empty kinds left out.
pub open spec fn mode_groups_spec(routes: Seq<TransitRoute>) -> Seq<(TransitRouteType, Seq<usize>)> {
    groups_upto(routes, 9)
}

/// One kind of route and the positions of its routes in the fetched list.
pub struct ModeGroup {
    pub mode: TransitRouteType,
    pub indices: Vec<usize>,
}

/// Positions of the routes of kind `m`, in order.
pub fn indices_of(routes: &Vec<TransitRoute>, m: TransitRouteType) -> (v: Vec<usize>)
    ensures
        v@ == indices_of_mode(routes@, m, routes.len() as int),
{
    let mut v: Vec<usize> = Vec::new();
    let mut i: usize = 0;
    while i < routes.len()
        invariant
            i <= routes.len(),
            v@ == indices_of_mode(routes@, m, i as int),
        decreases routes.len() - i,
    {
        if routes[i].route_type == m {
            v.push(i);
        }
        i = i + 1;
    }
    v
}

/// The route list grouped by kind, in listing order, leaving out kinds with no route.
pub fn mode_groups(routes: &Vec<TransitRoute>) -> (groups: Vec<ModeGroup>)
    ensures
        groups.len() == mode_groups_spec(routes@).len(),
        forall|k: int|
            0 <= k < groups.len() ==> (#[trigger] groups@[k]).mode == mode_groups_spec(routes@)[k].0
                && groups@[k].indices@ == mode_groups_spec(routes@)[k].1,
{
    let modes = mode_order();
    let mut groups: Vec<ModeGroup> = Vec::new();
    let mut k: usize = 0;
    while k < modes.len()
        invariant
            modes@ == mode_order_spec(),
            k <= modes.len(),
            groups.len() == groups_upto(routes@, k as int).len(),
            forall|j: int|
                0 <= j < groups.len() ==> (#[trigger] groups@[j]).mode == groups_upto(routes@, k as int)[j].0
                    && groups@[j].indices@ == groups_upto(routes@, k as int)[j].1,
        decreases modes.len() - k,
    {
        let m = modes[k];
        let idx = indices_of(routes, m);
        if idx.len() > 0 {
            groups.push(ModeGroup { mode: m, indices: idx });
        }
        k = k + 1;
    }
    groups
}

proof fn lemma_indices_of_mode(routes: Seq<TransitRoute>, m: TransitRouteType, n: int)
    requires
        0 <= n <= routes.len(),
        routes.len() <= usize::MAX,
    ensures
        forall|j: int|
            0 <= j < indices_of_mode(routes, m, n).len() ==> {
                let i = #[trigger] indices_of_mode(routes, m, n)[j];
                &&& 0 <= i < n
                &&& routes[i as int].route_type == m
            },
        forall|i: int|
            0 <= i < n && routes[i].route_type == m ==> indices_of_mode(routes, m, n).contains(
                i as usize,
            ),
    decreases n,
{
    if n > 0 {
        lemma_indices_of_mode(routes, m, n - 1);
        let r = indices_of_mode(routes, m, n - 1);
        if routes[n - 1].route_type == m {
            assert(indices_of_mode(routes, m, n) == r.push((n - 1) as usize));
            assert forall|i: int| 0 <= i < n && routes[i].route_type == m implies indices_of_mode(
                routes,
                m,
                n,
            ).contains(i as usize) by {
                if i < n - 1 {
                    let j = choose|j: int| 0 <= j < r.len() && r[j] == i as usize;
                    assert(indices_of_mode(routes, m, n)[j] == i as usize);
                } else {
                    assert(indices_of_mode(routes, m, n)[r.len() as int] == i as usize);
                }
            }
        }
    }
}

proof fn lemma_groups_upto(routes: Seq<TransitRoute>, k: int)
    requires
        0 <= k <= 9,
        routes.len() <= usize::MAX,
    ensures
        forall|j: int|
            0 <= j < groups_upto(routes, k).len() ==> {
                let g = #[trigger] groups_upto(routes, k)[j];
                &&& g.1 == indices_of_mode(routes, g.0, routes.len() as int)
                &&& exists|p: int| 0 <= p < k && mode_order_spec()[p] == g.0
            },
        forall|m: TransitRouteType|
            (exists|p: int| 0 <= p < k && mode_order_spec()[p] == m)
                && indices_of_mode(routes, m, routes.len() as int).len() > 0 ==> exists|j: int|
                0 <= j < groups_upto(routes, k).len() && (#[trigger] groups_upto(routes, k)[j]).0
                    == m,
        forall|a: int, b: int|
            0 <= a < b < groups_upto(routes, k).len() ==> (#[trigger] groups_upto(routes, k)[a]).0
                != (#[trigger] groups_upto(routes, k)[b]).0,
    decreases k,
{
    if k > 0 {
        lemma_groups_upto(routes, k - 1);
        mode_order_lists_each_kind_once(TransitRouteType::Bus);
        let g = groups_upto(routes, k - 1);
        let m = mode_order_spec()[k - 1];
        let idx = indices_of_mode(routes, m, routes.len() as int);
        if idx.len() > 0 {
            assert(groups_upto(routes, k) == g.push((m, idx)));
            assert forall|a: int, b: int|
                0 <= a < b < groups_upto(routes, k).len() implies (#[trigger] groups_upto(
                routes,
                k,
            )[a]).0 != (#[trigger] groups_upto(routes, k)[b]).0 by {
                if b == g.len() {
                    let p = choose|p: int| 0 <= p < k - 1 && mode_order_spec()[p] == g[a].0;
                    assert(mode_order_spec()[p] != mode_order_spec()[k - 1]);
                }
            }
            assert forall|m2: TransitRouteType|
                (exists|p: int| 0 <= p < k && mode_order_spec()[p] == m2)
                    && indices_of_mode(routes, m2, routes.len() as int).len() > 0 implies exists|j: int|
                0 <= j < groups_upto(routes, k).len() && (#[trigger] groups_upto(routes, k)[j]).0
                    == m2 by {
                if m2 == m {
                    assert(groups_upto(routes, k)[g.len() as int].0 == m2);
                } else {
                    let p = choose|p: int| 0 <= p < k && mode_order_spec()[p] == m2;
                    assert(p != k - 1);
                    let j = choose|j: int| 0 <= j < g.len() && (#[trigger] g[j]).0 == m2;
                    assert(groups_upto(routes, k)[j].0 == m2);
                }
            }
            assert forall|j: int| 0 <= j < groups_upto(routes, k).len() implies {
                let gg = #[trigger] groups_upto(routes, k)[j];
                &&& gg.1 == indices_of_mode(routes, gg.0, routes.len() as int)
                &&& exists|p: int| 0 <= p < k && mode_order_spec()[p] == gg.0
            } by {
                if j < g.len() {
                    let p = choose|p: int| 0 <= p < k - 1 && mode_order_spec()[p] == g[j].0;
                    assert(mode_order_spec()[p] == groups_upto(routes, k)[j].0);
                } else {
                    assert(mode_order_spec()[k - 1] == groups_upto(routes, k)[j].0);
                }
            }
        } else {
            assert forall|m2: TransitRouteType|
                (exists|p: int| 0 <= p < k && mode_order_spec()[p] == m2)
                    && indices_of_mode(routes, m2, routes.len() as int).len() > 0 implies exists|j: int|
                0 <= j < groups_upto(routes, k).len() && (#[trigger] groups_upto(routes, k)[j]).0
                    == m2 by {
                let p = choose|p: int| 0 <= p < k && mode_order_spec()[p] == m2;
                assert(p != k - 1);
                assert(groups_upto(routes, k) == g);
                assert(0 <= p < k - 1 && mode_order_spec()[p] == m2);
                let j = choose|j: int| 0 <= j < g.len() && (#[trigger] g[j]).0 == m2;
                assert(groups_upto(routes, k)[j].0 == m2);
            }
            assert forall|j: int| 0 <= j < groups_upto(routes, k).len() implies {
                let gg = #[trigger] groups_upto(routes, k)[j];
                &&& gg.1 == indices_of_mode(routes, gg.0, routes.len() as int)
                &&& exists|p: int| 0 <= p < k && mode_order_spec()[p] == gg.0
            } by {
                let p = choose|p: int| 0 <= p < k - 1 && mode_order_spec()[p] == g[j].0;
            }
        }
    }
}

/// Grouping by kind lists every route exactly once: each group holds only routes
/// of its kind, no kind has two groups, and every route is in the group of its kind.
pub proof fn mode_groups_partition_routes(routes: Seq<TransitRoute>)
    requires
        routes.len() <= usize::MAX,
    ensures
        forall|a: int, b: int|
            0 <= a < b < mode_groups_spec(routes).len() ==> (#[trigger] mode_groups_spec(routes)[a]).0
                != (#[trigger] mode_groups_spec(routes)[b]).0,
        forall|k: int, j: int|
            0 <= k < mode_groups_spec(routes).len() && 0 <= j < mode_groups_spec(routes)[k].1.len()
                ==> {
                let i = #[trigger] mode_groups_spec(routes)[k].1[j];
                &&& 0 <= i < routes.len()
                &&& routes[i as int].route_type == mode_groups_spec(routes)[k].0
            },
        forall|i: int|
            #![trigger routes[i]]
            0 <= i < routes.len() ==> exists|k: int|
                0 <= k < mode_groups_spec(routes).len() && (#[trigger] mode_groups_spec(routes)[k]).0
                    == routes[i].route_type && mode_groups_spec(routes)[k].1.contains(i as usize),
{
    lemma_groups_upto(routes, 9);
    let gs = mode_groups_spec(routes);
    assert forall|k: int, j: int|
        0 <= k < gs.len() && 0 <= j < gs[k].1.len() implies {
        let i = #[trigger] gs[k].1[j];
        &&& 0 <= i < routes.len()
        &&& routes[i as int].route_type == gs[k].0
    } by {
        lemma_indices_of_mode(routes, gs[k].0, routes.len() as int);
        assert(gs[k].1[j] == indices_of_mode(routes, gs[k].0, routes.len() as int)[j]);
    }
    assert forall|i: int| #![trigger routes[i]] 0 <= i < routes.len() implies exists|k: int|
        0 <= k < gs.len() && (#[trigger] gs[k]).0 == routes[i].route_type && gs[k].1.contains(
            i as usize,
        ) by {
        let m = routes[i].route_type;
        lemma_indices_of_mode(routes, m, routes.len() as int);
        mode_order_lists_each_kind_once(m);
        let p = choose|p: int| 0 <= p < 9 && mode_order_spec()[p] == m;
        assert(indices_of_mode(routes, m, routes.len() as int).contains(i as usize));
        assert(indices_of_mode(routes, m, routes.len() as int).len() > 0);
        let k = choose|k: int| 0 <= k < gs.len() && (#[trigger] gs[k]).0 == m;
        assert(gs[k].1 == indices_of_mode(routes, m, routes.len() as int));
    }
}

/// Number of selected routes among the first `n` flags.
pub open spec fn count_selected_upto(sel: Seq<bool>, n: int) -> nat
    decreases n,
{
    if n <= 0 {
        0
    } else {
        count_selected_upto(sel, n - 1) + if sel[n - 1] { 1nat } else { 0nat }
    }
}

/// Number of selected routes.
pub open spec fn count_selected_spec(sel: Seq<bool>) -> nat {
    count_selected_upto(sel, sel.len() as int)
}

proof fn lemma_count_selected_bound(sel: Seq<bool>, n: int)
    requires
        0 <= n <= sel.len(),
    ensures
        count_selected_upto(sel, n) <= n,
    decreases n,
{
    if n > 0 {
        lemma_count_selected_bound(sel, n - 1);
    }
}

/// How many routes are selected.
pub fn count_selected(sel: &Vec<bool>) -> (n: usize)
    ensures
        n == count_selected_spec(sel@),
{
    let mut n: usize = 0;
    let mut i: usize = 0;
    while i < sel.len()
        invariant
            i <= sel.len(),
            n == count_selected_upto(sel@, i as int),
        decreases sel.len() - i,
    {
        proof {
            lemma_count_selected_bound(sel@, i as int);
        }
        if sel[i] {
            n = n + 1;
        }
        i = i + 1;
    }
    n
}

/// A fresh selection of `n` routes: all of them selected.
pub fn select_all(n: usize) -> (sel: Vec<bool>)
    ensures
        sel.len() == n,
        forall|i: int| 0 <= i < n ==> sel@[i],
{
    let mut sel: Vec<bool> = Vec::new();
    let mut i: usize = 0;
    while i < n
        invariant
            i <= n,
            sel.len() == i,
            forall|j: int| 0 <= j < i ==> sel@[j],
        decreases n - i,
    {
        sel.push(true);
        i = i + 1;
    }
    sel
}

/// Whether route `i` counts as selected: its flag, or selected when it has none.
pub open spec fn selected_or_default(sel: Seq<bool>, i: int) -> bool {
    if 0 <= i < sel.len() {
        sel[i]
    } else {
        true
    }
}

/// Whether route `i` is shown ticked.
pub fn is_selected(sel: &Vec<bool>, i: usize) -> (b: bool)
    ensures
        b == selected_or_default(sel@, i as int),
{
    if i < sel.len() {
        sel[i]
    } else {
        true
    }
}

/// Whether the box of a group is ticked: some route of the group is selected.
pub fn any_selected(sel: &Vec<bool>, indices: &Vec<usize>) -> (b: bool)
    ensures
        b == exists|j: int| 0 <= j < indices.len() && selected_or_default(sel@, #[trigger] indices@[j] as int),
{
    let mut j: usize = 0;
    while j < indices.len()
        invariant
            j <= indices.len(),
            forall|k: int| 0 <= k < j ==> !selected_or_default(sel@, #[trigger] indices@[k] as int),
        decreases indices.len() - j,
    {
        if is_selected(sel, indices[j]) {
            return true;
        }
        j = j + 1;
    }
    false
}

/// Ticks or unticks one route; a position past the list changes nothing.
pub fn set_selected(sel: &mut Vec<bool>, i: usize, checked: bool)
    ensures
        final(sel)@ == if i < old(sel).len() { old(sel)@.update(i as int, checked) } else { old(sel)@ },
{
    if i < sel.len() {
        sel.set(i, checked);
    }
}

/// Ticks or unticks every route of a group; positions past the list are skipped.
pub fn set_group_selected(sel: &mut Vec<bool>, indices: &Vec<usize>, checked: bool)
    ensures
        final(sel).len() == old(sel).len(),
        forall|k: int|
            0 <= k < old(sel).len() ==> final(sel)@[k] == if indices@.contains(k as usize) {
                checked
            } else {
                old(sel)@[k]
            },
{
    let mut j: usize = 0;
    while j < indices.len()
        invariant
            j <= indices.len(),
            sel.len() == old(sel).len(),
            forall|k: int|
                0 <= k < old(sel).len() ==> sel@[k] == if indices@.subrange(0, j as int).contains(
                    k as usize,
                ) {
                    checked
                } else {
                    old(sel)@[k]
                },
        decreases indices.len() - j,
    {
        set_selected(sel, indices[j], checked);
        proof {
            let before = indices@.subrange(0, j as int);
            let after = indices@.subrange(0, j + 1);
            assert(after == before.push(indices@[j as int]));
            assert forall|k: int| #![trigger old(sel)@[k]] 0 <= k < old(sel).len() implies (after.contains(k as usize)
                <==> (before.contains(k as usize) || indices@[j as int] == k as usize)) by {
                if after.contains(k as usize) {
                    let p = choose|p: int| 0 <= p < after.len() && after[p] == k as usize;
                    if p < before.len() {
                        assert(before[p] == k as usize);
                    }
                }
                if before.contains(k as usize) {
                    let p = choose|p: int| 0 <= p < before.len() && before[p] == k as usize;
                    assert(after[p] == k as usize);
                }
                if indices@[j as int] == k as usize {
                    assert(after[j as int] == k as usize);
                }
            }
        }
        j = j + 1;
    }
    assert(indices@.subrange(0, indices.len() as int) == indices@);
}

/// After ticking or unticking a group whose routes are all in the list, the
/// group's box shows the new state.
pub proof fn group_toggle_shows_choice(
    sel_before: Seq<bool>,
    sel_after: Seq<bool>,
    indices: Seq<usize>,
    checked: bool,
)
    requires
        indices.len() > 0,
        forall|j: int| 0 <= j < indices.len() ==> (#[trigger] indices[j]) < sel_before.len(),
        sel_after.len() == sel_before.len(),
        forall|k: int|
            0 <= k < sel_before.len() ==> sel_after[k] == if indices.contains(k as usize) {
                checked
            } else {
                sel_before[k]
            },
    ensures
        (exists|j: int| 0 <= j < indices.len() && selected_or_default(sel_after, #[trigger] indices[j] as int))
            == checked,
{
    assert(indices.contains(indices[0]));
    assert(selected_or_default(sel_after, indices[0] as int) == checked);
    if !checked {
        assert forall|j: int| 0 <= j < indices.len() implies !selected_or_default(
            sel_after,
            #[trigger] indices[j] as int,
        ) by {
            assert(indices.contains(indices[j]));
        }
    }
}

/// The routes kept from the first `n`: those whose flag is set, in order.
pub open spec fn keep_selected<T>(items: Seq<T>, sel: Seq<bool>, n: int) -> Seq<T>
    decreases n,
{
    if n <= 0 {
        Seq::empty()
    } else {
        let r = keep_selected(items, sel, n - 1);
        if sel[n - 1] {
            r.push(items[n - 1])
        } else {
            r
        }
    }
}

/// The routes kept from a list, pairing each with its flag; routes or flags past
/// the shorter of the two are dropped.
pub open spec fn kept_routes<T>(items: Seq<T>, sel: Seq<bool>) -> Seq<T> {
    keep_selected(items, sel, if items.len() <= sel.len() { items.len() as int } else { sel.len() as int })
}

/// Keeps the selected items of a list, in order.
pub fn take_selected<T>(items: Vec<T>, sel: &Vec<bool>) -> (kept: Vec<T>)
    ensures
        kept@ == kept_routes(items@, sel@),
{
    let n: usize = if items.len() <= sel.len() { items.len() } else { sel.len() };
    let ghost orig = items@;
    let mut rest = items;
    let mut kept: Vec<T> = Vec::new();
    let mut i: usize = 0;
    while i < n
        invariant
            n <= orig.len(),
            n <= sel.len(),
            i <= n,
            rest@ == orig.subrange(i as int, orig.len() as int),
            kept@ == keep_selected(orig, sel@, i as int),
        decreases n - i,
    {
        let x = rest.remove(0);
        assert(x == orig[i as int]);
        if sel[i] {
            kept.push(x);
        }
        assert(rest@ =~= orig.subrange(i + 1, orig.len() as int));
        i = i + 1;
    }
    kept
}

proof fn lemma_keep_selected_len<T>(items: Seq<T>, sel: Seq<bool>, n: int)
    requires
        0 <= n <= sel.len(),
    ensures
        keep_selected(items, sel, n).len() == count_selected_upto(sel, n),
    decreases n,
{
    if n > 0 {
        lemma_keep_selected_len(items, sel, n - 1);
    }
}

/// Saving keeps as many routes as the summary says are selected.
pub proof fn kept_routes_match_count<T>(items: Seq<T>, sel: Seq<bool>)
    requires
        items.len() == sel.len(),
    ensures
        kept_routes(items, sel).len() == count_selected_spec(sel),
{
    lemma_keep_selected_len(items, sel, sel.len() as int);
}

/// The positions `0..n`, in order.
pub open spec fn positions(n: nat) -> Seq<int> {
    Seq::new(n, |i: int| i)
}

/// Whether a position is ticked.
pub open spec fn ticked(sel: Seq<bool>) -> spec_fn(int) -> bool {
    |i: int| sel[i]
}

/// The item at a position.
pub open spec fn item_at<T>(items: Seq<T>) -> spec_fn(int) -> T {
    |i: int| items[i]
}

proof fn lemma_keep_is_filter<T>(items: Seq<T>, sel: Seq<bool>, n: int)
    requires
        0 <= n <= items.len(),
        n <= sel.len(),
    ensures
        keep_selected(items, sel, n) == positions(n as nat).filter(ticked(sel)).map_values(item_at(items)),
        count_selected_upto(sel, n) == positions(n as nat).filter(ticked(sel)).len(),
    decreases n,
{
    reveal(Seq::filter);
    if n > 0 {
        lemma_keep_is_filter(items, sel, n - 1);
        let ps = positions(n as nat);
        assert(ps.drop_last() =~= positions((n - 1) as nat));
        assert(ps.last() == n - 1);
        let f = positions((n - 1) as nat).filter(ticked(sel));
        assert(f.push(n - 1).map_values(item_at(items)) =~= f.map_values(item_at(items)).push(items[n - 1]));
    }
}

proof fn lemma_count_le_sel(sel: Seq<bool>, n: int)
    requires
        0 <= n <= sel.len(),
    ensures
        count_selected_upto(sel, n) == positions(n as nat).filter(ticked(sel)).len(),
    decreases n,
{
    reveal(Seq::filter);
    if n > 0 {
        lemma_count_le_sel(sel, n - 1);
        let ps = positions(n as nat);
        assert(ps.drop_last() =~= positions((n - 1) as nat));
        assert(ps.last() == n - 1);
    }
}

/// The routes kept are exactly the ticked ones, in list order: the items at the
/// positions whose flag is set (as far as both lists go). The selection count is
/// the number of ticked positions; an untouched-by-ticks list counts none.
pub proof fn kept_are_exactly_the_ticked<T>(items: Seq<T>, sel: Seq<bool>)
    ensures
        kept_routes(items, sel) == positions(
            if items.len() <= sel.len() { items.len() } else { sel.len() },
        ).filter(ticked(sel)).map_values(item_at(items)),
        count_selected_spec(sel) == positions(sel.len()).filter(ticked(sel)).len(),
        (forall|i: int| 0 <= i < sel.len() ==> !sel[i]) ==> count_selected_spec(sel) == 0,
{
    let m: int = if items.len() <= sel.len() { items.len() as int } else { sel.len() as int };
    lemma_keep_is_filter(items, sel, m);
    lemma_count_le_sel(sel, sel.len() as int);
    if forall|i: int| 0 <= i < sel.len() ==> !sel[i] {
        lemma_none_ticked(sel, sel.len() as int);
    }
}

proof fn lemma_none_ticked(sel: Seq<bool>, n: int)
    requires
        0 <= n <= sel.len(),
        forall|i: int| 0 <= i < sel.len() ==> !sel[i],
    ensures
        count_selected_upto(sel, n) == 0,
    decreases n,
{
    if n > 0 {
        lemma_none_ticked(sel, n - 1);
    }
}

/// Total number of stops over a list of routes.
pub open spec fn stops_sum(routes: Seq<TransitRoute>) -> nat
    decreases routes.len(),
{
    if routes.len() == 0 {
        0
    } else {
        stops_sum(routes.drop_last()) + routes.last().stop_count as nat
    }
}

proof fn lemma_stops_sum_prefix(routes: Seq<TransitRoute>, i: int)
    requires
        0 <= i <= routes.len(),
    ensures
        stops_sum(routes.subrange(0, i)) <= stops_sum(routes),
    decreases routes.len() - i,
{
    if i < routes.len() {
        lemma_stops_sum_prefix(routes, i + 1);
        assert(routes.subrange(0, i + 1).drop_last() =~= routes.subrange(0, i));
    } else {
        assert(routes.subrange(0, i) =~= routes);
    }
}

/// Total number of stops of the map's routes.
pub fn total_stops(routes: &Vec<TransitRoute>) -> (n: usize)
    requires
        stops_sum(routes@) <= usize::MAX,
    ensures
        n == stops_sum(routes@),
{
    let mut n: usize = 0;
    let mut i: usize = 0;
    while i < routes.len()
        invariant
            i <= routes.len(),
            stops_sum(routes@) <= usize::MAX,
            n == stops_sum(routes@.subrange(0, i as int)),
        decreases routes.len() - i,
    {
        proof {
            lemma_stops_sum_prefix(routes@, i + 1);
            assert(routes@.subrange(0, i + 1).drop_last() =~= routes@.subrange(0, i as int));
        }
        n = n + routes[i].stop_count;
        i = i + 1;
    }
    assert(routes@.subrange(0, routes.len() as int) =~= routes@);
    n
}

pub open spec fn selection_summary_text(n_sel: nat, total: nat) -> Seq<char> {
    decimal(n_sel) + " of "@ + decimal(total) + " route(s) selected"@
}

/// The line above the route list: "{selected} of {total} route(s) selected".
pub fn selection_summary(n_sel: usize, total: usize) -> (s: String)
    ensures
        s@ == selection_summary_text(n_sel as nat, total as nat),
{
    let mut s = decimal_text(n_sel);
    s.append(" of ");
    s.append(decimal_text(total).as_str());
    s.append(" route(s) selected");
    s
}

pub open spec fn transit_summary_text(route_count: nat, stop_count: nat) -> Seq<char> {
    if route_count == 0 {
        "No transit routes"@
    } else {
        decimal(route_count) + " route(s) · "@ + decimal(stop_count) + " stop(s)"@
    }
}

/// The transit line of the review page.
pub fn transit_summary(route_count: usize, stop_count: usize) -> (s: String)
    ensures
        s@ == transit_summary_text(route_count as nat, stop_count as nat),
{
    if route_count == 0 {
        "No transit routes".to_owned()
    } else {
        let mut s = decimal_text(route_count);
        s.append(" route(s) · ");
        s.append(decimal_text(stop_count).as_str());
        s.append(" stop(s)");
        s
    }
}

pub open spec fn unsaved_fetch_text(n: nat, err: Seq<char>) -> Seq<char> {
    "Fetched "@ + decimal(n) + " route(s) but could not save: "@ + err
}

/// The error shown when fetched routes could not be stored.
pub fn unsaved_fetch_message(n: usize, err: &str) -> (s: String)
    ensures
        s@ == unsaved_fetch_text(n as nat, err@),
{
    let mut s = "Fetched ".to_owned();
    s.append(decimal_text(n).as_str());
    s.append(" route(s) but could not save: ");
    s.append(err);
    s
}

pub open spec fn route_meta_text(stop_count: nat) -> Seq<char> {
    " · "@ + decimal(stop_count) + " stop(s)"@
}

/// The note after a route's name: its number of stops.
pub fn route_meta(stop_count: usize) -> (s: String)
    ensures
        s@ == route_meta_text(stop_count as nat),
{
    let mut s = " · ".to_owned();
    s.append(decimal_text(stop_count).as_str());
    s.append(" stop(s)");
    s
}

} // verus!
