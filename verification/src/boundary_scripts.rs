//! The scripts of the boundary editor's map: setting the map up, and redrawing
//! the waypoints and the outline whenever the boundary changes.

use vstd::prelude::*;

verus! {

/// Start of the set-up script: wait for Leaflet, drop any earlier editor map.
pub const INIT_HEAD: &'static str = "\n            (async function() {\n                var tries = 0;\n                while (typeof L === 'undefined' && tries++ < 100) {\n                    await new Promise(r => setTimeout(r, 100));\n                }\n                if (typeof L === 'undefined') return;\n                try { if (window._bndEditor) { window._bndEditor.remove(); } } catch(e) {}\n                window._bndEditor = null;\n                window._bndMarkers = [];\n                window._bndPoly = null;\n                ";

/// End of the set-up script: the map and its tiles.
pub const INIT_TAIL: &'static str = "\n                var div = document.getElementById('boundary-editor-map');\n                if (!div) return;\n                var map = L.map(div).setView([30, 0], 2);\n                L.tileLayer('https://{s}.tile.openstreetmap.org/{z}/{x}/{y}.png', {\n                    attribution: '© OpenStreetMap contributors'\n                }).addTo(map);\n                window._bndEditor = map;\n            })()\n        ";

pub open spec fn boundary_init_text() -> Seq<char> {
    INIT_HEAD@ + INIT_TAIL@
}

/// The script that sets up the editor's map.
pub fn boundary_init_script() -> (js: String)
    ensures
        js@ == boundary_init_text(),
{
    let mut js = INIT_HEAD.to_owned();
    js.append(INIT_TAIL);
    js
}

/// Start of the redraw script, up to the points' JSON: old markers and outline
/// are removed.
pub const REDRAW_HEAD: &'static str = "\n            (function redraw() {\n                var m = window._bndEditor;\n                if (!m) { setTimeout(redraw, 150); return; }\n                var markers = window._bndMarkers || [];\n                markers.forEach(function(mk) { try { m.removeLayer(mk); } catch(e) {} });\n                window._bndMarkers = [];\n                if (window._bndPoly) { try { m.removeLayer(window._bndPoly); } catch(e) {} window._bndPoly = null; }\n                var pts = ";

/// After the points' JSON.
pub const REDRAW_POINTS_END: &'static str = ";\n                ";

/// Numbered, draggable markers for an editable boundary; a drag reports the
/// waypoint's index and new place.
pub const REDRAW_MARKERS: &'static str = "\n                pts.forEach(function(p, i) {\n                    var icon = L.divIcon({\n                        html: '<div class=\"bnd-wp-icon\">' + (i+1) + '</div>',\n                        iconSize: [24, 24],\n                        iconAnchor: [12, 12],\n                        className: ''\n                    });\n                    var mk = L.marker([p.lat, p.lng], {icon: icon, draggable: true}).addTo(m);\n                    mk.on('click', function(e) { L.DomEvent.stopPropagation(e); });\n                    mk.on('drag', function() {\n                        if (window._bndPoly) {\n                            var lls = (window._bndMarkers || []).map(function(m) { return m.getLatLng(); });\n                            window._bndPoly.setLatLngs(lls);\n                        }\n                    });\n                    mk.on('dragend', (function(idx) {\n                        return function(e) {\n                            var ll = e.target.getLatLng();\n                            window._bndDragSend && window._bndDragSend(idx, ll.lat, ll.lng);\n                        };\n                    })(i));\n                    window._bndMarkers.push(mk);\n                });\n            ";

/// The outline of a boundary of three points or more: a polygon.
pub const OUTLINE_POLYGON: &'static str = "\n                window._bndPoly = L.polygon(pts, {color: '#6c63ff', fillOpacity: 0.1, weight: 2}).addTo(m);";

/// The outline of a boundary of two points: a dashed line.
pub const OUTLINE_LINE: &'static str = "\n                window._bndPoly = L.polyline(pts, {color: '#6c63ff', weight: 2, dashArray: '6'}).addTo(m);";

/// Fits the map to the bounding box of the points.
pub const FIT_TO_POINTS: &'static str = "\n                var lats = pts.map(function(p){return p.lat;});\n                var lngs = pts.map(function(p){return p.lng;});\n                m.fitBounds([\n                    [Math.min.apply(null,lats), Math.min.apply(null,lngs)],\n                    [Math.max.apply(null,lats), Math.max.apply(null,lngs)]\n                ], {padding: [30, 30]});";

/// End of the redraw script.
pub const REDRAW_TAIL: &'static str = "\n            })()\n        ";

/// How a boundary is outlined: not at all below two points, a dashed line at
/// two, a polygon from three.
#[derive(Clone, Copy, Debug, PartialEq, Eq, Structural)]
pub enum Outline {
    Nothing,
    Line,
    Polygon,
}

pub open spec fn outline_spec(n_points: nat) -> Outline {
    if n_points >= 3 {
        Outline::Polygon
    } else if n_points == 2 {
        Outline::Line
    } else {
        Outline::Nothing
    }
}

/// The outline drawn for a boundary of `n_points` waypoints.
pub fn outline_of(n_points: usize) -> (o: Outline)
    ensures
        o == outline_spec(n_points as nat),
{
    if n_points >= 3 {
        Outline::Polygon
    } else if n_points == 2 {
        Outline::Line
    } else {
        Outline::Nothing
    }
}

pub open spec fn outline_text(o: Outline) -> Seq<char> {
    match o {
        Outline::Nothing => Seq::empty(),
        Outline::Line => OUTLINE_LINE@,
        Outline::Polygon => OUTLINE_POLYGON@,
    }
}

pub open spec fn boundary_redraw_text(points_json: Seq<char>, n_points: nat, readonly: bool, fit: bool) -> Seq<char> {
    REDRAW_HEAD@ + points_json + REDRAW_POINTS_END@ + (if readonly { Seq::empty() } else { REDRAW_MARKERS@ })
        + outline_text(outline_spec(n_points)) + (if fit { FIT_TO_POINTS@ } else { Seq::empty() }) + REDRAW_TAIL@
}

/// The script that redraws a boundary of `n_points` waypoints given as JSON:
/// markers only when it can be edited, the outline its size calls for, and a fit
/// of the map to it when `fit` is set.
pub fn boundary_redraw_script(points_json: &str, n_points: usize, readonly: bool, fit: bool) -> (js: String)
    ensures
        js@ == boundary_redraw_text(points_json@, n_points as nat, readonly, fit),
{
    let mut js = REDRAW_HEAD.to_owned();
    js.append(points_json);
    js.append(REDRAW_POINTS_END);
    if !readonly {
        js.append(REDRAW_MARKERS);
    }
    match outline_of(n_points) {
        Outline::Nothing => {},
        Outline::Line => js.append(OUTLINE_LINE),
        Outline::Polygon => js.append(OUTLINE_POLYGON),
    }
    if fit {
        js.append(FIT_TO_POINTS);
    }
    js.append(REDRAW_TAIL);
    js
}

/// How the flags shape a redraw script. With `fit` set, and whether or not the
/// boundary can be edited, the script is the one without the fit with the fit
/// inserted just before its end. An editable boundary's script is the read-only
/// one with the markers inserted right after the points.
pub proof fn redraw_flags_insert_their_parts(points_json: Seq<char>, n_points: nat, readonly: bool, fit: bool)
    ensures
        ({
            let with_fit = boundary_redraw_text(points_json, n_points, readonly, true);
            let without = boundary_redraw_text(points_json, n_points, readonly, false);
            let body_len = without.len() - REDRAW_TAIL@.len();
            &&& without == without.subrange(0, body_len) + REDRAW_TAIL@
            &&& with_fit == without.subrange(0, body_len) + FIT_TO_POINTS@ + REDRAW_TAIL@
        }),
        ({
            let editable = boundary_redraw_text(points_json, n_points, false, fit);
            let fixed = boundary_redraw_text(points_json, n_points, true, fit);
            let start = REDRAW_HEAD@ + points_json + REDRAW_POINTS_END@;
            &&& fixed.subrange(0, start.len() as int) == start
            &&& editable == start + REDRAW_MARKERS@ + fixed.subrange(start.len() as int, fixed.len() as int)
        }),
{
    let start = REDRAW_HEAD@ + points_json + REDRAW_POINTS_END@;
    let rest = outline_text(outline_spec(n_points));
    let c = start + (if readonly { Seq::empty() } else { REDRAW_MARKERS@ }) + rest;
    let without = boundary_redraw_text(points_json, n_points, readonly, false);
    assert(without =~= c + Seq::<char>::empty() + REDRAW_TAIL@);
    assert(without.subrange(0, without.len() - REDRAW_TAIL@.len()) =~= c);
    assert(boundary_redraw_text(points_json, n_points, readonly, true) =~= c + FIT_TO_POINTS@ + REDRAW_TAIL@);
    let tail = rest + (if fit { FIT_TO_POINTS@ } else { Seq::empty() }) + REDRAW_TAIL@;
    let fixed = boundary_redraw_text(points_json, n_points, true, fit);
    assert(fixed =~= start + tail);
    assert(fixed.subrange(0, start.len() as int) =~= start);
    assert(fixed.subrange(start.len() as int, fixed.len() as int) =~= tail);
    assert(boundary_redraw_text(points_json, n_points, false, fit) =~= start + REDRAW_MARKERS@ + tail);
}

} // verus!
