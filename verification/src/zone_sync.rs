//! The script that brings the map's zone layers in line with the zone list: a
//! layer for every circle zone not yet drawn, none for any other zone, and the
//! layers of zones no longer listed removed.

use vstd::prelude::*;
use crate::ids::{uuid_string, uuid_text, uuid_text_len};
use crate::zones::{tooltip_script, tooltip_script_text, zone_id_set_script, zone_id_set_text, zone_layer, ZoneLayer};

verus! {

/// A circle's centre and radius (metres), already written as script numbers.
pub struct CircleText {
    pub lat: String,
    pub lng: String,
    pub radius: String,
}

/// A zone as the map draws it: id, label, which side it excludes, and its circle
/// when its area is one.
pub struct ZoneDrawing {
    pub id: u128,
    pub label: Option<String>,
    pub exclude_outside: bool,
    pub circle: Option<CircleText>,
}

/// Turns a circle into a ring of points (latitude, longitude, radius, count).
pub const CIRCLE_RING_FN: &'static str = "\nfunction _circleRing(lat,lng,r,n){\n    var R=6371000,pts=[];\n    for(var i=0;i<n;i++){\n        var a=2*Math.PI*i/n;\n        var dlat=r*Math.cos(a)/R*(180/Math.PI);\n        var dlng=r*Math.sin(a)/(R*Math.cos(lat*Math.PI/180))*(180/Math.PI);\n        pts.push([lat+dlat,lng+dlng]);\n    }\n    return pts;\n}\n";

/// Start of the sync script: wait for the map, read the play area.
pub const SYNC_HEAD: &'static str = "(function sync(){var m=window._hideseekMap;if(!m){setTimeout(sync,100);return;}var boundary=window._hideseekBoundary;";

/// The layers already drawn, and what is known of each.
pub const SYNC_LAYERS: &'static str = "var z=window._hideseekZones||{};var meta=window._hideseekZoneMeta||{};";

/// Removes the layer of every zone not in the id set.
pub const SYNC_PRUNE: &'static str = "Object.keys(z).forEach(function(id){if(!ids[id]){m.removeLayer(z[id]);delete z[id];delete meta[id];}});";

/// End of the sync script: the layers are kept for the next sync.
pub const SYNC_TAIL: &'static str = "window._hideseekZones=z; window._hideseekZoneMeta=meta;})();";

/// Start of a zone's block: it draws only when the zone has no layer yet.
pub const BLOCK_GUARD: &'static str = "if(!z['";

/// For a zone that excludes its outside: the play area with the circle cut out.
pub const RING_OPEN: &'static str = "']&&boundary&&boundary.length>0){var ring=_circleRing(";
pub const RING_CLOSE: &'static str = ",64);var c=L.polygon([boundary,ring],{fillColor:'#1e1e50',fillOpacity:1,stroke:false,interactive:false,className:'zone-excluded',pane:'zonesPane'}).addTo(m);";

/// For a zone that excludes the circle itself: the filled circle.
pub const DISC_OPEN: &'static str = "']){var c=L.circle([";
pub const DISC_RADIUS: &'static str = "],{radius:";
pub const DISC_CLOSE: &'static str = ",fillColor:'#1e1e50',fillOpacity:1,stroke:false,className:'zone-excluded',pane:'zonesPane'}).addTo(m);";

/// Separates the numbers of a circle.
pub const COMMA: &'static str = ",";

/// End of a zone's block: its layer recorded under its id.
pub const RECORD_OPEN: &'static str = "z['";
pub const RECORD_MID: &'static str = "']=c; meta['";
pub const RECORD_EO: &'static str = "']={eo:";
pub const RECORD_CLOSE: &'static str = "};}";

pub open spec fn bool_text(b: bool) -> Seq<char> {
    if b {
        "true"@
    } else {
        "false"@
    }
}

/// The drawing part of a circle zone's block.
pub open spec fn draw_text(id: u128, c: CircleText, exclude_outside: bool) -> Seq<char> {
    if exclude_outside {
        BLOCK_GUARD@ + uuid_text(id) + RING_OPEN@ + c.lat@ + COMMA@ + c.lng@ + COMMA@ + c.radius@ + RING_CLOSE@
    } else {
        BLOCK_GUARD@ + uuid_text(id) + DISC_OPEN@ + c.lat@ + COMMA@ + c.lng@ + DISC_RADIUS@ + c.radius@ + DISC_CLOSE@
    }
}

pub open spec fn record_text(id: u128, exclude_outside: bool) -> Seq<char> {
    RECORD_OPEN@ + uuid_text(id) + RECORD_MID@ + uuid_text(id) + RECORD_EO@ + bool_text(exclude_outside) + RECORD_CLOSE@
}

/// A zone's block: nothing for a zone whose area is not a circle.
pub open spec fn zone_block_text(z: ZoneDrawing) -> Seq<char> {
    match z.circle {
        None => Seq::empty(),
        Some(c) => draw_text(z.id, c, z.exclude_outside) + tooltip_script_text(z.label) + record_text(z.id, z.exclude_outside),
    }
}

/// The blocks of the first `n` zones, in order.
pub open spec fn blocks_text(zs: Seq<ZoneDrawing>, n: int) -> Seq<char>
    decreases n,
{
    if n <= 0 {
        Seq::empty()
    } else {
        blocks_text(zs, n - 1) + zone_block_text(zs[n - 1])
    }
}

pub open spec fn zone_ids(zs: Seq<ZoneDrawing>) -> Seq<u128> {
    zs.map_values(|z: ZoneDrawing| z.id)
}

pub open spec fn zone_sync_text(zs: Seq<ZoneDrawing>) -> Seq<char> {
    SYNC_HEAD@ + CIRCLE_RING_FN@ + SYNC_LAYERS@ + zone_id_set_text(zone_ids(zs)) + SYNC_PRUNE@ + blocks_text(
        zs,
        zs.len() as int,
    ) + SYNC_TAIL@
}

fn zone_block(z: &ZoneDrawing) -> (js: String)
    ensures
        js@ == zone_block_text(*z),
{
    let mut js = String::new();
    let c = match &z.circle {
        Some(c) => c,
        None => {
            proof {
                reveal_strlit("");
            }
            return js;
        },
    };
    let id = uuid_string(z.id);
    js.append(BLOCK_GUARD);
    js.append(id.as_str());
    match zone_layer(true, z.exclude_outside) {
        ZoneLayer::OutsideRing => {
            js.append(RING_OPEN);
            js.append(c.lat.as_str());
            js.append(COMMA);
            js.append(c.lng.as_str());
            js.append(COMMA);
            js.append(c.radius.as_str());
            js.append(RING_CLOSE);
        },
        _ => {
            js.append(DISC_OPEN);
            js.append(c.lat.as_str());
            js.append(COMMA);
            js.append(c.lng.as_str());
            js.append(DISC_RADIUS);
            js.append(c.radius.as_str());
            js.append(DISC_CLOSE);
        },
    }
    let tip = tooltip_script(&z.label);
    js.append(tip.as_str());
    js.append(RECORD_OPEN);
    js.append(id.as_str());
    js.append(RECORD_MID);
    js.append(id.as_str());
    js.append(RECORD_EO);
    if z.exclude_outside {
        js.append("true");
    } else {
        js.append("false");
    }
    js.append(RECORD_CLOSE);
    js
}

/// The script that syncs the map's zone layers with `zones`: the id set names
/// every zone, stale layers are removed, and each circle zone without a layer
/// gets one.
pub fn zone_sync_script(zones: &Vec<ZoneDrawing>) -> (js: String)
    ensures
        js@ == zone_sync_text(zones@),
{
    let mut ids: Vec<u128> = Vec::new();
    let mut i: usize = 0;
    while i < zones.len()
        invariant
            i <= zones.len(),
            ids@ == zone_ids(zones@.subrange(0, i as int)),
        decreases zones.len() - i,
    {
        ids.push(zones[i].id);
        assert(zone_ids(zones@.subrange(0, i + 1)) =~= zone_ids(zones@.subrange(0, i as int)).push(zones@[i as int].id));
        i = i + 1;
    }
    assert(zones@.subrange(0, zones.len() as int) =~= zones@);
    let mut js = SYNC_HEAD.to_owned();
    js.append(CIRCLE_RING_FN);
    js.append(SYNC_LAYERS);
    js.append(zone_id_set_script(&ids).as_str());
    js.append(SYNC_PRUNE);
    let ghost head = js@;
    let mut k: usize = 0;
    while k < zones.len()
        invariant
            k <= zones.len(),
            js@ == head + blocks_text(zones@, k as int),
        decreases zones.len() - k,
    {
        let block = zone_block(&zones[k]);
        js.append(block.as_str());
        k = k + 1;
    }
    js.append(SYNC_TAIL);
    js
}

/// A zone gets a block, and so a layer, exactly when its area is a circle; the
/// block draws only when the zone has no layer yet, so a zone is never drawn
/// twice.
pub proof fn sync_draws_exactly_circle_zones(z: ZoneDrawing)
    ensures
        (zone_block_text(z).len() > 0) <==> (z.circle is Some),
        z.circle is Some ==> zone_block_text(z).subrange(0, BLOCK_GUARD@.len() + 36int) == BLOCK_GUARD@ + uuid_text(z.id),
{
    reveal_strlit("if(!z['");
    if z.circle is Some {
        let c = z.circle->Some_0;
        let pre = BLOCK_GUARD@ + uuid_text(z.id);
        uuid_text_len(z.id);
        let b = zone_block_text(z);
        assert(b.subrange(0, pre.len() as int) =~= pre);
    }
}

/// The blocks of a run of zones, one per zone in order.
pub open spec fn each_block(zs: Seq<ZoneDrawing>) -> Seq<Seq<char>> {
    zs.map_values(|z: ZoneDrawing| zone_block_text(z))
}

proof fn lemma_blocks_flatten(zs: Seq<ZoneDrawing>, n: int)
    requires
        0 <= n <= zs.len(),
    ensures
        blocks_text(zs, n) == each_block(zs.subrange(0, n)).flatten(),
    decreases n,
{
    if n == 0 {
        assert(each_block(zs.subrange(0, 0)) =~= Seq::<Seq<char>>::empty());
    } else {
        lemma_blocks_flatten(zs, n - 1);
        let prev = each_block(zs.subrange(0, n - 1));
        assert(each_block(zs.subrange(0, n)) =~= prev.push(zone_block_text(zs[n - 1])));
        prev.lemma_flatten_push(zone_block_text(zs[n - 1]));
    }
}

/// The sync script names every zone in its id set, and then holds the block of
/// every zone, in list order, whatever its label: its body between the pruning
/// and the end is the concatenation of the zones' blocks. So each circle zone's
/// block, which starts by checking for the zone's own layer, is in the script.
pub proof fn sync_holds_every_zone_block(zs: Seq<ZoneDrawing>)
    ensures
        zone_sync_text(zs) == SYNC_HEAD@ + CIRCLE_RING_FN@ + SYNC_LAYERS@ + zone_id_set_text(zone_ids(zs))
            + SYNC_PRUNE@ + each_block(zs).flatten() + SYNC_TAIL@,
        forall|k: int| 0 <= k < zs.len() ==> (#[trigger] each_block(zs)[k]) == zone_block_text(zs[k]),
        forall|k: int| 0 <= k < zs.len() ==> (#[trigger] zone_ids(zs)[k]) == zs[k].id,
        zone_ids(zs).len() == zs.len(),
{
    lemma_blocks_flatten(zs, zs.len() as int);
    assert(zs.subrange(0, zs.len() as int) =~= zs);
}

} // verus!
