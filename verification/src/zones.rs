//! Exclusion zones: the areas in which the hider is known not to be, the list the
//! seekers keep of them, and the scripts that show or highlight them on the map.

use vstd::prelude::*;
use crate::ids::{uuid_string, uuid_text, Identified};
use crate::text::{replace_char, replaced};

verus! {

/// Restore all zones to their base style (called before applying a highlight).
pub const RESTORE_ZONES_FN: &'static str = "\nfunction _restoreZones(){\n    var z=window._hideseekZones||{};\n    Object.keys(z).forEach(function(id){\n        z[id].setStyle({fillColor:'#1e1e50',fillOpacity:1,stroke:false});\n    });\n}\n";

/// Start of the highlight script, up to the restore function.
pub const HIGHLIGHT_HEAD: &'static str = "(function(){\n            ";

/// Part of the highlight script between the restore function and the zone id.
pub const HIGHLIGHT_TARGET: &'static str = "\n            var tid='";

/// End of the highlight script, after the zone id.
pub const HIGHLIGHT_TAIL: &'static str = "';\n            var z=window._hideseekZones||{};\n            if(tid&&z[tid]){\n                z[tid].setStyle({color:'#e67e22',fillColor:'#e67e22',fillOpacity:1,weight:3,stroke:true});\n                z[tid].bringToFront();\n            }\n        })()";

/// The text that names the zone in a highlight script: the id, or nothing.
pub open spec fn highlight_target_text(zone_id: Option<u128>) -> Seq<char> {
    match zone_id {
        Some(id) => uuid_text(id),
        None => Seq::empty(),
    }
}

/// The highlight script for a zone, or the one that clears all highlights.
pub open spec fn highlight_script(zone_id: Option<u128>) -> Seq<char> {
    HIGHLIGHT_HEAD@ + RESTORE_ZONES_FN@ + HIGHLIGHT_TARGET@ + highlight_target_text(zone_id)
        + HIGHLIGHT_TAIL@
}

/// Highlight one zone by id (pass `None` to clear all highlights).
pub fn js_highlight_zone(zone_id: Option<u128>) -> (js: String)
    ensures
        js@ == highlight_script(zone_id),
{
    let mut js = String::new();
    js.append(HIGHLIGHT_HEAD);
    js.append(RESTORE_ZONES_FN);
    js.append(HIGHLIGHT_TARGET);
    match zone_id {
        Some(id) => {
            let id_text = uuid_string(id);
            js.append(id_text.as_str());
        },
        None => {},
    }
    js.append(HIGHLIGHT_TAIL);
    js
}

/// Pieces of the zone-removal script, around the three mentions of the zone id.
pub const REMOVE_HEAD: &'static str = "(function(){var z=window._hideseekZones;if(z&&z['";

pub const REMOVE_LAYER: &'static str = "']){window._hideseekMap.removeLayer(z['";

pub const REMOVE_DELETE: &'static str = "']);delete z['";

pub const REMOVE_META: &'static str = "'];}var meta=window._hideseekZoneMeta;if(meta){delete meta['";

pub const REMOVE_TAIL: &'static str = "'];}})();";

/// The script that removes one zone's layer and metadata from the map.
pub open spec fn remove_script(zone_id: u128) -> Seq<char> {
    let id = uuid_text(zone_id);
    REMOVE_HEAD@ + id + REMOVE_LAYER@ + id + REMOVE_DELETE@ + id + REMOVE_META@ + id
        + REMOVE_TAIL@
}

/// Remove a zone from the Leaflet map.
pub fn js_remove_zone(zone_id: u128) -> (js: String)
    ensures
        js@ == remove_script(zone_id),
{
    let id_text = uuid_string(zone_id);
    let id = id_text.as_str();
    let mut js = String::new();
    js.append(REMOVE_HEAD);
    js.append(id);
    js.append(REMOVE_LAYER);
    js.append(id);
    js.append(REMOVE_DELETE);
    js.append(id);
    js.append(REMOVE_META);
    js.append(id);
    js.append(REMOVE_TAIL);
    js
}

/// An exclusion zone: its id, optional label, whether it excludes the outside of
/// its area (the hider is inside) or the area itself, and the area, carried unread.
#[derive(Clone, Debug, PartialEq)]
pub struct Zone<A> {
    pub id: u128,
    pub label: Option<String>,
    pub exclude_outside: bool,
    pub area: A,
}

impl<A> Identified for Zone<A> {
    open spec fn key(&self) -> u128 {
        self.id
    }

    fn id(&self) -> (r: u128) {
        self.id
    }
}

/// How a zone is drawn: not at all (its area is not a circle), as the play area
/// with the circle cut out (the hider is inside), or as the circle itself.
#[derive(Clone, Copy, Debug, PartialEq, Eq, Structural)]
pub enum ZoneLayer {
    Skipped,
    OutsideRing,
    Disc,
}

/// The layer used for a zone.
pub fn zone_layer(is_circle: bool, exclude_outside: bool) -> (l: ZoneLayer)
    ensures
        !is_circle ==> l == ZoneLayer::Skipped,
        is_circle && exclude_outside ==> l == ZoneLayer::OutsideRing,
        is_circle && !exclude_outside ==> l == ZoneLayer::Disc,
{
    if !is_circle {
        ZoneLayer::Skipped
    } else if exclude_outside {
        ZoneLayer::OutsideRing
    } else {
        ZoneLayer::Disc
    }
}

/// A label made safe inside a single-quoted script string: every single quote
/// preceded by a backslash.
pub open spec fn escape_quotes(s: Seq<char>) -> Seq<char> {
    replaced(s, '\'', seq!['\\', '\''])
}

/// In quoted text, every single quote is escaped by a backslash just before it.
pub proof fn escaped_quotes_are_preceded_by_backslash(s: Seq<char>)
    ensures
        forall|i: int|
            0 <= i < escape_quotes(s).len() && #[trigger] escape_quotes(s)[i] == '\'' ==> i > 0
                && escape_quotes(s)[i - 1] == '\\',
    decreases s.len(),
{
    if s.len() > 0 {
        let p = s.drop_last();
        escaped_quotes_are_preceded_by_backslash(p);
        let r = escape_quotes(p);
        if s.last() == '\'' {
            assert(escape_quotes(s) == r + seq!['\\', '\'']);
            assert forall|i: int|
                0 <= i < escape_quotes(s).len() && #[trigger] escape_quotes(s)[i] == '\'' implies i > 0
                    && escape_quotes(s)[i - 1] == '\\' by {
                if i < r.len() {
                    assert(escape_quotes(s)[i] == r[i]);
                    assert(escape_quotes(s)[i - 1] == r[i - 1]);
                }
            }
        } else {
            assert(escape_quotes(s) == r.push(s.last()));
            assert forall|i: int|
                0 <= i < escape_quotes(s).len() && #[trigger] escape_quotes(s)[i] == '\'' implies i > 0
                    && escape_quotes(s)[i - 1] == '\\' by {
                if i < r.len() {
                    assert(escape_quotes(s)[i] == r[i]);
                    assert(escape_quotes(s)[i - 1] == r[i - 1]);
                }
            }
        }
    }
}

proof fn escaped_empty_iff_empty(s: Seq<char>)
    ensures
        (escape_quotes(s).len() == 0) == (s.len() == 0),
    decreases s.len(),
{
    if s.len() > 0 {
        escaped_empty_iff_empty(s.drop_last());
    }
}

/// The label text of a zone, blank when it has none.
pub open spec fn label_text(label: Option<String>) -> Seq<char> {
    match label {
        Some(l) => l@,
        None => Seq::empty(),
    }
}

pub open spec fn tooltip_script_text(label: Option<String>) -> Seq<char> {
    if label_text(label).len() == 0 {
        Seq::empty()
    } else {
        "c.bindTooltip('"@ + escape_quotes(label_text(label)) + "');"@
    }
}

/// The script that attaches a zone's label as a tooltip; nothing for a blank label.
pub fn tooltip_script(label: &Option<String>) -> (js: String)
    ensures
        js@ == tooltip_script_text(*label),
{
    let escaped = match label {
        Some(l) => replace_char(l.as_str(), '\'', "\\'"),
        None => replace_char("", '\'', "\\'"),
    };
    proof {
        escaped_empty_iff_empty(label_text(*label));
        reveal_strlit("");
        reveal_strlit("\\'");
        assert("\\'"@ == seq!['\\', '\'']);
        assert(escaped@ == escape_quotes(label_text(*label)));
    }
    if escaped.as_str().is_empty() {
        String::new()
    } else {
        let mut js = "c.bindTooltip('".to_owned();
        js.append(escaped.as_str());
        js.append("');");
        js
    }
}

/// The entries of the id set for the first `n` zones: `'<id>':1,` each.
pub open spec fn id_entries(ids: Seq<u128>, n: int) -> Seq<char>
    decreases n,
{
    if n <= 0 {
        Seq::empty()
    } else {
        id_entries(ids, n - 1) + "'"@ + uuid_text(ids[n - 1]) + "':1,"@
    }
}

pub open spec fn zone_id_set_text(ids: Seq<u128>) -> Seq<char> {
    "var ids={"@ + id_entries(ids, ids.len() as int) + "};"@
}

/// The script line naming the zones that should stay on the map; layers of any
/// other zone are removed.
pub fn zone_id_set_script(ids: &Vec<u128>) -> (js: String)
    ensures
        js@ == zone_id_set_text(ids@),
{
    let mut js = "var ids={".to_owned();
    let mut i: usize = 0;
    while i < ids.len()
        invariant
            i <= ids.len(),
            js@ == "var ids={"@ + id_entries(ids@, i as int),
        decreases ids.len() - i,
    {
        js.append("'");
        let id_text = uuid_string(ids[i]);
        js.append(id_text.as_str());
        js.append("':1,");
        i = i + 1;
    }
    js.append("};");
    js
}

pub open spec fn zone_tag_text(exclude_outside: bool) -> Seq<char> {
    if exclude_outside {
        " · inside only"@
    } else {
        Seq::empty()
    }
}

/// The note after a zone in the list: zones that exclude their outside say so.
pub fn zone_tag(exclude_outside: bool) -> (s: &'static str)
    ensures
        s@ == zone_tag_text(exclude_outside),
{
    proof {
        reveal_strlit("");
    }
    if exclude_outside {
        " · inside only"
    } else {
        ""
    }
}

} // verus!
