use hideseek::zones::{js_highlight_zone, js_remove_zone, tooltip_script, zone_id_set_script, RESTORE_ZONES_FN};
use uuid::Uuid;

const ZONE_A: u128 = 0x67e5504410b1426f9247bb680e5fe0c8;
const ZONE_B: u128 = 0x0000000000000000000000000000002a;

fn highlight_as_written(zone_id: Option<Uuid>) -> String {
    let id_str = zone_id.map(|id| id.to_string()).unwrap_or_default();
    format!(
        r#"(function(){{
            {restore}
            var tid='{id}';
            var z=window._hideseekZones||{{}};
            if(tid&&z[tid]){{
                z[tid].setStyle({{color:'#e67e22',fillColor:'#e67e22',fillOpacity:1,weight:3,stroke:true}});
                z[tid].bringToFront();
            }}
        }})()"#,
        restore = RESTORE_ZONES_FN,
        id = id_str,
    )
}

fn remove_as_written(zone_id: Uuid) -> String {
    format!(
        "(function(){{\
            var z=window._hideseekZones;\
            if(z&&z['{id}']){{window._hideseekMap.removeLayer(z['{id}']);delete z['{id}'];}}\
            var meta=window._hideseekZoneMeta;\
            if(meta){{delete meta['{id}'];}}\
        }})();",
        id = zone_id,
    )
}

#[test]
fn highlight_script_names_the_zone() {
    let js = js_highlight_zone(Some(ZONE_A));
    assert_eq!(js, highlight_as_written(Some(Uuid::from_u128(ZONE_A))));
    assert!(js.contains("var tid='67e55044-10b1-426f-9247-bb680e5fe0c8';"));
}

#[test]
fn highlight_script_without_zone_clears() {
    let js = js_highlight_zone(None);
    assert_eq!(js, highlight_as_written(None));
    assert!(js.contains("var tid='';"));
}

#[test]
fn restore_function_text() {
    assert!(RESTORE_ZONES_FN.starts_with("\nfunction _restoreZones(){\n"));
    assert!(RESTORE_ZONES_FN.contains("z[id].setStyle({fillColor:'#1e1e50',fillOpacity:1,stroke:false});"));
}

#[test]
fn remove_script_names_the_zone_four_times() {
    let js = js_remove_zone(ZONE_B);
    assert_eq!(js, remove_as_written(Uuid::from_u128(ZONE_B)));
    assert_eq!(js.matches("00000000-0000-0000-0000-00000000002a").count(), 4);
}

#[test]
fn zone_id_set_lists_each_zone() {
    assert_eq!(zone_id_set_script(&vec![]), "var ids={};");
    assert_eq!(
        zone_id_set_script(&vec![ZONE_A, ZONE_B]),
        "var ids={'67e55044-10b1-426f-9247-bb680e5fe0c8':1,'00000000-0000-0000-0000-00000000002a':1,};"
    );
}

#[test]
fn tooltip_escapes_quotes() {
    assert_eq!(tooltip_script(&Some("Bob's cafe".to_string())), "c.bindTooltip('Bob\\'s cafe');");
    assert_eq!(tooltip_script(&Some("Radar: Yes".to_string())), "c.bindTooltip('Radar: Yes');");
    assert_eq!(tooltip_script(&Some("''".to_string())), "c.bindTooltip('\\'\\'');");
    assert_eq!(tooltip_script(&Some(String::new())), "");
    assert_eq!(tooltip_script(&None), "");
    assert_eq!(tooltip_script(&Some("  ".to_string())), "c.bindTooltip('  ');");
}
