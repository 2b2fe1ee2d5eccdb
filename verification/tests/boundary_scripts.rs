use hideseek::boundary_scripts::{boundary_init_script, boundary_redraw_script, outline_of, Outline};

fn init_as_written(auto_zoom: bool) -> String {
    let auto_zoom_js = if auto_zoom { "window._bndAutoFitted=false;" } else { "" };
    format!(
        r#"
            (async function() {{
                var tries = 0;
                while (typeof L === 'undefined' && tries++ < 100) {{
                    await new Promise(r => setTimeout(r, 100));
                }}
                if (typeof L === 'undefined') return;
                try {{ if (window._bndEditor) {{ window._bndEditor.remove(); }} }} catch(e) {{}}
                window._bndEditor = null;
                window._bndMarkers = [];
                window._bndPoly = null;
                {auto_zoom_js}
                var div = document.getElementById('boundary-editor-map');
                if (!div) return;
                var map = L.map(div).setView([30, 0], 2);
                L.tileLayer('https://{{s}}.tile.openstreetmap.org/{{z}}/{{x}}/{{y}}.png', {{
                    attribution: '© OpenStreetMap contributors'
                }}).addTo(map);
                window._bndEditor = map;
            }})()
        "#
    )
}

#[test]
fn init_script_sets_up_the_map() {
    assert_eq!(boundary_init_script(), init_as_written(false));
    assert!(!boundary_init_script().contains("_bndAutoFitted"));
}

#[test]
fn redraw_script_for_each_mode() {
    let pts = r#"[{"lat":57.7,"lng":11.97},{"lat":57.71,"lng":11.98}]"#;
    let editable = boundary_redraw_script(pts, 2, false, false);
    assert!(editable.contains(&format!("var pts = {pts};")));
    assert!(editable.contains("draggable: true"));
    assert!(editable.contains("L.polyline(pts"));
    assert!(!editable.contains("L.polygon(pts"));
    assert!(!editable.contains("fitBounds"));

    let readonly = boundary_redraw_script(pts, 2, true, true);
    assert!(!readonly.contains("draggable"));
    assert!(readonly.contains("m.fitBounds(["));

    let three = boundary_redraw_script("[]", 3, true, false);
    assert!(three.contains("L.polygon(pts"));
    assert!(!three.contains("L.polyline(pts"));

    let one = boundary_redraw_script("[]", 1, true, true);
    assert!(!one.contains("L.polygon(pts") && !one.contains("L.polyline(pts"));
    assert!(one.contains("fitBounds"));
    assert!(one.trim_start().starts_with("(function redraw() {"));
    assert!(one.trim_end().ends_with("})()"));
}

#[test]
fn outline_by_size() {
    assert_eq!(outline_of(0), Outline::Nothing);
    assert_eq!(outline_of(1), Outline::Nothing);
    assert_eq!(outline_of(2), Outline::Line);
    assert_eq!(outline_of(3), Outline::Polygon);
    assert_eq!(outline_of(40), Outline::Polygon);
}
