use icon_maker::iconset::{
    JsonValue, build_contents_json, contents_document, format_points, icon_specs, make_spec,
};

fn to_json(value: &JsonValue) -> serde_json::Value {
    match value {
        JsonValue::Text(text) => serde_json::Value::String(text.clone()),
        JsonValue::Number(n) => serde_json::Value::from(*n),
        JsonValue::Array(items) => serde_json::Value::Array(items.iter().map(to_json).collect()),
        JsonValue::Object(members) => serde_json::Value::Object(
            members.iter().map(|m| (m.key.clone(), to_json(&m.value))).collect(),
        ),
    }
}

#[test]
fn has_expected_icon_count_and_edge_sizes() {
    let specs = icon_specs();
    assert_eq!(specs.len(), 28);
    assert!(specs.iter().any(|s| s.filename == "icon-ipad-83.5pt@2x.png" && s.pixels == 167));
    assert!(
        specs
            .iter()
            .any(|s| s.idiom == "ios-marketing" && s.pixels == 1024)
    );
}

#[test]
fn contents_json_has_info_and_images() {
    let specs = icon_specs();
    let contents = build_contents_json(&specs);
    assert_eq!(contents.info.author, "xcode");
    assert_eq!(contents.info.version, 1);
    assert_eq!(contents.images.len(), specs.len());
}

#[test]
fn contents_images_follow_specs_in_order() {
    let specs = icon_specs();
    let contents = build_contents_json(&specs);
    for (image, spec) in contents.images.iter().zip(specs.iter()) {
        assert_eq!(image.idiom, spec.idiom);
        assert_eq!(image.size, spec.size);
        assert_eq!(image.scale, spec.scale);
        assert_eq!(image.filename, spec.filename);
    }
    let empty = build_contents_json(&[]);
    assert!(empty.images.is_empty());
    assert_eq!(empty.info.author, "xcode");
}

#[test]
fn icon_filenames_are_distinct_png_files() {
    let specs = icon_specs();
    for (i, a) in specs.iter().enumerate() {
        assert!(a.filename.ends_with(".png"));
        for b in specs.iter().skip(i + 1) {
            assert_ne!(a.filename, b.filename);
        }
    }
}

#[test]
fn icon_specs_exact_table() {
    let specs = icon_specs();
    let rows: Vec<(&str, &str, &str, u32, &str)> = specs
        .iter()
        .map(|s| (s.idiom.as_str(), s.size.as_str(), s.scale.as_str(), s.pixels, s.filename.as_str()))
        .collect();
    assert_eq!(rows[0], ("iphone", "20x20", "2x", 40, "icon-iphone-20pt@2x.png"));
    assert_eq!(rows[1], ("iphone", "20x20", "3x", 60, "icon-iphone-20pt@3x.png"));
    assert_eq!(rows[3], ("iphone", "29x29", "3x", 87, "icon-iphone-29pt@3x.png"));
    assert_eq!(rows[7], ("iphone", "60x60", "3x", 180, "icon-iphone-60pt@3x.png"));
    assert_eq!(rows[8], ("ipad", "20x20", "1x", 20, "icon-ipad-20pt@1x.png"));
    assert_eq!(rows[15], ("ipad", "76x76", "2x", 152, "icon-ipad-76pt@2x.png"));
    assert_eq!(rows[16], ("ipad", "83.5x83.5", "2x", 167, "icon-ipad-83.5pt@2x.png"));
    assert_eq!(rows[17], ("mac", "16x16", "1x", 16, "icon-mac-16pt@1x.png"));
    assert_eq!(rows[26], ("mac", "512x512", "2x", 1024, "icon-mac-512pt@2x.png"));
    assert_eq!(
        rows[27],
        ("ios-marketing", "1024x1024", "1x", 1024, "icon-ios-marketing-1024pt@1x.png")
    );
}

#[test]
fn format_points_whole_and_fractional() {
    assert_eq!(format_points(200), "20");
    assert_eq!(format_points(835), "83.5");
    assert_eq!(format_points(5120), "512");
    assert_eq!(format_points(5), "0.5");
    assert_eq!(format_points(0), "0");
}

#[test]
fn make_spec_rounds_half_up() {
    let spec = make_spec("ipad", 835, 1);
    assert_eq!(spec.pixels, 84);
    assert_eq!(spec.size, "83.5x83.5");
    assert_eq!(spec.scale, "1x");
    assert_eq!(spec.filename, "icon-ipad-83.5pt@1x.png");
    let spec = make_spec("mac", 1280, 2);
    assert_eq!(spec.pixels, 256);
}

#[test]
fn icon_spec_clones_equal() {
    let specs = icon_specs();
    let copy = specs[16].clone();
    assert_eq!(copy, specs[16]);
}

#[test]
fn contents_document_has_xcode_layout() {
    let specs = icon_specs();
    let contents = to_json(&contents_document(&build_contents_json(&specs)));
    assert_eq!(contents["info"]["author"], "xcode");
    assert_eq!(contents["info"]["version"], 1);
    let images = contents["images"].as_array().expect("images array");
    assert_eq!(images.len(), specs.len());
    assert_eq!(images[16]["filename"], "icon-ipad-83.5pt@2x.png");
    assert_eq!(images[16]["size"], "83.5x83.5");
    assert_eq!(images[16]["scale"], "2x");
    assert_eq!(images[16]["idiom"], "ipad");
    assert_eq!(contents.as_object().unwrap().len(), 2);
}
