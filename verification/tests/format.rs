//! Output-format details: pretty versus compact layout, string escaping, and
//! icon media-type inference.

use webmanifest::DisplayMode;
use webmanifest::Icon;
use webmanifest::Manifest;
use webmanifest::Related;

fn parsed(s: &str) -> serde_json::Value {
    serde_json::from_str(s).expect("output must be valid JSON")
}

fn rich_manifest() -> Manifest {
    Manifest::builder("RichApp".to_string())
        .short_name("rich".to_string())
        .start_url("/".to_string())
        .display_mode(DisplayMode::Standalone)
        .icon(&Icon::new("a.png", "48x48"))
        .icon(&Icon::new("b.webp", "96x96"))
        .related(&Related::new("play", "https://example.org/app"))
}

#[test]
fn pretty_and_compact_parse_to_equal_values() {
    let compact = rich_manifest().build().unwrap();
    let pretty = rich_manifest().pretty().unwrap();
    assert_eq!(parsed(&compact), parsed(&pretty));
}

#[test]
fn pretty_has_newlines_and_indentation() {
    let pretty = rich_manifest().pretty().unwrap();
    assert!(pretty.contains('\n'));
    assert!(pretty.contains("\n  \"name\": "));
    assert!(pretty.contains("\n    {"));
    assert!(pretty.contains("\n      \"src\": "));
    assert!(pretty.ends_with("\n}"));
}

#[test]
fn compact_has_no_whitespace_between_tokens() {
    let compact = Manifest::builder("NoSpaces".to_string())
        .short_name("tight".to_string())
        .icon(&Icon::new("a.png", "48x48"))
        .build()
        .unwrap();
    assert!(!compact.contains('\n'));
    assert!(!compact.contains(' '));
}

#[test]
fn empty_collections_render_as_empty_arrays() {
    let compact = Manifest::builder("E".to_string()).build().unwrap();
    assert!(compact.contains(r#""icons":[]"#));
    assert!(compact.contains(r#""related_applications":[]"#));
    let pretty = Manifest::builder("E".to_string()).pretty().unwrap();
    assert!(pretty.contains("\"icons\": []"));
    assert!(pretty.contains("\"related_applications\": []"));
}

#[test]
fn string_values_are_escaped() {
    let tricky = "a \"quoted\" name with \\ and \n and \t inside";
    let out = Manifest::builder(tricky.to_string()).build().unwrap();
    let v = parsed(&out);
    assert_eq!(v["name"], tricky);
    let control = "bell \u{7} end";
    let out2 = Manifest::builder(control.to_string()).build().unwrap();
    assert!(out2.contains("\\u0007"));
    assert_eq!(parsed(&out2)["name"], control);
}

#[test]
fn icon_type_is_inferred_from_the_extension() {
    let cases = [
        ("/a/b.png", "image/png"),
        ("photo.jpg", "image/jpeg"),
        ("photo.jpeg", "image/jpeg"),
        ("vector.svg", "image/svg+xml"),
        ("anim.gif", "image/gif"),
        ("modern.webp", "image/webp"),
        ("logo.unknownext", "application/octet-stream"),
        ("no_extension", "application/octet-stream"),
        ("a/b/c.SVG", "image/svg+xml"),
        ("dir.with.dots/file", "application/octet-stream"),
        ("trailing.", "application/octet-stream"),
    ];
    for (src, expected) in cases {
        let out = Manifest::builder("X".to_string())
            .icon(&Icon::new(src, "1x1"))
            .build()
            .unwrap();
        let v = parsed(&out);
        assert_eq!(v["icons"][0]["type"], expected, "src = {}", src);
        assert_eq!(v["icons"][0]["src"], src);
        assert_eq!(v["icons"][0]["sizes"], "1x1");
    }
}

#[test]
fn pretty_array_layout() {
    let pretty = Manifest::builder("L".to_string())
        .icon(&Icon::new("a.png", "1x1"))
        .pretty()
        .unwrap();
    let expected = "{\n  \"name\": \"L\",\n  \"icons\": [\n    {\n      \"src\": \"a.png\",\n      \"sizes\": \"1x1\",\n      \"type\": \"image/png\"\n    }\n  ],\n  \"related_applications\": []\n}";
    assert_eq!(pretty, expected);
}
