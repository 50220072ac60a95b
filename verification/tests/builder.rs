//! End-to-end scenarios: concrete manifests and their exact JSON output.

use webmanifest::Direction;
use webmanifest::DisplayMode;
use webmanifest::Icon;
use webmanifest::Manifest;
use webmanifest::Orientation;
use webmanifest::Related;
use webmanifest::MIME_TYPE_STR;

const PLAY_URL: &str = "https://play.google.com/store/apps/details?id=cheeaun.hackerweb";

fn parsed(s: &str) -> serde_json::Value {
    serde_json::from_str(s).expect("output must be valid JSON")
}

#[test]
fn build_with_only_name() {
    let out = Manifest::builder("App".to_string()).build().unwrap();
    assert_eq!(out, r#"{"name":"App","icons":[],"related_applications":[]}"#);
    assert_eq!(
        parsed(&out),
        parsed(r#"{"name":"App","icons":[],"related_applications":[]}"#)
    );
}

#[test]
fn pretty_full_example() {
    let out = Manifest::builder("My Cool Application".to_string())
        .short_name("my app".to_string())
        .bg_color("#000".to_string())
        .related(&Related::new("play", PLAY_URL))
        .icon(&Icon::new("/icon.png", "48x48"))
        .pretty()
        .unwrap();
    let expected = format!(
        "{}{}{}",
        r##"{"name":"My Cool Application","short_name":"my app","background_color":"#000","icons":[{"src":"/icon.png","sizes":"48x48","type":"image/png"}],"related_applications":[{"platform":"play","url":""##,
        PLAY_URL,
        r#""}]}"#
    );
    assert_eq!(parsed(&out), parsed(&expected));
}

#[test]
fn enum_members_use_exact_tokens() {
    let out = Manifest::builder("X".to_string())
        .display_mode(DisplayMode::Standalone)
        .direction(Direction::Ltr)
        .orientation(Orientation::Portrait)
        .build()
        .unwrap();
    assert!(out.contains(r#""display":"standalone""#));
    assert!(out.contains(r#""dir":"ltr""#));
    assert!(out.contains(r#""orientation":"portrait""#));
}

#[test]
fn direction_tokens() {
    let cases = [
        (Direction::Ltr, "ltr"),
        (Direction::Rtl, "rtl"),
        (Direction::Auto, "auto"),
    ];
    for (d, token) in cases {
        let out = Manifest::builder("X".to_string())
            .direction(d)
            .build()
            .unwrap();
        assert!(out.contains(&format!(r#""dir":"{}""#, token)), "{}", out);
    }
}

#[test]
fn display_mode_tokens() {
    let cases = [
        (DisplayMode::FullScreen, "full-screen"),
        (DisplayMode::Standalone, "standalone"),
        (DisplayMode::MinimalUi, "minimal-ui"),
        (DisplayMode::Browser, "browser"),
    ];
    for (m, token) in cases {
        let out = Manifest::builder("X".to_string())
            .display_mode(m)
            .build()
            .unwrap();
        assert!(
            out.contains(&format!(r#""display":"{}""#, token)),
            "{}",
            out
        );
    }
}

#[test]
fn orientation_tokens() {
    let cases = [
        (Orientation::Any, "any"),
        (Orientation::Natural, "natural"),
        (Orientation::Landscape, "landscape"),
        (Orientation::LandscapePrimary, "landscape-primary"),
        (Orientation::LandscapeSecondary, "landscape-secondary"),
        (Orientation::Portrait, "portrait"),
        (Orientation::PortraitPrimary, "portrait-primary"),
        (Orientation::PortraitSecondary, "portrait-secondary"),
    ];
    for (o, token) in cases {
        let out = Manifest::builder("X".to_string())
            .orientation(o)
            .build()
            .unwrap();
        assert!(
            out.contains(&format!(r#""orientation":"{}""#, token)),
            "{}",
            out
        );
    }
}

#[test]
fn prefer_related_applications_flag() {
    let with = Manifest::builder("X".to_string())
        .prefer_related_applications(true)
        .build()
        .unwrap();
    assert!(with.contains(r#""prefer_related_applications":true"#));
    let without = Manifest::builder("X".to_string()).build().unwrap();
    assert!(!without.contains("prefer_related_applications"));
    let negative = Manifest::builder("X".to_string())
        .prefer_related_applications(false)
        .build()
        .unwrap();
    assert!(negative.contains(r#""prefer_related_applications":false"#));
}

#[test]
fn only_set_members_appear() {
    let out = Manifest::builder("App".to_string()).build().unwrap();
    let v = parsed(&out);
    let obj = v.as_object().unwrap();
    let mut keys: Vec<&str> = obj.keys().map(|k| k.as_str()).collect();
    keys.sort_unstable();
    assert_eq!(keys, vec!["icons", "name", "related_applications"]);
    assert!(!out.contains("null"));
}

#[test]
fn renamed_keys_only() {
    let out = Manifest::builder("X".to_string())
        .display_mode(DisplayMode::Browser)
        .direction(Direction::Auto)
        .icon(&Icon::new("a.png", "1x1"))
        .build()
        .unwrap();
    assert!(out.contains(r#""display":"#));
    assert!(!out.contains("display_mode"));
    assert!(out.contains(r#""dir":"#));
    assert!(!out.contains(r#""direction""#));
    assert!(out.contains(r#""type":"image/png""#));
    assert!(!out.contains("icon_type"));
}

#[test]
fn scalar_setters_last_write_wins() {
    let out = Manifest::builder("X".to_string())
        .short_name("first".to_string())
        .short_name("second".to_string())
        .theme_color("#111".to_string())
        .theme_color("#222".to_string())
        .display_mode(DisplayMode::Browser)
        .display_mode(DisplayMode::Standalone)
        .build()
        .unwrap();
    let v = parsed(&out);
    assert_eq!(v["short_name"], "second");
    assert!(!out.contains("first"));
    assert_eq!(v["theme_color"], "#222");
    assert_eq!(v["display"], "standalone");
}

#[test]
fn appending_icons_is_additive_and_ordered() {
    let i1 = Icon::new("one.png", "1x1");
    let i2 = Icon::new("two.jpg", "2x2");
    let i3 = Icon::new("three.svg", "3x3");
    let out = Manifest::builder("X".to_string())
        .icon(&i1)
        .icon(&i2)
        .icon(&i3)
        .build()
        .unwrap();
    let v = parsed(&out);
    let icons = v["icons"].as_array().unwrap();
    assert_eq!(icons.len(), 3);
    assert_eq!(icons[0]["src"], "one.png");
    assert_eq!(icons[1]["src"], "two.jpg");
    assert_eq!(icons[2]["src"], "three.svg");
}

#[test]
fn appending_related_is_additive_and_ordered() {
    let r1 = Related::new("play", "https://example.org/a");
    let r2 = Related::new("itunes", "https://example.org/b");
    let out = Manifest::builder("X".to_string())
        .related(&r1)
        .related(&r2)
        .build()
        .unwrap();
    let v = parsed(&out);
    let rel = v["related_applications"].as_array().unwrap();
    assert_eq!(rel.len(), 2);
    assert_eq!(rel[0]["platform"], "play");
    assert_eq!(rel[0]["url"], "https://example.org/a");
    assert_eq!(rel[1]["platform"], "itunes");
    assert_eq!(rel[1]["url"], "https://example.org/b");
}

#[test]
fn every_scalar_setter_lands_under_its_key() {
    let out = Manifest::builder("X".to_string())
        .short_name("sn".to_string())
        .start_url("/start".to_string())
        .display_mode(DisplayMode::MinimalUi)
        .bg_color("#abc".to_string())
        .description("a description".to_string())
        .direction(Direction::Rtl)
        .orientation(Orientation::Natural)
        .lang("en-US".to_string())
        .scope("/scope/".to_string())
        .theme_color("#def".to_string())
        .prefer_related_applications(true)
        .build()
        .unwrap();
    let v = parsed(&out);
    assert_eq!(v["name"], "X");
    assert_eq!(v["short_name"], "sn");
    assert_eq!(v["start_url"], "/start");
    assert_eq!(v["display"], "minimal-ui");
    assert_eq!(v["background_color"], "#abc");
    assert_eq!(v["description"], "a description");
    assert_eq!(v["dir"], "rtl");
    assert_eq!(v["orientation"], "natural");
    assert_eq!(v["lang"], "en-US");
    assert_eq!(v["scope"], "/scope/");
    assert_eq!(v["theme_color"], "#def");
    assert_eq!(v["prefer_related_applications"], true);
    assert_eq!(v.as_object().unwrap().len(), 14);
}

#[test]
fn long_short_name_is_stored_verbatim() {
    let thirteen = "abcdefghijklm";
    assert_eq!(thirteen.len(), 13);
    let out = Manifest::builder("X".to_string())
        .short_name(thirteen.to_string())
        .build()
        .unwrap();
    assert_eq!(parsed(&out)["short_name"], thirteen);
}

#[test]
fn media_type_constant() {
    assert_eq!(MIME_TYPE_STR, "application/manifest+json");
}
