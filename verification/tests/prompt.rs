use icon_maker::cli::IconStyle;
use icon_maker::prompt::{PromptInput, compose_prompt};
use icon_maker::text::{char_is_white_space, trimmed};

#[test]
fn compose_prompt_renders_exact_template_order() {
    let prompt = compose_prompt(PromptInput {
        app_name: "Orbit",
        style: &IconStyle::Flat,
        subject: "rocket",
        background: Some("solid navy"),
        colors: "blue, orange",
    });

    let expected = [
        "App icon for iOS: Orbit.",
        "Style: flat.",
        "Subject: rocket, centered.",
        "Composition: single object, clean silhouette, large shape, minimal details.",
        "Background: solid navy.",
        "Colors: blue, orange, high contrast.",
        "Constraints: no text, no letters, no numbers, no watermark, no frame, no rounded-square mask/container, no black/white matte background, no drop shadow outside the icon; artwork must extend to all canvas edges and corners.",
        "Safe area: keep all important elements within ~80% of the canvas.",
        "Output: square 1024x1024, crisp edges, vector-like, high clarity.",
    ]
    .join("\n");

    assert_eq!(prompt, expected);
}

#[test]
fn compose_prompt_uses_default_style_gradient() {
    let prompt = compose_prompt(PromptInput {
        app_name: "Orbit",
        style: &IconStyle::Gradient,
        subject: "rocket",
        background: Some("solid navy"),
        colors: "blue, orange",
    });
    assert!(prompt.contains("\nStyle: gradient.\n"));
}

#[test]
fn compose_prompt_uses_default_background_from_colors() {
    let prompt = compose_prompt(PromptInput {
        app_name: "Orbit",
        style: &IconStyle::Gradient,
        subject: "rocket",
        background: None,
        colors: "blue, orange",
    });
    assert!(prompt.contains("Background: subtle gradient based on blue, orange."));
}

#[test]
fn compose_prompt_uses_explicit_background_when_given() {
    let prompt = compose_prompt(PromptInput {
        app_name: "Orbit",
        style: &IconStyle::Gradient,
        subject: "rocket",
        background: Some("solid black"),
        colors: "blue, orange",
    });
    assert!(prompt.contains("Background: solid black."));
}

#[test]
fn compose_prompt_blank_background_falls_back_and_inputs_are_trimmed() {
    let prompt = compose_prompt(PromptInput {
        app_name: "  Orbit\t",
        style: &IconStyle::ThreeD,
        subject: "\nrocket ",
        background: Some("   "),
        colors: " blue, orange ",
    });
    assert!(prompt.starts_with("App icon for iOS: Orbit.\nStyle: 3D.\nSubject: rocket, centered.\n"));
    assert!(prompt.contains("\nBackground: subtle gradient based on blue, orange.\n"));
    assert!(prompt.contains("\nColors: blue, orange, high contrast.\n"));
    assert_eq!(prompt.lines().count(), 9);
}

#[test]
fn whitespace_set_matches_char_is_whitespace() {
    for code in 0u32..=0x10FFFF {
        if let Some(c) = char::from_u32(code) {
            assert_eq!(char_is_white_space(c), c.is_whitespace(), "U+{code:04X}");
        }
    }
}

#[test]
fn trimmed_matches_str_trim() {
    let samples = [
        "",
        "   ",
        "abc",
        "  abc  ",
        "\t\na b\u{3000}",
        "\u{00A0}x\u{2028}",
        "é ",
        " 𝄞 y ",
    ];
    for s in samples {
        assert_eq!(trimmed(s), s.trim());
    }
}

#[test]
fn trimming_twice_is_trimming_once() {
    for s in ["", " a ", "\u{2003}b\u{2003} ", "c", "  "] {
        let once = trimmed(s);
        assert_eq!(trimmed(&once), once);
    }
}

#[test]
fn surrounding_whitespace_does_not_change_prompt() {
    let padded = compose_prompt(PromptInput {
        app_name: " Orbit ",
        style: &IconStyle::Glyph,
        subject: "\trocket\n",
        background: Some("  solid navy "),
        colors: " blue ",
    });
    let plain = compose_prompt(PromptInput {
        app_name: "Orbit",
        style: &IconStyle::Glyph,
        subject: "rocket",
        background: Some("solid navy"),
        colors: "blue",
    });
    assert_eq!(padded, plain);
}
