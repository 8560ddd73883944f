use icon_maker::cli::IconStyle;

#[test]
fn style_prompt_values() {
    assert_eq!(IconStyle::Flat.as_prompt_value(), "flat");
    assert_eq!(IconStyle::Outlined.as_prompt_value(), "outlined");
    assert_eq!(IconStyle::ThreeD.as_prompt_value(), "3D");
    assert_eq!(IconStyle::Gradient.as_prompt_value(), "gradient");
    assert_eq!(IconStyle::Glyph.as_prompt_value(), "glyph");
}

#[test]
fn default_style_value_is_gradient() {
    assert_eq!(IconStyle::default(), IconStyle::Gradient);
    assert_eq!(IconStyle::default().as_prompt_value(), "gradient");
}
