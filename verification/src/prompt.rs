//! The text prompt sent to the image model.
use vstd::prelude::*;
use crate::cli::IconStyle;
use crate::text::{join_lines, join_with_newlines, lemma_trim_idempotent, trim, trimmed};

verus! {

/// What the prompt is made from.
pub struct PromptInput<'a> {
    pub app_name: &'a str,
    pub style: &'a IconStyle,
    pub subject: &'a str,
    pub background: Option<&'a str>,
    pub colors: &'a str,
}

/// The background description: the trimmed `background` when it is not blank,
/// otherwise a gradient based on the colors.
pub open spec fn resolved_background(background: Option<Seq<char>>, colors: Seq<char>) -> Seq<char> {
    match background {
        Some(b) if trim(b).len() > 0 => trim(b),
        _ => "subtle gradient based on "@ + trim(colors),
    }
}

/// The nine lines of the prompt, in order.
pub open spec fn prompt_lines(
    app_name: Seq<char>,
    style: IconStyle,
    subject: Seq<char>,
    background: Option<Seq<char>>,
    colors: Seq<char>,
) -> Seq<Seq<char>> {
    seq![
        "App icon for iOS: "@ + trim(app_name) + "."@,
        "Style: "@ + style.prompt_label() + "."@,
        "Subject: "@ + trim(subject) + ", centered."@,
        "Composition: single object, clean silhouette, large shape, minimal details."@,
        "Background: "@ + resolved_background(background, colors) + "."@,
        "Colors: "@ + trim(colors) + ", high contrast."@,
        "Constraints: no text, no letters, no numbers, no watermark, no frame, no rounded-square mask/container, no black/white matte background, no drop shadow outside the icon; artwork must extend to all canvas edges and corners."@,
        "Safe area: keep all important elements within ~80% of the canvas."@,
        "Output: square 1024x1024, crisp edges, vector-like, high clarity."@,
    ]
}

/// The trimmed optional value.
pub open spec fn opt_trim(value: Option<Seq<char>>) -> Option<Seq<char>> {
    match value {
        Some(v) => Some(trim(v)),
        None => None,
    }
}

/// Whitespace around the inputs does not change the prompt: every input is
/// trimmed before it is used.
pub proof fn lemma_prompt_ignores_surrounding_whitespace(
    app_name: Seq<char>,
    style: IconStyle,
    subject: Seq<char>,
    background: Option<Seq<char>>,
    colors: Seq<char>,
)
    ensures
        prompt_lines(trim(app_name), style, trim(subject), opt_trim(background), trim(colors))
            == prompt_lines(app_name, style, subject, background, colors),
{
    lemma_trim_idempotent(app_name);
    lemma_trim_idempotent(subject);
    lemma_trim_idempotent(colors);
    if let Some(b) = background {
        lemma_trim_idempotent(b);
    }
    assert(resolved_background(opt_trim(background), trim(colors)) == resolved_background(
        background,
        colors,
    ));
}

/// The template of the prompt: the lines in order, with the style written as
/// its command-line word and the trimmed inputs in place.
pub proof fn lemma_prompt_template(
    app_name: Seq<char>,
    style: IconStyle,
    subject: Seq<char>,
    background: Option<Seq<char>>,
    colors: Seq<char>,
)
    ensures
        ({
            let lines = prompt_lines(app_name, style, subject, background, colors);
            &&& lines.len() == 9
            &&& lines[0] == "App icon for iOS: "@ + trim(app_name) + "."@
            &&& lines[1] == "Style: "@ + (match style {
                IconStyle::Flat => "flat"@,
                IconStyle::Outlined => "outlined"@,
                IconStyle::ThreeD => "3D"@,
                IconStyle::Gradient => "gradient"@,
                IconStyle::Glyph => "glyph"@,
            }) + "."@
            &&& lines[2] == "Subject: "@ + trim(subject) + ", centered."@
            &&& lines[3]
                == "Composition: single object, clean silhouette, large shape, minimal details."@
            &&& lines[4] == "Background: "@ + (if background matches Some(b) && trim(b).len() > 0 {
                trim(background->0)
            } else {
                "subtle gradient based on "@ + trim(colors)
            }) + "."@
            &&& lines[5] == "Colors: "@ + trim(colors) + ", high contrast."@
            &&& lines[6]
                == "Constraints: no text, no letters, no numbers, no watermark, no frame, no rounded-square mask/container, no black/white matte background, no drop shadow outside the icon; artwork must extend to all canvas edges and corners."@
            &&& lines[7] == "Safe area: keep all important elements within ~80% of the canvas."@
            &&& lines[8] == "Output: square 1024x1024, crisp edges, vector-like, high clarity."@
        }),
{
}

/// The view of an optional string slice.
pub open spec fn opt_str_view(o: Option<&str>) -> Option<Seq<char>> {
    match o {
        Some(s) => Some(s@),
        None => None,
    }
}

/// The prompt for the given input.
pub open spec fn prompt_text(input: PromptInput) -> Seq<char> {
    join_lines(
        prompt_lines(
            input.app_name@,
            *input.style,
            input.subject@,
            opt_str_view(input.background),
            input.colors@,
        ),
    )
}

/// Composes the image prompt: nine lines, in a fixed order, from the trimmed inputs.
pub fn compose_prompt(input: PromptInput<'_>) -> (p: String)
    ensures
        p@ == prompt_text(input),
{
    let app_name = trimmed(input.app_name);
    let subject = trimmed(input.subject);
    let colors = trimmed(input.colors);
    let resolved = match input.background {
        Some(b) => {
            let t = trimmed(b);
            if t.unicode_len() > 0 {
                t
            } else {
                String::from_str("subtle gradient based on ").concat(colors.as_str())
            }
        },
        None => String::from_str("subtle gradient based on ").concat(colors.as_str()),
    };
    let mut lines: Vec<String> = Vec::new();
    lines.push(String::from_str("App icon for iOS: ").concat(app_name.as_str()).concat("."));
    lines.push(String::from_str("Style: ").concat(input.style.as_prompt_value()).concat("."));
    lines.push(String::from_str("Subject: ").concat(subject.as_str()).concat(", centered."));
    lines.push(
        String::from_str(
            "Composition: single object, clean silhouette, large shape, minimal details.",
        ),
    );
    lines.push(String::from_str("Background: ").concat(resolved.as_str()).concat("."));
    lines.push(String::from_str("Colors: ").concat(colors.as_str()).concat(", high contrast."));
    lines.push(
        String::from_str(
            "Constraints: no text, no letters, no numbers, no watermark, no frame, no rounded-square mask/container, no black/white matte background, no drop shadow outside the icon; artwork must extend to all canvas edges and corners.",
        ),
    );
    lines.push(
        String::from_str("Safe area: keep all important elements within ~80% of the canvas."),
    );
    lines.push(
        String::from_str("Output: square 1024x1024, crisp edges, vector-like, high clarity."),
    );
    let ghost expected = prompt_lines(
        input.app_name@,
        *input.style,
        input.subject@,
        opt_str_view(input.background),
        input.colors@,
    );
    assert(lines@.map_values(|l: String| l@) =~= expected);
    join_with_newlines(&lines)
}

} // verus!
