//! The command line of the tool: one `generate` command and its options.
use vstd::prelude::*;

verus! {

/// Visual style requested for the icon.
#[derive(Debug, Clone, Copy, PartialEq, Eq, Structural)]
pub enum IconStyle {
    Flat,
    Outlined,
    ThreeD,
    Gradient,
    Glyph,
}

impl IconStyle {
    /// The word that names the style on the command line and in the prompt.
    pub open spec fn prompt_label(self) -> Seq<char> {
        match self {
            IconStyle::Flat => "flat"@,
            IconStyle::Outlined => "outlined"@,
            IconStyle::ThreeD => "3D"@,
            IconStyle::Gradient => "gradient"@,
            IconStyle::Glyph => "glyph"@,
        }
    }

    /// The word that names the style in the prompt.
    pub fn as_prompt_value(&self) -> (s: &'static str)
        ensures
            s@ == self.prompt_label(),
            s@ == match *self {
                IconStyle::Flat => "flat"@,
                IconStyle::Outlined => "outlined"@,
                IconStyle::ThreeD => "3D"@,
                IconStyle::Gradient => "gradient"@,
                IconStyle::Glyph => "glyph"@,
            },
    {
        match self {
            IconStyle::Flat => "flat",
            IconStyle::Outlined => "outlined",
            IconStyle::ThreeD => "3D",
            IconStyle::Gradient => "gradient",
            IconStyle::Glyph => "glyph",
        }
    }
}

impl Default for IconStyle {
    /// The style used when `--style` is not given.
    fn default() -> (s: Self)
        ensures
            s == IconStyle::Gradient,
    {
        IconStyle::Gradient
    }
}

/// Options of the `generate` command.
pub struct GenerateArgs {
    pub app_name: String,
    pub subject: String,
    pub colors: String,
    pub style: IconStyle,
    pub background: Option<String>,
    /// Output directory; the icon set goes in `AppIcon.appiconset` below it.
    pub out: String,
    /// Image model; takes precedence over `OPENAI_MODEL` and the config file.
    pub model: Option<String>,
    pub seed: Option<u64>,
    pub force: bool,
    pub dry_run: bool,
    pub verbose: bool,
}

/// Commands of the tool.
pub enum Commands {
    Generate(GenerateArgs),
}

/// A parsed command line.
pub struct Cli {
    pub command: Commands,
}

} // verus!
