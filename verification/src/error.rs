//! Errors that end a run.
use vstd::prelude::*;

verus! {

/// Errors of the icon generation run.
#[derive(Debug)]
pub enum IconMakerError {
    /// Neither `OPENAI_API_KEY` nor the config file gives a key.
    MissingApiKey,
    /// The icon set directory exists and `--force` was not given.
    OutputExists(String),
    /// A file system operation failed; holds the operating system's message.
    Io(String),
}

/// The text shown for an error.
pub open spec fn error_message(e: IconMakerError) -> Seq<char> {
    match e {
        IconMakerError::MissingApiKey => "OpenAI API key is missing (set OPENAI_API_KEY or config openai_key)"@,
        IconMakerError::OutputExists(path) => "output directory already exists: "@ + path@
            + ". Use --force to overwrite."@,
        IconMakerError::Io(reason) => reason@,
    }
}

impl IconMakerError {
    /// The text shown for the error.
    pub fn message(&self) -> (m: String)
        ensures
            m@ == error_message(*self),
    {
        match self {
            IconMakerError::MissingApiKey => String::from_str(
                "OpenAI API key is missing (set OPENAI_API_KEY or config openai_key)",
            ),
            IconMakerError::OutputExists(path) => String::from_str(
                "output directory already exists: ",
            ).concat(path.as_str()).concat(". Use --force to overwrite."),
            IconMakerError::Io(reason) => reason.clone(),
        }
    }
}

} // verus!
