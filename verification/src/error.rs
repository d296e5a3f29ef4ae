//! The failures a command can end in.

use vstd::prelude::*;
use vstd::string::StringExecFns;

verus! {

/// Every way an operation on the module store can fail.
///
/// Failures that start outside this crate (the file system, the manifest
/// decoder, the template engine) carry the text of the underlying failure.
#[derive(Debug, PartialEq, Eq)]
pub enum DSDMError {
    /// Reading or writing a file failed.
    Io(String),
    /// The template engine rejected or could not render a template.
    TemplateError(String),
    /// A manifest or the global defaults could not be decoded.
    SerdeError(String),
    /// The platform reports no home directory.
    HomeError,
    /// A directory is missing or could not be created.
    DirError(String),
    /// Walking a module's source tree failed.
    WalkDir(String),
    /// Copying files failed.
    FSExtra(String),
    /// A walked entry does not lie under the module's directory.
    StripPrefix(String),
    /// The module to create is already there.
    ModuleExists,
    /// The module's directory or its manifest is missing.
    NotExists,
    /// The confirmation prompt could not be answered.
    QuestionError,
    /// A key of a template mapping is not a string.
    InvalidKey,
    /// A template value is neither a string nor a mapping.
    InvalidValue,
}

impl DSDMError {
    /// The detail text a failure carries, empty for the failures that have none.
    pub open spec fn detail(self) -> Seq<char> {
        match self {
            DSDMError::Io(s) => s@,
            DSDMError::TemplateError(s) => s@,
            DSDMError::SerdeError(s) => s@,
            DSDMError::DirError(s) => s@,
            DSDMError::WalkDir(s) => s@,
            DSDMError::FSExtra(s) => s@,
            DSDMError::StripPrefix(s) => s@,
            _ => Seq::empty(),
        }
    }

    /// The fixed text that opens the one-line message of a failure.
    pub open spec fn headline(self) -> Seq<char> {
        match self {
            DSDMError::Io(_) => "IO Error: "@,
            DSDMError::TemplateError(_) => "Template Error: "@,
            DSDMError::SerdeError(_) => "Serde Error: "@,
            DSDMError::HomeError => "Failed to calculate home directory."@,
            DSDMError::DirError(_) => "Directory Error: "@,
            DSDMError::WalkDir(_) => "Walkdir Error: "@,
            DSDMError::FSExtra(_) => "Error copying files: "@,
            DSDMError::StripPrefix(_) => "Strip Prefix Error: "@,
            DSDMError::ModuleExists => "Module already exists."@,
            DSDMError::NotExists => "Module does not exist."@,
            DSDMError::QuestionError => "Error parsing prompt."@,
            DSDMError::InvalidKey => "Failed to convert key to string."@,
            DSDMError::InvalidValue => "Failed to parse template value."@,
        }
    }

    /// The one-line message shown to the user: the headline followed by the detail.
    pub open spec fn message_text(self) -> Seq<char> {
        self.headline() + self.detail()
    }

    /// Renders the failure as the single line reported to the user.
    pub fn message(&self) -> (text: String)
        ensures
            text@ == self.message_text(),
    {
        match self {
            DSDMError::Io(s) => String::from_str("IO Error: ").concat(s.as_str()),
            DSDMError::TemplateError(s) => String::from_str("Template Error: ").concat(s.as_str()),
            DSDMError::SerdeError(s) => String::from_str("Serde Error: ").concat(s.as_str()),
            DSDMError::HomeError => String::from_str("Failed to calculate home directory."),
            DSDMError::DirError(s) => String::from_str("Directory Error: ").concat(s.as_str()),
            DSDMError::WalkDir(s) => String::from_str("Walkdir Error: ").concat(s.as_str()),
            DSDMError::FSExtra(s) => String::from_str("Error copying files: ").concat(s.as_str()),
            DSDMError::StripPrefix(s) => String::from_str("Strip Prefix Error: ").concat(
                s.as_str(),
            ),
            DSDMError::ModuleExists => String::from_str("Module already exists."),
            DSDMError::NotExists => String::from_str("Module does not exist."),
            DSDMError::QuestionError => String::from_str("Error parsing prompt."),
            DSDMError::InvalidKey => String::from_str("Failed to convert key to string."),
            DSDMError::InvalidValue => String::from_str("Failed to parse template value."),
        }
    }
}

} // verus!
