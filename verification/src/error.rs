//! Error handling.

use vstd::prelude::*;
use vstd::string::*;

verus! {

/// Everything that can go wrong while a project is resolved, set up,
/// stored or entered.
#[derive(Clone, Debug, PartialEq, Eq)]
pub enum Error {
    /// The persistent root could not be created.
    InitializeVarFailed,
    /// The volatile root could not be created.
    InitializeTmpFailed,
    /// A retention period was not a valid duration; `from` is the text given.
    ParseFailedTime { from: String },
    /// A metadata file did not hold a project; `from` is its content.
    ParseFailedToml { from: String },
    /// A metadata file could not be read; `from` is its path.
    ParseFailedPath { from: String },
    /// The path of a project is not a directory.
    ProjectDirectoryInvalid,
    /// The directory of a project, or the link to it, could not be created.
    ProjectSetupFailed,
    /// The shell could not be started or waited for.
    SubprocessFailed,
    /// The metadata of a project could not be encoded or written.
    WriteOutFailed,
}

/// An error in the model: the texts it carries as characters.
pub ghost enum ErrorView {
    InitializeVarFailed,
    InitializeTmpFailed,
    ParseFailedTime { from: Seq<char> },
    ParseFailedToml { from: Seq<char> },
    ParseFailedPath { from: Seq<char> },
    ProjectDirectoryInvalid,
    ProjectSetupFailed,
    SubprocessFailed,
    WriteOutFailed,
}

impl View for Error {
    type V = ErrorView;

    open spec fn view(&self) -> ErrorView {
        match *self {
            Error::InitializeVarFailed => ErrorView::InitializeVarFailed,
            Error::InitializeTmpFailed => ErrorView::InitializeTmpFailed,
            Error::ParseFailedTime { from } => ErrorView::ParseFailedTime { from: from@ },
            Error::ParseFailedToml { from } => ErrorView::ParseFailedToml { from: from@ },
            Error::ParseFailedPath { from } => ErrorView::ParseFailedPath { from: from@ },
            Error::ProjectDirectoryInvalid => ErrorView::ProjectDirectoryInvalid,
            Error::ProjectSetupFailed => ErrorView::ProjectSetupFailed,
            Error::SubprocessFailed => ErrorView::SubprocessFailed,
            Error::WriteOutFailed => ErrorView::WriteOutFailed,
        }
    }
}

impl Error {
    /// The one-line message of an error.
    pub open spec fn message(self) -> Seq<char> {
        match self {
            Error::InitializeVarFailed => "Failed to initialize /var/tmp/cdtest"@,
            Error::InitializeTmpFailed => "Failed to initialize /tmp/cdtest"@,
            Error::ParseFailedTime { from } => "Failed to parse time from `"@ + from@ + "`"@,
            Error::ParseFailedToml { from } => "Failed to parse toml from `"@ + from@ + "`"@,
            Error::ParseFailedPath { from } => "Failed to parse path from `"@ + from@ + "`"@,
            Error::ProjectDirectoryInvalid => "The project directory is invalid"@,
            Error::ProjectSetupFailed => "Project failed to set up"@,
            Error::SubprocessFailed => "Subprocess failed to execute correctly"@,
            Error::WriteOutFailed => "Failed to write out project"@,
        }
    }

    /// Renders the message of an error.
    pub fn to_string(&self) -> (text: String)
        ensures
            text@ == self.message(),
    {
        match self {
            Error::InitializeVarFailed => String::from_str("Failed to initialize /var/tmp/cdtest"),
            Error::InitializeTmpFailed => String::from_str("Failed to initialize /tmp/cdtest"),
            Error::ParseFailedTime { from } => quoted("Failed to parse time from `", from),
            Error::ParseFailedToml { from } => quoted("Failed to parse toml from `", from),
            Error::ParseFailedPath { from } => quoted("Failed to parse path from `", from),
            Error::ProjectDirectoryInvalid => String::from_str("The project directory is invalid"),
            Error::ProjectSetupFailed => String::from_str("Project failed to set up"),
            Error::SubprocessFailed => String::from_str("Subprocess failed to execute correctly"),
            Error::WriteOutFailed => String::from_str("Failed to write out project"),
        }
    }
}

/// `lead`, then `from`, then a closing backtick.
fn quoted(lead: &str, from: &String) -> (text: String)
    ensures
        text@ == lead@ + from@ + "`"@,
{
    let mut text = String::from_str(lead);
    text.append(from.as_str());
    text.append("`");
    text
}

} // verus!
