//! The library's error type and its messages.
use vstd::prelude::*;

verus! {

/// Everything that can go wrong while managing simulators and emulators.
#[derive(Debug)]
pub enum Error {
    /// An outside program ran and reported failure.
    CommandFailed { command: String, message: String },
    /// A program's output could not be read.
    Parse { message: String },
    /// The user dismissed a prompt.
    UserCancelled,
    /// Nothing was there to choose from.
    NoDevicesAvailable { platform: String },
    /// No platform tools were found.
    NoPlatformsAvailable,
    /// The operation does not exist on this platform.
    NotImplemented { feature: String },
    /// An outside program could not be started; the text is the system's reason.
    Io { message: String },
    /// A program's JSON output did not have the expected shape; the text is the
    /// parser's reason.
    Json { message: String },
}

/// An error as the library reasons about it: its texts as character sequences.
pub enum ErrorView {
    CommandFailed { command: Seq<char>, message: Seq<char> },
    Parse { message: Seq<char> },
    UserCancelled,
    NoDevicesAvailable { platform: Seq<char> },
    NoPlatformsAvailable,
    NotImplemented { feature: Seq<char> },
    Io { message: Seq<char> },
    Json { message: Seq<char> },
}

impl View for Error {
    type V = ErrorView;

    open spec fn view(&self) -> ErrorView {
        match self {
            Error::CommandFailed { command, message } => ErrorView::CommandFailed {
                command: command@,
                message: message@,
            },
            Error::Parse { message } => ErrorView::Parse { message: message@ },
            Error::UserCancelled => ErrorView::UserCancelled,
            Error::NoDevicesAvailable { platform } => ErrorView::NoDevicesAvailable {
                platform: platform@,
            },
            Error::NoPlatformsAvailable => ErrorView::NoPlatformsAvailable,
            Error::NotImplemented { feature } => ErrorView::NotImplemented { feature: feature@ },
            Error::Io { message } => ErrorView::Io { message: message@ },
            Error::Json { message } => ErrorView::Json { message: message@ },
        }
    }
}

/// A result with its error taken by view.
pub open spec fn res_view<T>(r: Result<T, Error>) -> Result<T, ErrorView> {
    match r {
        Ok(t) => Ok(t),
        Err(e) => Err(e@),
    }
}

/// A result with both sides taken by view.
pub open spec fn res_views<T: View>(r: Result<T, Error>) -> Result<T::V, ErrorView> {
    match r {
        Ok(t) => Ok(t@),
        Err(e) => Err(e@),
    }
}

/// A list of strings or an error, taken by view.
pub open spec fn strings_res_view(r: Result<Vec<String>, Error>) -> Result<
    Seq<Seq<char>>,
    ErrorView,
> {
    match r {
        Ok(v) => Ok(crate::text::string_views(v@)),
        Err(e) => Err(e@),
    }
}

/// The message of an error, as it is shown to the user.
pub open spec fn error_text(e: ErrorView) -> Seq<char> {
    match e {
        ErrorView::CommandFailed { command, message } => "Command '"@ + command + "' failed: "@
            + message,
        ErrorView::Parse { message } => "Failed to parse output: "@ + message,
        ErrorView::UserCancelled => "Operation cancelled by user"@,
        ErrorView::NoDevicesAvailable { platform } => "No "@ + platform + " devices available"@,
        ErrorView::NoPlatformsAvailable => "No platform tools are available"@,
        ErrorView::NotImplemented { feature } => feature + " is not yet implemented"@,
        ErrorView::Io { message } => "IO error: "@ + message,
        ErrorView::Json { message } => "JSON error: "@ + message,
    }
}

impl Error {
    /// The message shown to the user for this error.
    pub fn to_string(&self) -> (r: String)
        ensures
            r@ == error_text(self@),
    {
        match self {
            Error::CommandFailed { command, message } => {
                let mut r = "Command '".to_string();
                r.append(command.as_str());
                r.append("' failed: ");
                r.append(message.as_str());
                r
            },
            Error::Parse { message } => {
                let mut r = "Failed to parse output: ".to_string();
                r.append(message.as_str());
                r
            },
            Error::UserCancelled => "Operation cancelled by user".to_string(),
            Error::NoDevicesAvailable { platform } => {
                let mut r = "No ".to_string();
                r.append(platform.as_str());
                r.append(" devices available");
                r
            },
            Error::NoPlatformsAvailable => "No platform tools are available".to_string(),
            Error::NotImplemented { feature } => {
                let mut r = feature.clone();
                r.append(" is not yet implemented");
                r
            },
            Error::Io { message } => {
                let mut r = "IO error: ".to_string();
                r.append(message.as_str());
                r
            },
            Error::Json { message } => {
                let mut r = "JSON error: ".to_string();
                r.append(message.as_str());
                r
            },
        }
    }
}

} // verus!
