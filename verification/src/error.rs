//! The errors of an injection.

use vstd::prelude::*;
use vstd::string::*;

verus! {

/// Why an injection failed. Each variant carries the text that describes the
/// failure.
#[derive(Debug)]
pub enum InjectionError {
    /// Reading or writing a file failed.
    IoError(String),
    /// The game installation is not where it was said to be.
    InvalidGamePath(String),
    /// No archive serves a selection, or an archive gives no valid mod.
    MissingFantomeFile(String),
    /// The overlay tool ran and failed, or could not be run.
    ProcessError(String),
    /// The game configuration could not be patched.
    ConfigError(String),
    /// The overlay tool is missing, or the overlay could not be started.
    OverlayError(String),
    Timeout(String),
    Aborted(String),
    /// Walking a directory tree failed.
    WalkdirError(String),
    /// An archive could not be read.
    ZipError(String),
}

/// The class of an [`InjectionError`].
#[derive(Debug, Clone, Copy, PartialEq, Eq, Structural)]
pub enum ErrorKind {
    Io,
    InvalidGamePath,
    MissingFantomeFile,
    Process,
    Config,
    Overlay,
    Timeout,
    Aborted,
    Walkdir,
    Zip,
}

impl View for InjectionError {
    type V = (ErrorKind, Seq<char>);

    open spec fn view(&self) -> (ErrorKind, Seq<char>) {
        match self {
            InjectionError::IoError(m) => (ErrorKind::Io, m@),
            InjectionError::InvalidGamePath(m) => (ErrorKind::InvalidGamePath, m@),
            InjectionError::MissingFantomeFile(m) => (ErrorKind::MissingFantomeFile, m@),
            InjectionError::ProcessError(m) => (ErrorKind::Process, m@),
            InjectionError::ConfigError(m) => (ErrorKind::Config, m@),
            InjectionError::OverlayError(m) => (ErrorKind::Overlay, m@),
            InjectionError::Timeout(m) => (ErrorKind::Timeout, m@),
            InjectionError::Aborted(m) => (ErrorKind::Aborted, m@),
            InjectionError::WalkdirError(m) => (ErrorKind::Walkdir, m@),
            InjectionError::ZipError(m) => (ErrorKind::Zip, m@),
        }
    }
}

/// The words that introduce an error of each class.
pub open spec fn kind_label(kind: ErrorKind) -> Seq<char> {
    match kind {
        ErrorKind::Io => "IO Error: "@,
        ErrorKind::InvalidGamePath => "Invalid game path: "@,
        ErrorKind::MissingFantomeFile => "Missing fantome file: "@,
        ErrorKind::Process => "Process error: "@,
        ErrorKind::Config => "Configuration error: "@,
        ErrorKind::Overlay => "Overlay error: "@,
        ErrorKind::Timeout => "Timeout: "@,
        ErrorKind::Aborted => "Aborted: "@,
        ErrorKind::Walkdir => "Walkdir error: "@,
        ErrorKind::Zip => "Zip error: "@,
    }
}

impl InjectionError {
    /// The class of this error.
    pub fn kind(&self) -> (kind: ErrorKind)
        ensures
            kind == self@.0,
    {
        match self {
            InjectionError::IoError(_) => ErrorKind::Io,
            InjectionError::InvalidGamePath(_) => ErrorKind::InvalidGamePath,
            InjectionError::MissingFantomeFile(_) => ErrorKind::MissingFantomeFile,
            InjectionError::ProcessError(_) => ErrorKind::Process,
            InjectionError::ConfigError(_) => ErrorKind::Config,
            InjectionError::OverlayError(_) => ErrorKind::Overlay,
            InjectionError::Timeout(_) => ErrorKind::Timeout,
            InjectionError::Aborted(_) => ErrorKind::Aborted,
            InjectionError::WalkdirError(_) => ErrorKind::Walkdir,
            InjectionError::ZipError(_) => ErrorKind::Zip,
        }
    }

    /// The text that the error carries.
    pub fn detail(&self) -> (text: &String)
        ensures
            text@ == self@.1,
    {
        match self {
            InjectionError::IoError(m) => m,
            InjectionError::InvalidGamePath(m) => m,
            InjectionError::MissingFantomeFile(m) => m,
            InjectionError::ProcessError(m) => m,
            InjectionError::ConfigError(m) => m,
            InjectionError::OverlayError(m) => m,
            InjectionError::Timeout(m) => m,
            InjectionError::Aborted(m) => m,
            InjectionError::WalkdirError(m) => m,
            InjectionError::ZipError(m) => m,
        }
    }

    /// The error as one line: the label of its class, then its text.
    pub fn describe(&self) -> (line: String)
        ensures
            line@ == kind_label(self@.0) + self@.1,
    {
        let label = match self {
            InjectionError::IoError(_) => "IO Error: ",
            InjectionError::InvalidGamePath(_) => "Invalid game path: ",
            InjectionError::MissingFantomeFile(_) => "Missing fantome file: ",
            InjectionError::ProcessError(_) => "Process error: ",
            InjectionError::ConfigError(_) => "Configuration error: ",
            InjectionError::OverlayError(_) => "Overlay error: ",
            InjectionError::Timeout(_) => "Timeout: ",
            InjectionError::Aborted(_) => "Aborted: ",
            InjectionError::WalkdirError(_) => "Walkdir error: ",
            InjectionError::ZipError(_) => "Zip error: ",
        };
        String::from_str(label).concat(self.detail().as_str())
    }
}

/// The part of an injection that failed.
#[derive(Debug, Clone, Copy, PartialEq, Eq, Structural)]
pub enum FailedAt {
    Construction,
    Initialization,
    Injection,
    Cleanup,
}

/// The words that introduce a failure of each part.
pub open spec fn part_label(part: FailedAt) -> Seq<char> {
    match part {
        FailedAt::Construction => "Failed to create injector: "@,
        FailedAt::Initialization => "Failed to initialize: "@,
        FailedAt::Injection => "Failed to inject skins: "@,
        FailedAt::Cleanup => "Failed to stop skin injection: "@,
    }
}

/// The message for the caller of an injection that failed: the label of the
/// part that failed, then the error as one line.
pub fn failure_report(part: FailedAt, error: &InjectionError) -> (report: String)
    ensures
        report@ == part_label(part) + (kind_label(error@.0) + error@.1),
{
    let label = match part {
        FailedAt::Construction => "Failed to create injector: ",
        FailedAt::Initialization => "Failed to initialize: ",
        FailedAt::Injection => "Failed to inject skins: ",
        FailedAt::Cleanup => "Failed to stop skin injection: ",
    };
    String::from_str(label).concat(error.describe().as_str())
}

} // verus!
