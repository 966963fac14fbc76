//! The errors that every part of the application reports, and how each is
//! shown to a caller.

use vstd::prelude::*;
use vstd::string::StringExecFns;

verus! {

/// What went wrong, with a message for the caller.
#[derive(Debug, Clone, PartialEq, Eq)]
pub enum AppError {
    /// Reading the state of the machine failed.
    SystemError(String),
    /// An operation on the proxy or its files failed.
    NginxError(String),
    /// An operation on the container engine failed.
    DockerError(String),
    /// The settings are unusable.
    ConfigError(String),
    /// What was asked for does not exist.
    NotFound(String),
    /// The input was refused.
    ValidationError(String),
}

/// The mathematical content of an `AppError`.
pub enum AppErrorView {
    SystemError(Seq<char>),
    NginxError(Seq<char>),
    DockerError(Seq<char>),
    ConfigError(Seq<char>),
    NotFound(Seq<char>),
    ValidationError(Seq<char>),
}

impl AppErrorView {
    /// The name of the kind of error.
    pub open spec fn title(self) -> Seq<char> {
        match self {
            AppErrorView::SystemError(_) => "System Error"@,
            AppErrorView::NginxError(_) => "Nginx Error"@,
            AppErrorView::DockerError(_) => "Docker Error"@,
            AppErrorView::ConfigError(_) => "Configuration Error"@,
            AppErrorView::NotFound(_) => "Not Found"@,
            AppErrorView::ValidationError(_) => "Validation Error"@,
        }
    }

    /// The message that the error carries.
    pub open spec fn message(self) -> Seq<char> {
        match self {
            AppErrorView::SystemError(m) => m,
            AppErrorView::NginxError(m) => m,
            AppErrorView::DockerError(m) => m,
            AppErrorView::ConfigError(m) => m,
            AppErrorView::NotFound(m) => m,
            AppErrorView::ValidationError(m) => m,
        }
    }

    /// The error in one line: its title, a colon, its message.
    pub open spec fn display(self) -> Seq<char> {
        self.title() + ": "@ + self.message()
    }

    /// The HTTP status under which the error is reported: 404 for what does
    /// not exist, 400 for refused input, 500 for everything else.
    pub open spec fn status(self) -> int {
        match self {
            AppErrorView::NotFound(_) => 404,
            AppErrorView::ValidationError(_) => 400,
            _ => 500,
        }
    }
}

impl View for AppError {
    type V = AppErrorView;

    open spec fn view(&self) -> AppErrorView {
        match self {
            AppError::SystemError(m) => AppErrorView::SystemError(m@),
            AppError::NginxError(m) => AppErrorView::NginxError(m@),
            AppError::DockerError(m) => AppErrorView::DockerError(m@),
            AppError::ConfigError(m) => AppErrorView::ConfigError(m@),
            AppError::NotFound(m) => AppErrorView::NotFound(m@),
            AppError::ValidationError(m) => AppErrorView::ValidationError(m@),
        }
    }
}

/// The parts of the response that reports an error: the status, and the two
/// fields of its body.
#[derive(Debug, Clone, PartialEq, Eq)]
pub struct ErrorBody {
    pub status: u16,
    pub error: String,
    pub message: String,
}

impl AppError {
    /// The name of the kind of error.
    pub fn title(&self) -> (s: String)
        ensures
            s@ == self@.title(),
    {
        match self {
            AppError::SystemError(_) => "System Error".to_string(),
            AppError::NginxError(_) => "Nginx Error".to_string(),
            AppError::DockerError(_) => "Docker Error".to_string(),
            AppError::ConfigError(_) => "Configuration Error".to_string(),
            AppError::NotFound(_) => "Not Found".to_string(),
            AppError::ValidationError(_) => "Validation Error".to_string(),
        }
    }

    /// The message that the error carries.
    pub fn message(&self) -> (s: String)
        ensures
            s@ == self@.message(),
    {
        match self {
            AppError::SystemError(m) => m.clone(),
            AppError::NginxError(m) => m.clone(),
            AppError::DockerError(m) => m.clone(),
            AppError::ConfigError(m) => m.clone(),
            AppError::NotFound(m) => m.clone(),
            AppError::ValidationError(m) => m.clone(),
        }
    }

    /// The error in one line, as it is shown and logged.
    pub fn to_string(&self) -> (s: String)
        ensures
            s@ == self@.display(),
    {
        let mut s = self.title();
        s.append(": ");
        let m = self.message();
        s.append(m.as_str());
        s
    }

    /// The HTTP status under which the error is reported.
    pub fn status_code(&self) -> (code: u16)
        ensures
            code == self@.status(),
    {
        match self {
            AppError::NotFound(_) => 404,
            AppError::ValidationError(_) => 400,
            _ => 500,
        }
    }

    /// What the response that reports the error is made of.
    pub fn error_response(&self) -> (body: ErrorBody)
        ensures
            body.status == self@.status(),
            body.error@ == self@.title(),
            body.message@ == self@.message(),
    {
        ErrorBody { status: self.status_code(), error: self.title(), message: self.message() }
    }
}

} // verus!
