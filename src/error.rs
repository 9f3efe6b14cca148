use vstd::prelude::*;

verus! {

/// Errors of the application. Each variant carries the text that describes
/// what went wrong.
#[derive(Clone, Debug)]
pub enum AppError {
    /// A generic error.
    GenericError(String),
    /// Failed to get an environment variable: its name and the reason.
    EnvironmentVariableError(String, String),
    /// An I/O operation failed.
    IOError(String),
    /// The desktop shell reported an error.
    TauriError(String),
    /// An operation of the container engine failed.
    DockerError(String),
    /// Reading or writing YAML failed.
    YamlError(String),
    /// The configuration breaks one of its rules.
    ConfigError(String),
    /// The primary service did not report healthy in time.
    StartupTimedOut,
}

pub open spec fn startup_timed_out_text() -> Seq<char> {
    seq!['S', 't', 'a', 'r', 't', 'u', 'p', ' ', 't', 'o', 'o', 'k', ' ', 't', 'o', 'o', ' ', 'l', 'o', 'n', 'g']
}

/// The text shown to a user for an error: a fixed lead-in per variant,
/// followed by the carried text.
pub open spec fn error_message(e: AppError) -> Seq<char> {
    match e {
        AppError::GenericError(s) => "An error occurred: "@ + s@,
        AppError::EnvironmentVariableError(name, reason) =>
            "Failed to get environment variable: "@ + name@ + "\n\n"@ + reason@,
        AppError::IOError(s) => "An I/O operation failed: "@ + s@,
        AppError::TauriError(s) => "An error occurred with tauri: "@ + s@,
        AppError::DockerError(s) => "Docker error: "@ + s@,
        AppError::YamlError(s) => "YAML error: "@ + s@,
        AppError::ConfigError(s) => "Invalid configuration: "@ + s@,
        AppError::StartupTimedOut => startup_timed_out_text(),
    }
}

impl AppError {
    /// The text shown to a user for this error.
    pub fn message(&self) -> (r: String)
        ensures
            r@ == error_message(*self),
    {
        match self {
            AppError::GenericError(s) => String::from_str("An error occurred: ").concat(s.as_str()),
            AppError::EnvironmentVariableError(name, reason) => {
                let mut r = String::from_str("Failed to get environment variable: ");
                r.append(name.as_str());
                r.append("\n\n");
                r.append(reason.as_str());
                r
            },
            AppError::IOError(s) => String::from_str("An I/O operation failed: ").concat(s.as_str()),
            AppError::TauriError(s) => String::from_str("An error occurred with tauri: ").concat(
                s.as_str(),
            ),
            AppError::DockerError(s) => String::from_str("Docker error: ").concat(s.as_str()),
            AppError::YamlError(s) => String::from_str("YAML error: ").concat(s.as_str()),
            AppError::ConfigError(s) => String::from_str("Invalid configuration: ").concat(
                s.as_str(),
            ),
            AppError::StartupTimedOut => {
                let r = String::from_str("Startup took too long");
                proof {
                    reveal_strlit("Startup took too long");
                }
                assert(r@ =~= startup_timed_out_text());
                r
            },
        }
    }
}

} // verus!
