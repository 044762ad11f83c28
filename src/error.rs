use vstd::prelude::*;

verus! {

/// What can go wrong while a session configuration is resolved.
#[derive(Debug, Clone, PartialEq, Eq)]
pub enum ConfigError {
    /// A file that the session needs was not named.
    MissingPath,
    /// A relative path was given while no working directory was set; holds
    /// the working directory that was found.
    InvalidWorkingDirectory { working_directory: Option<String> },
    /// A console log level that is not one of the accepted names.
    InvalidLogLevel { text: String },
}

/// The message for a user that an error stands for.
pub open spec fn message_of(e: ConfigError) -> Seq<char> {
    match e {
        ConfigError::MissingPath => "Missing value for file."@,
        ConfigError::InvalidWorkingDirectory { working_directory: None } =>
            "Invalid value None for `cwd`"@,
        ConfigError::InvalidWorkingDirectory { working_directory: Some(d) } =>
            "Invalid value "@ + d@ + " for `cwd`"@,
        ConfigError::InvalidLogLevel { text } => "'"@ + text@
            + "' is not a valid console log level. Choose from [error, warn, info, debug, or trace]."@,
    }
}

impl ConfigError {
    /// The message for a user: for a log level, the text given and the
    /// accepted names.
    pub fn message(&self) -> (r: String)
        ensures
            r@ == message_of(*self),
    {
        match self {
            ConfigError::MissingPath => "Missing value for file.".to_owned(),
            ConfigError::InvalidWorkingDirectory { working_directory: None } =>
                "Invalid value None for `cwd`".to_owned(),
            ConfigError::InvalidWorkingDirectory { working_directory: Some(d) } => {
                let mut m = "Invalid value ".to_owned();
                m.append(d.as_str());
                m.append(" for `cwd`");
                m
            },
            ConfigError::InvalidLogLevel { text } => {
                let mut m = "'".to_owned();
                m.append(text.as_str());
                m.append(
                    "' is not a valid console log level. Choose from [error, warn, info, debug, or trace].",
                );
                m
            },
        }
    }
}

} // verus!
