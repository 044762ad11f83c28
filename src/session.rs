use vstd::prelude::*;

use crate::error::ConfigError;
use crate::log_level::{default_console_log, ConsoleLog};
use crate::path::{is_relative, path_is_relative, path_pushed, push};

verus! {

/// The link between the debug probe and the target.
#[derive(Debug, Clone, Copy, PartialEq, Eq, Structural)]
pub enum WireProtocol {
    Jtag,
    Swd,
}

/// Options of one debug session. Paths are held as text.
#[derive(Debug, Clone)]
pub struct SessionConfig {
    /// The working directory of the debugger.
    pub cwd: Option<String>,
    /// Binary to debug: relative to `cwd`, or fully qualified.
    pub program_binary: Option<String>,
    /// SVD file of the target: relative to `cwd`, or fully qualified.
    pub svd_file: Option<String>,
    /// Identifies the debug probe to use.
    pub probe_selector: Option<String>,
    /// The core of the target to debug.
    pub core_index: usize,
    /// The target part.
    pub chip: Option<String>,
    /// Protocol of the target connection.
    pub protocol: Option<WireProtocol>,
    /// Speed of the target connection in kHz.
    pub speed: Option<u32>,
    /// Assert the target's reset while connecting.
    pub connect_under_reset: bool,
    /// Allow the chip to be fully erased.
    pub allow_erase_all: bool,
    /// Port on which to listen for debug adapter connections.
    pub port: Option<u16>,
    /// Flash the target before debugging.
    pub flashing_enabled: bool,
    /// Reset the target after flashing.
    pub reset_after_flashing: bool,
    /// Halt the target after reset.
    pub halt_after_reset: bool,
    /// Erase the whole chip rather than page by page.
    pub full_chip_erase: bool,
    /// Restore erased bytes that the binary does not rewrite.
    pub restore_unwritten_bytes: bool,
    /// How much is written to the debugger console.
    pub console_log_level: Option<ConsoleLog>,
}

/// The working directory chosen from the one requested, whether it is an
/// existing directory, and the process's current directory where one could be
/// found.
pub open spec fn resolved_cwd(
    requested: Option<String>,
    requested_is_dir: bool,
    current_dir: Option<String>,
) -> Option<String> {
    match requested {
        Some(dir) if requested_is_dir => Some(dir),
        _ => current_dir,
    }
}

/// What qualifying `candidate` gives against the working directory `cwd`.
pub open spec fn qualified(cwd: Option<Seq<char>>, candidate: Option<Seq<char>>) -> Result<
    Seq<char>,
    ConfigError,
> {
    match candidate {
        None => Err(ConfigError::MissingPath),
        Some(p) => if !path_is_relative(p) {
            Ok(p)
        } else {
            match cwd {
                Some(d) => Ok(path_pushed(d, p)),
                None => Err(ConfigError::InvalidWorkingDirectory { working_directory: None }),
            }
        },
    }
}

/// The view of a text that may be absent.
pub open spec fn text_view(t: Option<String>) -> Option<Seq<char>> {
    match t {
        Some(s) => Some(s@),
        None => None,
    }
}

/// The view of a qualified path, or the error as it stands.
pub open spec fn result_view(r: Result<String, ConfigError>) -> Result<Seq<char>, ConfigError> {
    match r {
        Ok(s) => Ok(s@),
        Err(e) => Err(e),
    }
}

/// An existing directory that is asked for becomes the working directory.
pub proof fn existing_directory_is_adopted(dir: String, current_dir: Option<String>)
    ensures
        resolved_cwd(Some(dir), true, current_dir) == Some(dir),
{
}

/// Where the requested path is absent or no existing directory, the working
/// directory is the process's current one, whatever was requested.
pub proof fn other_requests_fall_back(
    requested: Option<String>,
    requested_is_dir: bool,
    current_dir: Option<String>,
)
    requires
        requested.is_none() || !requested_is_dir,
    ensures
        resolved_cwd(requested, requested_is_dir, current_dir) == current_dir,
{
}

/// Resolving the working directory again with the same answers from the
/// file system gives the same configuration.
pub proof fn resolving_is_idempotent(
    config: SessionConfig,
    requested: Option<String>,
    requested_is_dir: bool,
    current_dir: Option<String>,
)
    ensures
        ({
            let once = config.with_cwd(resolved_cwd(requested, requested_is_dir, current_dir));
            once.with_cwd(resolved_cwd(requested, requested_is_dir, current_dir)) == once
        }),
{
}

/// An absolute path is qualified to itself, whatever the working directory.
pub proof fn absolute_path_is_kept(cwd: Option<Seq<char>>, p: Seq<char>)
    requires
        !path_is_relative(p),
    ensures
        qualified(cwd, Some(p)) == Ok::<Seq<char>, ConfigError>(p),
{
}

/// A relative path is qualified to the working directory joined with it.
pub proof fn relative_path_is_joined(d: Seq<char>, p: Seq<char>)
    requires
        path_is_relative(p),
    ensures
        qualified(Some(d), Some(p)) == Ok::<Seq<char>, ConfigError>(path_pushed(d, p)),
{
}

/// Qualifying no path fails with `MissingPath`.
pub proof fn missing_path_fails(cwd: Option<Seq<char>>)
    ensures
        qualified(cwd, None) == Err::<Seq<char>, ConfigError>(ConfigError::MissingPath),
{
}

/// A relative path with no working directory fails with
/// `InvalidWorkingDirectory`.
pub proof fn relative_path_needs_working_directory(p: Seq<char>)
    requires
        path_is_relative(p),
    ensures
        qualified(None, Some(p)) matches Err(ConfigError::InvalidWorkingDirectory { .. }),
{
}

impl SessionConfig {
    /// This configuration with another working directory.
    pub open spec fn with_cwd(self, cwd: Option<String>) -> SessionConfig {
        SessionConfig { cwd, ..self }
    }

    /// The console log level in force: `Error` where none is named.
    pub open spec fn spec_effective_console_log_level(self) -> ConsoleLog {
        match self.console_log_level {
            Some(level) => level,
            None => ConsoleLog::Error,
        }
    }

    /// Sets the working directory: the one requested where it is an existing
    /// directory, else the process's current directory, else none. The caller
    /// says whether the requested path is a directory and what the current
    /// directory is. Returns whether a working directory is set; where it is
    /// not, the caller reports that no working directory could be found.
    pub fn validate_and_update_cwd(
        &mut self,
        new_cwd: Option<String>,
        new_cwd_is_dir: bool,
        current_dir: Option<String>,
    ) -> (resolved: bool)
        ensures
            *final(self) == old(self).with_cwd(resolved_cwd(new_cwd, new_cwd_is_dir, current_dir)),
            resolved == final(self).cwd.is_some(),
    {
        self.cwd = match new_cwd {
            Some(dir) => {
                if new_cwd_is_dir {
                    Some(dir)
                } else {
                    current_dir
                }
            },
            None => current_dir,
        };
        self.cwd.is_some()
    }

    /// Qualifies a file path: an absolute one is kept, a relative one is
    /// joined to the working directory. Fails with `MissingPath` where no
    /// path is given, and with `InvalidWorkingDirectory` where a relative
    /// path meets an unset working directory. The path is not checked
    /// against the file system.
    pub fn qualify_and_update_os_file_path(&mut self, os_file_to_validate: Option<String>) -> (r:
        Result<String, ConfigError>)
        ensures
            *final(self) == *old(self),
            result_view(r) == qualified(text_view(old(self).cwd), text_view(os_file_to_validate)),
    {
        match os_file_to_validate {
            Some(path) => {
                if is_relative(&path) {
                    match &self.cwd {
                        Some(dir) => Ok(push(dir, &path)),
                        None => Err(ConfigError::InvalidWorkingDirectory { working_directory: None }),
                    }
                } else {
                    Ok(path)
                }
            },
            None => Err(ConfigError::MissingPath),
        }
    }

    /// The console log level in force: `Error` where none is named.
    pub fn effective_console_log_level(&self) -> (r: ConsoleLog)
        ensures
            r == self.spec_effective_console_log_level(),
    {
        match self.console_log_level {
            Some(level) => level,
            None => ConsoleLog::Error,
        }
    }
}

impl Default for SessionConfig {
    /// No working directory or files, core 0, every switch off, and the
    /// console at `Error`.
    fn default() -> (r: SessionConfig)
        ensures
            r.cwd.is_none(),
            r.program_binary.is_none(),
            r.svd_file.is_none(),
            r.probe_selector.is_none(),
            r.core_index == 0,
            r.chip.is_none(),
            r.protocol.is_none(),
            r.speed.is_none(),
            !r.connect_under_reset,
            !r.allow_erase_all,
            r.port.is_none(),
            !r.flashing_enabled,
            !r.reset_after_flashing,
            !r.halt_after_reset,
            !r.full_chip_erase,
            !r.restore_unwritten_bytes,
            r.console_log_level == Some(ConsoleLog::Error),
    {
        SessionConfig {
            cwd: None,
            program_binary: None,
            svd_file: None,
            probe_selector: None,
            core_index: 0,
            chip: None,
            protocol: None,
            speed: None,
            connect_under_reset: false,
            allow_erase_all: false,
            port: None,
            flashing_enabled: false,
            reset_after_flashing: false,
            halt_after_reset: false,
            full_chip_erase: false,
            restore_unwritten_bytes: false,
            console_log_level: default_console_log(),
        }
    }
}

} // verus!
