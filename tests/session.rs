use session_config::error::ConfigError;
use session_config::log_level::ConsoleLog;
use session_config::session::SessionConfig;

#[test]
fn existing_directory_is_adopted() {
    let mut c = SessionConfig::default();
    let ok = c.validate_and_update_cwd(Some("/work".to_string()), true, Some("/home".to_string()));
    assert!(ok);
    assert_eq!(c.cwd, Some("/work".to_string()));
}

#[test]
fn non_directory_falls_back_to_current() {
    let mut c = SessionConfig::default();
    let ok = c.validate_and_update_cwd(Some("/nope".to_string()), false, Some("/home".to_string()));
    assert!(ok);
    assert_eq!(c.cwd, Some("/home".to_string()));
}

#[test]
fn absent_request_falls_back_to_current() {
    let mut c = SessionConfig::default();
    c.cwd = Some("/old".to_string());
    let ok = c.validate_and_update_cwd(None, false, Some("/home".to_string()));
    assert!(ok);
    assert_eq!(c.cwd, Some("/home".to_string()));
}

#[test]
fn no_current_directory_leaves_cwd_unset() {
    let mut c = SessionConfig::default();
    c.cwd = Some("/old".to_string());
    let ok = c.validate_and_update_cwd(Some("/nope".to_string()), false, None);
    assert!(!ok);
    assert_eq!(c.cwd, None);
}

#[test]
fn resolving_twice_gives_the_same_cwd() {
    let mut c = SessionConfig::default();
    c.validate_and_update_cwd(Some("/nope".to_string()), false, Some("/home".to_string()));
    let first = c.cwd.clone();
    c.validate_and_update_cwd(Some("/nope".to_string()), false, Some("/home".to_string()));
    assert_eq!(c.cwd, first);
}

#[test]
fn resolving_keeps_other_fields() {
    let mut c = SessionConfig::default();
    c.chip = Some("nrf52".to_string());
    c.core_index = 1;
    c.validate_and_update_cwd(Some("/work".to_string()), true, None);
    assert_eq!(c.chip, Some("nrf52".to_string()));
    assert_eq!(c.core_index, 1);
}

#[test]
fn absolute_path_is_kept() {
    let mut c = SessionConfig::default();
    c.cwd = Some("/work".to_string());
    assert_eq!(c.qualify_and_update_os_file_path(Some("/bin/app.elf".to_string())), Ok("/bin/app.elf".to_string()));
    c.cwd = None;
    assert_eq!(c.qualify_and_update_os_file_path(Some("/bin/app.elf".to_string())), Ok("/bin/app.elf".to_string()));
}

#[test]
fn relative_path_is_joined_to_cwd() {
    let mut c = SessionConfig::default();
    c.cwd = Some("/work".to_string());
    assert_eq!(
        c.qualify_and_update_os_file_path(Some("target/app.elf".to_string())),
        Ok("/work/target/app.elf".to_string())
    );
    c.cwd = Some("/work/".to_string());
    assert_eq!(
        c.qualify_and_update_os_file_path(Some("app.svd".to_string())),
        Ok("/work/app.svd".to_string())
    );
}

#[test]
fn missing_path_is_refused() {
    let mut c = SessionConfig::default();
    c.cwd = Some("/work".to_string());
    assert_eq!(c.qualify_and_update_os_file_path(None), Err(ConfigError::MissingPath));
}

#[test]
fn relative_path_without_cwd_is_refused() {
    let mut c = SessionConfig::default();
    assert_eq!(
        c.qualify_and_update_os_file_path(Some("app.elf".to_string())),
        Err(ConfigError::InvalidWorkingDirectory { working_directory: None })
    );
}

#[test]
fn qualifying_leaves_config_unchanged() {
    let mut c = SessionConfig::default();
    c.cwd = Some("/work".to_string());
    let _ = c.qualify_and_update_os_file_path(Some("app.elf".to_string()));
    assert_eq!(c.cwd, Some("/work".to_string()));
    assert_eq!(c.program_binary, None);
}

#[test]
fn default_config_logs_errors() {
    let c = SessionConfig::default();
    assert_eq!(c.console_log_level, Some(ConsoleLog::Error));
    assert_eq!(c.effective_console_log_level(), ConsoleLog::Error);
    assert_eq!(c.core_index, 0);
    assert!(!c.flashing_enabled);
}

#[test]
fn unset_level_is_error_in_force() {
    let mut c = SessionConfig::default();
    c.console_log_level = None;
    assert_eq!(c.effective_console_log_level(), ConsoleLog::Error);
    c.console_log_level = Some(ConsoleLog::Debug);
    assert_eq!(c.effective_console_log_level(), ConsoleLog::Debug);
}
