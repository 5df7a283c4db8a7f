use verge_config::{
    validation_outcome, Action, Config, ConfigError, ConfigType, Event, OutcomeKind, Startup,
    ValidatorResult,
};

fn checked(valid: bool, message: &str) -> ValidatorResult {
    ValidatorResult::Checked { valid, message: message.to_string() }
}

#[test]
fn generate_file_before_generate_fails() {
    let config = Config::new();
    assert!(config.runtime().latest().config.is_none());
    match config.generate_file(ConfigType::Run) {
        Err(e) => {
            assert_eq!(e, ConfigError::NoRuntimeConfig);
            assert_eq!(e.message(), "failed to get runtime config");
        }
        Ok(_) => panic!("a file was produced without a runtime configuration"),
    }
}

#[test]
fn generate_then_generate_file() {
    let mut config = Config::new();
    config.generate("mode: rule\n".to_string(), vec!["mode".to_string()], vec![]);
    assert!(!config.runtime().has_draft());
    assert_eq!(config.runtime().latest().exists_keys, vec!["mode".to_string()]);
    let run = config.generate_file(ConfigType::Run).unwrap();
    assert_eq!(run.file_name, "clash-verge.yaml");
    assert_eq!(run.contents, "# Generated by Clash Verge\n\nmode: rule\n");
    let check = config.generate_file(ConfigType::Check).unwrap();
    assert_eq!(check.file_name, "clash-verge-check.yaml");
    assert_eq!(check.contents, run.contents);
}

#[test]
fn generate_overrides_pending_runtime_draft() {
    let mut config = Config::new();
    config.generate("a: 1\n".to_string(), vec![], vec![]);
    config.runtime_mut().draft_mut().config = None;
    assert!(config.generate_file(ConfigType::Run).is_err());
    config.generate("b: 2\n".to_string(), vec![], vec!["step".to_string()]);
    assert!(!config.runtime().has_draft());
    assert_eq!(config.runtime().latest().chain_logs, vec!["step".to_string()]);
    assert!(config.generate_file(ConfigType::Run).is_ok());
}

#[test]
fn outcome_tags() {
    assert_eq!(OutcomeKind::Success.tag(), "config_validate::success");
    assert_eq!(OutcomeKind::BootError.tag(), "config_validate::boot_error");
    assert_eq!(OutcomeKind::StderrError.tag(), "config_validate::stderr_error");
    assert_eq!(OutcomeKind::ProcessTerminated.tag(), "config_validate::process_terminated");
    assert_eq!(OutcomeKind::Error.tag(), "config_validate::error");
}

#[test]
fn empty_rejection_is_boot_error() {
    let o = validation_outcome(checked(false, ""));
    assert_eq!(o.kind, OutcomeKind::BootError);
    assert_eq!(o.detail, "");
}

#[test]
fn rejection_with_message_is_stderr_error() {
    let o = validation_outcome(checked(false, "bad key X"));
    assert_eq!(o.kind, OutcomeKind::StderrError);
    assert_eq!(o.detail, "bad key X");
}

#[test]
fn acceptance_is_success() {
    let o = validation_outcome(checked(true, "warning"));
    assert_eq!(o.kind, OutcomeKind::Success);
    assert_eq!(o.detail, "");
}

#[test]
fn process_failure_is_terminated() {
    let o = validation_outcome(ValidatorResult::ProcessFailed);
    assert_eq!(o.kind, OutcomeKind::ProcessTerminated);
    assert_eq!(o.detail, "");
}

fn to_validate() -> Startup {
    Startup::new()
        .advance(Event::ProfilesEnsured)
        .advance(Event::Generated)
        .advance(Event::Persisted { ok: true })
}

#[test]
fn boot_error_installs_default_with_empty_detail() {
    let s = to_validate().advance(Event::Validated { report: checked(false, "") });
    match s.action() {
        Action::InstallDefault { kind, detail } => {
            assert_eq!(kind.tag(), "config_validate::boot_error");
            assert_eq!(detail, "");
        }
        _ => panic!("the default configuration was not requested"),
    }
    let s = s.advance(Event::FallbackInstalled { ok: true });
    match s.action() {
        Action::ScheduleNotice { kind, detail } => {
            assert_eq!(kind, OutcomeKind::BootError);
            assert_eq!(detail, "");
        }
        _ => panic!("no notice was requested"),
    }
}

#[test]
fn stderr_error_carries_message() {
    let s = to_validate().advance(Event::Validated { report: checked(false, "bad key X") });
    match s.action() {
        Action::InstallDefault { kind, detail } => {
            assert_eq!(kind.tag(), "config_validate::stderr_error");
            assert_eq!(detail, "bad key X");
        }
        _ => panic!("the default configuration was not requested"),
    }
}

#[test]
fn success_skips_fallback() {
    let s = to_validate().advance(Event::Validated { report: checked(true, "") });
    match s.action() {
        Action::ScheduleNotice { kind, detail } => {
            assert_eq!(kind.tag(), "config_validate::success");
            assert_eq!(detail, "");
        }
        _ => panic!("expected the notice of success"),
    }
    let s = s.advance(Event::NoticeScheduled);
    assert!(matches!(s.action(), Action::Finish));
}

#[test]
fn persist_failure_falls_back_with_error_tag() {
    let s = Startup::new()
        .advance(Event::ProfilesEnsured)
        .advance(Event::Generated)
        .advance(Event::Persisted { ok: false });
    match s.action() {
        Action::InstallDefault { kind, detail } => {
            assert_eq!(kind.tag(), "config_validate::error");
            assert_eq!(detail, "");
        }
        _ => panic!("the default configuration was not requested"),
    }
}

#[test]
fn failed_fallback_aborts() {
    let s = to_validate()
        .advance(Event::Validated { report: ValidatorResult::ProcessFailed })
        .advance(Event::FallbackInstalled { ok: false });
    assert!(matches!(s.action(), Action::Abort));
    assert!(matches!(s, Startup::Failed { .. }));
}

#[test]
fn unrelated_event_leaves_state() {
    let s = Startup::new().advance(Event::NoticeScheduled);
    assert!(matches!(s, Startup::EnsureProfiles));
    let s = to_validate().advance(Event::Generated);
    assert!(matches!(s, Startup::Validate));
}

#[test]
fn startup_end_to_end_on_empty_profiles() {
    let mut config = Config::new();
    let mut written: Vec<String> = Vec::new();
    let mut notices: Vec<(String, String)> = Vec::new();
    let mut state = Startup::new();
    loop {
        let event = match state.action() {
            Action::EnsureProfiles => {
                config.ensure_synthetic_profiles();
                Event::ProfilesEnsured
            }
            Action::Generate => {
                let n = config.profiles().latest().items.len();
                config.generate(format!("profiles: {}\n", n), vec![], vec![]);
                Event::Generated
            }
            Action::Persist => match config.generate_file(ConfigType::Run) {
                Ok(file) => {
                    written.push(file.file_name);
                    Event::Persisted { ok: true }
                }
                Err(_) => Event::Persisted { ok: false },
            },
            Action::Validate => Event::Validated { report: checked(true, "") },
            Action::InstallDefault { .. } => Event::FallbackInstalled { ok: true },
            Action::ScheduleNotice { kind, detail } => {
                notices.push((kind.tag().to_string(), detail));
                Event::NoticeScheduled
            }
            Action::Finish | Action::Abort => break,
        };
        state = state.advance(event);
    }
    let profiles = config.profiles().latest();
    assert!(profiles.get_item(&"Merge".to_string()).is_some());
    assert!(profiles.get_item(&"Script".to_string()).is_some());
    assert_eq!(config.runtime().latest().config.as_deref(), Some("profiles: 2\n"));
    assert_eq!(written, vec!["clash-verge.yaml".to_string()]);
    assert_eq!(notices, vec![("config_validate::success".to_string(), String::new())]);
    assert!(matches!(state, Startup::Done { .. }));
}
