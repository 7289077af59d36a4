use gabinator::error::{GabinatorError, GabinatorResult, LogAction, LogPlan, Logger, LoggerLevel};

fn table(entries: &[(&str, &str)]) -> Vec<(String, String)> {
    entries.iter().map(|(key, value)| (key.to_string(), value.to_string())).collect()
}

#[test]
fn default_settings() {
    assert_eq!(
        Logger::get_config_defaults(),
        table(&[
            ("on_info", "warn"),
            ("on_warning", "warn"),
            ("on_result", "warn"),
            ("on_error", "warn"),
            ("on_critical", "panic"),
            ("IP", "127.0.0.1"),
            ("port", "3000"),
        ])
    );
}

#[test]
fn loaded_settings_replace_the_defaults() {
    let loaded = table(&[("on_info", "debug")]);
    assert_eq!(Logger::get_config_content(Some(loaded.clone())), loaded);
    assert_eq!(Logger::get_config_content(None), Logger::get_config_defaults());
}

#[test]
fn default_actions() {
    assert_eq!(Logger::action(LoggerLevel::Info, None), LogAction::Warn);
    assert_eq!(Logger::action(LoggerLevel::Warning, None), LogAction::Warn);
    assert_eq!(Logger::action(LoggerLevel::Result, None), LogAction::Warn);
    assert_eq!(Logger::action(LoggerLevel::Error, None), LogAction::Warn);
    assert_eq!(Logger::action(LoggerLevel::Critical, None), LogAction::Panic);
    assert_eq!(Logger::action(LoggerLevel::Debug, None), LogAction::Warn);
}

#[test]
fn configured_actions() {
    let config = table(&[
        ("on_info", "debug"),
        ("on_warning", "panic"),
        ("on_result", "quiet"),
        ("on_critical", "warn"),
        ("on_debug", "debug"),
    ]);
    assert_eq!(Logger::action(LoggerLevel::Info, Some(&config)), LogAction::Debug);
    assert_eq!(Logger::action(LoggerLevel::Warning, Some(&config)), LogAction::Panic);
    assert_eq!(Logger::action(LoggerLevel::Result, Some(&config)), LogAction::Ignore);
    assert_eq!(Logger::action(LoggerLevel::Error, Some(&config)), LogAction::Warn);
    assert_eq!(Logger::action(LoggerLevel::Critical, Some(&config)), LogAction::Warn);
    assert_eq!(Logger::action(LoggerLevel::Debug, Some(&config)), LogAction::Debug);
}

#[test]
fn first_entry_of_a_key_counts() {
    let config = table(&[("on_error", "debug"), ("on_error", "panic")]);
    assert_eq!(Logger::action(LoggerLevel::Error, Some(&config)), LogAction::Debug);
}

#[test]
fn log_line_carries_stamp_tag_and_message() {
    assert_eq!(Logger::line("T", "hello", LoggerLevel::Info), "[T][LOG]hello");
    assert_eq!(Logger::line("T", "hello", LoggerLevel::Warning), "[T][Warning]hello");
    assert_eq!(Logger::line("T", "hello", LoggerLevel::Result), "[T][Result]hello");
    assert_eq!(Logger::line("T", "hello", LoggerLevel::Error), "[T][Error]hello");
    assert_eq!(Logger::line("T", "hello", LoggerLevel::Critical), "[T][Critical]hello");
    assert_eq!(Logger::line("", "", LoggerLevel::Debug), "[][Debug]");
}

#[test]
fn plan_of_a_warning() {
    assert_eq!(
        Logger::plan("t1", "t2", "careful", LoggerLevel::Warning, None),
        LogPlan { appends: vec!["[t1][Warning]careful".to_string()], echo: None, panic_message: None }
    );
}

#[test]
fn plan_of_a_critical_message_aborts() {
    assert_eq!(
        Logger::plan("t1", "t2", "gone", LoggerLevel::Critical, None),
        LogPlan {
            appends: vec![
                "[t1][Critical]gone".to_string(),
                "[t2]PANICKING AS DEFINED IN CONFIG".to_string(),
            ],
            echo: None,
            panic_message: Some("[t1][Critical]gone\nPANICKING AS DEFINED IN CONFIG".to_string()),
        }
    );
}

#[test]
fn plan_of_a_printed_message() {
    let config = table(&[("on_info", "debug")]);
    assert_eq!(
        Logger::plan("t1", "t2", "seen", LoggerLevel::Info, Some(&config)),
        LogPlan {
            appends: vec!["[t1][LOG]seen".to_string()],
            echo: Some("[t1][LOG]seen".to_string()),
            panic_message: None,
        }
    );
}

#[test]
fn plan_of_an_ignored_message() {
    let config = table(&[("on_info", "off")]);
    assert_eq!(
        Logger::plan("t1", "t2", "unseen", LoggerLevel::Info, Some(&config)),
        LogPlan { appends: Vec::new(), echo: None, panic_message: None }
    );
}

#[test]
fn debug_message_without_an_entry_is_appended() {
    let other = table(&[("on_info", "panic")]);
    for given in [None, Some(&other)] {
        assert_eq!(Logger::action(LoggerLevel::Debug, given), LogAction::Warn);
        assert_eq!(
            Logger::plan("t1", "t2", "detail", LoggerLevel::Debug, given),
            LogPlan {
                appends: vec!["[t1][Debug]detail".to_string()],
                echo: None,
                panic_message: None,
            }
        );
    }
}

#[test]
fn entry_of_the_table_decides_for_debug_messages() {
    let printed = table(&[("on_debug", "debug")]);
    assert_eq!(
        Logger::plan("t1", "t2", "detail", LoggerLevel::Debug, Some(&printed)),
        LogPlan {
            appends: vec!["[t1][Debug]detail".to_string()],
            echo: Some("[t1][Debug]detail".to_string()),
            panic_message: None,
        }
    );
    let dropped = table(&[("on_debug", "off")]);
    assert_eq!(
        Logger::plan("t1", "t2", "detail", LoggerLevel::Debug, Some(&dropped)),
        LogPlan { appends: Vec::new(), echo: None, panic_message: None }
    );
    let fatal = table(&[("on_debug", "panic")]);
    assert!(Logger::plan("t1", "t2", "detail", LoggerLevel::Debug, Some(&fatal))
        .panic_message
        .is_some());
}

#[test]
fn logging_at_debug_level_does_not_abort() {
    let plan = Logger::log("Error capturing image", LoggerLevel::Debug, None);
    assert_eq!(plan.panic_message, None);
    assert_eq!(plan.echo, None);
    assert_eq!(plan.appends.len(), 1);
    assert!(plan.appends[0].ends_with("][Debug]Error capturing image"));
}

#[test]
fn log_stamps_the_message() {
    let plan = Logger::log("started", LoggerLevel::Info, None);
    assert_eq!(plan.appends.len(), 1);
    assert_eq!(plan.echo, None);
    assert_eq!(plan.panic_message, None);
    let line = &plan.appends[0];
    assert!(line.starts_with('['));
    assert!(line.ends_with("][LOG]started"));
    assert!(line.len() > "[][LOG]started".len());
}

#[test]
fn first_content_of_the_log_file_has_no_line_break() {
    assert_eq!(Logger::append_file_content(0, "first"), "first");
    assert_eq!(Logger::append_file_content(1, "second"), "\nsecond");
    assert_eq!(Logger::append_file_content(u64::MAX, ""), "\n");
}

#[test]
fn page_rule_holds_the_stamp() {
    assert_eq!(
        Logger::page_rule("NOW"),
        "\n\n----------------------------------------NOW----------------------------------------\n\n"
    );
    let rule = Logger::start_new_page();
    assert!(rule.starts_with("\n\n----------------------------------------"));
    assert!(rule.ends_with("----------------------------------------\n\n"));
    assert!(rule.len() > Logger::page_rule("").len());
}

#[test]
fn errors_carry_their_reason_and_log_plan() {
    let (error, plan) = GabinatorError::newUSB("no device", LoggerLevel::Error, None);
    assert_eq!(error, GabinatorError::UsbError("no device".to_string()));
    assert_eq!(error.message(), "no device");
    assert_eq!(plan.appends.len(), 1);
    assert!(plan.appends[0].ends_with("][Error]no device"));

    let (error, _) = GabinatorError::newCapture("no frame", LoggerLevel::Warning, None);
    assert_eq!(error, GabinatorError::CaptureError("no frame".to_string()));
    let (error, _) = GabinatorError::newMain("bad argument", LoggerLevel::Info, None);
    assert_eq!(error, GabinatorError::MainError("bad argument".to_string()));
    let (error, _) = GabinatorError::newLogger("no file", LoggerLevel::Error, None);
    assert_eq!(error, GabinatorError::LoggerError("no file".to_string()));
}

#[test]
fn critical_error_plans_an_abort() {
    let (error, plan) = GabinatorError::newUSB("lost", LoggerLevel::Critical, None);
    assert_eq!(error, GabinatorError::UsbError("lost".to_string()));
    assert_eq!(plan.appends.len(), 2);
    assert!(plan.appends[1].ends_with("]PANICKING AS DEFINED IN CONFIG"));
    assert!(plan.panic_message.unwrap().ends_with("][Critical]lost\nPANICKING AS DEFINED IN CONFIG"));
}

#[test]
fn results_are_logged_as_results() {
    let (result, plan) = GabinatorResult::newUSB("done", None);
    assert_eq!(result, GabinatorResult::UsbResult("done".to_string()));
    assert_eq!(result.message(), "done");
    assert_eq!(plan.appends.len(), 1);
    assert!(plan.appends[0].ends_with("][Result]done"));

    let quiet = table(&[("on_result", "none")]);
    let (result, plan) = GabinatorResult::newCapture("frame", Some(&quiet));
    assert_eq!(result, GabinatorResult::CaptureResult("frame".to_string()));
    assert!(plan.appends.is_empty());
    let (result, _) = GabinatorResult::newMain("parsed", None);
    assert_eq!(result, GabinatorResult::MainResult("parsed".to_string()));
    let (result, _) = GabinatorResult::newLogger("rotated", None);
    assert_eq!(result, GabinatorResult::LoggerResult("rotated".to_string()));
}
