//! Failures of the transport layer, what is reported of a session, and the logger
//! that decides what becomes of a message.

use vstd::prelude::*;
use vstd::string::StringExecFns;

use crate::text::{append_decimal, spec_decimal};

verus! {

/// Why one handshake attempt ended without a connection. Each is terminal for the
/// attempt: the handshake never retries a failed step by itself.
#[derive(Clone, Copy, Debug, PartialEq, Eq, Structural)]
pub enum HandshakeError {
    /// The `GetProtocolVersion` transfer failed.
    VersionQueryFailed,
    /// The device answered with this protocol version, which is neither 1 nor 2.
    UnsupportedVersion(u16),
    /// The `StartAccessory` transfer failed.
    ProtocolStartFailed,
    /// No device in accessory mode appeared within the poll budget.
    ReenumerationTimeout,
    /// The accessory interface could not be claimed.
    ClaimFailed,
    /// The device has no endpoint that takes bulk transfers from the host.
    NoBulkEndpoint,
}

/// Why discovery passed a device over. Neither ends the pass: other devices may
/// still be candidates.
#[derive(Clone, Copy, Debug, PartialEq, Eq, Structural)]
pub enum DiscoveryError {
    /// The device could not be opened.
    OpenFailed,
    /// The device did not answer the version query with a supported version.
    NotCapable(HandshakeError),
}

/// Error of a USB transfer, one value for each error that the USB stack reports.
#[derive(Clone, Copy, Debug, PartialEq, Eq, Structural)]
pub enum UsbError {
    Io,
    InvalidParam,
    Access,
    NoDevice,
    NotFound,
    Busy,
    Timeout,
    Overflow,
    Pipe,
    Interrupted,
    NoMem,
    NotSupported,
    BadDescriptor,
    Other,
}

/// Kind of an error on a TCP stream.
#[derive(Clone, Copy, Debug, PartialEq, Eq, Structural)]
pub enum IoErrorKind {
    NotConnected,
    ConnectionReset,
    ConnectionAborted,
    BrokenPipe,
    TimedOut,
    WriteZero,
    Interrupted,
    WouldBlock,
    Other,
}

/// Failure of one send, with the error that the transport reported.
#[derive(Clone, Copy, Debug, PartialEq, Eq, Structural)]
pub enum TransportError {
    Usb(UsbError),
    Tcp(IoErrorKind),
}

/// Severity of a log message.
#[derive(Clone, Copy, Debug, PartialEq, Eq, Structural)]
pub enum LoggerLevel {
    Info,
    Warning,
    Result,
    Error,
    Critical,
    Debug,
}

/// What the configuration asks to be done with a message of some level.
#[derive(Clone, Copy, Debug, PartialEq, Eq, Structural)]
pub enum LogAction {
    /// Drop the message.
    Ignore,
    /// Append the message to the log file.
    Warn,
    /// Append the message to the log file and print it.
    Debug,
    /// Append the message and a notice to the log file, then abort.
    Panic,
}

/// What is to be done for one message: the lines to append to the log file, in
/// order; the line to print, if any; and the text to abort with, if any.
#[derive(Clone, Debug, PartialEq, Eq)]
pub struct LogPlan {
    pub appends: Vec<String>,
    pub echo: Option<String>,
    pub panic_message: Option<String>,
}

/// A `LogPlan` as texts.
pub struct LogPlanView {
    pub appends: Seq<Seq<char>>,
    pub echo: Option<Seq<char>>,
    pub panic_message: Option<Seq<char>>,
}

/// An optional string as an optional text.
pub open spec fn spec_text(text: Option<String>) -> Option<Seq<char>> {
    match text {
        Some(s) => Some(s@),
        None => None,
    }
}

impl View for LogPlan {
    type V = LogPlanView;

    open spec fn view(&self) -> LogPlanView {
        LogPlanView {
            appends: self.appends@.map_values(|line: String| line@),
            echo: spec_text(self.echo),
            panic_message: spec_text(self.panic_message),
        }
    }
}

/// The logger: a table of settings, each a key with its value. A lookup takes the
/// first entry of a key; in the default table no key occurs twice.
#[derive(Clone, Debug, PartialEq, Eq)]
pub struct Logger {
    pub config: Vec<(String, String)>,
}

/// The entries of a table as pairs of texts.
pub open spec fn spec_entries(config: Seq<(String, String)>) -> Seq<(Seq<char>, Seq<char>)> {
    config.map_values(|entry: (String, String)| (entry.0@, entry.1@))
}

/// The table that a caller handed in, if any, as pairs of texts.
pub open spec fn spec_given(config: Option<&Vec<(String, String)>>) -> Option<
    Seq<(Seq<char>, Seq<char>)>,
> {
    match config {
        Some(table) => Some(spec_entries(table@)),
        None => None,
    }
}

/// The value of the first entry of `key` in a table.
pub open spec fn spec_lookup(entries: Seq<(Seq<char>, Seq<char>)>, key: Seq<char>) -> Option<
    Seq<char>,
>
    decreases entries.len(),
{
    if entries.len() == 0 {
        None
    } else if entries.first().0 == key {
        Some(entries.first().1)
    } else {
        spec_lookup(entries.drop_first(), key)
    }
}

/// The settings that apply where no configuration was loaded. They hold no entry
/// for debug messages.
pub open spec fn spec_default_entries() -> Seq<(Seq<char>, Seq<char>)> {
    seq![
        ("on_info"@, "warn"@),
        ("on_warning"@, "warn"@),
        ("on_result"@, "warn"@),
        ("on_error"@, "warn"@),
        ("on_critical"@, "panic"@),
        ("IP"@, "127.0.0.1"@),
        ("port"@, "3000"@),
    ]
}

/// Whether no key occurs twice in a table.
pub open spec fn spec_keys_distinct(entries: Seq<(Seq<char>, Seq<char>)>) -> bool {
    forall|i: int, j: int| 0 <= i < j < entries.len() ==> entries[i].0 != entries[j].0
}

/// The key of the setting that governs messages of a level.
pub open spec fn spec_policy_key(level: LoggerLevel) -> Seq<char> {
    match level {
        LoggerLevel::Info => "on_info"@,
        LoggerLevel::Warning => "on_warning"@,
        LoggerLevel::Result => "on_result"@,
        LoggerLevel::Error => "on_error"@,
        LoggerLevel::Critical => "on_critical"@,
        LoggerLevel::Debug => "on_debug"@,
    }
}

/// The tag that a log line carries for a level.
pub open spec fn spec_tag(level: LoggerLevel) -> Seq<char> {
    match level {
        LoggerLevel::Info => "[LOG]"@,
        LoggerLevel::Warning => "[Warning]"@,
        LoggerLevel::Result => "[Result]"@,
        LoggerLevel::Error => "[Error]"@,
        LoggerLevel::Critical => "[Critical]"@,
        LoggerLevel::Debug => "[Debug]"@,
    }
}

/// The action that a setting's value stands for.
pub open spec fn spec_action_of(value: Seq<char>) -> LogAction {
    if value == "panic"@ {
        LogAction::Panic
    } else if value == "warn"@ {
        LogAction::Warn
    } else if value == "debug"@ {
        LogAction::Debug
    } else {
        LogAction::Ignore
    }
}

/// The action for a message of `level` under the table `config`, or under the
/// defaults where there is none. The entry of the table decides where it has one
/// for the level. A level that the table does not mention takes its default. A
/// level that has neither is appended to the log file: no message aborts the
/// program unless an entry asks for it.
pub open spec fn spec_action(
    level: LoggerLevel,
    config: Option<Seq<(Seq<char>, Seq<char>)>>,
) -> LogAction {
    let key = spec_policy_key(level);
    let table = match config {
        Some(entries) => entries,
        None => spec_default_entries(),
    };
    match spec_lookup(table, key) {
        Some(value) => spec_action_of(value),
        None => match spec_lookup(spec_default_entries(), key) {
            Some(fallback) => spec_action_of(fallback),
            None => LogAction::Warn,
        },
    }
}

/// No key occurs twice in the default settings. Under them a critical message
/// aborts and every other message is appended to the log file, a debug message
/// too, which has no default of its own: only a critical message aborts.
pub proof fn lemma_default_actions()
    ensures
        spec_keys_distinct(spec_default_entries()),
        spec_action(LoggerLevel::Info, None) == LogAction::Warn,
        spec_action(LoggerLevel::Warning, None) == LogAction::Warn,
        spec_action(LoggerLevel::Result, None) == LogAction::Warn,
        spec_action(LoggerLevel::Error, None) == LogAction::Warn,
        spec_action(LoggerLevel::Critical, None) == LogAction::Panic,
        spec_action(LoggerLevel::Debug, None) == LogAction::Warn,
        forall|level: LoggerLevel, stamp: Seq<char>, later: Seq<char>, message: Seq<char>|
            level != LoggerLevel::Critical ==> (#[trigger] spec_log_plan(
                stamp,
                later,
                message,
                level,
                None,
            )).panic_message is None,
{
    reveal_strlit("on_info");
    reveal_strlit("on_warning");
    reveal_strlit("on_result");
    reveal_strlit("on_error");
    reveal_strlit("on_critical");
    reveal_strlit("on_debug");
    reveal_strlit("IP");
    reveal_strlit("port");
    reveal_strlit("warn");
    reveal_strlit("panic");
    reveal_strlit("debug");
    reveal_with_fuel(spec_lookup, 8);
    // The keys differ in their fourth character or in their length, the values in
    // their first character.
    assert("on_info"@[3] == 'i' && "on_warning"@[3] == 'w' && "on_result"@[3] == 'r');
    assert("on_error"@[3] == 'e' && "on_critical"@[3] == 'c' && "on_debug"@[3] == 'd');
    assert("IP"@.len() == 2 && "port"@.len() == 4);
    assert("warn"@[0] == 'w' && "panic"@[0] == 'p' && "debug"@[0] == 'd');
}

/// A message aborts the program only where the entry that decides its action says
/// `panic`: the entry of the table for its level or, where the table has none, the
/// default of the level.
pub proof fn lemma_abort_needs_an_entry(
    level: LoggerLevel,
    config: Option<Seq<(Seq<char>, Seq<char>)>>,
    stamp: Seq<char>,
    later: Seq<char>,
    message: Seq<char>,
)
    ensures
        spec_log_plan(stamp, later, message, level, config).panic_message is Some <==> spec_action(
            level,
            config,
        ) == LogAction::Panic,
        spec_action(level, config) == LogAction::Panic ==> {
            ||| spec_lookup(
                match config {
                    Some(entries) => entries,
                    None => spec_default_entries(),
                },
                spec_policy_key(level),
            ) == Some("panic"@)
            ||| spec_lookup(spec_default_entries(), spec_policy_key(level)) == Some("panic"@)
        },
{
}

/// The log line of a message: time stamp in brackets, tag of the level, message.
pub open spec fn spec_log_line(stamp: Seq<char>, message: Seq<char>, level: LoggerLevel) -> Seq<
    char,
> {
    "["@ + stamp + "]"@ + spec_tag(level) + message
}

/// The notice that follows the line of a message whose action is to abort.
pub open spec fn spec_panic_notice(stamp: Seq<char>) -> Seq<char> {
    "["@ + stamp + "]PANICKING AS DEFINED IN CONFIG"@
}

/// What is to be done for a message that was stamped with `stamp`; where a notice
/// follows the message, it is stamped with `later`.
pub open spec fn spec_log_plan(
    stamp: Seq<char>,
    later: Seq<char>,
    message: Seq<char>,
    level: LoggerLevel,
    config: Option<Seq<(Seq<char>, Seq<char>)>>,
) -> LogPlanView {
    let line = spec_log_line(stamp, message, level);
    match spec_action(level, config) {
        LogAction::Panic => LogPlanView {
            appends: seq![line, spec_panic_notice(later)],
            echo: None,
            panic_message: Some(line + "\nPANICKING AS DEFINED IN CONFIG"@),
        },
        LogAction::Warn => LogPlanView { appends: seq![line], echo: None, panic_message: None },
        LogAction::Debug => LogPlanView {
            appends: seq![line],
            echo: Some(line),
            panic_message: None,
        },
        LogAction::Ignore => LogPlanView {
            appends: Seq::empty(),
            echo: None,
            panic_message: None,
        },
    }
}

/// Whether `plan` is what is to be done for `message`, for some time stamps.
pub open spec fn spec_logged(
    plan: LogPlanView,
    message: Seq<char>,
    level: LoggerLevel,
    config: Option<Seq<(Seq<char>, Seq<char>)>>,
) -> bool {
    exists|stamp: Seq<char>, later: Seq<char>|
        plan == #[trigger] spec_log_plan(stamp, later, message, level, config)
}

/// The text that is written to the log file for `content`, the file holding `size`
/// bytes already: a line break goes before anything but the first content.
pub open spec fn spec_append_file_content(size: u64, content: Seq<char>) -> Seq<char> {
    if size == 0 {
        content
    } else {
        "\n"@ + content
    }
}

/// The rule that opens a new page of the log file, stamped with `stamp`.
pub open spec fn spec_page_rule(stamp: Seq<char>) -> Seq<char> {
    "\n\n----------------------------------------"@ + stamp
        + "----------------------------------------\n\n"@
}

/// The current local time as text.
///
/// Trusted: calls `chrono::offset::Local::now` and formats the `DateTime` that it
/// returns with its `Debug` impl. The text depends on the clock and on the time
/// zone of the machine, so nothing is claimed of it. The call takes no argument
/// that a precondition could rule out: it panics on a machine whose clock stands
/// before 1970, or whose time zone data holds no local time type, or no offset
/// within a day, for the present moment. A time zone that cannot be found is
/// taken as UTC.
#[verifier::external_body]
fn local_timestamp() -> String {
    format!("{:?}", chrono::offset::Local::now())
}

fn pair(key: &str, value: &str) -> (entry: (String, String))
    ensures
        entry.0@ == key@,
        entry.1@ == value@,
{
    (String::from_str(key), String::from_str(value))
}

fn lookup<'a>(table: &'a Vec<(String, String)>, key: &str) -> (value: Option<&'a String>)
    ensures
        match value {
            Some(text) => spec_lookup(spec_entries(table@), key@) == Some(text@),
            None => spec_lookup(spec_entries(table@), key@) is None,
        },
{
    let wanted = String::from_str(key);
    let mut i: usize = 0;
    assert(spec_entries(table@).skip(0) =~= spec_entries(table@));
    while i < table.len()
        invariant
            i <= table.len(),
            wanted@ == key@,
            spec_lookup(spec_entries(table@), key@) == spec_lookup(
                spec_entries(table@).skip(i as int),
                key@,
            ),
        decreases table.len() - i,
    {
        let ghost rest = spec_entries(table@).skip(i as int);
        assert(rest.first() == (table@[i as int].0@, table@[i as int].1@));
        assert(rest.drop_first() =~= spec_entries(table@).skip(i + 1));
        if table[i].0 == wanted {
            return Some(&table[i].1);
        }
        i += 1;
    }
    None
}

fn policy_key(level: LoggerLevel) -> (key: &'static str)
    ensures
        key@ == spec_policy_key(level),
{
    match level {
        LoggerLevel::Info => "on_info",
        LoggerLevel::Warning => "on_warning",
        LoggerLevel::Result => "on_result",
        LoggerLevel::Error => "on_error",
        LoggerLevel::Critical => "on_critical",
        LoggerLevel::Debug => "on_debug",
    }
}

fn tag(level: LoggerLevel) -> (text: &'static str)
    ensures
        text@ == spec_tag(level),
{
    match level {
        LoggerLevel::Info => "[LOG]",
        LoggerLevel::Warning => "[Warning]",
        LoggerLevel::Result => "[Result]",
        LoggerLevel::Error => "[Error]",
        LoggerLevel::Critical => "[Critical]",
        LoggerLevel::Debug => "[Debug]",
    }
}

fn action_of(value: &String) -> (action: LogAction)
    ensures
        action == spec_action_of(value@),
{
    if *value == String::from_str("panic") {
        LogAction::Panic
    } else if *value == String::from_str("warn") {
        LogAction::Warn
    } else if *value == String::from_str("debug") {
        LogAction::Debug
    } else {
        LogAction::Ignore
    }
}

impl Logger {
    /// The settings that apply where no configuration was loaded.
    pub fn get_config_defaults() -> (table: Vec<(String, String)>)
        ensures
            spec_entries(table@) == spec_default_entries(),
    {
        let mut table: Vec<(String, String)> = Vec::new();
        table.push(pair("on_info", "warn"));
        table.push(pair("on_warning", "warn"));
        table.push(pair("on_result", "warn"));
        table.push(pair("on_error", "warn"));
        table.push(pair("on_critical", "panic"));
        table.push(pair("IP", "127.0.0.1"));
        table.push(pair("port", "3000"));
        assert(spec_entries(table@) =~= spec_default_entries());
        table
    }

    /// The settings to work with: those loaded from the configuration file, or the
    /// defaults where none could be loaded.
    pub fn get_config_content(loaded: Option<Vec<(String, String)>>) -> (table: Vec<
        (String, String),
    >)
        ensures
            spec_entries(table@) == match loaded {
                Some(entries) => spec_entries(entries@),
                None => spec_default_entries(),
            },
    {
        match loaded {
            Some(entries) => entries,
            None => Logger::get_config_defaults(),
        }
    }

    /// The action for a message of `level`: what the entry of the table for the
    /// level says or, where the table has none, what the default of the level says;
    /// a level that has neither is appended to the log file.
    pub fn action(level: LoggerLevel, config: Option<&Vec<(String, String)>>) -> (action:
        LogAction)
        ensures
            action == spec_action(level, spec_given(config)),
    {
        let key = policy_key(level);
        let defaults = Logger::get_config_defaults();
        let found = match config {
            Some(table) => lookup(table, key),
            None => lookup(&defaults, key),
        };
        match found {
            Some(value) => action_of(value),
            None => match lookup(&defaults, key) {
                Some(fallback) => action_of(fallback),
                None => LogAction::Warn,
            },
        }
    }

    /// The log line of a message that was stamped with `stamp`.
    pub fn line(stamp: &str, message: &str, level: LoggerLevel) -> (line: String)
        ensures
            line@ == spec_log_line(stamp@, message@, level),
    {
        let mut line = String::from_str("[");
        line.append(stamp);
        line.append("]");
        line.append(tag(level));
        line.append(message);
        line
    }

    /// What is to be done for a message that was stamped with `stamp`; where a
    /// notice follows the message, it is stamped with `later`.
    pub fn plan(
        stamp: &str,
        later: &str,
        message: &str,
        level: LoggerLevel,
        config: Option<&Vec<(String, String)>>,
    ) -> (plan: LogPlan)
        ensures
            plan@ == spec_log_plan(stamp@, later@, message@, level, spec_given(config)),
    {
        let line = Logger::line(stamp, message, level);
        let mut appends: Vec<String> = Vec::new();
        let plan = match Logger::action(level, config) {
            LogAction::Panic => {
                let mut notice = String::from_str("[");
                notice.append(later);
                notice.append("]PANICKING AS DEFINED IN CONFIG");
                let mut last_words = line.clone();
                last_words.append("\nPANICKING AS DEFINED IN CONFIG");
                appends.push(line);
                appends.push(notice);
                LogPlan { appends, echo: None, panic_message: Some(last_words) }
            },
            LogAction::Warn => {
                appends.push(line);
                LogPlan { appends, echo: None, panic_message: None }
            },
            LogAction::Debug => {
                appends.push(line.clone());
                LogPlan { appends, echo: Some(line), panic_message: None }
            },
            LogAction::Ignore => LogPlan { appends, echo: None, panic_message: None },
        };
        assert(plan@.appends =~= spec_log_plan(
            stamp@,
            later@,
            message@,
            level,
            spec_given(config),
        ).appends);
        plan
    }

    /// Stamps a message with the current local time and says what is to be done
    /// for it under the given settings: which lines go to the log file, whether
    /// the line is printed, and whether the program aborts.
    pub fn log(message: &str, level: LoggerLevel, config: Option<&Vec<(String, String)>>) -> (plan:
        LogPlan)
        ensures
            spec_logged(plan@, message@, level, spec_given(config)),
    {
        let stamp = local_timestamp();
        let later = local_timestamp();
        Logger::plan(stamp.as_str(), later.as_str(), message, level, config)
    }

    /// The text to write to the log file for `content`, the file holding `size`
    /// bytes already.
    pub fn append_file_content(size: u64, content: &str) -> (text: String)
        ensures
            text@ == spec_append_file_content(size, content@),
    {
        if size == 0 {
            String::from_str(content)
        } else {
            let mut text = String::from_str("\n");
            text.append(content);
            text
        }
    }

    /// The rule that opens a new page of the log file, stamped with `stamp`.
    pub fn page_rule(stamp: &str) -> (rule: String)
        ensures
            rule@ == spec_page_rule(stamp@),
    {
        let mut rule = String::from_str("\n\n----------------------------------------");
        rule.append(stamp);
        rule.append("----------------------------------------\n\n");
        rule
    }

    /// The rule that opens a new page of the log file, stamped with the current
    /// local time.
    pub fn start_new_page() -> (rule: String)
        ensures
            exists|stamp: Seq<char>| rule@ == #[trigger] spec_page_rule(stamp),
    {
        let stamp = local_timestamp();
        Logger::page_rule(stamp.as_str())
    }
}

/// A failure that is reported to the caller, with its reason, by the part of the
/// program that it came from.
#[derive(Clone, Debug, PartialEq, Eq)]
pub enum GabinatorError {
    UsbError(String),
    CaptureError(String),
    MainError(String),
    LoggerError(String),
}

/// A success that is reported to the caller, with its message, by the part of the
/// program that it came from.
#[derive(Clone, Debug, PartialEq, Eq)]
pub enum GabinatorResult {
    UsbResult(String),
    CaptureResult(String),
    MainResult(String),
    LoggerResult(String),
}

impl GabinatorError {
    /// The reason that the failure carries.
    pub open spec fn spec_message(self) -> Seq<char> {
        match self {
            GabinatorError::UsbError(message) => message@,
            GabinatorError::CaptureError(message) => message@,
            GabinatorError::MainError(message) => message@,
            GabinatorError::LoggerError(message) => message@,
        }
    }

    /// The reason that the failure carries.
    pub fn message(&self) -> (message: &String)
        ensures
            message@ == self.spec_message(),
    {
        match self {
            GabinatorError::UsbError(message) => message,
            GabinatorError::CaptureError(message) => message,
            GabinatorError::MainError(message) => message,
            GabinatorError::LoggerError(message) => message,
        }
    }

    /// A failure of the logger with the given reason, and what is to be logged for
    /// it at `level`.
    pub fn newLogger(
        message: &str,
        level: LoggerLevel,
        config: Option<&Vec<(String, String)>>,
    ) -> (made: (GabinatorError, LogPlan))
        ensures
            made.0 is LoggerError,
            made.0.spec_message() == message@,
            spec_logged(made.1@, message@, level, spec_given(config)),
    {
        let plan = Logger::log(message, level, config);
        (GabinatorError::LoggerError(String::from_str(message)), plan)
    }

    /// A failure of the USB transport with the given reason, and what is to be
    /// logged for it at `level`.
    pub fn newUSB(message: &str, level: LoggerLevel, config: Option<&Vec<(String, String)>>) -> (made:
        (GabinatorError, LogPlan))
        ensures
            made.0 is UsbError,
            made.0.spec_message() == message@,
            spec_logged(made.1@, message@, level, spec_given(config)),
    {
        let plan = Logger::log(message, level, config);
        (GabinatorError::UsbError(String::from_str(message)), plan)
    }

    /// A failure of the capture with the given reason, and what is to be logged
    /// for it at `level`.
    pub fn newCapture(
        message: &str,
        level: LoggerLevel,
        config: Option<&Vec<(String, String)>>,
    ) -> (made: (GabinatorError, LogPlan))
        ensures
            made.0 is CaptureError,
            made.0.spec_message() == message@,
            spec_logged(made.1@, message@, level, spec_given(config)),
    {
        let plan = Logger::log(message, level, config);
        (GabinatorError::CaptureError(String::from_str(message)), plan)
    }

    /// A failure of the command line with the given reason, and what is to be
    /// logged for it at `level`.
    pub fn newMain(message: &str, level: LoggerLevel, config: Option<&Vec<(String, String)>>) -> (made:
        (GabinatorError, LogPlan))
        ensures
            made.0 is MainError,
            made.0.spec_message() == message@,
            spec_logged(made.1@, message@, level, spec_given(config)),
    {
        let plan = Logger::log(message, level, config);
        (GabinatorError::MainError(String::from_str(message)), plan)
    }
}

impl GabinatorResult {
    /// The message that the success carries.
    pub open spec fn spec_message(self) -> Seq<char> {
        match self {
            GabinatorResult::UsbResult(message) => message@,
            GabinatorResult::CaptureResult(message) => message@,
            GabinatorResult::MainResult(message) => message@,
            GabinatorResult::LoggerResult(message) => message@,
        }
    }

    /// The message that the success carries.
    pub fn message(&self) -> (message: &String)
        ensures
            message@ == self.spec_message(),
    {
        match self {
            GabinatorResult::UsbResult(message) => message,
            GabinatorResult::CaptureResult(message) => message,
            GabinatorResult::MainResult(message) => message,
            GabinatorResult::LoggerResult(message) => message,
        }
    }

    /// A success of the logger with the given message, and what is to be logged
    /// for it, at the level of results.
    pub fn newLogger(message: &str, config: Option<&Vec<(String, String)>>) -> (made: (
        GabinatorResult,
        LogPlan,
    ))
        ensures
            made.0 is LoggerResult,
            made.0.spec_message() == message@,
            spec_logged(made.1@, message@, LoggerLevel::Result, spec_given(config)),
    {
        let plan = Logger::log(message, LoggerLevel::Result, config);
        (GabinatorResult::LoggerResult(String::from_str(message)), plan)
    }

    /// A success of the USB transport with the given message, and what is to be
    /// logged for it, at the level of results.
    pub fn newUSB(message: &str, config: Option<&Vec<(String, String)>>) -> (made: (
        GabinatorResult,
        LogPlan,
    ))
        ensures
            made.0 is UsbResult,
            made.0.spec_message() == message@,
            spec_logged(made.1@, message@, LoggerLevel::Result, spec_given(config)),
    {
        let plan = Logger::log(message, LoggerLevel::Result, config);
        (GabinatorResult::UsbResult(String::from_str(message)), plan)
    }

    /// A success of the capture with the given message, and what is to be logged
    /// for it, at the level of results.
    pub fn newCapture(message: &str, config: Option<&Vec<(String, String)>>) -> (made: (
        GabinatorResult,
        LogPlan,
    ))
        ensures
            made.0 is CaptureResult,
            made.0.spec_message() == message@,
            spec_logged(made.1@, message@, LoggerLevel::Result, spec_given(config)),
    {
        let plan = Logger::log(message, LoggerLevel::Result, config);
        (GabinatorResult::CaptureResult(String::from_str(message)), plan)
    }

    /// A success of the command line with the given message, and what is to be
    /// logged for it, at the level of results.
    pub fn newMain(message: &str, config: Option<&Vec<(String, String)>>) -> (made: (
        GabinatorResult,
        LogPlan,
    ))
        ensures
            made.0 is MainResult,
            made.0.spec_message() == message@,
            spec_logged(made.1@, message@, LoggerLevel::Result, spec_given(config)),
    {
        let plan = Logger::log(message, LoggerLevel::Result, config);
        (GabinatorResult::MainResult(String::from_str(message)), plan)
    }
}

impl HandshakeError {
    /// The reason that is reported for a failed handshake.
    pub open spec fn spec_reason(self) -> Seq<char> {
        match self {
            HandshakeError::VersionQueryFailed => "Could not read control to device"@,
            HandshakeError::UnsupportedVersion(version) => "Device does not support AOA: version "@
                + spec_decimal(version as nat),
            HandshakeError::ProtocolStartFailed => "Failed to initialize AOA protocol on this device"@,
            HandshakeError::ReenumerationTimeout => "This is not an AOA device (or at least one that is openable)"@,
            HandshakeError::ClaimFailed => "Failed to claim the accessory interface"@,
            HandshakeError::NoBulkEndpoint => "Not able to find the bulk transfer endpoint"@,
        }
    }

    /// The reason that is reported for a failed handshake.
    pub fn reason(&self) -> (reason: String)
        ensures
            reason@ == self.spec_reason(),
    {
        match self {
            HandshakeError::VersionQueryFailed => String::from_str(
                "Could not read control to device",
            ),
            HandshakeError::UnsupportedVersion(version) => {
                let mut reason = String::from_str("Device does not support AOA: version ");
                append_decimal(&mut reason, *version as u64);
                reason
            },
            HandshakeError::ProtocolStartFailed => String::from_str(
                "Failed to initialize AOA protocol on this device",
            ),
            HandshakeError::ReenumerationTimeout => String::from_str(
                "This is not an AOA device (or at least one that is openable)",
            ),
            HandshakeError::ClaimFailed => String::from_str("Failed to claim the accessory interface"),
            HandshakeError::NoBulkEndpoint => String::from_str(
                "Not able to find the bulk transfer endpoint",
            ),
        }
    }
}

impl DiscoveryError {
    /// The reason that is logged for a device that discovery passed over.
    pub open spec fn spec_reason(self) -> Seq<char> {
        match self {
            DiscoveryError::OpenFailed => "Could not open this device"@,
            DiscoveryError::NotCapable(error) => error.spec_reason(),
        }
    }

    /// The reason that is logged for a device that discovery passed over.
    pub fn reason(&self) -> (reason: String)
        ensures
            reason@ == self.spec_reason(),
    {
        match self {
            DiscoveryError::OpenFailed => String::from_str("Could not open this device"),
            DiscoveryError::NotCapable(error) => error.reason(),
        }
    }
}

impl TransportError {
    /// The reason that is reported for a session that ended on failed sends.
    pub open spec fn spec_reason(self) -> Seq<char> {
        match self {
            TransportError::Usb(_) => "Not able to write bulk"@,
            TransportError::Tcp(_) => "Connection with too many errors"@,
        }
    }

    /// The reason that is reported for a session that ended on failed sends.
    pub fn reason(&self) -> (reason: String)
        ensures
            reason@ == self.spec_reason(),
    {
        match self {
            TransportError::Usb(_) => String::from_str("Not able to write bulk"),
            TransportError::Tcp(_) => String::from_str("Connection with too many errors"),
        }
    }
}

} // verus!
