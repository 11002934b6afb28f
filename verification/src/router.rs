//! The sink router: a fixed set of sinks, set up once, each of which
//! decides on its own whether it takes a record.

use vstd::prelude::*;
use crate::context::LogContext;
use crate::event::{Category, Event};
use crate::formatter::{is_one_line, is_utc_stamp, LogRecord, StructuredJsonFormatter};
use crate::level::Level;
use crate::text::{clone_text, eq_ignoring_case, same_ignoring_case, slice_text, str_eq, text_of};

verus! {

/// Where a sink writes.
#[derive(Clone, Copy, Debug, PartialEq, Eq, Structural)]
pub enum Destination {
    /// The console stream.
    Console,
    /// The general application log.
    AppLog,
    /// The log of errors only.
    ErrorLog,
    /// The log of security events only.
    SecurityLog,
    /// The log of performance metrics only.
    PerformanceLog,
}

/// The directory that holds the log files.
pub const LOG_DIRECTORY: &'static str = "/var/log/off-the-grid";

impl Destination {
    /// The name of the destination's log file; the console has none.
    pub open spec fn file_text(self) -> Option<Seq<char>> {
        match self {
            Destination::Console => None,
            Destination::AppLog => Some("app.log"@),
            Destination::ErrorLog => Some("error.log"@),
            Destination::SecurityLog => Some("security.log"@),
            Destination::PerformanceLog => Some("performance.log"@),
        }
    }

    /// The name of the destination's log file inside the log directory.
    pub fn file_name(self) -> (name: Option<&'static str>)
        ensures
            slice_text(name) == self.file_text(),
    {
        match self {
            Destination::Console => None,
            Destination::AppLog => Some("app.log"),
            Destination::ErrorLog => Some("error.log"),
            Destination::SecurityLog => Some("security.log"),
            Destination::PerformanceLog => Some("performance.log"),
        }
    }
}

/// What a sink takes.
#[derive(Clone, Copy, Debug, PartialEq, Eq, Structural)]
pub enum SinkFilter {
    /// Records of this severity or a higher one.
    MinSeverity(Level),
    /// Records whose target is the tag of this category.
    Category(Category),
    /// No record at all.
    Nothing,
}

/// How a sink writes a record.
#[derive(Clone, Copy, Debug, PartialEq, Eq, Structural)]
pub enum SinkFormat {
    /// One line of JSON per record.
    Json,
    /// The plain form for human readers, which the writer of the sink makes.
    Plain,
}

/// A destination with its filter and its format.
#[derive(Clone, Copy, Debug, PartialEq, Eq, Structural)]
pub struct Sink {
    pub destination: Destination,
    pub filter: SinkFilter,
    pub format: SinkFormat,
}

/// One record handed to one sink. `line` is the JSON line to write; it is
/// `None` for a sink of plain format.
#[derive(Debug)]
pub struct Delivery {
    pub destination: Destination,
    pub line: Option<String>,
}

/// Why the sinks could not be set up.
#[derive(Clone, Copy, Debug, PartialEq, Eq, Structural)]
pub enum InitError {
    /// The sinks were set up before.
    AlreadyInitialized,
    /// The directory of the log files could not be made.
    DirectoryUnavailable,
    /// The minimum level names neither a level nor `off`.
    InvalidFilter,
}

/// What the process found at its start.
#[derive(Debug)]
pub struct Startup {
    /// Whether the directory of the log files exists.
    pub directory_ready: bool,
    /// The log level set in the environment, if any.
    pub level_override: Option<String>,
    /// The environment tag set in the environment, if any.
    pub environment: Option<String>,
}

/// The sinks in force with their formatter.
#[derive(Debug)]
pub struct Installed {
    pub sinks: Vec<Sink>,
    pub formatter: StructuredJsonFormatter,
}

/// The process-wide router: nothing installed at first, then, from the one
/// successful set-up on, a fixed set of sinks.
#[derive(Debug)]
pub struct SinkRouter {
    pub installed: Option<Installed>,
}

impl SinkFilter {
    /// The filter lets through a record of this level and target.
    pub open spec fn admits(self, level: Level, target: Seq<char>) -> bool {
        match self {
            SinkFilter::MinSeverity(minimum) => level.rank() >= minimum.rank(),
            SinkFilter::Category(category) => target == category.tag_text(),
            SinkFilter::Nothing => false,
        }
    }

    /// Whether the filter lets through a record of this level and target.
    pub fn accepts(&self, level: Level, target: &str) -> (accepted: bool)
        ensures
            accepted == self.admits(level, target@),
    {
        match self {
            SinkFilter::MinSeverity(minimum) => level.at_least(*minimum),
            SinkFilter::Category(category) => str_eq(target, category.tag()),
            SinkFilter::Nothing => false,
        }
    }
}

/// The sinks among `sinks`, in their order, that take a record of this
/// level and target. Each sink is asked; none is skipped on account of
/// another.
pub open spec fn accepting(sinks: Seq<Sink>, level: Level, target: Seq<char>) -> Seq<Sink>
    decreases sinks.len(),
{
    if sinks.len() == 0 {
        Seq::empty()
    } else if sinks.last().filter.admits(level, target) {
        accepting(sinks.drop_last(), level, target).push(sinks.last())
    } else {
        accepting(sinks.drop_last(), level, target)
    }
}

/// `deliveries` hands `record` to exactly the sinks that take it, in their
/// order, with the record's JSON line for each sink of JSON format.
pub open spec fn is_routing(deliveries: Seq<Delivery>, sinks: Seq<Sink>, record: LogRecord) -> bool {
    let takers = accepting(sinks, record.level, record.target@);
    &&& deliveries.len() == takers.len()
    &&& forall|i: int|
        0 <= i < deliveries.len() ==> (#[trigger] deliveries[i]).destination == takers[i].destination
            && text_of(deliveries[i].line) == match takers[i].format {
                SinkFormat::Json => Some(record.line_text()),
                SinkFormat::Plain => None,
            }
}

/// Every line among the deliveries ends in a line feed and holds no other.
pub open spec fn all_one_line(deliveries: Seq<Delivery>) -> bool {
    forall|i: int|
        0 <= i < deliveries.len() ==> ((#[trigger] deliveries[i]).line matches Some(line) ==> is_one_line(line@))
}

/// The sinks of a process: console and general log with the given filter,
/// in JSON or plain form; the error log for errors only; the security and
/// the performance log for their category only; these three always in JSON.
pub open spec fn default_sinks(general: SinkFilter, json_format: bool) -> Seq<Sink> {
    let format = if json_format {
        SinkFormat::Json
    } else {
        SinkFormat::Plain
    };
    seq![
        Sink { destination: Destination::Console, filter: general, format },
        Sink { destination: Destination::AppLog, filter: general, format },
        Sink {
            destination: Destination::ErrorLog,
            filter: SinkFilter::MinSeverity(Level::Error),
            format: SinkFormat::Json,
        },
        Sink {
            destination: Destination::SecurityLog,
            filter: SinkFilter::Category(Category::Security),
            format: SinkFormat::Json,
        },
        Sink {
            destination: Destination::PerformanceLog,
            filter: SinkFilter::Category(Category::Performance),
            format: SinkFormat::Json,
        },
    ]
}

/// The filter that a text names, whatever the case of its letters: `off`
/// names the filter that takes nothing, and each of `trace`, `debug`,
/// `info`, `warn` and `error` the filter that takes that level and the ones
/// above. No other text names a filter: a level given as a number and a
/// directive for a single target are not read.
pub open spec fn filter_named_by(text: Seq<char>) -> Option<SinkFilter> {
    if same_ignoring_case(text, "off"@) {
        Some(SinkFilter::Nothing)
    } else {
        match Level::named_by(text) {
            Some(level) => Some(SinkFilter::MinSeverity(level)),
            None => None,
        }
    }
}

/// Reads a filter from its text; `None` for a text that names none.
pub fn parse_filter(text: &str) -> (filter: Option<SinkFilter>)
    ensures
        filter == filter_named_by(text@),
{
    if eq_ignoring_case(text, "off") {
        Some(SinkFilter::Nothing)
    } else {
        match Level::parse(text) {
            Some(level) => Some(SinkFilter::MinSeverity(level)),
            None => None,
        }
    }
}

/// The filter of console and general log: the one that the environment
/// names, if it names one; otherwise the one that `log_level` names.
pub open spec fn effective_filter(log_level: Seq<char>, level_override: Option<Seq<char>>) -> Option<SinkFilter> {
    match level_override {
        Some(text) => match filter_named_by(text) {
            Some(filter) => Some(filter),
            None => filter_named_by(log_level),
        },
        None => filter_named_by(log_level),
    }
}

/// Computes `effective_filter`.
pub fn resolve_filter(log_level: &str, level_override: &Option<String>) -> (filter: Option<SinkFilter>)
    ensures
        filter == effective_filter(log_level@, text_of(*level_override)),
{
    match level_override {
        Some(text) => match parse_filter(text.as_str()) {
            Some(filter) => Some(filter),
            None => parse_filter(log_level),
        },
        None => parse_filter(log_level),
    }
}

/// Builds `default_sinks`.
pub fn build_sinks(general: SinkFilter, json_format: bool) -> (sinks: Vec<Sink>)
    ensures
        sinks@ == default_sinks(general, json_format),
{
    let format = if json_format {
        SinkFormat::Json
    } else {
        SinkFormat::Plain
    };
    let mut sinks: Vec<Sink> = Vec::new();
    sinks.push(Sink { destination: Destination::Console, filter: general, format });
    sinks.push(Sink { destination: Destination::AppLog, filter: general, format });
    sinks.push(
        Sink {
            destination: Destination::ErrorLog,
            filter: SinkFilter::MinSeverity(Level::Error),
            format: SinkFormat::Json,
        },
    );
    sinks.push(
        Sink {
            destination: Destination::SecurityLog,
            filter: SinkFilter::Category(Category::Security),
            format: SinkFormat::Json,
        },
    );
    sinks.push(
        Sink {
            destination: Destination::PerformanceLog,
            filter: SinkFilter::Category(Category::Performance),
            format: SinkFormat::Json,
        },
    );
    assert(sinks@ =~= default_sinks(general, json_format));
    sinks
}

impl SinkRouter {
    /// Whether the sinks were set up.
    pub open spec fn is_initialized(&self) -> bool {
        self.installed is Some
    }

    /// The sinks in force; none before set-up.
    pub open spec fn sinks(&self) -> Seq<Sink> {
        match self.installed {
            Some(installed) => installed.sinks@,
            None => Seq::empty(),
        }
    }

    /// `deliveries` is what this router makes of `event` raised in
    /// `context`: nothing before set-up; afterwards the routing of a record
    /// that the router's formatter makes of the event, stamped with a moment
    /// in UTC.
    pub open spec fn delivers(&self, deliveries: Seq<Delivery>, context: LogContext, event: Event) -> bool {
        match self.installed {
            Some(installed) => exists|record: LogRecord| #[trigger]
                installed.formatter.shapes(record, context, event) && is_utc_stamp(record.timestamp@) && is_routing(
                    deliveries,
                    installed.sinks@,
                    record,
                ),
            None => deliveries.len() == 0,
        }
    }

    /// A router with nothing installed.
    pub fn new() -> (router: Self)
        ensures
            !router.is_initialized(),
    {
        Self { installed: None }
    }

    /// Offers a record to every sink and collects a delivery for each sink
    /// that takes it. The record is written as JSON once, and only if a
    /// sink of JSON format takes it.
    pub fn route(&self, record: &LogRecord) -> (deliveries: Vec<Delivery>)
        ensures
            is_routing(deliveries@, self.sinks(), *record),
            all_one_line(deliveries@),
    {
        let mut deliveries: Vec<Delivery> = Vec::new();
        match &self.installed {
            Some(installed) => {
                let mut written: Option<String> = None;
                let mut i: usize = 0;
                while i < installed.sinks.len()
                    invariant
                        i <= installed.sinks.len(),
                        written matches Some(line) ==> line@ == record.line_text() && is_one_line(line@),
                        all_one_line(deliveries@),
                        is_routing(deliveries@, installed.sinks@.take(i as int), *record),
                    decreases installed.sinks.len() - i,
                {
                    let sink = installed.sinks[i];
                    assert(installed.sinks@.take(i + 1).drop_last() == installed.sinks@.take(i as int));
                    if sink.filter.accepts(record.level, record.target.as_str()) {
                        let line = match sink.format {
                            SinkFormat::Json => {
                                if written.is_none() {
                                    written = Some(record.to_json_line());
                                }
                                clone_text(&written)
                            },
                            SinkFormat::Plain => None,
                        };
                        deliveries.push(Delivery { destination: sink.destination, line });
                    }
                    i += 1;
                }
                assert(installed.sinks@.take(i as int) == installed.sinks@);
            },
            None => {},
        }
        deliveries
    }

    /// Raises an event in `context`: stamps it with the present time, makes
    /// its record and routes the record.
    pub fn emit(&self, context: &LogContext, event: &Event) -> (deliveries: Vec<Delivery>)
        ensures
            self.delivers(deliveries@, *context, *event),
            all_one_line(deliveries@),
    {
        match &self.installed {
            Some(installed) => {
                let record = installed.formatter.assemble(context, event, crate::formatter::utc_timestamp());
                self.route(&record)
            },
            None => Vec::new(),
        }
    }
}

/// Initialize comprehensive logging system: sets up the sinks of the
/// process, once. A second set-up is refused and changes nothing.
///
/// `log_level` is the minimum level of console and general log: one of
/// `trace`, `debug`, `info`, `warn`, `error`, or `off` for none at all, in
/// any case of letters. A level set in the environment takes its place if
/// it is one of these. Any other text fails with `InvalidFilter`.
pub fn init_logging(router: &mut SinkRouter, log_level: &str, json_format: bool, startup: Startup) -> (outcome: Result<(), InitError>)
    ensures
        old(router).is_initialized() ==> outcome == Err::<(), InitError>(InitError::AlreadyInitialized),
        !old(router).is_initialized() && !startup.directory_ready ==> outcome == Err::<(), InitError>(
            InitError::DirectoryUnavailable,
        ),
        !old(router).is_initialized() && startup.directory_ready && effective_filter(
            log_level@,
            text_of(startup.level_override),
        ) is None ==> outcome == Err::<(), InitError>(InitError::InvalidFilter),
        !old(router).is_initialized() && startup.directory_ready && effective_filter(
            log_level@,
            text_of(startup.level_override),
        ) is Some ==> outcome is Ok,
        outcome is Err ==> *final(router) == *old(router),
        outcome is Ok ==> final(router).is_initialized() && final(router).sinks() == default_sinks(
            effective_filter(log_level@, text_of(startup.level_override)).unwrap(),
            json_format,
        ) && final(router).installed.unwrap().formatter.environment@ == match startup.environment {
            Some(tag) => tag@,
            None => "development"@,
        },
{
    if router.installed.is_some() {
        return Err(InitError::AlreadyInitialized);
    }
    if !startup.directory_ready {
        return Err(InitError::DirectoryUnavailable);
    }
    match resolve_filter(log_level, &startup.level_override) {
        Some(general) => {
            router.installed = Some(
                Installed {
                    sinks: build_sinks(general, json_format),
                    formatter: StructuredJsonFormatter::new(startup.environment),
                },
            );
            Ok(())
        },
        None => Err(InitError::InvalidFilter),
    }
}

} // verus!
