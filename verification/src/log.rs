//! The internal log of tela: records carry a level and a fixed category (`boot`, `frame`,
//! `probe`, `render`, ...), pass a minimum-level filter, and go to an injectable sink (a web
//! console, stderr, or a collecting sink in tests).
use vstd::prelude::*;

verus! {

/// Log level, by weight: debug < info < warn < error.
#[derive(Clone, Copy, Debug, PartialEq, Eq, Structural, PartialOrd, Ord)]
pub enum Level {
    /// Diagnostics.
    Debug,
    /// Normal progress.
    Info,
    /// Recoverable problems.
    Warn,
    /// Failures.
    Error,
}

/// Weight of a level.
pub open spec fn level_rank(level: Level) -> int {
    match level {
        Level::Debug => 0,
        Level::Info => 1,
        Level::Warn => 2,
        Level::Error => 3,
    }
}

/// One log record.
pub struct Record {
    /// Level.
    pub level: Level,
    /// Category, fixed where the record is written.
    pub category: &'static str,
    /// Message text.
    pub message: String,
}

/// An injectable output adapter.
pub trait LogSink: Send + Sync {
    /// Whether a record of this level, category and message has been handed to the sink.
    spec fn received(&self, level: Level, category: Seq<char>, message: Seq<char>) -> bool;

    /// Writes one record.
    fn write(&self, record: &Record)
        ensures
            self.received(record.level, record.category@, record.message@),
    ;
}

/// The logger: an optional sink and the minimum level that reaches it.
pub struct Logger {
    sink: Option<Box<dyn LogSink>>,
    min_level: Level,
}

impl Logger {
    /// The minimum level that passes the filter.
    pub closed spec fn threshold(&self) -> Level {
        self.min_level
    }

    /// The installed output adapter, if any.
    pub closed spec fn installed_sink(&self) -> Option<Box<dyn LogSink>> {
        self.sink
    }

    /// Whether a sink is installed.
    pub open spec fn has_sink(&self) -> bool {
        self.installed_sink() is Some
    }

    /// Whether the installed sink has been handed a record of this level, category and
    /// message.
    pub open spec fn sink_received(&self, level: Level, category: Seq<char>, message: Seq<char>) -> bool {
        match self.installed_sink() {
            Some(sink) => sink.received(level, category, message),
            None => false,
        }
    }

    /// A logger without a sink that passes `Info` and above.
    pub fn new() -> (logger: Self)
        ensures
            logger.threshold() == Level::Info,
            !logger.has_sink(),
    {
        Logger { sink: None, min_level: Level::Info }
    }

    /// Installs an output adapter; `None` turns output off.
    pub fn set_sink(&mut self, sink: Option<Box<dyn LogSink>>)
        ensures
            final(self).installed_sink() == sink,
            final(self).threshold() == old(self).threshold(),
    {
        self.sink = sink;
    }

    /// Sets the level filter: records below `level` are dropped.
    pub fn set_min_level(&mut self, level: Level)
        ensures
            final(self).threshold() == level,
            final(self).installed_sink() == old(self).installed_sink(),
    {
        self.min_level = level;
    }

    /// Whether a record of `level` passes the filter.
    pub fn admits(&self, level: Level) -> (admitted: bool)
        ensures
            admitted == (level_rank(level) >= level_rank(self.threshold())),
    {
        let rank: u8 = match level {
            Level::Debug => 0,
            Level::Info => 1,
            Level::Warn => 2,
            Level::Error => 3,
        };
        let threshold: u8 = match self.min_level {
            Level::Debug => 0,
            Level::Info => 1,
            Level::Warn => 2,
            Level::Error => 3,
        };
        rank >= threshold
    }

    /// Records a message: a record that passes the filter goes, with the caller's level,
    /// category and message, to the installed sink, if there is one; returns whether it was
    /// written.
    pub fn log(&self, level: Level, category: &'static str, message: String) -> (written: bool)
        ensures
            written == (level_rank(level) >= level_rank(self.threshold()) && self.has_sink()),
            written ==> self.sink_received(level, category@, message@),
    {
        if !self.admits(level) {
            return false;
        }
        match &self.sink {
            Some(sink) => {
                sink.write(&Record { level, category, message });
                true
            },
            None => false,
        }
    }
}

} // verus!
