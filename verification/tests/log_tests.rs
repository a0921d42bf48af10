use std::sync::{Arc, Mutex};

use tela::log::{Level, LogSink, Logger, Record};
use vstd::seq::Seq;

struct Collect(Arc<Mutex<Vec<(Level, String, String)>>>);

impl LogSink for Collect {
    fn received(&self, _level: Level, _category: Seq<char>, _message: Seq<char>) -> bool {
        unreachable!("a proof-only observer; the collected vector records writes at run time")
    }

    fn write(&self, record: &Record) {
        self.0.lock().unwrap().push((record.level, record.category.to_owned(), record.message.clone()));
    }
}

#[test]
fn records_below_the_threshold_are_dropped() {
    let seen = Arc::new(Mutex::new(Vec::new()));
    let mut logger = Logger::new();
    assert!(!logger.log(Level::Error, "boot", "no sink".to_owned()));
    logger.set_sink(Some(Box::new(Collect(Arc::clone(&seen)))));
    assert!(!logger.log(Level::Debug, "render", "hidden".to_owned()));
    assert!(logger.log(Level::Info, "boot", "adapter ready".to_owned()));
    logger.set_min_level(Level::Debug);
    assert!(logger.log(Level::Debug, "render", "shown".to_owned()));
    logger.set_min_level(Level::Error);
    assert!(!logger.log(Level::Warn, "wgpu", "dropped".to_owned()));
    assert!(logger.admits(Level::Error));
    let seen = seen.lock().unwrap();
    assert_eq!(seen.len(), 2);
    assert_eq!(seen[0], (Level::Info, "boot".to_owned(), "adapter ready".to_owned()));
    assert_eq!(seen[1].0, Level::Debug);
}

#[test]
fn removing_the_sink_turns_output_off() {
    let seen = Arc::new(Mutex::new(Vec::new()));
    let mut logger = Logger::new();
    logger.set_sink(Some(Box::new(Collect(Arc::clone(&seen)))));
    logger.set_sink(None);
    assert!(!logger.log(Level::Error, "frame", "lost".to_owned()));
    assert!(seen.lock().unwrap().is_empty());
    assert!(Level::Debug < Level::Info && Level::Warn < Level::Error);
}
