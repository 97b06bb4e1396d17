use std::cell::RefCell;
use std::rc::Rc;

use loglite::level::Level;
use loglite::log_field::LogField;
use loglite::log_field::LogField::{Date, Message, Seperator, Time};
use loglite::logger::Logger;
use loglite::message;
use loglite::sink::{MemorySink, Output, Sink, WriterSink};

struct Stdout;

impl Output for Stdout {
    fn write_bytes(&mut self, buf: &[u8]) -> Result<(), std::io::Error> {
        std::io::Write::write_all(&mut std::io::stdout(), buf)
    }
}

/// Keeps every buffer it is handed; fails instead when `fail` is set.
struct Recorder {
    seen: Rc<RefCell<Vec<Vec<u8>>>>,
    fail: bool,
}

impl Output for Recorder {
    fn write_bytes(&mut self, buf: &[u8]) -> Result<(), std::io::Error> {
        self.seen.borrow_mut().push(buf.to_vec());
        if self.fail {
            Err(std::io::Error::new(std::io::ErrorKind::Other, "sink refused"))
        } else {
            Ok(())
        }
    }
}

fn recorder(fail: bool) -> (Box<dyn Sink>, Rc<RefCell<Vec<Vec<u8>>>>) {
    let seen = Rc::new(RefCell::new(Vec::new()));
    (Box::new(WriterSink::new(Recorder { seen: seen.clone(), fail })), seen)
}

fn sample_format() -> Vec<LogField> {
    vec![
        Date,
        Seperator(String::from("T")),
        Time,
        Seperator(String::from(" ")),
        LogField::Level,
        Seperator(String::from(" ")),
        Message,
    ]
}

fn all_digits(s: &[u8]) -> bool {
    s.iter().all(|c| c.is_ascii_digit())
}

/// Checks `^\d{4}-\d{2}-\d{2}T\d{2}:\d{2}:\d{2}\.\d{3} \[Info\] we logging\n$`.
fn matches_sample_line(line: &str) -> bool {
    let b = line.as_bytes();
    let tail = b" [Info] we logging\n";
    b.len() == 23 + tail.len()
        && all_digits(&b[0..4])
        && b[4] == b'-'
        && all_digits(&b[5..7])
        && b[7] == b'-'
        && all_digits(&b[8..10])
        && b[10] == b'T'
        && all_digits(&b[11..13])
        && b[13] == b':'
        && all_digits(&b[14..16])
        && b[16] == b':'
        && all_digits(&b[17..19])
        && b[19] == b'.'
        && all_digits(&b[20..23])
        && &b[23..] == tail
}

#[test]
pub fn level_format() {
    assert_eq!("[Info]", format!("{}", Level::Info.to_label()))
}

#[test]
pub fn test() {
    let format = sample_format();
    let mut logger = Logger::new(Level::Info, vec![Box::new(WriterSink::new(Stdout))], format);
    logger.log(Level::Info, "we logging".to_owned()).unwrap();
}

#[test]
fn enabled_follows_rank_order() {
    let levels = [Level::Debug, Level::Info, Level::Warn, Level::Error];
    for (i, a) in levels.iter().enumerate() {
        assert_eq!(a.rank() as usize, i);
        for (j, b) in levels.iter().enumerate() {
            assert_eq!(a.enabled(b), i <= j);
        }
    }
    assert!(Level::Info.enabled(&Level::Info));
    assert!(!Level::Warn.enabled(&Level::Info));
}

#[test]
fn labels_are_bracketed_names() {
    assert_eq!(Level::Debug.to_label(), "[Debug]");
    assert_eq!(Level::Info.to_label(), "[Info]");
    assert_eq!(Level::Warn.to_label(), "[Warn]");
    assert_eq!(Level::Error.to_label(), "[Error]");
}

#[test]
fn render_at_fills_each_field() {
    let m = message::Message::new(Level::Warn, String::from("disk low"), sample_format());
    assert_eq!(m.render_at("2024-01-31", "09:05:07.042"), "2024-01-31T09:05:07.042 [Warn] disk low\n");
}

#[test]
fn render_is_the_concatenation_of_fields() {
    let format = vec![Message, Seperator(String::from("|")), LogField::Level, Seperator(String::from(""))];
    let m = message::Message::new(Level::Error, String::from("x y"), format.clone());
    let mut expected = String::new();
    for f in &format {
        expected.push_str(&m.render_field(f, "D", "T"));
    }
    expected.push('\n');
    assert_eq!(m.render_at("D", "T"), expected);
    assert_eq!(expected, "x y|[Error]\n");
}

#[test]
fn empty_template_renders_newline_only() {
    let m = message::Message::new(Level::Info, String::from("ignored"), Vec::new());
    assert_eq!(m.render_at("D", "T"), "\n");
    assert_eq!(m.render(), "\n");
}

#[test]
fn literal_and_text_are_verbatim() {
    let m = message::Message::new(Level::Debug, String::from("a\tb [c]"), Vec::new());
    assert_eq!(m.handle_formatter(&Message), "a\tb [c]");
    assert_eq!(m.handle_formatter(&Seperator(String::from(" :: "))), " :: ");
    assert_eq!(m.handle_formatter(&LogField::Level), "[Debug]");
}

#[test]
fn timestamp_fields_read_the_clock() {
    let m = message::Message::new(Level::Info, String::new(), Vec::new());
    let date = m.handle_formatter(&Date);
    let time = m.handle_formatter(&Time);
    let d = date.as_bytes();
    let t = time.as_bytes();
    assert_eq!(d.len(), 10);
    assert!(all_digits(&d[0..4]) && d[4] == b'-' && all_digits(&d[5..7]) && d[7] == b'-' && all_digits(&d[8..10]));
    assert_eq!(t.len(), 12);
    assert!(all_digits(&t[0..2]) && t[2] == b':' && all_digits(&t[3..5]) && t[5] == b':' && all_digits(&t[6..8]) && t[8] == b'.' && all_digits(&t[9..12]));
}

#[test]
fn sample_template_renders_sample_pattern() {
    let m = message::Message::new(Level::Info, String::from("we logging"), sample_format());
    let line = m.render();
    assert!(matches_sample_line(&line), "unexpected line {:?}", line);
}

#[test]
fn logger_writes_sample_line() {
    let (sink, seen) = recorder(false);
    let mut logger = Logger::new(Level::Info, vec![sink], sample_format());
    logger.log(Level::Info, String::from("we logging")).unwrap();
    let seen = seen.borrow();
    assert_eq!(seen.len(), 1);
    assert!(matches_sample_line(std::str::from_utf8(&seen[0]).unwrap()));
}

#[test]
fn below_threshold_writes_nothing() {
    let (a, seen_a) = recorder(false);
    let (b, seen_b) = recorder(true);
    let mut logger = Logger::new(Level::Info, vec![a, b], sample_format());
    assert!(logger.log(Level::Debug, String::from("hidden")).is_ok());
    assert!(seen_a.borrow().is_empty());
    assert!(seen_b.borrow().is_empty());
}

#[test]
fn failing_sink_stops_the_fan_out() {
    let (a, seen_a) = recorder(false);
    let (b, seen_b) = recorder(true);
    let (c, seen_c) = recorder(false);
    let mut logger = Logger::new(Level::Info, vec![a, b, c], vec![Message]);
    let err = logger.log(Level::Error, String::from("boom")).unwrap_err();
    assert_eq!(err.to_string(), "sink refused");
    assert_eq!(*seen_a.borrow(), vec![b"boom\n".to_vec()]);
    assert_eq!(*seen_b.borrow(), vec![b"boom\n".to_vec()]);
    assert!(seen_c.borrow().is_empty());
}

#[test]
fn every_sink_gets_the_same_line_in_order() {
    let (a, seen_a) = recorder(false);
    let (b, seen_b) = recorder(false);
    let mut logger = Logger::new(Level::Warn, vec![a, b], vec![LogField::Level, Seperator(String::from(" ")), Message]);
    logger.log(Level::Warn, String::from("one")).unwrap();
    logger.log(Level::Info, String::from("skipped")).unwrap();
    logger.log(Level::Error, String::from("two")).unwrap();
    let expected = vec![b"[Warn] one\n".to_vec(), b"[Error] two\n".to_vec()];
    assert_eq!(*seen_a.borrow(), expected);
    assert_eq!(*seen_b.borrow(), expected);
}

#[test]
fn no_sinks_always_succeeds() {
    let mut logger = Logger::new(Level::Debug, Vec::new(), sample_format());
    assert!(logger.log(Level::Error, String::from("nowhere")).is_ok());
}

#[test]
fn same_call_twice_gives_same_line_without_timestamps() {
    let (a, seen_a) = recorder(false);
    let format = vec![LogField::Level, Seperator(String::from(": ")), Message];
    let mut logger = Logger::new(Level::Debug, vec![a], format);
    logger.log(Level::Debug, String::from("again")).unwrap();
    logger.log(Level::Debug, String::from("again")).unwrap();
    let seen = seen_a.borrow();
    assert_eq!(seen.len(), 2);
    assert_eq!(seen[0], seen[1]);
    assert_eq!(seen[0], b"[Debug]: again\n".to_vec());
}

#[test]
fn same_call_twice_differs_only_in_timestamps() {
    let (a, seen_a) = recorder(false);
    let mut logger = Logger::new(Level::Debug, vec![a], sample_format());
    logger.log(Level::Info, String::from("we logging")).unwrap();
    logger.log(Level::Info, String::from("we logging")).unwrap();
    let seen = seen_a.borrow();
    assert_eq!(seen.len(), 2);
    assert_eq!(seen[0][23..], seen[1][23..]);
    assert_eq!(seen[0][10], seen[1][10]);
}

#[test]
fn memory_sink_keeps_every_line() {
    let mut sink = MemorySink::new();
    assert!(sink.contents().is_empty());
    sink.write_all(b"[Warn] x\n").unwrap();
    sink.write_all(b"").unwrap();
    sink.write_all(b"second\n").unwrap();
    assert_eq!(sink.contents(), b"[Warn] x\nsecond\n".to_vec());
}

#[test]
fn writer_sink_passes_bytes_and_answer_through() {
    let seen = Rc::new(RefCell::new(Vec::new()));
    let mut ok = WriterSink::new(Recorder { seen: seen.clone(), fail: false });
    assert!(ok.write_all(b"abc").is_ok());
    let mut bad = WriterSink::new(Recorder { seen: seen.clone(), fail: true });
    assert_eq!(bad.write_all(b"def").unwrap_err().to_string(), "sink refused");
    assert_eq!(*seen.borrow(), vec![b"abc".to_vec(), b"def".to_vec()]);
}

#[test]
fn first_of_three_failing_returns_its_error() {
    let (a, seen_a) = recorder(true);
    let (b, seen_b) = recorder(false);
    let (c, seen_c) = recorder(false);
    let mut logger = Logger::new(Level::Info, vec![a, b, c], vec![Message]);
    let err = logger.log(Level::Error, String::from("e")).unwrap_err();
    assert_eq!(err.to_string(), "sink refused");
    assert_eq!(seen_a.borrow().len(), 1);
    assert!(seen_b.borrow().is_empty());
    assert!(seen_c.borrow().is_empty());
}
