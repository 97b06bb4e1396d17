use vstd::prelude::*;

use crate::clock::{is_date_text, is_time_text, local_now_texts};
use crate::level::Level;
use crate::log_field::{field_text, fields_text, is_timestamp, line_text, LogField};

verus! {

/// One log event: its level, its text and the template it is rendered by.
#[derive(Clone)]
pub struct Message {
    level: Level,
    message: String,
    format: Vec<LogField>,
}

impl Message {
    /// The level of the event.
    pub closed spec fn spec_level(&self) -> Level {
        self.level
    }

    /// The text of the event.
    pub closed spec fn spec_text(&self) -> Seq<char> {
        self.message@
    }

    /// The template the event is rendered by.
    pub closed spec fn spec_format(&self) -> Seq<LogField> {
        self.format@
    }

    pub fn new(level: Level, message: String, format: Vec<LogField>) -> (r: Self)
        ensures
            r.spec_level() == level,
            r.spec_text() == message@,
            r.spec_format() == format@,
    {
        Self { level, message, format }
    }

    /// Renders one field, with `date` and `time` standing for the clock's
    /// texts.
    pub fn render_field(&self, formatter: &LogField, date: &str, time: &str) -> (r: String)
        ensures
            r@ == field_text(*formatter, self.spec_level(), self.spec_text(), date@, time@),
    {
        match formatter {
            LogField::Date => String::from_str(date),
            LogField::Time => String::from_str(time),
            LogField::Level => self.level.to_label(),
            LogField::Message => self.message.clone(),
            LogField::Seperator(separator) => separator.clone(),
        }
    }

    /// Renders one field, reading the local clock for a timestamp field.
    pub fn handle_formatter(&self, formatter: &LogField) -> (r: String)
        ensures
            exists|date: Seq<char>, time: Seq<char>|
                is_date_text(date) && is_time_text(time) && r@ == #[trigger] field_text(
                    *formatter,
                    self.spec_level(),
                    self.spec_text(),
                    date,
                    time,
                ),
            !is_timestamp(*formatter) ==> r@ == field_text(
                *formatter,
                self.spec_level(),
                self.spec_text(),
                Seq::empty(),
                Seq::empty(),
            ),
    {
        let (date, time) = local_now_texts("%Y-%m-%d", "%H:%M:%S.%3f");
        let r = self.render_field(formatter, date.as_str(), time.as_str());
        assert(r@ == field_text(*formatter, self.spec_level(), self.spec_text(), date@, time@));
        r
    }

    /// Renders the whole line, with `date` and `time` standing for the
    /// clock's texts: every field of the template in order, then a newline.
    pub fn render_at(&self, date: &str, time: &str) -> (r: String)
        ensures
            r@ == line_text(self.spec_format(), self.spec_level(), self.spec_text(), date@, time@),
    {
        let ghost fs = self.format@;
        let ghost lv = self.level;
        let ghost tx = self.message@;
        let mut line = String::new();
        let n = self.format.len();
        let mut i: usize = 0;
        assert(fs.subrange(0, 0).len() == 0);
        while i < n
            invariant
                n == fs.len(),
                fs == self.format@,
                lv == self.level,
                tx == self.message@,
                i <= n,
                line@ == fields_text(fs.subrange(0, i as int), lv, tx, date@, time@),
            decreases n - i,
        {
            let piece = self.render_field(&self.format[i], date, time);
            line.append(piece.as_str());
            assert(fs.subrange(0, i + 1).drop_last() =~= fs.subrange(0, i as int));
            assert(fs.subrange(0, i + 1).last() == fs[i as int]);
            i = i + 1;
        }
        assert(fs.subrange(0, n as int) =~= fs);
        proof {
            reveal_strlit("\n");
        }
        line.append("\n");
        line
    }

    /// Renders the whole line, reading the local clock once for all its
    /// timestamp fields.
    pub fn render(&self) -> (r: String)
        ensures
            exists|date: Seq<char>, time: Seq<char>|
                is_date_text(date) && is_time_text(time) && r@ == #[trigger] line_text(
                    self.spec_format(),
                    self.spec_level(),
                    self.spec_text(),
                    date,
                    time,
                ),
    {
        let (date, time) = local_now_texts("%Y-%m-%d", "%H:%M:%S.%3f");
        let r = self.render_at(date.as_str(), time.as_str());
        assert(r@ == line_text(self.spec_format(), self.spec_level(), self.spec_text(), date@, time@));
        r
    }
}

} // verus!
