use vstd::prelude::*;

use crate::level::{label_of, Level};

verus! {

/// One position of a rendering template.
///
/// `Date` renders the calendar date (`YYYY-MM-DD`) and `Time` the time of day
/// (`HH:MM:SS.mmm`), each as the local clock gives it.
pub enum LogField {
    Time,
    Date,
    Level,
    Message,
    Seperator(String),
}

impl Clone for LogField {
    fn clone(&self) -> (r: Self)
        ensures
            r == *self,
    {
        match self {
            LogField::Time => LogField::Time,
            LogField::Date => LogField::Date,
            LogField::Level => LogField::Level,
            LogField::Message => LogField::Message,
            LogField::Seperator(s) => LogField::Seperator(s.clone()),
        }
    }
}

/// Whether the field's text comes from the clock.
pub open spec fn is_timestamp(f: LogField) -> bool {
    f is Date || f is Time
}

/// What one field renders to, given the level and text of the message and
/// the clock's date and time texts.
pub open spec fn field_text(
    f: LogField,
    level: Level,
    text: Seq<char>,
    date: Seq<char>,
    time: Seq<char>,
) -> Seq<char> {
    match f {
        LogField::Date => date,
        LogField::Time => time,
        LogField::Level => label_of(level),
        LogField::Message => text,
        LogField::Seperator(s) => s@,
    }
}

/// The fields of a template rendered in order and concatenated, with nothing
/// between them.
pub open spec fn fields_text(
    fs: Seq<LogField>,
    level: Level,
    text: Seq<char>,
    date: Seq<char>,
    time: Seq<char>,
) -> Seq<char>
    decreases fs.len(),
{
    if fs.len() == 0 {
        Seq::empty()
    } else {
        fields_text(fs.drop_last(), level, text, date, time) + field_text(
            fs.last(),
            level,
            text,
            date,
            time,
        )
    }
}

/// A rendered line: the template's fields followed by one newline.
pub open spec fn line_text(
    fs: Seq<LogField>,
    level: Level,
    text: Seq<char>,
    date: Seq<char>,
    time: Seq<char>,
) -> Seq<char> {
    fields_text(fs, level, text, date, time) + seq!['\n']
}

/// Rendering is positional: a template split in two renders as the rendering
/// of its first part followed by that of its second, and an empty template
/// renders as the newline alone.
pub proof fn lemma_render_positional(
    a: Seq<LogField>,
    b: Seq<LogField>,
    level: Level,
    text: Seq<char>,
    date: Seq<char>,
    time: Seq<char>,
)
    ensures
        fields_text(a + b, level, text, date, time) == fields_text(a, level, text, date, time)
            + fields_text(b, level, text, date, time),
        line_text(a + b, level, text, date, time) == fields_text(a, level, text, date, time)
            + fields_text(b, level, text, date, time) + seq!['\n'],
        line_text(Seq::empty(), level, text, date, time) == seq!['\n'],
    decreases b.len(),
{
    assert(Seq::<LogField>::empty().len() == 0);
    assert(fields_text(Seq::empty(), level, text, date, time) == Seq::<char>::empty());
    assert(Seq::<char>::empty() + seq!['\n'] =~= seq!['\n']);
    if b.len() == 0 {
        assert(a + b =~= a);
        assert(fields_text(a, level, text, date, time) + Seq::<char>::empty() =~= fields_text(
            a,
            level,
            text,
            date,
            time,
        ));
    } else {
        let b0 = b.drop_last();
        lemma_render_positional(a, b0, level, text, date, time);
        assert((a + b).drop_last() =~= a + b0);
        assert((a + b).last() == b.last());
        let fa = fields_text(a, level, text, date, time);
        let fb0 = fields_text(b0, level, text, date, time);
        let fl = field_text(b.last(), level, text, date, time);
        assert(fa + fb0 + fl =~= fa + (fb0 + fl));
    }
}

/// Two renderings of one template for one level and text agree at every
/// field that does not come from the clock; where the template has no such
/// field, the lines are identical.
pub proof fn lemma_render_depends_on_clock_only(
    fs: Seq<LogField>,
    level: Level,
    text: Seq<char>,
    date1: Seq<char>,
    time1: Seq<char>,
    date2: Seq<char>,
    time2: Seq<char>,
)
    ensures
        forall|i: int|
            0 <= i < fs.len() && !is_timestamp(#[trigger] fs[i]) ==> field_text(
                fs[i],
                level,
                text,
                date1,
                time1,
            ) == field_text(fs[i], level, text, date2, time2),
        (forall|i: int| 0 <= i < fs.len() ==> !is_timestamp(#[trigger] fs[i])) ==> fields_text(
            fs,
            level,
            text,
            date1,
            time1,
        ) == fields_text(fs, level, text, date2, time2),
        (forall|i: int| 0 <= i < fs.len() ==> !is_timestamp(#[trigger] fs[i])) ==> line_text(
            fs,
            level,
            text,
            date1,
            time1,
        ) == line_text(fs, level, text, date2, time2),
    decreases fs.len(),
{
    if fs.len() > 0 {
        let f0 = fs.drop_last();
        lemma_render_depends_on_clock_only(f0, level, text, date1, time1, date2, time2);
        if forall|i: int| 0 <= i < fs.len() ==> !is_timestamp(#[trigger] fs[i]) {
            assert forall|i: int| 0 <= i < f0.len() implies !is_timestamp(#[trigger] f0[i]) by {
                assert(f0[i] == fs[i]);
            }
            assert(!is_timestamp(fs[fs.len() - 1]));
        }
    }
}

} // verus!
