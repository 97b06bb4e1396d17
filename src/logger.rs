use vstd::prelude::*;

use crate::clock::{is_date_text, is_time_text};
use crate::level::{is_enabled, Level};
use crate::log_field::{is_timestamp, lemma_render_depends_on_clock_only, line_text, LogField};
use crate::message::Message;
use crate::sink::Sink;

verus! {

/// `line` is the UTF-8 encoding of a rendering of `text` at `level` by the
/// template `fs`, for some date and time texts of the clock's shape.
pub open spec fn is_rendering(line: Seq<u8>, fs: Seq<LogField>, level: Level, text: Seq<char>) -> bool {
    exists|date: Seq<char>, time: Seq<char>|
        is_date_text(date) && is_time_text(time) && line == vstd::utf8::encode_utf8(#[trigger] line_text(fs, level, text, date, time))
}

/// The sinks `before` became `after` by handing `line` to the first `k` of
/// them, in order: each of those was asked once for `line` and every one but
/// the last of them accepted it; the others are as they were.
pub open spec fn is_partial_fan_out(
    before: Seq<Box<dyn Sink>>,
    after: Seq<Box<dyn Sink>>,
    line: Seq<u8>,
    k: int,
) -> bool {
    &&& after.len() == before.len()
    &&& 0 <= k <= before.len()
    &&& forall|j: int|
        0 <= j < k ==> {
            &&& (#[trigger] after[j].history()).len() == before[j].history().len() + 1
            &&& after[j].history().drop_last() == before[j].history()
            &&& after[j].history().last().0 == line
        }
    &&& forall|j: int| 0 <= j < k - 1 ==> (#[trigger] after[j].history()).last().1 is Ok
    &&& forall|j: int| k <= j < before.len() ==> #[trigger] after.index(j) == before[j]
}

/// A fan-out of `line` over the sinks that reached the first `k` of them
/// and returned `r`: it stopped at the first sink that failed and returned
/// that sink's answer, or reached every sink, all of which accepted, and
/// returned success.
pub open spec fn is_fan_out(
    before: Seq<Box<dyn Sink>>,
    after: Seq<Box<dyn Sink>>,
    line: Seq<u8>,
    k: int,
    r: Result<(), std::io::Error>,
) -> bool {
    &&& is_partial_fan_out(before, after, line, k)
    &&& r is Ok ==> k == before.len() && (k == 0 || after[k - 1].history().last().1 is Ok)
    &&& r is Err ==> k >= 1 && r == after[k - 1].history().last().1
}

/// One enabled call of `log` on `before`, at `level` with `text`, led to
/// `after` and returned `r`: a single rendering of the message was handed to
/// the sinks in order, up to and including the first that failed.
pub open spec fn is_logged(
    before: Logger,
    after: Logger,
    level: Level,
    text: Seq<char>,
    r: Result<(), std::io::Error>,
) -> bool {
    exists|line: Seq<u8>, k: int|
        {
            &&& is_rendering(line, before.spec_format(), level, text)
            &&& #[trigger] is_fan_out(before.spec_sinks(), after.spec_sinks(), line, k, r)
        }
}

/// Lines of successive calls reach each sink in the order of the calls:
/// after two enabled calls that both succeed, every sink was asked for the
/// first call's line and then the second's, accepted both, and was asked for
/// nothing else. Where the two calls have one level and one text and the
/// template reads no clock, both lines are the same bytes.
pub proof fn lemma_calls_arrive_in_order(
    l0: Logger,
    l1: Logger,
    l2: Logger,
    level1: Level,
    text1: Seq<char>,
    level2: Level,
    text2: Seq<char>,
    r1: Result<(), std::io::Error>,
    r2: Result<(), std::io::Error>,
)
    requires
        is_logged(l0, l1, level1, text1, r1),
        r1 is Ok,
        l1.spec_format() == l0.spec_format(),
        is_logged(l1, l2, level2, text2, r2),
        r2 is Ok,
    ensures
        l2.spec_sinks().len() == l0.spec_sinks().len(),
        exists|line1: Seq<u8>, line2: Seq<u8>|
            {
                &&& is_rendering(line1, l0.spec_format(), level1, text1)
                &&& is_rendering(line2, l0.spec_format(), level2, text2)
                &&& (level1 == level2 && text1 == text2 && forall|i: int|
                    0 <= i < l0.spec_format().len() ==> !is_timestamp(
                        #[trigger] l0.spec_format()[i],
                    )) ==> line1 == line2
                &&& forall|j: int|
                    0 <= j < l0.spec_sinks().len() ==> #[trigger] l2.spec_sinks()[j].history()
                        == l0.spec_sinks()[j].history().push((line1, l1.spec_sinks()[j].history().last().1)).push(
                        (line2, l2.spec_sinks()[j].history().last().1),
                    ) && l1.spec_sinks()[j].history().last().1 is Ok && l2.spec_sinks()[j].history().last().1 is Ok
            },
{
    let (line1, k1) = choose|line: Seq<u8>, k: int|
        is_rendering(line, l0.spec_format(), level1, text1) && #[trigger] is_fan_out(
            l0.spec_sinks(),
            l1.spec_sinks(),
            line,
            k,
            r1,
        );
    let (line2, k2) = choose|line: Seq<u8>, k: int|
        is_rendering(line, l1.spec_format(), level2, text2) && #[trigger] is_fan_out(
            l1.spec_sinks(),
            l2.spec_sinks(),
            line,
            k,
            r2,
        );
    let fs = l0.spec_format();
    if level1 == level2 && text1 == text2 && forall|i: int|
        0 <= i < fs.len() ==> !is_timestamp(#[trigger] fs[i]) {
        let (d1, t1) = choose|d: Seq<char>, t: Seq<char>|
            is_date_text(d) && is_time_text(t) && line1 == vstd::utf8::encode_utf8(
                #[trigger] line_text(fs, level1, text1, d, t),
            );
        let (d2, t2) = choose|d: Seq<char>, t: Seq<char>|
            is_date_text(d) && is_time_text(t) && line2 == vstd::utf8::encode_utf8(
                #[trigger] line_text(fs, level2, text2, d, t),
            );
        lemma_render_depends_on_clock_only(fs, level1, text1, d1, t1, d2, t2);
    }
    let s0 = l0.spec_sinks();
    let s1 = l1.spec_sinks();
    let s2 = l2.spec_sinks();
    assert forall|j: int| 0 <= j < s0.len() implies #[trigger] s2[j].history() == s0[j].history().push(
        (line1, s1[j].history().last().1),
    ).push((line2, s2[j].history().last().1)) && s1[j].history().last().1 is Ok
        && s2[j].history().last().1 is Ok by {
        assert(s1[j].history().len() == s0[j].history().len() + 1);
        assert(s1[j].history().drop_last() == s0[j].history());
        assert(s2[j].history().drop_last() == s1[j].history());
        assert(s1[j].history() =~= s0[j].history().push((line1, s1[j].history().last().1)));
        assert(s2[j].history() =~= s1[j].history().push((line2, s2[j].history().last().1)));
    }
}

/// A threshold, an ordered list of sinks and a template.
pub struct Logger {
    // the least severe level that is written
    max_level: Level,
    // where lines go, in this order
    writers: Vec<Box<dyn Sink>>,
    // how a line is laid out
    format: Vec<LogField>,
}

impl Logger {
    /// The threshold.
    pub closed spec fn spec_threshold(&self) -> Level {
        self.max_level
    }

    /// The sinks, in order.
    pub closed spec fn spec_sinks(&self) -> Seq<Box<dyn Sink>> {
        self.writers@
    }

    /// The template.
    pub closed spec fn spec_format(&self) -> Seq<LogField> {
        self.format@
    }

    pub fn new(max_level: Level, writers: Vec<Box<dyn Sink>>, format: Vec<LogField>) -> (r: Self)
        ensures
            r.spec_threshold() == max_level,
            r.spec_sinks() == writers@,
            r.spec_format() == format@,
    {
        Self { max_level, writers, format }
    }

    /// Logs `content` at `level`.
    ///
    /// Below the threshold nothing happens. Otherwise the line is rendered
    /// once and handed to each sink in order; the first failure stops the
    /// fan-out and is returned, and the sinks after it are not touched.
    pub fn log(&mut self, level: Level, content: String) -> (r: Result<(), std::io::Error>)
        ensures
            final(self).spec_threshold() == old(self).spec_threshold(),
            final(self).spec_format() == old(self).spec_format(),
            final(self).spec_sinks().len() == old(self).spec_sinks().len(),
            !is_enabled(old(self).spec_threshold(), level) ==> r is Ok && *final(self) == *old(
                self,
            ),
            is_enabled(old(self).spec_threshold(), level) ==> is_logged(
                *old(self),
                *final(self),
                level,
                content@,
                r,
            ),
    {
        if !self.max_level.enabled(&level) {
            return Ok(());
        }
        let format = self.format.clone();
        assert(format@ =~= self.format@);
        let message = Message::new(level, content, format);
        let line = message.render();
        let bytes = line.as_str().as_bytes();
        assert(is_rendering(bytes@, self.format@, level, content@));
        let ghost old_self = *self;
        let n = self.writers.len();
        let mut res: Result<(), std::io::Error> = Ok(());
        let mut i: usize = 0;
        let ghost mut reached: int = 0;
        while i < n
            invariant_except_break
                i <= n,
                res is Ok,
                reached == i,
                forall|j: int| 0 <= j < i ==> (#[trigger] self.writers@[j].history()).last().1 is Ok,
                is_partial_fan_out(old_self.writers@, self.writers@, bytes@, i as int),
            invariant
                n == self.writers@.len(),
                n == old_self.writers@.len(),
                self.max_level == old_self.max_level,
                self.format == old_self.format,
            ensures
                is_fan_out(old_self.writers@, self.writers@, bytes@, reached, res),
            decreases n - i,
        {
            let ghost before_w = self.writers@;
            let sink: &mut Box<dyn Sink> = &mut self.writers[i];
            let r = sink.write_all(bytes);
            assert(forall|j: int| 0 <= j < n && j != i ==> self.writers@[j] == before_w[j]);
            assert(self.writers@[i as int].history() == old_self.writers@[i as int].history().push(
                (bytes@, r),
            ));
            assert(self.writers@[i as int].history().drop_last() =~= old_self.writers@[
                i as int
            ].history());
            if r.is_err() {
                res = r;
                proof {
                    reached = i + 1;
                }
                break;
            }
            i = i + 1;
            proof {
                reached = i as int;
            }
        }
        assert(old_self == *old(self));
        assert(is_fan_out(old(self).spec_sinks(), self.spec_sinks(), bytes@, reached, res));
        assert(is_rendering(bytes@, old(self).spec_format(), level, content@));
        res
    }
}

} // verus!
