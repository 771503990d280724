//! Recording segments: reading the segment list that the media server reports
//! for a stream, and placing the segments relative to the stream's start.
use vstd::prelude::*;
use vstd::string::*;
use crate::numbers::{parse_i64, spec_parse_i64};
use crate::text::{find_str, first_occurrence, is_first_occurrence, lemma_first_occurrence_is, occurs_at};
use crate::time::Moment;

verus! {

/// The pieces of `s` between the separator `c`: `k` separators give `k + 1`
/// pieces.
pub open spec fn split_on(s: Seq<char>, c: char) -> Seq<Seq<char>>
    decreases s.len(),
{
    match first_occurrence(s, seq![c]) {
        Some(i) => if 0 <= i < s.len() {
            seq![s.take(i)] + split_on(s.skip(i + 1), c)
        } else {
            seq![s]
        },
        None => seq![s],
    }
}

/// The two fields of a segment line `<started at>,<duration>`: the text
/// before the first comma and the text after it.
pub open spec fn spec_line_fields(line: Seq<char>) -> Option<(Seq<char>, Seq<char>)> {
    match first_occurrence(line, ","@) {
        Some(i) => Some((line.take(i), line.skip(i + 1))),
        None => None,
    }
}

/// One line of a segment list, read as far as this library reads it: the
/// duration is left as text.
pub enum SegmentLine {
    /// The start in milliseconds since the epoch, and the duration in seconds as text.
    Fields { started_at: i64, duration: String },
    /// The line has no comma.
    Unsplittable,
    /// The start is no 64-bit integer.
    InvalidStartedAt,
}

/// A line of a segment list, with texts for strings.
pub enum SegmentLineView {
    Fields(i64, Seq<char>),
    Unsplittable,
    InvalidStartedAt,
}

impl View for SegmentLine {
    type V = SegmentLineView;

    open spec fn view(&self) -> SegmentLineView {
        match self {
            SegmentLine::Fields { started_at, duration } => SegmentLineView::Fields(
                *started_at,
                duration@,
            ),
            SegmentLine::Unsplittable => SegmentLineView::Unsplittable,
            SegmentLine::InvalidStartedAt => SegmentLineView::InvalidStartedAt,
        }
    }
}

/// How one line of a segment list reads.
pub open spec fn spec_read_line(line: Seq<char>) -> SegmentLineView {
    match spec_line_fields(line) {
        None => SegmentLineView::Unsplittable,
        Some((started_at, duration)) => match spec_parse_i64(started_at) {
            None => SegmentLineView::InvalidStartedAt,
            Some(v) => SegmentLineView::Fields(v, duration),
        },
    }
}

/// A line `<start>,<duration>` whose start holds no comma reads as the
/// number the start writes and the duration as it stands, commas and all; a
/// start that writes no number is an invalid start; a line with no comma
/// cannot be split.
pub proof fn lemma_segment_line(start: Seq<char>, duration: Seq<char>, line: Seq<char>)
    requires
        !start.contains(','),
    ensures
        spec_read_line(start + ","@ + duration) == match spec_parse_i64(start) {
            Some(v) => SegmentLineView::Fields(v, duration),
            None => SegmentLineView::InvalidStartedAt,
        },
        !line.contains(',') ==> spec_read_line(line) == SegmentLineView::Unsplittable,
{
    reveal_strlit(",");
    let l = start + ","@ + duration;
    let i = start.len() as int;
    assert(l.subrange(i, i + 1) =~= ","@);
    assert forall|j: int| 0 <= j < i implies !occurs_at(l, ","@, j) by {
        if occurs_at(l, ","@, j) {
            assert(l.subrange(j, j + 1)[0] == l[j]);
            assert(l[j] == start[j]);
        }
    }
    assert(is_first_occurrence(l, ","@, i));
    lemma_first_occurrence_is(l, ","@, i);
    assert(l.take(i) =~= start);
    assert(l.skip(i + 1) =~= duration);
    if !line.contains(',') {
        assert forall|j: int| !occurs_at(line, ","@, j) by {
            if occurs_at(line, ","@, j) {
                assert(line.subrange(j, j + 1)[0] == line[j]);
            }
        }
        crate::text::lemma_no_occurrence(line, ","@);
    }
}

proof fn lemma_split_step(s: Seq<char>, c: char, i: int)
    requires
        first_occurrence(s, seq![c]) == Some(i),
        0 <= i < s.len(),
    ensures
        split_on(s, c) == seq![s.take(i)] + split_on(s.skip(i + 1), c),
{
}

/// Reads one line of a segment list.
pub fn read_segment_line(line: &str) -> (r: SegmentLine)
    ensures
        r@ == spec_read_line(line@),
{
    let n = line.unicode_len();
    match find_str(line, ",") {
        None => SegmentLine::Unsplittable,
        Some(i) => {
            proof {
                reveal_strlit(",");
            }
            let started_at = line.substring_char(0, i);
            let duration = line.substring_char(i + 1, n).to_owned();
            match parse_i64(started_at) {
                None => SegmentLine::InvalidStartedAt,
                Some(v) => SegmentLine::Fields { started_at: v, duration },
            }
        },
    }
}

/// Reads each line of a segment list, lines being separated by `\n`.
pub fn read_segment_lines(text: &str) -> (r: Vec<SegmentLine>)
    ensures
        r@.len() == split_on(text@, '\n').len(),
        forall|k: int|
            0 <= k < r@.len() ==> #[trigger] r@[k]@ == spec_read_line(split_on(text@, '\n')[k]),
{
    let mut r: Vec<SegmentLine> = Vec::new();
    let mut rest: &str = text;
    let ghost done: Seq<Seq<char>> = Seq::empty();
    proof {
        reveal_strlit("\n");
        assert("\n"@ == seq!['\n']);
    }
    loop
        invariant_except_break
            done + split_on(rest@, '\n') == split_on(text@, '\n'),
        invariant
            "\n"@ == seq!['\n'],
            r@.len() == done.len(),
            forall|k: int| 0 <= k < r@.len() ==> #[trigger] r@[k]@ == spec_read_line(done[k]),
        ensures
            done == split_on(text@, '\n'),
        decreases rest@.len(),
    {
        let n = rest.unicode_len();
        match find_str(rest, "\n") {
            Some(i) => {
                let line = rest.substring_char(0, i);
                let read = read_segment_line(line);
                proof {
                    lemma_split_step(rest@, '\n', i as int);
                    assert(done.push(line@) + split_on(rest@.skip(i + 1), '\n') =~= done + (seq![
                        rest@.take(i as int),
                    ] + split_on(rest@.skip(i + 1), '\n')));
                }
                r.push(read);
                proof {
                    done = done.push(line@);
                }
                rest = rest.substring_char(i + 1, n);
            },
            None => {
                let read = read_segment_line(rest);
                proof {
                    assert(split_on(rest@, '\n') == seq![rest@]);
                    assert(done.push(rest@) =~= done + seq![rest@]);
                    done = done.push(rest@);
                }
                r.push(read);
                break ;
            },
        }
    }
    r
}

/// A recorded stretch of a stream: from `start` (included) to `end`
/// (excluded), in milliseconds from the stream's start.
#[derive(Clone, Copy, Debug, PartialEq, Eq, Structural)]
pub struct Segment {
    pub start: i64,
    pub end: i64,
}

/// A valid time of day for chrono: less than a second of nanoseconds, or,
/// in the last second of a minute, a leap second (less than two seconds).
pub open spec fn chrono_time_ok(secs: i64, nanos: u32) -> bool {
    nanos < 1_000_000_000 || (nanos < 2_000_000_000 && (secs as int) % 60 == 59)
}

/// Whether `from_timestamp(secs, nanos)` of the `chrono` crate gives a
/// moment: the seconds fall on a day from January 1 of year -262143 to
/// December 31 of year 262142, chrono's calendar range, and the
/// nanoseconds make a valid time of day with them.
pub open spec fn chrono_accepts(secs: i64, nanos: u32) -> bool {
    &&& -8_334_601_228_800 <= secs <= 8_210_266_876_799
    &&& chrono_time_ok(secs, nanos)
}

/// Makes a moment of seconds and nanoseconds with
/// `chrono::DateTime::<Utc>::from_timestamp`. A moment is made exactly where
/// `chrono_accepts` holds, and it has the given seconds and nanoseconds.
#[verifier::external_body]
pub(crate) fn moment_from_timestamp(secs: i64, nanos: u32) -> (r: Option<Moment>)
    ensures
        r is Some <==> chrono_accepts(secs, nanos),
        r matches Some(m) ==> m == (Moment { secs, nanos }),
{
    match chrono::DateTime::<chrono::Utc>::from_timestamp(secs, nanos) {
        Some(d) => Some(Moment { secs: d.timestamp(), nanos: d.timestamp_subsec_nanos() }),
        None => None,
    }
}

/// The seconds part of a count of milliseconds, rounded toward zero.
pub open spec fn ms_secs(ms: i64) -> int {
    if ms >= 0 {
        ms / 1000
    } else {
        -((-(ms as int)) / 1000)
    }
}

/// The milliseconds left over, with the sign of the count.
pub open spec fn ms_rest(ms: i64) -> int {
    ms - ms_secs(ms) * 1000
}

/// The moment of a count of milliseconds since the epoch, as the stream
/// start is converted: the leftover milliseconds become nanoseconds, and a
/// negative leftover is no valid nanosecond count.
pub open spec fn spec_ms_moment(ms: i64) -> Option<Moment> {
    if ms_rest(ms) < 0 || !chrono_accepts(ms_secs(ms) as i64, (ms_rest(ms) * 1_000_000) as u32) {
        None
    } else {
        Some(Moment { secs: ms_secs(ms) as i64, nanos: (ms_rest(ms) * 1_000_000) as u32 })
    }
}

/// Why a segment list could not be placed on the time line.
#[derive(Debug, Clone, Copy, PartialEq, Eq, Structural)]
pub enum SegmentsError {
    /// The list has no segment.
    NoSegments,
    /// The start of the first segment is no valid moment.
    InvalidStart,
}

/// The segments relative to the start of the first one.
pub open spec fn spec_relative(started: Seq<i64>, durations_ms: Seq<i64>) -> Seq<Segment> {
    Seq::new(
        started.len(),
        |k: int|
            Segment {
                start: (started[k] - started[0]) as i64,
                end: (started[k] - started[0] + durations_ms[k]) as i64,
            },
    )
}

/// The relative segment ends fit in 64 bits.
pub open spec fn relative_fits(started: Seq<i64>, durations_ms: Seq<i64>) -> bool {
    forall|k: int|
        0 <= k < started.len() ==> i64::MIN <= #[trigger] started[k] - started[0] <= i64::MAX
            && i64::MIN <= started[k] - started[0] + durations_ms[k] <= i64::MAX
}

/// Placed relative to the stream's start, the first segment starts at zero,
/// every segment keeps its duration, and the distance between the starts of
/// any two segments is that between their absolute starts.
pub proof fn lemma_relative_placement(started: Seq<i64>, durations_ms: Seq<i64>)
    requires
        started.len() == durations_ms.len(),
        relative_fits(started, durations_ms),
    ensures
        ({
            let r = spec_relative(started, durations_ms);
            &&& r.len() == started.len()
            &&& started.len() > 0 ==> r[0].start == 0
            &&& forall|k: int| 0 <= k < r.len() ==> #[trigger] r[k].end - r[k].start == durations_ms[k]
            &&& forall|j: int, k: int|
                0 <= j < r.len() && 0 <= k < r.len() ==> #[trigger] r[k].start - #[trigger] r[j].start
                    == started[k] - started[j]
        }),
{
    let r = spec_relative(started, durations_ms);
    assert forall|k: int| 0 <= k < r.len() implies #[trigger] r[k].end - r[k].start == durations_ms[k] by {
        assert(i64::MIN <= started[k] - started[0] <= i64::MAX);
    }
    assert forall|j: int, k: int|
        0 <= j < r.len() && 0 <= k < r.len() implies #[trigger] r[k].start - #[trigger] r[j].start
            == started[k] - started[j] by {
        assert(i64::MIN <= started[k] - started[0] <= i64::MAX);
        assert(i64::MIN <= started[j] - started[0] <= i64::MAX);
    }
}

/// Places segments, given by their absolute starts (milliseconds since the
/// epoch) and durations (milliseconds), relative to the start of the first
/// one, which becomes the stream's start.
pub fn relative_segments(started: &Vec<i64>, durations_ms: &Vec<i64>) -> (r: Result<
    (Moment, Vec<Segment>),
    SegmentsError,
>)
    requires
        started@.len() == durations_ms@.len(),
        relative_fits(started@, durations_ms@),
    ensures
        started@.len() == 0 ==> r == Err::<(Moment, Vec<Segment>), SegmentsError>(
            SegmentsError::NoSegments,
        ),
        started@.len() > 0 ==> match spec_ms_moment(started@[0]) {
            None => r == Err::<(Moment, Vec<Segment>), SegmentsError>(SegmentsError::InvalidStart),
            Some(m) => r matches Ok((at, segs)) && at == m && segs@ == spec_relative(
                started@,
                durations_ms@,
            ),
        },
{
    if started.len() == 0 {
        return Err(SegmentsError::NoSegments);
    }
    let absolute = started[0];
    let mut segs: Vec<Segment> = Vec::new();
    for k in 0..started.len()
        invariant
            started@.len() == durations_ms@.len(),
            absolute == started@[0],
            relative_fits(started@, durations_ms@),
            segs@ == spec_relative(started@, durations_ms@).take(k as int),
    {
        assert(i64::MIN <= started@[k as int] - started@[0] <= i64::MAX);
        let relative = started[k] - absolute;
        let end = relative + durations_ms[k];
        segs.push(Segment { start: relative, end });
        assert(segs@ =~= spec_relative(started@, durations_ms@).take(k + 1));
    }
    assert(segs@ =~= spec_relative(started@, durations_ms@));
    let secs = absolute / 1000;
    let rest = absolute % 1000;
    assert(secs == ms_secs(absolute) && rest == ms_rest(absolute));
    if rest < 0 {
        return Err(SegmentsError::InvalidStart);
    }
    let nanos: u32 = (rest * 1_000_000) as u32;
    match moment_from_timestamp(secs, nanos) {
        Some(at) => Ok((at, segs)),
        None => Err(SegmentsError::InvalidStart),
    }
}

} // verus!
