//! The progress protocol of the transcoder: `key=value` lines on its
//! standard output, grouped into samples by a marker line.

use crate::event::{FFMpegProgress, ProgressView};
use crate::text::{chars_of, parse_decimal_chars, parse_unsigned, same_chars, trim, trim_bounds};
use vstd::prelude::*;
use vstd::string::*;

verus! {

/// The position of the first `=` in `line` at or after `from`, or the length
/// of `line` when there is none.
pub open spec fn next_equals(line: Seq<char>, from: int) -> int
    decreases line.len() - from,
{
    if from >= line.len() {
        line.len() as int
    } else if line[from] == '=' {
        from
    } else {
        next_equals(line, from + 1)
    }
}

/// Whether `line` is a `key=value` pair: it is one as soon as it holds a `=`.
pub open spec fn is_pair(line: Seq<char>) -> bool {
    0 <= next_equals(line, 0) < line.len()
}

/// The key of a pair: what stands before the first `=`, taken as it is.
pub open spec fn key_of(line: Seq<char>) -> Seq<char> {
    line.subrange(0, next_equals(line, 0))
}

/// The value of a pair: what stands between the first `=` and the next one,
/// or the end of the line, without surrounding whitespace.
pub open spec fn value_of(line: Seq<char>) -> Seq<char> {
    let start = next_equals(line, 0) + 1;
    trim(line.subrange(start, next_equals(line, start)))
}

/// What one line of output means for the sample being built.
#[derive(Debug, PartialEq, Eq)]
pub enum ProgressLine {
    /// The processing speed.
    Speed(String),
    /// The output time offset, in microseconds.
    OutTime(u64),
    /// The sample is complete.
    Boundary,
    /// Nothing: the line is malformed, its key is unknown, or its value is
    /// not a number where one is needed.
    Ignored,
}

/// What a `ProgressLine` stands for.
pub enum ProgressLineView {
    Speed(Seq<char>),
    OutTime(u64),
    Boundary,
    Ignored,
}

impl View for ProgressLine {
    type V = ProgressLineView;

    open spec fn view(&self) -> ProgressLineView {
        match self {
            ProgressLine::Speed(s) => ProgressLineView::Speed(s@),
            ProgressLine::OutTime(n) => ProgressLineView::OutTime(*n),
            ProgressLine::Boundary => ProgressLineView::Boundary,
            ProgressLine::Ignored => ProgressLineView::Ignored,
        }
    }
}

/// The meaning of `line`. The keys are `speed`, `out_time_ms` (which,
/// despite its name, counts microseconds) and `progress`, whose value is not
/// looked at.
pub open spec fn read_line(line: Seq<char>) -> ProgressLineView {
    if !is_pair(line) {
        ProgressLineView::Ignored
    } else if key_of(line) == "speed"@ {
        ProgressLineView::Speed(value_of(line))
    } else if key_of(line) == "out_time_ms"@ {
        match parse_unsigned(value_of(line), u64::MAX as nat) {
            Some(n) => ProgressLineView::OutTime(n as u64),
            None => ProgressLineView::Ignored,
        }
    } else if key_of(line) == "progress"@ {
        ProgressLineView::Boundary
    } else {
        ProgressLineView::Ignored
    }
}

fn find_equals(line: &Vec<char>, from: usize) -> (r: usize)
    requires
        from <= line.len(),
    ensures
        r == next_equals(line@, from as int),
        from <= r <= line.len(),
{
    let mut i: usize = from;
    while i < line.len() && line[i] != '='
        invariant
            from <= i <= line.len(),
            next_equals(line@, from as int) == next_equals(line@, i as int),
        decreases line.len() - i,
    {
        i = i + 1;
    }
    i
}

fn slice_chars(line: &Vec<char>, from: usize, to: usize) -> (r: Vec<char>)
    requires
        from <= to <= line.len(),
    ensures
        r@ == line@.subrange(from as int, to as int),
{
    let mut r: Vec<char> = Vec::new();
    let mut i: usize = from;
    while i < to
        invariant
            from <= i <= to <= line.len(),
            r@ == line@.subrange(from as int, i as int),
        decreases to - i,
    {
        r.push(line[i]);
        assert(r@ =~= line@.subrange(from as int, i + 1));
        i = i + 1;
    }
    assert(r@ =~= line@.subrange(from as int, to as int));
    r
}

/// Reads one line of the transcoder's output.
pub fn parse_progress_line(line: &str) -> (r: ProgressLine)
    ensures
        r@ == read_line(line@),
{
    let chars = chars_of(line);
    let eq: usize = find_equals(&chars, 0);
    if eq >= chars.len() {
        return ProgressLine::Ignored;
    }
    let end: usize = find_equals(&chars, eq + 1);
    let (from, to) = trim_bounds(&chars, eq + 1, end);
    let key = slice_chars(&chars, 0, eq);
    assert(key@ == key_of(line@));
    assert(chars@.subrange(from as int, to as int) == value_of(line@));
    if same_chars(&key, &chars_of("speed")) {
        let value = line.substring_char(from, to);
        ProgressLine::Speed(String::from_str(value))
    } else if same_chars(&key, &chars_of("out_time_ms")) {
        let value = slice_chars(&chars, from, to);
        match parse_decimal_chars(&value, 0xffff_ffff_ffff_ffff) {
            Some(n) => ProgressLine::OutTime(n),
            None => ProgressLine::Ignored,
        }
    } else if same_chars(&key, &chars_of("progress")) {
        ProgressLine::Boundary
    } else {
        ProgressLine::Ignored
    }
}

/// The sample after `line` has been taken in. A speed replaces the speed. An
/// output time replaces the output time unless it lies before the one
/// already held, in which case it is dropped. Nothing else changes a sample.
pub open spec fn absorbed(sample: ProgressView, line: ProgressLineView) -> ProgressView {
    match line {
        ProgressLineView::Speed(speed) => ProgressView { speed, out_time_us: sample.out_time_us },
        ProgressLineView::OutTime(t) => if t >= sample.out_time_us {
            ProgressView { speed: sample.speed, out_time_us: t }
        } else {
            sample
        },
        _ => sample,
    }
}

impl FFMpegProgress {
    /// The sample that a job starts from: no output yet, at speed `0x`.
    pub fn initial() -> (r: Self)
        ensures
            r@.out_time_us == 0,
            r@.speed == "0x"@,
    {
        FFMpegProgress { speed: String::from_str("0x"), out_time_us: 0 }
    }

    /// Takes `line` into the sample and says whether the sample is now
    /// complete and due to be reported.
    pub fn absorb(&mut self, line: ProgressLine) -> (complete: bool)
        ensures
            final(self)@ == absorbed(old(self)@, line@),
            complete == (line@ is Boundary),
            final(self)@.out_time_us >= old(self)@.out_time_us,
    {
        match line {
            ProgressLine::Speed(speed) => {
                self.speed = speed;
                false
            },
            ProgressLine::OutTime(t) => {
                if t >= self.out_time_us {
                    self.out_time_us = t;
                }
                false
            },
            ProgressLine::Boundary => true,
            ProgressLine::Ignored => false,
        }
    }
}

} // verus!
