//! Durations written as compact text: `"10m30s"`, `"1h"`, `"90s"`.

use crate::text::{decimal, decimal_text, digit_char};
use vstd::prelude::*;
use vstd::string::StrSliceExecFns;
use vstd::string::StringExecFns;

verus! {

/// A span of time: whole seconds, and the nanoseconds of the part below
/// one second.
#[derive(Clone, Copy, Debug, PartialEq, Eq, Structural)]
pub struct DurationWrapper {
    secs: u64,
    nanos: u32,
}

impl DurationWrapper {
    /// The part below one second is below one second.
    #[verifier::type_invariant]
    spec fn well_formed(self) -> bool {
        self.nanos < 1_000_000_000
    }

    /// The whole seconds of the span.
    pub closed spec fn seconds(self) -> u64 {
        self.secs
    }

    /// The nanoseconds of the part below one second.
    pub closed spec fn subsec(self) -> u32 {
        self.nanos
    }

    /// The span of so many whole seconds.
    pub closed spec fn whole(secs: u64) -> DurationWrapper {
        DurationWrapper { secs, nanos: 0 }
    }

    /// The span in nanoseconds.
    pub open spec fn nanoseconds(self) -> nat {
        (self.seconds() * 1_000_000_000 + self.subsec()) as nat
    }
}

/// A span is its two parts, and the span of whole seconds has nothing
/// below one second.
pub proof fn lemma_duration_parts(a: DurationWrapper, b: DurationWrapper, secs: u64)
    ensures
        (a.seconds() == b.seconds() && a.subsec() == b.subsec()) ==> a == b,
        DurationWrapper::whole(secs).seconds() == secs,
        DurationWrapper::whole(secs).subsec() == 0,
{
}

/// Why a text is no duration.
#[derive(Clone, Copy, Debug, PartialEq, Eq, Structural)]
pub enum DurationParseError {
    /// A unit marker stands behind something that is no number, or the
    /// seconds do not fit in 64 bits.
    InvalidNumber,
    /// The text holds no unit marker at all.
    DurationNotFound,
}

/// The unit markers: `s`, `m` and `h`, in either case.
pub open spec fn is_unit(c: char) -> bool {
    c == 's' || c == 'S' || c == 'm' || c == 'M' || c == 'h' || c == 'H'
}

/// The seconds that one of a unit makes.
pub open spec fn unit_seconds(c: char) -> nat {
    if c == 's' || c == 'S' {
        1
    } else if c == 'm' || c == 'M' {
        60
    } else {
        3600
    }
}

/// The value of a decimal digit; `None` for any other character.
pub open spec fn digit_of(c: char) -> Option<nat> {
    if c == '0' {
        Some(0)
    } else if c == '1' {
        Some(1)
    } else if c == '2' {
        Some(2)
    } else if c == '3' {
        Some(3)
    } else if c == '4' {
        Some(4)
    } else if c == '5' {
        Some(5)
    } else if c == '6' {
        Some(6)
    } else if c == '7' {
        Some(7)
    } else if c == '8' {
        Some(8)
    } else if c == '9' {
        Some(9)
    } else {
        None
    }
}

pub open spec fn all_digits(s: Seq<char>) -> bool {
    forall|i: int| 0 <= i < s.len() ==> (#[trigger] digit_of(s[i])) is Some
}

/// The number that a run of digits writes, most significant digit first.
pub open spec fn digits_value(s: Seq<char>) -> nat
    decreases s.len(),
{
    if s.len() == 0 {
        0
    } else {
        digits_value(s.drop_last()) * 10 + match digit_of(s.last()) {
            Some(d) => d,
            None => 0,
        }
    }
}

/// A segment without its sign: a number may begin with one `+`.
pub open spec fn segment_digits(s: Seq<char>) -> Seq<char> {
    if s.len() > 0 && s[0] == '+' {
        s.skip(1)
    } else {
        s
    }
}

/// The number that a segment writes: one or more digits behind at most one
/// `+`, and a value that fits in 64 bits.
pub open spec fn segment_value(s: Seq<char>) -> Option<nat> {
    let d = segment_digits(s);
    if d.len() > 0 && all_digits(d) && digits_value(d) <= u64::MAX {
        Some(digits_value(d))
    } else {
        None
    }
}

/// What a text amounts to when it is read up to its end.
pub struct Scan {
    /// The seconds of the segments that a unit marker closed.
    pub total: nat,
    /// How many segments a unit marker closed.
    pub count: nat,
    /// Whether each of those segments was a number.
    pub valid: bool,
    /// The characters behind the last unit marker.
    pub pending: Seq<char>,
}

/// Reads a text without spaces: each unit marker closes the segment before
/// it, which counts for its number times the unit's seconds.
pub open spec fn scan(t: Seq<char>) -> Scan
    decreases t.len(),
{
    if t.len() == 0 {
        Scan { total: 0, count: 0, valid: true, pending: Seq::empty() }
    } else {
        let before = scan(t.drop_last());
        let c = t.last();
        if is_unit(c) {
            match segment_value(before.pending) {
                Some(v) => Scan {
                    total: before.total + v * unit_seconds(c),
                    count: before.count + 1,
                    valid: before.valid,
                    pending: Seq::empty(),
                },
                None => Scan {
                    total: before.total,
                    count: before.count + 1,
                    valid: false,
                    pending: Seq::empty(),
                },
            }
        } else {
            Scan {
                total: before.total,
                count: before.count,
                valid: before.valid,
                pending: before.pending.push(c),
            }
        }
    }
}

/// White space: the characters that Unicode counts as such.
pub open spec fn is_whitespace(c: char) -> bool {
    let n = c as u32;
    ||| 0x09 <= n <= 0x0D
    ||| n == 0x20
    ||| n == 0x85
    ||| n == 0xA0
    ||| n == 0x1680
    ||| 0x2000 <= n <= 0x200A
    ||| n == 0x2028
    ||| n == 0x2029
    ||| n == 0x202F
    ||| n == 0x205F
    ||| n == 0x3000
}

/// A text without its white space.
pub open spec fn strip_whitespace(s: Seq<char>) -> Seq<char> {
    s.filter(|c: char| !is_whitespace(c))
}

/// The duration that a text writes. White space is dropped and letter case
/// does not count. Segments add up; what follows the last unit marker is ignored.
pub open spec fn parse_duration(s: Seq<char>) -> Result<DurationWrapper, DurationParseError> {
    let read = scan(strip_whitespace(s));
    if read.count == 0 {
        Err(DurationParseError::DurationNotFound)
    } else if !read.valid || read.total > u64::MAX {
        Err(DurationParseError::InvalidNumber)
    } else {
        Ok(DurationWrapper::whole(read.total as u64))
    }
}

/// The text of a duration: whole minutes, then the seconds left over.
pub open spec fn duration_text(d: DurationWrapper) -> Seq<char> {
    decimal((d.seconds() / 60) as nat) + seq!['m'] + decimal((d.seconds() % 60) as nat) + seq!['s']
}

/// A segment as far as it has been read.
enum Pending {
    /// Nothing yet.
    Empty,
    /// One `+` and nothing else.
    Sign,
    /// A number so far, with its value.
    Number(u64),
    /// Something that no further character turns into a number.
    Hopeless,
}

/// A segment that can no longer become a number that fits.
spec fn hopeless(t: Seq<char>) -> bool {
    let d = segment_digits(t);
    t.len() > 0 && (d.len() > 0 || t.len() > 1) && (!all_digits(d) || digits_value(d) > u64::MAX)
}

impl Pending {
    spec fn matches(self, t: Seq<char>) -> bool {
        match self {
            Pending::Empty => t.len() == 0,
            Pending::Sign => t =~= seq!['+'],
            Pending::Number(v) => segment_value(t) == Some(v as nat),
            Pending::Hopeless => hopeless(t),
        }
    }
}

proof fn lemma_digits_push(d: Seq<char>, c: char)
    ensures
        all_digits(d.push(c)) == (all_digits(d) && digit_of(c) is Some),
        digits_value(d.push(c)) == digits_value(d) * 10 + match digit_of(c) {
            Some(v) => v,
            None => 0,
        },
        digits_value(d.push(c)) >= digits_value(d),
{
    let e = d.push(c);
    assert(e.drop_last() =~= d);
    assert(e.last() == c);
    if all_digits(d) && digit_of(c) is Some {
        assert forall|i: int| 0 <= i < e.len() implies (#[trigger] digit_of(e[i])) is Some by {
            if i < d.len() {
                assert(e[i] == d[i]);
            }
        }
    }
    if all_digits(e) {
        assert(digit_of(e[d.len() as int]) is Some);
        assert forall|i: int| 0 <= i < d.len() implies (#[trigger] digit_of(d[i])) is Some by {
            assert(e[i] == d[i]);
        }
    }
}

proof fn lemma_segment_push(t: Seq<char>, c: char)
    requires
        t.len() > 0,
    ensures
        segment_digits(t.push(c)) == segment_digits(t).push(c),
{
    let e = t.push(c);
    assert(e[0] == t[0]);
    if t[0] == '+' {
        assert(e.skip(1) =~= t.skip(1).push(c));
    }
}

proof fn lemma_hopeless_stays(t: Seq<char>, c: char)
    requires
        hopeless(t),
    ensures
        hopeless(t.push(c)),
        segment_value(t) is None,
{
    lemma_segment_push(t, c);
    lemma_digits_push(segment_digits(t), c);
}

/// The digit that a character writes, if it is one.
fn digit(c: char) -> (r: Option<u64>)
    ensures
        match r {
            Some(d) => d < 10 && digit_of(c) == Some(d as nat),
            None => digit_of(c) is None,
        },
{
    if c == '0' {
        Some(0)
    } else if c == '1' {
        Some(1)
    } else if c == '2' {
        Some(2)
    } else if c == '3' {
        Some(3)
    } else if c == '4' {
        Some(4)
    } else if c == '5' {
        Some(5)
    } else if c == '6' {
        Some(6)
    } else if c == '7' {
        Some(7)
    } else if c == '8' {
        Some(8)
    } else if c == '9' {
        Some(9)
    } else {
        None
    }
}

fn whitespace(c: char) -> (r: bool)
    ensures
        r == is_whitespace(c),
{
    let n: u32 = c as u32;
    (0x09 <= n && n <= 0x0D) || n == 0x20 || n == 0x85 || n == 0xA0 || n == 0x1680 || (0x2000 <= n
        && n <= 0x200A) || n == 0x2028 || n == 0x2029 || n == 0x202F || n == 0x205F || n == 0x3000
}

/// The seconds of a unit marker; `None` for any other character.
fn unit(c: char) -> (r: Option<u64>)
    ensures
        r is Some == is_unit(c),
        r is Some ==> r->Some_0 == unit_seconds(c),
{
    if c == 's' || c == 'S' {
        Some(1)
    } else if c == 'm' || c == 'M' {
        Some(60)
    } else if c == 'h' || c == 'H' {
        Some(3600)
    } else {
        None
    }
}

impl Pending {
    /// The segment with one more character, which is no unit marker.
    fn push(self, c: char, Ghost(t): Ghost<Seq<char>>) -> (r: Pending)
        requires
            self.matches(t),
        ensures
            r.matches(t.push(c)),
    {
        let d = digit(c);
        proof {
            if t.len() > 0 {
                lemma_segment_push(t, c);
                lemma_digits_push(segment_digits(t), c);
            } else {
                assert(t.push(c).skip(1) =~= Seq::<char>::empty());
                assert(Seq::<char>::empty().push(c) =~= t.push(c));
                lemma_digits_push(Seq::<char>::empty(), c);
            }
        }
        match self {
            Pending::Empty => match d {
                Some(v) => Pending::Number(v),
                None => if c == '+' {
                    Pending::Sign
                } else {
                    Pending::Hopeless
                },
            },
            Pending::Sign => {
                proof {
                    assert(t.skip(1) =~= Seq::<char>::empty());
                }
                match d {
                    Some(v) => Pending::Number(v),
                    None => Pending::Hopeless,
                }
            },
            Pending::Number(n) => match d {
                Some(v) => if n > (u64::MAX - v) / 10 {
                    Pending::Hopeless
                } else {
                    Pending::Number(n * 10 + v)
                },
                None => Pending::Hopeless,
            },
            Pending::Hopeless => {
                proof {
                    lemma_hopeless_stays(t, c);
                }
                Pending::Hopeless
            },
        }
    }
}

/// A reading that has failed: a closed segment was no number, or the
/// seconds have outgrown 64 bits.
spec fn failed(read: Scan) -> bool {
    read.count > 0 && (!read.valid || read.total > u64::MAX)
}

proof fn lemma_strip_take(s: Seq<char>, i: int)
    requires
        0 <= i < s.len(),
    ensures
        strip_whitespace(s.take(i + 1)) == if !is_whitespace(s[i]) {
            strip_whitespace(s.take(i)).push(s[i])
        } else {
            strip_whitespace(s.take(i))
        },
{
    assert(s.take(i + 1) =~= s.take(i).push(s[i]));
    s.take(i).lemma_filter_push(s[i], |c: char| !is_whitespace(c));
}

proof fn lemma_scan_push(t: Seq<char>, c: char)
    ensures
        scan(t.push(c)) == if is_unit(c) {
            match segment_value(scan(t).pending) {
                Some(v) => Scan {
                    total: scan(t).total + v * unit_seconds(c),
                    count: scan(t).count + 1,
                    valid: scan(t).valid,
                    pending: Seq::empty(),
                },
                None => Scan {
                    total: scan(t).total,
                    count: scan(t).count + 1,
                    valid: false,
                    pending: Seq::empty(),
                },
            }
        } else {
            Scan {
                total: scan(t).total,
                count: scan(t).count,
                valid: scan(t).valid,
                pending: scan(t).pending.push(c),
            }
        },
        failed(scan(t)) ==> failed(scan(t.push(c))),
{
    assert(t.push(c).drop_last() =~= t);
}

/// A reading that has failed on part of a text fails on all of it.
proof fn lemma_failure_is_final(s: Seq<char>, i: int)
    requires
        0 <= i <= s.len(),
        failed(scan(strip_whitespace(s.take(i)))),
    ensures
        failed(scan(strip_whitespace(s))),
    decreases s.len() - i,
{
    if i == s.len() {
        assert(s.take(i) =~= s);
    } else {
        lemma_strip_take(s, i);
        lemma_scan_push(strip_whitespace(s.take(i)), s[i]);
        lemma_failure_is_final(s, i + 1);
    }
}

impl DurationWrapper {
    /// Reads a duration from its compact text.
    pub fn from_str(s: &str) -> (r: Result<DurationWrapper, DurationParseError>)
        ensures
            r == parse_duration(s@),
            r is Ok ==> r->Ok_0.subsec() == 0,
    {
        let n: usize = s.unicode_len();
        let mut i: usize = 0;
        let mut total: u64 = 0;
        let mut found = false;
        let mut pending = Pending::Empty;
        while i < n
            invariant
                n == s@.len(),
                i <= n,
                scan(strip_whitespace(s@.take(i as int))).valid,
                scan(strip_whitespace(s@.take(i as int))).total == total,
                found == (scan(strip_whitespace(s@.take(i as int))).count > 0),
                pending.matches(scan(strip_whitespace(s@.take(i as int))).pending),
            decreases n - i,
        {
            let c = s.get_char(i);
            let ghost before = strip_whitespace(s@.take(i as int));
            proof {
                lemma_strip_take(s@, i as int);
                lemma_scan_push(before, c);
            }
            if !whitespace(c) {
                match unit(c) {
                    Some(scale) => {
                        let value: u64 = match pending {
                            Pending::Number(v) => v,
                            _ => {
                                proof {
                                    if pending is Hopeless {
                                        lemma_hopeless_stays(scan(before).pending, c);
                                    }
                                    if pending is Sign {
                                        assert(scan(before).pending.skip(1).len() == 0);
                                    }
                                    lemma_failure_is_final(s@, i + 1);
                                }
                                return Err(DurationParseError::InvalidNumber);
                            },
                        };
                        let seconds: u128 = if scale == 1 {
                            value as u128
                        } else if scale == 60 {
                            value as u128 * 60
                        } else {
                            value as u128 * 3600
                        };
                        assert(seconds == value * unit_seconds(c)) by {
                            if scale == 1 {
                                assert(value * 1 == value);
                            }
                        }
                        let sum: u128 = total as u128 + seconds;
                        if sum > u64::MAX as u128 {
                            proof {
                                lemma_failure_is_final(s@, i + 1);
                            }
                            return Err(DurationParseError::InvalidNumber);
                        }
                        total = sum as u64;
                        found = true;
                        pending = Pending::Empty;
                    },
                    None => {
                        pending = pending.push(c, Ghost(scan(before).pending));
                    },
                }
            }
            i += 1;
        }
        proof {
            assert(s@.take(n as int) =~= s@);
        }
        if found {
            Ok(DurationWrapper { secs: total, nanos: 0 })
        } else {
            Err(DurationParseError::DurationNotFound)
        }
    }

    /// Writes a duration as minutes and seconds; hours are never written, and
    /// what is below one second is left out.
    pub fn format(&self) -> (r: String)
        ensures
            r@ == duration_text(*self),
    {
        proof {
            reveal_strlit("m");
            reveal_strlit("s");
        }
        let mut r = decimal_text(self.secs / 60);
        r.append("m");
        let seconds = decimal_text(self.secs % 60);
        r.append(seconds.as_str());
        r.append("s");
        assert(r@ =~= duration_text(*self));
        r
    }
}

proof fn lemma_decimal_digits(n: nat)
    ensures
        decimal(n).len() > 0,
        all_digits(decimal(n)),
        digits_value(decimal(n)) == n,
    decreases n,
{
    if n < 10 {
        assert(decimal(n) =~= Seq::<char>::empty().push(digit_char(n)));
        lemma_digits_push(Seq::<char>::empty(), digit_char(n));
    } else {
        lemma_decimal_digits(n / 10);
        lemma_digits_push(decimal(n / 10), digit_char(n % 10));
    }
}

proof fn lemma_strip_nothing(t: Seq<char>)
    requires
        forall|i: int| 0 <= i < t.len() ==> !is_whitespace(#[trigger] t[i]),
    ensures
        strip_whitespace(t) == t,
    decreases t.len(),
{
    if t.len() == 0 {
        reveal(Seq::filter);
    } else {
        lemma_strip_nothing(t.drop_last());
        t.drop_last().lemma_filter_push(t.last(), |c: char| !is_whitespace(c));
        assert(t.drop_last().push(t.last()) =~= t);
    }
}

/// Characters that are no unit markers only lengthen the open segment.
proof fn lemma_scan_append_plain(x: Seq<char>, t: Seq<char>)
    requires
        forall|i: int| 0 <= i < t.len() ==> !is_unit(t[i]),
    ensures
        scan(x + t) == (Scan {
            total: scan(x).total,
            count: scan(x).count,
            valid: scan(x).valid,
            pending: scan(x).pending + t,
        }),
    decreases t.len(),
{
    if t.len() == 0 {
        assert(x + t =~= x);
        assert(scan(x).pending + t =~= scan(x).pending);
    } else {
        lemma_scan_append_plain(x, t.drop_last());
        lemma_scan_push(x + t.drop_last(), t.last());
        assert((x + t.drop_last()).push(t.last()) =~= x + t);
        assert((scan(x).pending + t.drop_last()).push(t.last()) =~= scan(x).pending + t);
    }
}

/// A decimal notation, read as a segment, is its number.
proof fn lemma_decimal_segment(n: nat)
    requires
        n <= u64::MAX,
    ensures
        segment_value(decimal(n)) == Some(n),
        forall|i: int| 0 <= i < decimal(n).len() ==> !is_unit(#[trigger] decimal(n)[i]),
{
    lemma_decimal_digits(n);
    let d = decimal(n);
    assert(digit_of(d[0]) is Some);
    assert forall|i: int| 0 <= i < d.len() implies !is_unit(#[trigger] d[i]) by {
        assert(digit_of(d[i]) is Some);
    }
}

/// A number and its unit, read behind a text whose last segment is closed,
/// add the number times the unit's seconds.
proof fn lemma_scan_number_unit(x: Seq<char>, n: nat, c: char)
    requires
        n <= u64::MAX,
        is_unit(c),
        scan(x).pending.len() == 0,
    ensures
        scan((x + decimal(n)).push(c)) == (Scan {
            total: scan(x).total + n * unit_seconds(c),
            count: scan(x).count + 1,
            valid: scan(x).valid,
            pending: Seq::empty(),
        }),
{
    lemma_decimal_segment(n);
    lemma_scan_append_plain(x, decimal(n));
    assert(scan(x).pending + decimal(n) =~= decimal(n));
    lemma_scan_push(x + decimal(n), c);
}

/// The text of a duration, as the minutes, `m`, the seconds and `s`.
spec fn minutes_and_seconds(m: nat, s: nat) -> Seq<char> {
    ((Seq::<char>::empty() + decimal(m)).push('m') + decimal(s)).push('s')
}

proof fn lemma_minutes_and_seconds_plain(m: nat, s: nat)
    ensures
        forall|i: int|
            0 <= i < minutes_and_seconds(m, s).len() ==> {
                let c = #[trigger] minutes_and_seconds(m, s)[i];
                digit_of(c) is Some || c == 'm' || c == 's'
            },
{
    let a = decimal(m);
    let b = decimal(s);
    let t = minutes_and_seconds(m, s);
    lemma_decimal_digits(m);
    lemma_decimal_digits(s);
    assert forall|i: int| 0 <= i < t.len() implies {
        let c = #[trigger] t[i];
        digit_of(c) is Some || c == 'm' || c == 's'
    } by {
        if i < a.len() {
            assert(t[i] == a[i]);
            assert(digit_of(a[i]) is Some);
        } else if a.len() < i < a.len() + 1 + b.len() {
            assert(t[i] == b[i - a.len() - 1]);
            assert(digit_of(b[i - a.len() - 1]) is Some);
        }
    }
}

proof fn lemma_minutes_and_seconds_scan(m: nat, s: nat)
    requires
        m <= u64::MAX,
        s <= u64::MAX,
    ensures
        scan(minutes_and_seconds(m, s)) == (Scan {
            total: m * 60 + s,
            count: 2,
            valid: true,
            pending: Seq::empty(),
        }),
{
    let empty = Seq::<char>::empty();
    let first = (empty + decimal(m)).push('m');
    lemma_scan_number_unit(empty, m, 'm');
    lemma_scan_number_unit(first, s, 's');
}

proof fn lemma_duration_text_shape(d: DurationWrapper)
    ensures
        duration_text(d) == minutes_and_seconds(
            (d.seconds() / 60) as nat,
            (d.seconds() % 60) as nat,
        ),
{
    let a = decimal((d.seconds() / 60) as nat);
    let b = decimal((d.seconds() % 60) as nat);
    assert(a + seq!['m'] + b + seq!['s'] =~= ((Seq::<char>::empty() + a).push('m') + b).push('s'));
}

proof fn lemma_minutes_and_seconds_parse(m: nat, s: nat)
    requires
        m * 60 + s <= u64::MAX,
    ensures
        parse_duration(minutes_and_seconds(m, s)) == Ok::<DurationWrapper, DurationParseError>(
            DurationWrapper::whole((m * 60 + s) as u64),
        ),
{
    let t = minutes_and_seconds(m, s);
    assert(strip_whitespace(t) == t) by {
        lemma_minutes_and_seconds_plain(m, s);
        lemma_strip_nothing(t);
    }
    lemma_minutes_and_seconds_scan(m, s);
}

/// A duration's text reads back as the duration, without what is below one
/// second.
pub proof fn lemma_format_then_parse(d: DurationWrapper)
    ensures
        parse_duration(duration_text(d)) == Ok::<DurationWrapper, DurationParseError>(
            DurationWrapper::whole(d.seconds()),
        ),
{
    lemma_duration_text_shape(d);
    lemma_minutes_and_seconds_parse((d.seconds() / 60) as nat, (d.seconds() % 60) as nat);
}

/// Reading a text, writing the duration and reading that again gives the
/// duration of the first reading.
pub proof fn lemma_parse_round_trip(x: Seq<char>)
    requires
        parse_duration(x) is Ok,
    ensures
        parse_duration(duration_text(parse_duration(x)->Ok_0)) == parse_duration(x),
{
    lemma_format_then_parse(parse_duration(x)->Ok_0);
}

/// The text of a duration never holds an `h`: hours are written as minutes.
pub proof fn lemma_format_has_no_hours(d: DurationWrapper)
    ensures
        !duration_text(d).contains('h'),
        !duration_text(d).contains('H'),
{
    let minutes = (d.seconds() / 60) as nat;
    let seconds = (d.seconds() % 60) as nat;
    lemma_duration_text_shape(d);
    lemma_minutes_and_seconds_plain(minutes, seconds);
}

/// The duration that stands in for a text that is none: ten minutes.
pub open spec fn fallback_duration() -> DurationWrapper {
    DurationWrapper::whole(600)
}

impl From<String> for DurationWrapper {
    /// Reads a duration from its text, and falls back to ten minutes where
    /// the text is no duration.
    fn from(value: String) -> (r: DurationWrapper) {
        match DurationWrapper::from_str(value.as_str()) {
            Ok(d) => d,
            Err(_) => DurationWrapper { secs: 600, nanos: 0 },
        }
    }
}

impl vstd::std_specs::convert::FromSpecImpl<String> for DurationWrapper {
    open spec fn obeys_from_spec() -> bool {
        true
    }

    open spec fn from_spec(value: String) -> DurationWrapper {
        match parse_duration(value@) {
            Ok(d) => d,
            Err(_) => fallback_duration(),
        }
    }
}

impl Default for DurationWrapper {
    fn default() -> (r: DurationWrapper)
        ensures
            r == DurationWrapper::whole(0),
            r.seconds() == 0,
            r.subsec() == 0,
    {
        DurationWrapper { secs: 0, nanos: 0 }
    }
}

impl DurationWrapper {
    /// The span of `secs` seconds and `nanos` nanoseconds, where `nanos` is
    /// below one second; else nothing.
    pub fn new(secs: u64, nanos: u32) -> (r: Option<DurationWrapper>)
        ensures
            r is Some <==> nanos < 1_000_000_000,
            r is Some ==> r->Some_0.seconds() == secs && r->Some_0.subsec() == nanos,
    {
        if nanos < 1_000_000_000 {
            Some(DurationWrapper { secs, nanos })
        } else {
            None
        }
    }

    /// The span of so many whole seconds.
    pub fn from_secs(secs: u64) -> (r: DurationWrapper)
        ensures
            r == DurationWrapper::whole(secs),
            r.seconds() == secs,
            r.subsec() == 0,
    {
        DurationWrapper { secs, nanos: 0 }
    }

    pub fn as_secs(&self) -> (r: u64)
        ensures
            r == self.seconds(),
    {
        self.secs
    }

    pub fn subsec_nanos(&self) -> (r: u32)
        ensures
            r == self.subsec(),
            r < 1_000_000_000,
    {
        proof {
            use_type_invariant(self);
        }
        self.nanos
    }

    pub fn as_nanos(&self) -> (r: u128)
        ensures
            r == self.nanoseconds(),
    {
        self.secs as u128 * 1_000_000_000 + self.nanos as u128
    }
}

} // verus!
