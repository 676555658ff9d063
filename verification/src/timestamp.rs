//! A reading of a clock, and the digits it is written with.
//!
//! The clock itself is not read here: the caller reads it and hands the
//! reading in.

use vstd::prelude::*;

verus! {

/// A date and a time of day, to the second, as a clock shows them.
///
/// Each field is held to its own range. Whether the day exists in its month
/// is not looked into. The second may be 60: that is the second which is let
/// in at the end of some days.
#[derive(Clone, Copy, Debug)]
pub struct Timestamp {
    year: i32,
    month: u32,
    day: u32,
    hour: u32,
    minute: u32,
    second: u32,
}

/// A [`Timestamp`] as mathematics.
pub struct TimestampView {
    pub year: int,
    pub month: int,
    pub day: int,
    pub hour: int,
    pub minute: int,
    pub second: int,
}

impl TimestampView {
    /// Every field lies in its range.
    pub open spec fn valid(self) -> bool {
        &&& i32::MIN <= self.year <= i32::MAX
        &&& 1 <= self.month <= 12
        &&& 1 <= self.day <= 31
        &&& 0 <= self.hour <= 23
        &&& 0 <= self.minute <= 59
        &&& 0 <= self.second <= 60
    }

    /// What a clock shows, given its reading in seven fields. A clock counts
    /// the second that is let in after the 59th as a thousand million
    /// nanoseconds or more within the 59th; here it is the 60th.
    pub open spec fn of_reading(
        year: int,
        month: int,
        day: int,
        hour: int,
        minute: int,
        second: int,
        nanosecond: int,
    ) -> TimestampView {
        TimestampView {
            year,
            month,
            day,
            hour,
            minute,
            second: second + nanosecond / 1_000_000_000,
        }
    }

    /// Whether a reading in seven fields has every field in its range: the
    /// month from 1 to 12, the day from 1 to 31, the hour up to 23, the minute
    /// and the second up to 59, the nanosecond below two thousand million.
    pub open spec fn reading_in_range(
        month: int,
        day: int,
        hour: int,
        minute: int,
        second: int,
        nanosecond: int,
    ) -> bool {
        &&& 1 <= month <= 12
        &&& 1 <= day <= 31
        &&& 0 <= hour <= 23
        &&& 0 <= minute <= 59
        &&& 0 <= second <= 59
        &&& 0 <= nanosecond < 2_000_000_000
    }

    /// The timestamp in digits: year, month, day, hour, minute and second with
    /// nothing between them. For the years 0 to 9999 these are 14 digits.
    pub open spec fn digits(self) -> Seq<char> {
        year_digits(self.year) + two_digits(self.month) + two_digits(self.day) + two_digits(
            self.hour,
        ) + two_digits(self.minute) + two_digits(self.second)
    }
}

/// The character for one decimal digit.
pub open spec fn digit(d: int) -> char {
    if d == 0 {
        '0'
    } else if d == 1 {
        '1'
    } else if d == 2 {
        '2'
    } else if d == 3 {
        '3'
    } else if d == 4 {
        '4'
    } else if d == 5 {
        '5'
    } else if d == 6 {
        '6'
    } else if d == 7 {
        '7'
    } else if d == 8 {
        '8'
    } else {
        '9'
    }
}

/// Whether a character is one of the ten digits.
pub open spec fn is_digit(c: char) -> bool {
    c == '0' || c == '1' || c == '2' || c == '3' || c == '4' || c == '5' || c == '6' || c == '7'
        || c == '8' || c == '9'
}

/// A number below 100 in two digits.
pub open spec fn two_digits(n: int) -> Seq<char> {
    seq![digit(n / 10), digit(n % 10)]
}

/// A number in as many digits as it has.
pub open spec fn decimal(n: nat) -> Seq<char>
    decreases n,
{
    if n < 10 {
        seq![digit(n as int)]
    } else {
        decimal(n / 10).push(digit((n % 10) as int))
    }
}

/// A number in at least four digits, with zeros in front where it has fewer.
pub open spec fn four_digits_or_more(n: nat) -> Seq<char> {
    if n <= 9999 {
        two_digits(n as int / 100) + two_digits(n as int % 100)
    } else {
        decimal(n)
    }
}

/// A year in four digits. A year before 0 gets a minus sign in front, a year
/// after 9999 a plus sign and as many digits as it has.
pub open spec fn year_digits(year: int) -> Seq<char> {
    if year < 0 {
        seq!['-'] + four_digits_or_more((-year) as nat)
    } else if year > 9999 {
        seq!['+'] + four_digits_or_more(year as nat)
    } else {
        four_digits_or_more(year as nat)
    }
}

/// One digit as text.
fn digit_text(d: u32) -> (text: &'static str)
    requires
        d < 10,
    ensures
        text@ == seq![digit(d as int)],
{
    proof {
        reveal_strlit("0");
        reveal_strlit("1");
        reveal_strlit("2");
        reveal_strlit("3");
        reveal_strlit("4");
        reveal_strlit("5");
        reveal_strlit("6");
        reveal_strlit("7");
        reveal_strlit("8");
        reveal_strlit("9");
    }
    let text = if d == 0 {
        "0"
    } else if d == 1 {
        "1"
    } else if d == 2 {
        "2"
    } else if d == 3 {
        "3"
    } else if d == 4 {
        "4"
    } else if d == 5 {
        "5"
    } else if d == 6 {
        "6"
    } else if d == 7 {
        "7"
    } else if d == 8 {
        "8"
    } else {
        "9"
    };
    assert(text@ =~= seq![digit(d as int)]);
    text
}

/// Appends a number below 100 in two digits.
fn append_two_digits(out: &mut String, n: u32)
    requires
        n < 100,
    ensures
        final(out)@ == old(out)@ + two_digits(n as int),
{
    out.append(digit_text(n / 10));
    out.append(digit_text(n % 10));
    assert(out@ =~= old(out)@ + two_digits(n as int));
}

/// Appends a number in as many digits as it has.
fn append_decimal(out: &mut String, n: u32)
    ensures
        final(out)@ == old(out)@ + decimal(n as nat),
    decreases n,
{
    if n >= 10 {
        append_decimal(out, n / 10);
    }
    out.append(digit_text(n % 10));
    assert(out@ =~= old(out)@ + decimal(n as nat));
}

/// Appends a number in at least four digits.
fn append_four_digits_or_more(out: &mut String, n: u32)
    ensures
        final(out)@ == old(out)@ + four_digits_or_more(n as nat),
{
    if n <= 9999 {
        append_two_digits(out, n / 100);
        append_two_digits(out, n % 100);
        assert(out@ =~= old(out)@ + four_digits_or_more(n as nat));
    } else {
        append_decimal(out, n);
    }
}

/// Appends a year.
fn append_year(out: &mut String, year: i32)
    ensures
        final(out)@ == old(out)@ + year_digits(year as int),
{
    proof {
        reveal_strlit("-");
        reveal_strlit("+");
    }
    if year < 0 {
        let magnitude: i64 = -(year as i64);
        out.append("-");
        assert(out@ =~= old(out)@ + seq!['-']);
        append_four_digits_or_more(out, magnitude as u32);
    } else if year > 9999 {
        out.append("+");
        assert(out@ =~= old(out)@ + seq!['+']);
        append_four_digits_or_more(out, year as u32);
    } else {
        append_four_digits_or_more(out, year as u32);
    }
    assert(out@ =~= old(out)@ + year_digits(year as int));
}

/// Two moments that are written with the same digits are the same moment:
/// log files that are begun in different seconds get different names.
pub proof fn law_digits_tell_moments_apart(a: TimestampView, b: TimestampView)
    requires
        a.valid(),
        b.valid(),
        a.digits() == b.digits(),
    ensures
        a == b,
{
    let tail_a = two_digits(a.month) + two_digits(a.day) + two_digits(a.hour) + two_digits(
        a.minute,
    ) + two_digits(a.second);
    let tail_b = two_digits(b.month) + two_digits(b.day) + two_digits(b.hour) + two_digits(
        b.minute,
    ) + two_digits(b.second);
    let year_a = year_digits(a.year);
    let year_b = year_digits(b.year);
    assert(a.digits() =~= year_a + tail_a);
    assert(b.digits() =~= year_b + tail_b);
    assert(tail_a.len() == 10 && tail_b.len() == 10);
    assert(year_a.len() == year_b.len());
    let n = year_a.len() as int;
    assert(year_a =~= a.digits().subrange(0, n));
    assert(year_b =~= b.digits().subrange(0, n));
    assert(tail_a =~= a.digits().subrange(n, n + 10));
    assert(tail_b =~= b.digits().subrange(n, n + 10));
    lemma_year_digits_one_to_one(a.year, b.year);
    assert(two_digits(a.month) =~= tail_a.subrange(0, 2));
    assert(two_digits(b.month) =~= tail_b.subrange(0, 2));
    assert(two_digits(a.day) =~= tail_a.subrange(2, 4));
    assert(two_digits(b.day) =~= tail_b.subrange(2, 4));
    assert(two_digits(a.hour) =~= tail_a.subrange(4, 6));
    assert(two_digits(b.hour) =~= tail_b.subrange(4, 6));
    assert(two_digits(a.minute) =~= tail_a.subrange(6, 8));
    assert(two_digits(b.minute) =~= tail_b.subrange(6, 8));
    assert(two_digits(a.second) =~= tail_a.subrange(8, 10));
    assert(two_digits(b.second) =~= tail_b.subrange(8, 10));
    lemma_two_digits_one_to_one(a.month, b.month);
    lemma_two_digits_one_to_one(a.day, b.day);
    lemma_two_digits_one_to_one(a.hour, b.hour);
    lemma_two_digits_one_to_one(a.minute, b.minute);
    lemma_two_digits_one_to_one(a.second, b.second);
}

/// A moment in the years 0 to 9999 is written with 14 digits and nothing
/// else.
pub proof fn law_fourteen_digits(moment: TimestampView)
    requires
        moment.valid(),
        0 <= moment.year <= 9999,
    ensures
        moment.digits().len() == 14,
        forall|i: int| 0 <= i < 14 ==> is_digit(#[trigger] moment.digits()[i]),
{
}

/// Different digits have different characters.
proof fn lemma_digit_one_to_one(a: int, b: int)
    requires
        0 <= a <= 9,
        0 <= b <= 9,
        digit(a) == digit(b),
    ensures
        a == b,
{
}

proof fn lemma_two_digits_one_to_one(a: int, b: int)
    requires
        0 <= a < 100,
        0 <= b < 100,
        two_digits(a) == two_digits(b),
    ensures
        a == b,
{
    assert(two_digits(a)[0] == two_digits(b)[0]);
    assert(two_digits(a)[1] == two_digits(b)[1]);
    lemma_digit_one_to_one(a / 10, b / 10);
    lemma_digit_one_to_one(a % 10, b % 10);
}

/// A number has one digit if it is below 10 and more if it is not.
proof fn lemma_decimal_len(n: nat)
    ensures
        decimal(n).len() >= 1,
        n >= 10 ==> decimal(n).len() >= 2,
        n >= 10000 ==> decimal(n).len() >= 5,
    decreases n,
{
    if n >= 10 {
        lemma_decimal_len(n / 10);
        if n >= 10000 {
            lemma_decimal_len(n / 100);
            lemma_decimal_len(n / 1000);
            lemma_decimal_len(n / 10000);
            assert(n / 10 / 10 == n / 100);
            assert(n / 100 / 10 == n / 1000);
            assert(n / 1000 / 10 == n / 10000);
            reveal_with_fuel(decimal, 5);
        }
    }
}

proof fn lemma_decimal_one_to_one(a: nat, b: nat)
    requires
        decimal(a) == decimal(b),
    ensures
        a == b,
    decreases a,
{
    lemma_decimal_len(a);
    lemma_decimal_len(b);
    if a < 10 {
        assert(decimal(a).len() == 1);
        assert(b < 10);
        assert(decimal(a)[0] == digit(a as int));
        assert(decimal(b)[0] == digit(b as int));
        lemma_digit_one_to_one(a as int, b as int);
    } else {
        assert(decimal(a).len() >= 2);
        assert(b >= 10) by {
            if b < 10 {
                assert(decimal(b).len() == 1);
            }
        }
        let front_a = decimal(a / 10);
        let front_b = decimal(b / 10);
        assert(decimal(a).drop_last() =~= front_a);
        assert(decimal(b).drop_last() =~= front_b);
        assert(decimal(a).last() == digit((a % 10) as int));
        assert(decimal(b).last() == digit((b % 10) as int));
        lemma_decimal_one_to_one(a / 10, b / 10);
        lemma_digit_one_to_one((a % 10) as int, (b % 10) as int);
    }
}

proof fn lemma_four_digits_or_more_one_to_one(a: nat, b: nat)
    requires
        four_digits_or_more(a) == four_digits_or_more(b),
    ensures
        a == b,
{
    lemma_decimal_len(a);
    lemma_decimal_len(b);
    if a <= 9999 && b <= 9999 {
        let text_a = four_digits_or_more(a);
        let text_b = four_digits_or_more(b);
        assert(two_digits(a as int / 100) =~= text_a.subrange(0, 2));
        assert(two_digits(b as int / 100) =~= text_b.subrange(0, 2));
        assert(two_digits(a as int % 100) =~= text_a.subrange(2, 4));
        assert(two_digits(b as int % 100) =~= text_b.subrange(2, 4));
        lemma_two_digits_one_to_one(a as int / 100, b as int / 100);
        lemma_two_digits_one_to_one(a as int % 100, b as int % 100);
    } else if a > 9999 && b > 9999 {
        lemma_decimal_one_to_one(a, b);
    } else {
        assert(four_digits_or_more(a).len() != four_digits_or_more(b).len());
    }
}

/// The text of a number has four characters or more, and the first is a
/// digit.
proof fn lemma_starts_with_digit(n: nat)
    ensures
        four_digits_or_more(n).len() >= 4,
        is_digit(four_digits_or_more(n)[0]),
{
    lemma_decimal_len(n);
    if n > 9999 {
        lemma_decimal_starts_with_digit(n);
    }
}

proof fn lemma_decimal_starts_with_digit(n: nat)
    ensures
        is_digit(decimal(n)[0]),
    decreases n,
{
    if n >= 10 {
        lemma_decimal_len(n / 10);
        lemma_decimal_starts_with_digit(n / 10);
    }
}

/// The text of a year has four characters or more, and the first is a digit
/// or a sign.
pub proof fn lemma_year_starts_with_digit_or_sign(year: int)
    ensures
        year_digits(year).len() >= 4,
        is_digit(year_digits(year)[0]) || year_digits(year)[0] == '-' || year_digits(year)[0]
            == '+',
{
    let magnitude = (if year < 0 {
        -year
    } else {
        year
    }) as nat;
    lemma_starts_with_digit(magnitude);
}

proof fn lemma_year_digits_one_to_one(a: int, b: int)
    requires
        year_digits(a) == year_digits(b),
    ensures
        a == b,
{
    let magnitude_a = (if a < 0 { -a } else { a }) as nat;
    let magnitude_b = (if b < 0 { -b } else { b }) as nat;
    lemma_starts_with_digit(magnitude_a);
    lemma_starts_with_digit(magnitude_b);
    let first_a = year_digits(a)[0];
    let first_b = year_digits(b)[0];
    assert(first_a == if a < 0 {
        '-'
    } else if a > 9999 {
        '+'
    } else {
        four_digits_or_more(magnitude_a)[0]
    });
    assert(first_b == if b < 0 {
        '-'
    } else if b > 9999 {
        '+'
    } else {
        four_digits_or_more(magnitude_b)[0]
    });
    assert((a < 0) == (b < 0));
    assert((a > 9999) == (b > 9999));
    if a < 0 || a > 9999 {
        assert(year_digits(a).subrange(1, year_digits(a).len() as int) =~= four_digits_or_more(
            magnitude_a,
        ));
        assert(year_digits(b).subrange(1, year_digits(b).len() as int) =~= four_digits_or_more(
            magnitude_b,
        ));
    }
    lemma_four_digits_or_more_one_to_one(magnitude_a, magnitude_b);
}

impl View for Timestamp {
    type V = TimestampView;

    closed spec fn view(&self) -> TimestampView {
        TimestampView {
            year: self.year as int,
            month: self.month as int,
            day: self.day as int,
            hour: self.hour as int,
            minute: self.minute as int,
            second: self.second as int,
        }
    }
}

impl Timestamp {
    #[verifier::type_invariant]
    spec fn within_ranges(self) -> bool {
        self@.valid()
    }

    /// A timestamp from its six fields, where each lies in its range: the
    /// month from 1 to 12, the day from 1 to 31, the hour up to 23, the minute
    /// and the second up to 59.
    pub fn new(year: i32, month: u32, day: u32, hour: u32, minute: u32, second: u32) -> (made:
        Option<Timestamp>)
        ensures
            made is Some <==> TimestampView::reading_in_range(
                month as int,
                day as int,
                hour as int,
                minute as int,
                second as int,
                0,
            ),
            made matches Some(timestamp) ==> timestamp@ == TimestampView::of_reading(
                year as int,
                month as int,
                day as int,
                hour as int,
                minute as int,
                second as int,
                0,
            ),
    {
        Timestamp::from_reading(year, month, day, hour, minute, second, 0)
    }

    /// A timestamp from the reading of a clock in seven fields, where each
    /// lies in its range: those of [`Timestamp::new`], and the nanosecond
    /// below two thousand million. At a thousand million nanoseconds and
    /// above, the second counts as the next.
    pub fn from_reading(
        year: i32,
        month: u32,
        day: u32,
        hour: u32,
        minute: u32,
        second: u32,
        nanosecond: u32,
    ) -> (made: Option<Timestamp>)
        ensures
            made is Some <==> TimestampView::reading_in_range(
                month as int,
                day as int,
                hour as int,
                minute as int,
                second as int,
                nanosecond as int,
            ),
            made matches Some(timestamp) ==> timestamp@ == TimestampView::of_reading(
                year as int,
                month as int,
                day as int,
                hour as int,
                minute as int,
                second as int,
                nanosecond as int,
            ),
    {
        if 1 <= month && month <= 12 && 1 <= day && day <= 31 && hour <= 23 && minute <= 59
            && second <= 59 && nanosecond < 2_000_000_000 {
            let second = second + nanosecond / 1_000_000_000;
            Some(Timestamp { year, month, day, hour, minute, second })
        } else {
            None
        }
    }

    /// The year.
    pub fn year(&self) -> (year: i32)
        ensures
            year == self@.year,
            self@.valid(),
    {
        proof {
            use_type_invariant(self);
        }
        self.year
    }

    /// The month, from 1 to 12.
    pub fn month(&self) -> (month: u32)
        ensures
            month == self@.month,
            self@.valid(),
    {
        proof {
            use_type_invariant(self);
        }
        self.month
    }

    /// The day of the month, from 1 to 31.
    pub fn day(&self) -> (day: u32)
        ensures
            day == self@.day,
            self@.valid(),
    {
        proof {
            use_type_invariant(self);
        }
        self.day
    }

    /// The hour, from 0 to 23.
    pub fn hour(&self) -> (hour: u32)
        ensures
            hour == self@.hour,
            self@.valid(),
    {
        proof {
            use_type_invariant(self);
        }
        self.hour
    }

    /// The minute, from 0 to 59.
    pub fn minute(&self) -> (minute: u32)
        ensures
            minute == self@.minute,
            self@.valid(),
    {
        proof {
            use_type_invariant(self);
        }
        self.minute
    }

    /// The second, from 0 to 60.
    pub fn second(&self) -> (second: u32)
        ensures
            second == self@.second,
            self@.valid(),
    {
        proof {
            use_type_invariant(self);
        }
        self.second
    }

    /// The timestamp in digits, as it stands in the name of a log file.
    pub fn digits(&self) -> (text: String)
        ensures
            self@.valid(),
            text@ == self@.digits(),
    {
        proof {
            use_type_invariant(self);
        }
        let mut text = String::new();
        append_year(&mut text, self.year);
        append_two_digits(&mut text, self.month);
        append_two_digits(&mut text, self.day);
        append_two_digits(&mut text, self.hour);
        append_two_digits(&mut text, self.minute);
        append_two_digits(&mut text, self.second);
        assert(text@ =~= self@.digits());
        text
    }
}

} // verus!
