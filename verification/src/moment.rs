//! Calendar moments and the two texts the journal derives from one: the
//! timestamp that heads an entry and the name of the day's file.

use vstd::prelude::*;

verus! {

/// A local date and time of day as plain numbers: what a `Moment` stands for.
pub struct MomentView {
    pub year: int,
    pub month: int,
    pub day: int,
    pub hour: int,
    pub minute: int,
    pub second: int,
}

impl MomentView {
    /// Every field lies in the range a calendar and a clock give it. Whether
    /// the month has that many days is not asked.
    pub open spec fn valid(self) -> bool {
        &&& i32::MIN <= self.year <= i32::MAX
        &&& 1 <= self.month <= 12
        &&& 1 <= self.day <= 31
        &&& 0 <= self.hour <= 23
        &&& 0 <= self.minute <= 59
        &&& 0 <= self.second <= 59
    }

    /// Both moments fall on one calendar day.
    pub open spec fn same_day(self, other: MomentView) -> bool {
        self.year == other.year && self.month == other.month && self.day == other.day
    }
}

/// The character for a decimal digit.
pub open spec fn digit(d: int) -> char
    recommends
        0 <= d <= 9,
{
    if d == 0 {
        '0'
    } else if d == 1 {
        '1'
    } else if d == 2 {
        '2'
    } else if d == 3 {
        '3'
    } else if d == 4 {
        '4'
    } else if d == 5 {
        '5'
    } else if d == 6 {
        '6'
    } else if d == 7 {
        '7'
    } else if d == 8 {
        '8'
    } else {
        '9'
    }
}

/// `n` in decimal, in exactly two digits.
pub open spec fn two_digits(n: int) -> Seq<char>
    recommends
        0 <= n <= 99,
{
    seq![digit(n / 10), digit(n % 10)]
}

/// `n` in decimal, in exactly four digits.
pub open spec fn four_digits(n: int) -> Seq<char>
    recommends
        0 <= n <= 9999,
{
    two_digits(n / 100) + two_digits(n % 100)
}

/// `n` in decimal, without leading zeros.
pub open spec fn decimal(n: nat) -> Seq<char>
    decreases n,
{
    if n < 10 {
        seq![digit(n as int)]
    } else {
        decimal(n / 10).push(digit((n % 10) as int))
    }
}

/// `n` in decimal, padded with zeros on the left to at least four digits.
pub open spec fn at_least_four_digits(n: nat) -> Seq<char> {
    if n <= 9999 {
        four_digits(n as int)
    } else {
        decimal(n)
    }
}

/// A year as text: four digits from 0 to 9999, and otherwise, as the expanded
/// form of ISO 8601 has it, a sign followed by at least four digits.
pub open spec fn year_text(year: int) -> Seq<char> {
    if 0 <= year <= 9999 {
        four_digits(year)
    } else if year < 0 {
        "-"@ + at_least_four_digits((-year) as nat)
    } else {
        "+"@ + at_least_four_digits(year as nat)
    }
}

/// The date as `YYYY-MM-DD`.
pub open spec fn date_text(m: MomentView) -> Seq<char> {
    year_text(m.year) + "-"@ + two_digits(m.month) + "-"@ + two_digits(m.day)
}

/// The time of day as `HH:MM:SS`.
pub open spec fn time_text(m: MomentView) -> Seq<char> {
    two_digits(m.hour) + ":"@ + two_digits(m.minute) + ":"@ + two_digits(m.second)
}

/// The timestamp of an entry: `YYYY-MM-DD HH:MM:SS`.
pub open spec fn timestamp_text(m: MomentView) -> Seq<char> {
    date_text(m) + " "@ + time_text(m)
}

/// The name of the file that holds a day's entries: `YYYY-MM-DD.txt`.
pub open spec fn file_name_text(m: MomentView) -> Seq<char> {
    date_text(m) + ".txt"@
}

/// A local date and time of day.
#[derive(Clone, Copy, Debug)]
pub struct Moment {
    year: i32,
    month: u32,
    day: u32,
    hour: u32,
    minute: u32,
    second: u32,
}

impl View for Moment {
    type V = MomentView;

    closed spec fn view(&self) -> MomentView {
        MomentView {
            year: self.year as int,
            month: self.month as int,
            day: self.day as int,
            hour: self.hour as int,
            minute: self.minute as int,
            second: self.second as int,
        }
    }
}

/// Reads the clock with chrono's `Local::now`, and takes the fields of the
/// local date and time through `Datelike` and `Timelike`.
///
/// Trusted: every field lies in the range chrono documents for it, a month
/// from 1 to 12, a day from 1 to 31, an hour from 0 to 23, a minute and a
/// second from 0 to 59. Which moment it is depends on the clock and the time
/// zone, so nothing more is claimed. `Local::now` panics where the system
/// clock stands before 1970.
#[verifier::external_body]
pub(crate) fn local_now() -> (now: Moment)
    ensures
        now@.valid(),
{
    let t = chrono::Local::now();
    Moment {
        year: chrono::Datelike::year(&t),
        month: chrono::Datelike::month(&t),
        day: chrono::Datelike::day(&t),
        hour: chrono::Timelike::hour(&t),
        minute: chrono::Timelike::minute(&t),
        second: chrono::Timelike::second(&t),
    }
}

/// The text of one decimal digit.
fn digit_str(d: u32) -> (s: &'static str)
    requires
        d <= 9,
    ensures
        s@ == seq![digit(d as int)],
{
    proof {
        reveal_strlit("0");
        reveal_strlit("1");
        reveal_strlit("2");
        reveal_strlit("3");
        reveal_strlit("4");
        reveal_strlit("5");
        reveal_strlit("6");
        reveal_strlit("7");
        reveal_strlit("8");
        reveal_strlit("9");
    }
    let s = if d == 0 {
        "0"
    } else if d == 1 {
        "1"
    } else if d == 2 {
        "2"
    } else if d == 3 {
        "3"
    } else if d == 4 {
        "4"
    } else if d == 5 {
        "5"
    } else if d == 6 {
        "6"
    } else if d == 7 {
        "7"
    } else if d == 8 {
        "8"
    } else {
        "9"
    };
    s
}

/// Appends `n` in two digits.
fn push_two_digits(out: &mut String, n: u32)
    requires
        n <= 99,
    ensures
        final(out)@ == old(out)@ + two_digits(n as int),
{
    out.append(digit_str(n / 10));
    out.append(digit_str(n % 10));
}

/// Appends `n` in four digits.
fn push_four_digits(out: &mut String, n: u32)
    requires
        n <= 9999,
    ensures
        final(out)@ == old(out)@ + four_digits(n as int),
{
    push_two_digits(out, n / 100);
    push_two_digits(out, n % 100);
}

/// Appends `n` in decimal, without leading zeros.
fn push_decimal(out: &mut String, n: u64)
    ensures
        final(out)@ == old(out)@ + decimal(n as nat),
    decreases n,
{
    if n < 10 {
        out.append(digit_str(n as u32));
    } else {
        push_decimal(out, n / 10);
        out.append(digit_str((n % 10) as u32));
    }
}

/// Appends `n` in at least four digits.
fn push_at_least_four_digits(out: &mut String, n: u64)
    ensures
        final(out)@ == old(out)@ + at_least_four_digits(n as nat),
{
    if n <= 9999 {
        push_four_digits(out, n as u32);
    } else {
        push_decimal(out, n);
    }
}

/// Appends a year as `year_text` writes it.
fn push_year(out: &mut String, year: i32)
    ensures
        final(out)@ == old(out)@ + year_text(year as int),
{
    if 0 <= year && year <= 9999 {
        push_four_digits(out, year as u32);
    } else if year < 0 {
        let size: u64 = (-(year as i64)) as u64;
        out.append("-");
        push_at_least_four_digits(out, size);
    } else {
        out.append("+");
        push_at_least_four_digits(out, year as u64);
    }
}

impl Moment {
    #[verifier::type_invariant]
    closed spec fn in_range(self) -> bool {
        self@.valid()
    }

    /// The moment with the given fields, if each lies in its range: a month
    /// from 1 to 12, a day from 1 to 31, an hour below 24, a minute and a
    /// second below 60.
    pub fn new(year: i32, month: u32, day: u32, hour: u32, minute: u32, second: u32) -> (made:
        Option<Moment>)
        ensures
            made is Some <==> (MomentView {
                year: year as int,
                month: month as int,
                day: day as int,
                hour: hour as int,
                minute: minute as int,
                second: second as int,
            }).valid(),
            made matches Some(m) ==> m@ == (MomentView {
                year: year as int,
                month: month as int,
                day: day as int,
                hour: hour as int,
                minute: minute as int,
                second: second as int,
            }),
    {
        if 1 <= month && month <= 12 && 1 <= day && day <= 31 && hour <= 23 && minute <= 59
            && second <= 59 {
            Some(Moment { year, month, day, hour, minute, second })
        } else {
            None
        }
    }

    /// Appends the date as `YYYY-MM-DD`.
    fn push_date(&self, out: &mut String)
        ensures
            final(out)@ == old(out)@ + date_text(self@),
    {
        proof {
            use_type_invariant(self);
        }
        push_year(out, self.year);
        out.append("-");
        push_two_digits(out, self.month);
        out.append("-");
        push_two_digits(out, self.day);
    }

    /// The timestamp that heads an entry written at this moment.
    pub fn timestamp(&self) -> (text: String)
        ensures
            text@ == timestamp_text(self@),
    {
        proof {
            use_type_invariant(self);
        }
        let mut out = String::new();
        self.push_date(&mut out);
        out.append(" ");
        push_two_digits(&mut out, self.hour);
        out.append(":");
        push_two_digits(&mut out, self.minute);
        out.append(":");
        push_two_digits(&mut out, self.second);
        out
    }

    /// The name of the file that holds the entries of this moment's day.
    pub fn file_name(&self) -> (name: String)
        ensures
            name@ == file_name_text(self@),
    {
        let mut out = String::new();
        self.push_date(&mut out);
        out.append(".txt");
        out
    }
}

/// The number that a decimal digit character stands for.
spec fn digit_value(c: char) -> int {
    if c == '1' {
        1
    } else if c == '2' {
        2
    } else if c == '3' {
        3
    } else if c == '4' {
        4
    } else if c == '5' {
        5
    } else if c == '6' {
        6
    } else if c == '7' {
        7
    } else if c == '8' {
        8
    } else if c == '9' {
        9
    } else {
        0
    }
}

/// The number that a run of decimal digits writes.
spec fn number_of(text: Seq<char>) -> int
    decreases text.len(),
{
    if text.len() == 0 {
        0
    } else {
        number_of(text.drop_last()) * 10 + digit_value(text.last())
    }
}

/// The year that a text made by `year_text` writes.
spec fn year_of(text: Seq<char>) -> int {
    if text.len() > 0 && text[0] == '-' {
        -number_of(text.skip(1))
    } else if text.len() > 0 && text[0] == '+' {
        number_of(text.skip(1))
    } else {
        number_of(text)
    }
}

/// The year, month and day that a text made by `date_text` writes.
spec fn date_of(text: Seq<char>) -> (int, int, int) {
    let n = text.len() as int;
    (
        year_of(text.subrange(0, n - 6)),
        number_of(text.subrange(n - 5, n - 3)),
        number_of(text.subrange(n - 2, n)),
    )
}

proof fn lemma_number_of_push(text: Seq<char>, c: char)
    ensures
        number_of(text.push(c)) == number_of(text) * 10 + digit_value(c),
{
    assert(text.push(c).drop_last() =~= text);
}

proof fn lemma_number_of_two_digits(n: int)
    requires
        0 <= n <= 99,
    ensures
        number_of(two_digits(n)) == n,
{
    let empty = Seq::<char>::empty();
    lemma_number_of_push(empty, digit(n / 10));
    lemma_number_of_push(empty.push(digit(n / 10)), digit(n % 10));
    assert(two_digits(n) =~= empty.push(digit(n / 10)).push(digit(n % 10)));
}

proof fn lemma_number_of_four_digits(n: int)
    requires
        0 <= n <= 9999,
    ensures
        number_of(four_digits(n)) == n,
{
    let high = two_digits(n / 100);
    let low = n % 100;
    lemma_number_of_two_digits(n / 100);
    lemma_number_of_push(high, digit(low / 10));
    lemma_number_of_push(high.push(digit(low / 10)), digit(low % 10));
    assert(four_digits(n) =~= high.push(digit(low / 10)).push(digit(low % 10)));
}

proof fn lemma_number_of_decimal(n: nat)
    ensures
        number_of(decimal(n)) == n,
    decreases n,
{
    if n < 10 {
        lemma_number_of_push(Seq::empty(), digit(n as int));
    } else {
        lemma_number_of_decimal(n / 10);
        lemma_number_of_push(decimal(n / 10), digit((n % 10) as int));
    }
}

proof fn lemma_year_of_year_text(year: int)
    ensures
        year_of(year_text(year)) == year,
{
    reveal_strlit("-");
    reveal_strlit("+");
    if 0 <= year <= 9999 {
        lemma_number_of_four_digits(year);
    } else {
        let size = if year < 0 {
            (-year) as nat
        } else {
            year as nat
        };
        let digits = at_least_four_digits(size);
        if size <= 9999 {
            lemma_number_of_four_digits(size as int);
        } else {
            lemma_number_of_decimal(size);
        }
        assert(year_text(year).skip(1) =~= digits);
    }
}

proof fn lemma_date_of_date_text(m: MomentView)
    requires
        m.valid(),
    ensures
        date_of(date_text(m)) == (m.year, m.month, m.day),
{
    reveal_strlit("-");
    let text = date_text(m);
    let n = text.len() as int;
    assert(text.subrange(0, n - 6) =~= year_text(m.year));
    assert(text.subrange(n - 5, n - 3) =~= two_digits(m.month));
    assert(text.subrange(n - 2, n) =~= two_digits(m.day));
    lemma_year_of_year_text(m.year);
    lemma_number_of_two_digits(m.month);
    lemma_number_of_two_digits(m.day);
}

/// Every calendar day has a file name of its own: two moments give the same
/// file name exactly when they fall on the same day.
pub proof fn lemma_each_day_has_its_own_file_name(a: MomentView, b: MomentView)
    requires
        a.valid(),
        b.valid(),
    ensures
        file_name_text(a) == file_name_text(b) <==> a.same_day(b),
{
    if file_name_text(a) == file_name_text(b) {
        reveal_strlit(".txt");
        let name = file_name_text(a);
        let n = name.len() as int;
        assert(name.subrange(0, n - 4) =~= date_text(a));
        assert(name.subrange(0, n - 4) =~= date_text(b));
        lemma_date_of_date_text(a);
        lemma_date_of_date_text(b);
    }
}

} // verus!
