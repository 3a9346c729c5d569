//! The wall clock, read through `chrono`, in the two forms that records carry.

use vstd::prelude::*;
use vstd::string::*;

verus! {

/// The pattern of the short stamp: hour, minute, second.
pub open spec fn time_pattern() -> Seq<char> {
    "%H:%M:%S"@
}

/// The pattern of the long stamp: the date, then hour, minute, second.
pub open spec fn date_time_pattern() -> Seq<char> {
    "%D:%H:%M:%S"@
}

/// Whether `c` is one of the ten digits.
pub open spec fn is_digit(c: char) -> bool {
    '0' <= c <= '9'
}

/// Whether `text` holds two digits from `at` on.
pub open spec fn two_digits(text: Seq<char>, at: int) -> bool {
    0 <= at && at + 1 < text.len() && is_digit(text[at]) && is_digit(text[at + 1])
}

/// The shape of a short stamp: two digits each for hour, minute and second,
/// with colons between them.
pub open spec fn is_time_text(text: Seq<char>) -> bool {
    &&& text.len() == 8
    &&& two_digits(text, 0)
    &&& text[2] == ':'
    &&& two_digits(text, 3)
    &&& text[5] == ':'
    &&& two_digits(text, 6)
}

/// The shape of a long stamp: two digits each for month, day and year, with
/// slashes between them, then a colon and a short stamp.
pub open spec fn is_date_time_text(text: Seq<char>) -> bool {
    &&& text.len() == 17
    &&& two_digits(text, 0)
    &&& text[2] == '/'
    &&& two_digits(text, 3)
    &&& text[5] == '/'
    &&& two_digits(text, 6)
    &&& text[8] == ':'
    &&& is_time_text(text.subrange(9, 17))
}

/// Whether both stamps of a moment have the shape in which the clock writes
/// them.
pub open spec fn is_stamped(moment: MomentView) -> bool {
    is_time_text(moment.time) && is_date_time_text(moment.date_time)
}

/// One instant of local time, written both ways.
pub struct Moment {
    /// The short stamp, which a join notice carries.
    pub time: String,
    /// The long stamp, which every other record carries.
    pub date_time: String,
}

/// A moment as plain text.
pub struct MomentView {
    pub time: Seq<char>,
    pub date_time: Seq<char>,
}

impl View for Moment {
    type V = MomentView;

    open spec fn view(&self) -> MomentView {
        MomentView { time: self.time@, date_time: self.date_time@ }
    }
}

/// Calls `chrono::Local::now`, then `format` with `pattern`, and writes the
/// result out. Trusted: the text has the shape of its pattern, because
/// chrono writes hour, minute, second, month, day and the year within its
/// century as two digits each, padded with a zero, and the colons and
/// slashes as they stand in the pattern. Which digits they are depends on
/// the clock and the time zone of the machine, and nothing is claimed of
/// them. The two patterns that are let in hold only specifiers that chrono
/// knows, so that writing out cannot fail. chrono panics on a machine whose
/// clock stands before 1970, or whose time-zone data name no local time
/// type for the instant; no input decides either.
#[verifier::external_body]
fn local_time(pattern: &str) -> (text: String)
    requires
        pattern@ == time_pattern() || pattern@ == date_time_pattern(),
    ensures
        pattern@ == time_pattern() ==> is_time_text(text@),
        pattern@ == date_time_pattern() ==> is_date_time_text(text@),
{
    chrono::Local::now().format(pattern).to_string()
}

impl Moment {
    /// A moment with the given stamps.
    pub fn new(time: &str, date_time: &str) -> (moment: Moment)
        ensures
            moment@ == (MomentView { time: time@, date_time: date_time@ }),
    {
        Moment { time: String::from_str(time), date_time: String::from_str(date_time) }
    }

    /// Reads the clock: the local time of this instant as a short stamp, and
    /// the local date and time of this instant as a long one.
    pub fn now() -> (moment: Moment)
        ensures
            is_stamped(moment@),
    {
        let time = local_time("%H:%M:%S");
        let date_time = local_time("%D:%H:%M:%S");
        Moment { time, date_time }
    }
}

} // verus!
