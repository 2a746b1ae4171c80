//! Showing a size to a person.
use crate::common::size_unit::SizeUnit;
use vstd::prelude::*;
use vstd::string::StringExecFns;

verus! {

/// The character that shows a digit.
pub open spec fn digit(value: nat) -> char {
    if value == 0 {
        '0'
    } else if value == 1 {
        '1'
    } else if value == 2 {
        '2'
    } else if value == 3 {
        '3'
    } else if value == 4 {
        '4'
    } else if value == 5 {
        '5'
    } else if value == 6 {
        '6'
    } else if value == 7 {
        '7'
    } else if value == 8 {
        '8'
    } else {
        '9'
    }
}

/// A number in decimal digits, without leading zeros.
pub open spec fn decimal(number: nat) -> Seq<char>
    decreases number,
{
    if number < 10 {
        seq![digit(number)]
    } else {
        decimal(number / 10).push(digit(number % 10))
    }
}

/// What the `humansize` crate shows for a size: in units of 1000 bytes
/// where `decimal` holds and of 1024 bytes where not, with a space between
/// the number and the unit where `space_after_value` holds.
pub uninterp spec fn formatted_size(size: u64, decimal: bool, space_after_value: bool) -> Seq<char>;

/// Formats `size` with `humansize::format_size`, under the options
/// `humansize::DECIMAL` or `humansize::BINARY` with `space_after_value` set
/// as given. The crate computes the text from the size and the options
/// alone; the contract gives the text a name and claims nothing of what it
/// holds.
#[verifier::external_body]
fn format_size(size: u64, decimal: bool, space_after_value: bool) -> (text: String)
    ensures
        text@ == formatted_size(size, decimal, space_after_value),
{
    let options = if decimal {
        humansize::DECIMAL
    } else {
        humansize::BINARY
    };
    humansize::format_size(size, options.space_after_value(space_after_value))
}

/// How a size is shown in a unit. Between number and unit stands no space,
/// so that the sizes sort as numbers with units do.
pub open spec fn shown(size: u64, unit: SizeUnit) -> Seq<char> {
    match unit {
        SizeUnit::Binary => formatted_size(size, false, false),
        SizeUnit::Bytes => decimal(size as nat),
        SizeUnit::Decimal => formatted_size(size, true, false),
    }
}

/// The text of one digit.
fn digit_text(value: u64) -> (text: &'static str)
    requires
        value < 10,
    ensures
        text@ == seq![digit(value as nat)],
{
    proof {
        reveal_strlit("0");
        reveal_strlit("1");
        reveal_strlit("2");
        reveal_strlit("3");
        reveal_strlit("4");
        reveal_strlit("5");
        reveal_strlit("6");
        reveal_strlit("7");
        reveal_strlit("8");
        reveal_strlit("9");
    }
    let text = if value == 0 {
        "0"
    } else if value == 1 {
        "1"
    } else if value == 2 {
        "2"
    } else if value == 3 {
        "3"
    } else if value == 4 {
        "4"
    } else if value == 5 {
        "5"
    } else if value == 6 {
        "6"
    } else if value == 7 {
        "7"
    } else if value == 8 {
        "8"
    } else {
        "9"
    };
    proof {
        assert(text@.len() == 1);
        assert(text@ =~= seq![digit(value as nat)]);
    }
    text
}

/// A number in decimal digits.
pub fn decimal_text(number: u64) -> (text: String)
    ensures
        text@ == decimal(number as nat),
    decreases number,
{
    if number < 10 {
        digit_text(number).to_owned()
    } else {
        let front = decimal_text(number / 10);
        let last = digit_text(number % 10);
        let text = front.concat(last);
        proof {
            assert(text@ =~= decimal((number / 10) as nat).push(digit((number % 10) as nat)));
        }
        text
    }
}

/// A size that can be shown to a person.
pub trait HumanSize {
    /// How the size is shown in `unit`.
    spec fn human(&self, unit: SizeUnit) -> Seq<char>;

    /// The size as a person reads it, in `unit`.
    fn humansize(&self, unit: &SizeUnit) -> (text: String)
        ensures
            text@ == self.human(*unit),
    ;
}

impl HumanSize for u64 {
    open spec fn human(&self, unit: SizeUnit) -> Seq<char> {
        shown(*self, unit)
    }

    fn humansize(&self, unit: &SizeUnit) -> (text: String) {
        match unit {
            SizeUnit::Binary => format_size(*self, false, false),
            SizeUnit::Bytes => decimal_text(*self),
            SizeUnit::Decimal => format_size(*self, true, false),
        }
    }
}

/// A line of the report: a size, a tab, and what has that size.
pub fn report_line(size: u64, unit: &SizeUnit, name: &str) -> (line: String)
    ensures
        line@ == shown(size, *unit) + "\t"@ + name@,
{
    size.humansize(unit).concat("\t").concat(name)
}

} // verus!
