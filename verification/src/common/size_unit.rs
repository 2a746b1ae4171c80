//! How sizes are shown.
use crate::common::text::same_text;
use vstd::prelude::*;

verus! {

/// The unit that bucket sizes are shown in.
#[derive(Debug, Clone, Copy, PartialEq, Eq, Structural)]
pub enum SizeUnit {
    /// In multiples of 1024 bytes, such as `KiB`.
    Binary,
    /// As the number of bytes.
    Bytes,
    /// In multiples of 1000 bytes, such as `kB`.
    Decimal,
}

impl SizeUnit {
    /// The unit that `word` names on the command line, if it names one.
    pub open spec fn named(word: Seq<char>) -> Option<SizeUnit> {
        if word == "binary"@ {
            Some(SizeUnit::Binary)
        } else if word == "bytes"@ {
            Some(SizeUnit::Bytes)
        } else if word == "decimal"@ {
            Some(SizeUnit::Decimal)
        } else {
            None
        }
    }

    /// Reads a unit as the command line spells it.
    pub fn from_str(s: &str) -> (unit: Result<SizeUnit, &'static str>)
        ensures
            match SizeUnit::named(s@) {
                Some(named) => unit == Ok::<SizeUnit, &'static str>(named),
                None => unit is Err && unit->Err_0@ == "no match"@,
            },
    {
        if same_text(s, "binary") {
            Ok(SizeUnit::Binary)
        } else if same_text(s, "bytes") {
            Ok(SizeUnit::Bytes)
        } else if same_text(s, "decimal") {
            Ok(SizeUnit::Decimal)
        } else {
            Err("no match")
        }
    }
}

impl std::str::FromStr for SizeUnit {
    type Err = &'static str;

    fn from_str(s: &str) -> (unit: Result<SizeUnit, &'static str>)
        ensures
            match SizeUnit::named(s@) {
                Some(named) => unit == Ok::<SizeUnit, &'static str>(named),
                None => unit is Err && unit->Err_0@ == "no match"@,
            },
    {
        SizeUnit::from_str(s)
    }
}

} // verus!
