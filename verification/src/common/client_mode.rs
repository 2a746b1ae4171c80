//! Which backend answers.
use crate::common::text::same_text;
use vstd::prelude::*;

verus! {

/// Where bucket sizes come from.
#[derive(Debug, Clone, Copy, PartialEq, Eq, Structural)]
pub enum ClientMode {
    /// From the daily storage metrics that CloudWatch keeps.
    CloudWatch,
    /// From listing what each bucket holds.
    S3,
}

impl ClientMode {
    /// The mode that `word` names on the command line, if it names one.
    pub open spec fn named(word: Seq<char>) -> Option<ClientMode> {
        if word == "cloudwatch"@ {
            Some(ClientMode::CloudWatch)
        } else if word == "s3"@ {
            Some(ClientMode::S3)
        } else {
            None
        }
    }

    /// Reads a mode as the command line spells it.
    pub fn from_str(s: &str) -> (mode: Result<ClientMode, &'static str>)
        ensures
            match ClientMode::named(s@) {
                Some(named) => mode == Ok::<ClientMode, &'static str>(named),
                None => mode is Err && mode->Err_0@ == "no match"@,
            },
    {
        if same_text(s, "cloudwatch") {
            Ok(ClientMode::CloudWatch)
        } else if same_text(s, "s3") {
            Ok(ClientMode::S3)
        } else {
            Err("no match")
        }
    }
}

impl std::str::FromStr for ClientMode {
    type Err = &'static str;

    fn from_str(s: &str) -> (mode: Result<ClientMode, &'static str>)
        ensures
            match ClientMode::named(s@) {
                Some(named) => mode == Ok::<ClientMode, &'static str>(named),
                None => mode is Err && mode->Err_0@ == "no match"@,
            },
    {
        ClientMode::from_str(s)
    }
}

} // verus!
