//! Which of a bucket's objects count towards its size.
use crate::common::text::same_text;
use vstd::prelude::*;

verus! {

/// Which objects are summed when a bucket is sized by listing it.
#[derive(Debug, Clone, Copy, PartialEq, Eq, Structural)]
pub enum ObjectVersions {
    /// Every version of every object, current or not.
    All,
    /// The current version of each object.
    Current,
    /// The parts of multipart uploads that are still in progress.
    Multipart,
    /// The versions that are no longer current.
    NonCurrent,
}

impl ObjectVersions {
    /// The selection that `word` names on the command line, if it names one.
    pub open spec fn named(word: Seq<char>) -> Option<ObjectVersions> {
        if word == "all"@ {
            Some(ObjectVersions::All)
        } else if word == "current"@ {
            Some(ObjectVersions::Current)
        } else if word == "multipart"@ {
            Some(ObjectVersions::Multipart)
        } else if word == "non-current"@ {
            Some(ObjectVersions::NonCurrent)
        } else {
            None
        }
    }

    /// Reads a selection as the command line spells it.
    pub fn from_str(s: &str) -> (versions: Result<ObjectVersions, &'static str>)
        ensures
            match ObjectVersions::named(s@) {
                Some(named) => versions == Ok::<ObjectVersions, &'static str>(named),
                None => versions is Err && versions->Err_0@ == "no match"@,
            },
    {
        if same_text(s, "all") {
            Ok(ObjectVersions::All)
        } else if same_text(s, "current") {
            Ok(ObjectVersions::Current)
        } else if same_text(s, "multipart") {
            Ok(ObjectVersions::Multipart)
        } else if same_text(s, "non-current") {
            Ok(ObjectVersions::NonCurrent)
        } else {
            Err("no match")
        }
    }
}

impl std::str::FromStr for ObjectVersions {
    type Err = &'static str;

    fn from_str(s: &str) -> (versions: Result<ObjectVersions, &'static str>)
        ensures
            match ObjectVersions::named(s@) {
                Some(named) => versions == Ok::<ObjectVersions, &'static str>(named),
                None => versions is Err && versions->Err_0@ == "no match"@,
            },
    {
        ObjectVersions::from_str(s)
    }
}

} // verus!
