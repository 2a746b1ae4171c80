//! The selections of object versions that need the object listings only.
use crate::common::object_versions::ObjectVersions;
use crate::common::text::same_text;
use vstd::prelude::*;

verus! {

/// Which versions of a bucket's objects are summed, multipart uploads aside.
#[derive(Debug, Clone, Copy, PartialEq, Eq, Structural)]
pub enum S3ObjectVersions {
    /// Every version of every object, current or not.
    All,
    /// The current version of each object.
    Current,
    /// The versions that are no longer current.
    NonCurrent,
}

impl S3ObjectVersions {
    /// The selection that `word` names on the command line, if it names one.
    pub open spec fn named(word: Seq<char>) -> Option<S3ObjectVersions> {
        if word == "all"@ {
            Some(S3ObjectVersions::All)
        } else if word == "current"@ {
            Some(S3ObjectVersions::Current)
        } else if word == "non-current"@ {
            Some(S3ObjectVersions::NonCurrent)
        } else {
            None
        }
    }

    /// The same selection among all that a bucket can be sized by.
    pub open spec fn widened(self) -> ObjectVersions {
        match self {
            S3ObjectVersions::All => ObjectVersions::All,
            S3ObjectVersions::Current => ObjectVersions::Current,
            S3ObjectVersions::NonCurrent => ObjectVersions::NonCurrent,
        }
    }

    /// Reads a selection as the command line spells it.
    pub fn from_str(s: &str) -> (versions: Result<S3ObjectVersions, &'static str>)
        ensures
            match S3ObjectVersions::named(s@) {
                Some(named) => versions == Ok::<S3ObjectVersions, &'static str>(named),
                None => versions is Err && versions->Err_0@ == "no match"@,
            },
    {
        if same_text(s, "all") {
            Ok(S3ObjectVersions::All)
        } else if same_text(s, "current") {
            Ok(S3ObjectVersions::Current)
        } else if same_text(s, "non-current") {
            Ok(S3ObjectVersions::NonCurrent)
        } else {
            Err("no match")
        }
    }

    /// The same selection among all that a bucket can be sized by.
    pub fn object_versions(self) -> (versions: ObjectVersions)
        ensures
            versions == self.widened(),
    {
        match self {
            S3ObjectVersions::All => ObjectVersions::All,
            S3ObjectVersions::Current => ObjectVersions::Current,
            S3ObjectVersions::NonCurrent => ObjectVersions::NonCurrent,
        }
    }
}

impl std::str::FromStr for S3ObjectVersions {
    type Err = &'static str;

    fn from_str(s: &str) -> (versions: Result<S3ObjectVersions, &'static str>)
        ensures
            match S3ObjectVersions::named(s@) {
                Some(named) => versions == Ok::<S3ObjectVersions, &'static str>(named),
                None => versions is Err && versions->Err_0@ == "no match"@,
            },
    {
        S3ObjectVersions::from_str(s)
    }
}

/// A selection reads the same from a word whether multipart uploads can be
/// named or not, wherever both readings know the word.
pub proof fn lemma_selections_agree(word: Seq<char>)
    requires
        S3ObjectVersions::named(word) is Some,
    ensures
        ObjectVersions::named(word) == Some(S3ObjectVersions::named(word)->0.widened()),
{
    reveal_strlit("all");
    reveal_strlit("current");
    reveal_strlit("multipart");
    reveal_strlit("non-current");
    assert("all"@.len() == 3 && "current"@.len() == 7);
    assert("multipart"@.len() == 9 && "non-current"@.len() == 11);
}

} // verus!
