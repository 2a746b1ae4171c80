//! Checks on what the command line gives.
use crate::common::text::{chars_of, contains_text, occurs_in, same_text};
use vstd::prelude::*;
use vstd::string::{StringExecFns, StringSliceAdditionalSpecFns};

verus! {

/// The parts of a URI that the check of an endpoint looks at.
#[derive(Debug, Clone, PartialEq, Eq)]
pub struct UriParts {
    /// The scheme, such as `https`, where the URI has one.
    pub scheme: Option<String>,
    /// The host, where the URI has one.
    pub host: Option<String>,
}

/// The model of [`UriParts`].
pub struct UriPartsModel {
    pub scheme: Option<Seq<char>>,
    pub host: Option<Seq<char>>,
}

impl DeepView for UriParts {
    type V = UriPartsModel;

    open spec fn deep_view(&self) -> UriPartsModel {
        UriPartsModel { scheme: chars_of(self.scheme), host: chars_of(self.host) }
    }
}

/// What parsing a text as a URI gives.
pub open spec fn parsed_model(parsed: Result<UriParts, String>) -> Result<UriPartsModel, Seq<char>> {
    match parsed {
        Ok(parts) => Ok(parts.deep_view()),
        Err(why) => Err(why@),
    }
}

/// What the `http` crate makes of `text` as a URI: its scheme and host, or
/// the words in which it refuses the text.
pub uninterp spec fn parsed_uri(text: Seq<char>) -> Result<UriPartsModel, Seq<char>>;

/// Parses `text` with `http::Uri::try_from` and hands out the URI's scheme
/// (`Uri::scheme_str`) and host (`Uri::host`), or the error's own words. The
/// parser reads its argument and nothing else; the contract gives what it
/// makes of a text a name and claims nothing more of it.
#[verifier::external_body]
fn parse_uri(text: &str) -> (parsed: Result<UriParts, String>)
    ensures
        parsed_model(parsed) == parsed_uri(text@),
{
    match http::Uri::try_from(text) {
        Ok(uri) => Ok(
            UriParts {
                scheme: uri.scheme_str().map(str::to_owned),
                host: uri.host().map(str::to_owned),
            },
        ),
        Err(error) => Err(error.to_string()),
    }
}

/// What is wrong with `name` as the name of a bucket, if anything: it is
/// empty, or shorter than three bytes, or longer than 255.
pub open spec fn bucket_name_fault(name: &str) -> Option<Seq<char>> {
    if name@.len() == 0 {
        Some("Bucket name cannot be empty"@)
    } else if name.spec_bytes().len() < 3 {
        Some("Bucket name is too short"@)
    } else if name.spec_bytes().len() > 255 {
        Some("Bucket name is too long"@)
    } else {
        None
    }
}

/// What is wrong with `text` as an endpoint, if anything, where `parsed` is
/// what parsing it as a URI gave. An endpoint is a URI with the scheme
/// `http` or `https` whose host is not one of AWS.
pub open spec fn endpoint_fault(text: Seq<char>, parsed: Result<UriPartsModel, Seq<char>>)
    -> Option<Seq<char>> {
    if text.len() == 0 {
        Some("Endpoint cannot be empty"@)
    } else {
        match parsed {
            Err(why) => Some("Could not parse endpoint: "@ + why),
            Ok(parts) => match parts.scheme {
                None => Some("No URI scheme found"@),
                Some(scheme) => if scheme != "http"@ && scheme != "https"@ {
                    Some("URI scheme must be http or https, found "@ + scheme)
                } else if parts.host is Some && occurs_in("amazonaws.com"@, parts.host->0) {
                    Some("Endpoint cannot be used to specify AWS endpoints"@)
                } else {
                    None
                },
            },
        }
    }
}

/// Whether `checked` is the verdict on `text` that `fault` calls for: the
/// text itself where nothing is wrong with it, else what is wrong.
pub open spec fn is_verdict(checked: Result<String, String>, text: Seq<char>, fault: Option<Seq<char>>)
    -> bool {
    match fault {
        None => checked is Ok && checked->Ok_0@ == text,
        Some(why) => checked is Err && checked->Err_0@ == why,
    }
}

/// Checks the name of a bucket.
pub fn is_valid_aws_s3_bucket_name(s: &str) -> (checked: Result<String, String>)
    ensures
        is_verdict(checked, s@, bucket_name_fault(s)),
{
    if s.is_empty() {
        return Err("Bucket name cannot be empty".to_owned());
    }
    let length: usize = s.as_bytes().len();
    if length < 3 {
        return Err("Bucket name is too short".to_owned());
    }
    if length > 255 {
        return Err("Bucket name is too long".to_owned());
    }
    Ok(s.to_owned())
}

/// Checks an endpoint, given what parsing it as a URI gave.
pub fn check_endpoint(s: &str, parsed: Result<UriParts, String>) -> (checked: Result<
    String,
    String,
>)
    ensures
        is_verdict(checked, s@, endpoint_fault(s@, parsed_model(parsed))),
{
    if s.is_empty() {
        return Err("Endpoint cannot be empty".to_owned());
    }
    let parts = match parsed {
        Ok(parts) => parts,
        Err(why) => {
            return Err("Could not parse endpoint: ".to_owned().concat(why.as_str()));
        },
    };
    let scheme = match parts.scheme {
        Some(scheme) => scheme,
        None => {
            return Err("No URI scheme found".to_owned());
        },
    };
    if !same_text(scheme.as_str(), "http") && !same_text(scheme.as_str(), "https") {
        return Err(
            "URI scheme must be http or https, found ".to_owned().concat(scheme.as_str()),
        );
    }
    match parts.host {
        Some(host) => {
            if contains_text(host.as_str(), "amazonaws.com") {
                return Err("Endpoint cannot be used to specify AWS endpoints".to_owned());
            }
        },
        None => {},
    }
    Ok(s.to_owned())
}

/// Checks an endpoint: it must be a URI with the scheme `http` or `https`
/// whose host is not one of AWS.
pub fn is_valid_endpoint(s: &str) -> (checked: Result<String, String>)
    ensures
        is_verdict(checked, s@, endpoint_fault(s@, parsed_uri(s@))),
{
    if s.is_empty() {
        return Err("Endpoint cannot be empty".to_owned());
    }
    check_endpoint(s, parse_uri(s))
}

} // verus!
