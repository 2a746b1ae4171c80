//! What a client is set up with.
use crate::common::client_mode::ClientMode;
use crate::common::object_versions::ObjectVersions;
use crate::common::region::{chars_of_str, Region};
use crate::common::text::chars_of;
use vstd::prelude::*;

verus! {

/// The settings of a client, as the command line and the environment give
/// them.
#[derive(Debug, Clone)]
pub struct ClientConfig {
    /// The one bucket to report on. Without it every bucket found is
    /// reported.
    pub bucket_name: Option<String>,
    /// Which backend answers.
    pub mode: ClientMode,
    /// The region to work in, with the endpoint to reach it by where one is
    /// set.
    pub region: Region,
    /// Which objects count when a bucket is sized by listing it.
    pub object_versions: ObjectVersions,
    /// Whether the parts of unfinished multipart uploads are added where
    /// every version of every object is summed. The versions and the parts
    /// are counted in passes of their own; no other selection looks at this.
    pub with_multipart: bool,
}

/// Why settings contradict each other.
#[derive(Debug, Clone, Copy, PartialEq, Eq, Structural)]
pub enum ConfigError {
    /// An endpoint was given, which only the S3 backend can use.
    EndpointWithoutS3,
}

impl ConfigError {
    /// What to show the user for this contradiction.
    pub fn message(&self) -> (text: &'static str)
        ensures
            text@ == "Error: Endpoint supplied but client mode is not S3"@,
    {
        "Error: Endpoint supplied but client mode is not S3"
    }
}

impl Default for ClientConfig {
    /// The settings where nothing was asked for: every bucket, from
    /// CloudWatch, in no particular region.
    fn default() -> (config: ClientConfig)
        ensures
            config.bucket_name is None,
            config.mode == ClientMode::CloudWatch,
            config.region.region is None,
            config.region.endpoint is None,
            config.object_versions == ObjectVersions::Current,
            !config.with_multipart,
    {
        ClientConfig {
            bucket_name: None,
            mode: ClientMode::CloudWatch,
            region: Region { region: None, endpoint: None },
            object_versions: ObjectVersions::Current,
            with_multipart: false,
        }
    }
}

impl ClientConfig {
    /// Puts the settings together. An endpoint is refused unless the mode is
    /// S3; with S3 it becomes part of the region.
    pub fn new(
        bucket_name: Option<String>,
        mode: ClientMode,
        region: &str,
        endpoint: Option<&str>,
        object_versions: ObjectVersions,
        with_multipart: bool,
    ) -> (config: Result<ClientConfig, ConfigError>)
        ensures
            endpoint is Some && mode != ClientMode::S3 <==> config == Err::<
                ClientConfig,
                ConfigError,
            >(ConfigError::EndpointWithoutS3),
            config matches Ok(made) ==> {
                &&& made.bucket_name == bucket_name
                &&& made.mode == mode
                &&& made.region.id() == Some(region@)
                &&& chars_of(made.region.endpoint) == chars_of_str(endpoint)
                &&& made.object_versions == object_versions
                &&& made.with_multipart == with_multipart
            },
    {
        let place = Region { region: Some(region.to_owned()), endpoint: None };
        let place = match endpoint {
            Some(endpoint) => {
                match mode {
                    ClientMode::S3 => place.set_endpoint(endpoint),
                    ClientMode::CloudWatch => {
                        return Err(ConfigError::EndpointWithoutS3);
                    },
                }
            },
            None => place,
        };
        Ok(ClientConfig { bucket_name, mode, region: place, object_versions, with_multipart })
    }
}

} // verus!
