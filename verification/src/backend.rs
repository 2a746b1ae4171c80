//! The two ways to size buckets, of which a run uses one.
use crate::common::client_config::ClientConfig;
use crate::common::client_mode::ClientMode;
use vstd::prelude::*;

verus! {

/// The backend that answers for a run. It is chosen once, from the mode of
/// the settings, and every bucket of the run is found and sized by it.
#[derive(Debug, Clone)]
pub enum Backend {
    /// Sizes come from the storage metrics of CloudWatch.
    CloudWatch(crate::cloudwatch::Client),
    /// Sizes come from listing each bucket.
    S3(crate::s3::Client),
}

impl Backend {
    /// The backend that the settings ask for, set up with them.
    pub fn new(config: ClientConfig) -> (backend: Backend)
        ensures
            match config.mode {
                ClientMode::CloudWatch => {
                    &&& backend matches Backend::CloudWatch(client)
                    &&& client.bucket_name == config.bucket_name
                },
                ClientMode::S3 => {
                    &&& backend matches Backend::S3(client)
                    &&& client.bucket_name == config.bucket_name
                    &&& client.object_versions == config.object_versions
                    &&& client.with_multipart == config.with_multipart
                    &&& client.region == config.region
                },
            },
    {
        match config.mode {
            ClientMode::CloudWatch => Backend::CloudWatch(crate::cloudwatch::Client::new(config)),
            ClientMode::S3 => Backend::S3(crate::s3::Client::new(config)),
        }
    }
}

} // verus!
