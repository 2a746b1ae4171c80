use s3du::common::client_config::{ClientConfig, ConfigError};
use s3du::common::pager::{turn, Turn};
use s3du::common::region::{is_custom_region, resolve, translate_location_constraint};
use s3du::common::tally::{grow, settle, sum_reported, sum_sizes};
use s3du::common::{ClientMode, Error, ObjectVersions, Region, S3ObjectVersions, SizeUnit};
use std::str::FromStr;

#[test]
fn client_mode_from_str() {
    assert_eq!(ClientMode::from_str("cloudwatch"), Ok(ClientMode::CloudWatch));
    assert_eq!(ClientMode::from_str("s3"), Ok(ClientMode::S3));
    assert_eq!(ClientMode::from_str("S3"), Err("no match"));
    assert_eq!(ClientMode::from_str(""), Err("no match"));
    assert_eq!("s3".parse::<ClientMode>(), Ok(ClientMode::S3));
}

#[test]
fn object_versions_from_str() {
    assert_eq!(ObjectVersions::from_str("all"), Ok(ObjectVersions::All));
    assert_eq!(ObjectVersions::from_str("current"), Ok(ObjectVersions::Current));
    assert_eq!(ObjectVersions::from_str("multipart"), Ok(ObjectVersions::Multipart));
    assert_eq!(ObjectVersions::from_str("non-current"), Ok(ObjectVersions::NonCurrent));
    assert_eq!(ObjectVersions::from_str("noncurrent"), Err("no match"));
    assert_eq!("all".parse::<ObjectVersions>(), Ok(ObjectVersions::All));
}

#[test]
fn s3_object_versions_from_str() {
    assert_eq!(S3ObjectVersions::from_str("all"), Ok(S3ObjectVersions::All));
    assert_eq!(S3ObjectVersions::from_str("current"), Ok(S3ObjectVersions::Current));
    assert_eq!(S3ObjectVersions::from_str("non-current"), Ok(S3ObjectVersions::NonCurrent));
    assert_eq!(S3ObjectVersions::from_str("multipart"), Err("no match"));
    assert_eq!("current".parse::<S3ObjectVersions>(), Ok(S3ObjectVersions::Current));
}

#[test]
fn s3_object_versions_widen_to_object_versions() {
    assert_eq!(S3ObjectVersions::All.object_versions(), ObjectVersions::All);
    assert_eq!(S3ObjectVersions::Current.object_versions(), ObjectVersions::Current);
    assert_eq!(S3ObjectVersions::NonCurrent.object_versions(), ObjectVersions::NonCurrent);
    for word in ["all", "current", "non-current"] {
        assert_eq!(
            S3ObjectVersions::from_str(word).unwrap().object_versions(),
            ObjectVersions::from_str(word).unwrap()
        );
    }
}

#[test]
fn size_unit_from_str() {
    assert_eq!(SizeUnit::from_str("binary"), Ok(SizeUnit::Binary));
    assert_eq!(SizeUnit::from_str("bytes"), Ok(SizeUnit::Bytes));
    assert_eq!(SizeUnit::from_str("decimal"), Ok(SizeUnit::Decimal));
    assert_eq!(SizeUnit::from_str("octal"), Err("no match"));
    assert_eq!("bytes".parse::<SizeUnit>(), Ok(SizeUnit::Bytes));
}

#[test]
fn region_from_the_environment() {
    let none: Vec<Option<String>> = vec![None, None];
    assert_eq!(Region::new(&none).name(), "default");
    assert_eq!(Region::new(&Vec::new()).name(), "default");

    let first = vec![Some("eu-west-1".to_string()), Some("us-west-2".to_string())];
    assert_eq!(Region::new(&first).name(), "eu-west-1");

    let second = vec![None, Some("us-west-2".to_string())];
    assert_eq!(Region::new(&second).name(), "us-west-2");

    // a variable that is set to nothing does not count
    let empty_first = vec![Some(String::new()), Some("us-west-2".to_string())];
    assert_eq!(Region::new(&empty_first).name(), "us-west-2");
    let all_empty = vec![Some(String::new()), Some(String::new())];
    assert_eq!(Region::new(&all_empty).name(), "default");
    assert!(Region::new(&first).endpoint.is_none());
}

#[test]
fn region_set_region_and_endpoint() {
    let region = Region::new(&Vec::new()).set_region("eu-central-1");
    assert_eq!(region.name(), "eu-central-1");
    assert_eq!(region.endpoint, None);

    let region = region.set_endpoint("http://127.0.0.1:9000");
    assert_eq!(region.name(), "eu-central-1");
    assert_eq!(region.endpoint.as_deref(), Some("http://127.0.0.1:9000"));

    let region = region.set_region("eu-west-1");
    assert_eq!(region.name(), "eu-west-1");
    assert_eq!(region.endpoint.as_deref(), Some("http://127.0.0.1:9000"));
}

#[test]
fn regions_are_equal_by_identifier_alone() {
    let plain = Region::new(&Vec::new()).set_region("eu-west-1");
    let with_endpoint = Region::new(&Vec::new())
        .set_region("eu-west-1")
        .set_endpoint("http://127.0.0.1:9000");
    let other = Region::new(&Vec::new()).set_region("eu-west-2");
    let unset = Region::new(&Vec::new());

    assert_eq!(plain, with_endpoint);
    assert!(plain.same_region(&with_endpoint));
    assert_ne!(plain, other);
    assert_ne!(plain, unset);
    assert_eq!(unset, Region::default());
    // a region named "default" is not the region without a name
    assert_ne!(unset, Region::new(&Vec::new()).set_region("default"));
}

#[test]
fn resolve_prefers_explicit_then_environment_then_fallback() {
    let environment = vec![Some("eu-west-1".to_string()), Some("us-west-2".to_string())];
    assert_eq!(resolve(Some("ap-south-1"), &environment).name(), "ap-south-1");
    assert_eq!(resolve(None, &environment).name(), "eu-west-1");
    assert_eq!(
        resolve(None, &vec![None, Some("us-west-2".to_string())]).name(),
        "us-west-2"
    );
    assert_eq!(
        resolve(None, &vec![Some(String::new()), Some("us-west-2".to_string())]).name(),
        "us-west-2"
    );
    assert_eq!(resolve(None, &vec![None, None]).name(), "us-east-1");
    assert_eq!(resolve(None, &Vec::new()).name(), "us-east-1");
    assert_eq!(resolve(None, &vec![Some(String::new())]).name(), "us-east-1");
}

#[test]
fn location_constraints_are_translated() {
    assert_eq!(translate_location_constraint("").name(), "us-east-1");
    assert_eq!(translate_location_constraint("EU").name(), "eu-west-1");
    assert_eq!(translate_location_constraint("eu-west-1").name(), "eu-west-1");
    assert_eq!(translate_location_constraint("ap-southeast-2").name(), "ap-southeast-2");
    // only the alias as the service spells it is an alias
    assert_eq!(translate_location_constraint("eu").name(), "eu");
    assert_eq!(translate_location_constraint("EU ").name(), "EU ");
}

#[test]
fn translating_twice_changes_nothing() {
    for raw in ["", "EU", "eu-west-1", "us-east-1", "us-west-2", "garage", "eu"] {
        let once = translate_location_constraint(raw);
        let twice = translate_location_constraint(once.name());
        assert_eq!(once.name(), twice.name());
        assert_eq!(once, twice);
    }
}

#[test]
fn custom_regions_are_those_the_provider_does_not_publish() {
    let region = |name: &str| Region::new(&Vec::new()).set_region(name);
    assert!(!is_custom_region(&region("eu-west-1")));
    assert!(!is_custom_region(&region("us-west-2")));
    assert!(!is_custom_region(&region("ap-southeast-2")));
    assert!(is_custom_region(&region("garage")));
    assert!(is_custom_region(&region("minio")));
    assert!(is_custom_region(&region("EU-WEST-1")));
    // the region without a name shows as "default", which is no published region
    assert!(is_custom_region(&Region::new(&Vec::new())));
}

#[test]
fn client_config_default() {
    let config = ClientConfig::default();
    assert_eq!(config.bucket_name, None);
    assert_eq!(config.mode, ClientMode::CloudWatch);
    assert_eq!(config.region.name(), "default");
    assert_eq!(config.region.endpoint, None);
    assert_eq!(config.object_versions, ObjectVersions::Current);
    assert!(!config.with_multipart);
}

#[test]
fn client_config_refuses_an_endpoint_without_s3() {
    let refused = ClientConfig::new(
        None,
        ClientMode::CloudWatch,
        "eu-west-1",
        Some("http://127.0.0.1:9000"),
        ObjectVersions::Current,
        false,
    );
    assert_eq!(refused.unwrap_err(), ConfigError::EndpointWithoutS3);
    assert_eq!(
        ConfigError::EndpointWithoutS3.message(),
        "Error: Endpoint supplied but client mode is not S3"
    );

    let s3 = ClientConfig::new(
        Some("a-bucket".to_string()),
        ClientMode::S3,
        "garage",
        Some("http://127.0.0.1:9000"),
        ObjectVersions::All,
        true,
    )
    .unwrap();
    assert_eq!(s3.bucket_name.as_deref(), Some("a-bucket"));
    assert_eq!(s3.mode, ClientMode::S3);
    assert_eq!(s3.region.name(), "garage");
    assert_eq!(s3.region.endpoint.as_deref(), Some("http://127.0.0.1:9000"));
    assert_eq!(s3.object_versions, ObjectVersions::All);
    assert!(s3.with_multipart);

    let cloudwatch = ClientConfig::new(
        None,
        ClientMode::CloudWatch,
        "eu-west-1",
        None,
        ObjectVersions::Current,
        false,
    )
    .unwrap();
    assert_eq!(cloudwatch.mode, ClientMode::CloudWatch);
    assert_eq!(cloudwatch.region.name(), "eu-west-1");
    assert_eq!(cloudwatch.region.endpoint, None);
    assert!(!cloudwatch.with_multipart);
}

#[test]
fn error_messages() {
    assert_eq!(Error::Transport("dispatch failure".to_string()).message(), "dispatch failure");
    assert_eq!(
        Error::NoUsableData.message(),
        "Failed to fetch any CloudWatch datapoints!"
    );
    assert_eq!(
        Error::NegativeSize.message(),
        "Reported sizes add up to a negative size"
    );
    assert_eq!(
        Error::SizeOverflow.message(),
        "Reported sizes add up to more than a size can hold"
    );
    assert_eq!(
        Error::UnexpectedResponse.message(),
        "Response does not answer the request that was sent"
    );
}

#[test]
fn reported_sizes_are_summed() {
    assert_eq!(sum_reported(&vec![]), Ok(0));
    assert_eq!(sum_reported(&vec![Some(1024), Some(32768)]), Ok(33792));
    assert_eq!(sum_reported(&vec![Some(5), None, Some(7)]), Ok(12));
    assert_eq!(sum_reported(&vec![None, None]), Ok(0));
    // a negative size is no fault while the sum is not negative
    assert_eq!(sum_reported(&vec![Some(10), Some(-3)]), Ok(7));
    assert_eq!(sum_reported(&vec![Some(-3), Some(10)]), Ok(7));
    assert_eq!(sum_reported(&vec![Some(-3), Some(3)]), Ok(0));
}

#[test]
fn a_negative_sum_is_refused() {
    assert_eq!(sum_reported(&vec![Some(-1)]), Err(Error::NegativeSize));
    assert_eq!(sum_reported(&vec![Some(3), Some(-10)]), Err(Error::NegativeSize));
    assert_eq!(sum_reported(&vec![Some(i64::MIN)]), Err(Error::NegativeSize));
}

#[test]
fn a_sum_beyond_the_signed_range_is_refused() {
    assert_eq!(sum_reported(&vec![Some(i64::MAX)]), Ok(i64::MAX as u64));
    assert_eq!(sum_reported(&vec![Some(i64::MAX), Some(1)]), Err(Error::SizeOverflow));
    assert_eq!(sum_reported(&vec![Some(i64::MIN), Some(-1)]), Err(Error::SizeOverflow));
    // what counts is the sum, not the way to it
    assert_eq!(
        sum_reported(&vec![Some(i64::MAX), Some(1), Some(-1)]),
        Ok(i64::MAX as u64)
    );
    assert_eq!(
        sum_reported(&vec![Some(i64::MAX), Some(i64::MAX), Some(i64::MIN)]),
        Ok(i64::MAX as u64 - 1)
    );
}

#[test]
fn signed_sums_are_settled() {
    assert_eq!(settle(0), Ok(0));
    assert_eq!(settle(600_732), Ok(600_732));
    assert_eq!(settle(-1), Err(Error::NegativeSize));
    assert_eq!(settle(i64::MAX as i128), Ok(i64::MAX as u64));
    assert_eq!(settle(i64::MAX as i128 + 1), Err(Error::SizeOverflow));
    assert_eq!(settle(i64::MIN as i128), Err(Error::NegativeSize));
    assert_eq!(settle(i64::MIN as i128 - 1), Err(Error::SizeOverflow));
}

#[test]
fn running_totals_grow_or_fail() {
    assert_eq!(grow(0, 0), Ok(0));
    assert_eq!(grow(600_732, 204_800), Ok(805_532));
    assert_eq!(grow(u64::MAX, 0), Ok(u64::MAX));
    assert_eq!(grow(u64::MAX, 1), Err(Error::SizeOverflow));
    assert_eq!(grow(1, u64::MAX), Err(Error::SizeOverflow));
}

#[test]
fn bucket_sizes_are_totalled() {
    assert_eq!(sum_sizes(&vec![]), Ok(0));
    assert_eq!(sum_sizes(&vec![33_792, 166_498, 204_800]), Ok(405_090));
    assert_eq!(sum_sizes(&vec![u64::MAX, 0]), Ok(u64::MAX));
    assert_eq!(sum_sizes(&vec![u64::MAX, 1]), Err(Error::SizeOverflow));
    assert_eq!(sum_sizes(&vec![1, u64::MAX, 0]), Err(Error::SizeOverflow));
}

#[test]
fn a_walk_turns_on_bytes_and_cursor() {
    assert_eq!(turn(10, Ok(5), Some("next")), Turn::Fetch(15, "next"));
    assert_eq!(turn::<&str>(10, Ok(5), None), Turn::Done(15));
    // a page without bytes that names a further page does not end the walk
    assert_eq!(turn(10, Ok(0), Some("next")), Turn::Fetch(10, "next"));
    assert_eq!(turn::<&str>(0, Ok(0), None), Turn::Done(0));
    assert_eq!(
        turn(10, Err(Error::NegativeSize), Some("next")),
        Turn::Failed(Error::NegativeSize)
    );
    assert_eq!(
        turn(u64::MAX, Ok(1), Some("next")),
        Turn::Failed(Error::SizeOverflow)
    );
    assert_eq!(turn::<&str>(u64::MAX, Ok(1), None), Turn::Failed(Error::SizeOverflow));
}

#[test]
fn the_backend_follows_the_mode() {
    let cloudwatch = ClientConfig {
        bucket_name: Some("a-bucket-name".into()),
        ..ClientConfig::default()
    };
    match s3du::backend::Backend::new(cloudwatch) {
        s3du::backend::Backend::CloudWatch(client) => {
            assert_eq!(client.bucket_name.as_deref(), Some("a-bucket-name"))
        }
        other => panic!("{:?}", other),
    }
    let s3 = ClientConfig::new(
        None,
        ClientMode::S3,
        "eu-west-1",
        None,
        ObjectVersions::All,
        true,
    )
    .unwrap();
    match s3du::backend::Backend::new(s3) {
        s3du::backend::Backend::S3(client) => {
            assert_eq!(client.bucket_name, None);
            assert_eq!(client.object_versions, ObjectVersions::All);
            assert!(client.with_multipart);
            assert_eq!(client.region.name(), "eu-west-1");
        }
        other => panic!("{:?}", other),
    }
}
