use s3du::cloudwatch::bucket_metrics::{metric_labels, BucketMetrics, Dimension, Metric};
use s3du::cloudwatch::client::{
    ListMetricsRequest, MetricsPage, MetricsStep, StatisticsQuery, ONE_DAY,
};
use s3du::cloudwatch::statistics::{latest, Datapoint, Statistics, Timestamp};
use s3du::cloudwatch::Client;
use s3du::common::{Bucket, ClientConfig, Error};

fn dimension(name: &str, value: &str) -> Dimension {
    Dimension {
        name: Some(name.to_string()),
        value: Some(value.to_string()),
    }
}

fn metric(bucket: &str, storage_type: &str) -> Metric {
    Metric {
        dimensions: vec![
            dimension("BucketName", bucket),
            dimension("StorageType", storage_type),
        ],
    }
}

// Metrics used in the tests
fn get_metrics() -> Vec<Metric> {
    vec![
        metric("some-bucket-name", "StandardIAStorage"),
        metric("some-bucket-name", "StandardStorage"),
        metric("some-other-bucket-name", "StandardStorage"),
    ]
}

// The catalog that the metrics service answers with in the tests
fn cloudwatch_list_metrics() -> Vec<Metric> {
    vec![
        metric("a-bucket-name", "StandardStorage"),
        metric("a-bucket-name", "StandardIAStorage"),
        metric("another-bucket-name", "StandardStorage"),
    ]
}

// The statistics that the metrics service answers with in the tests:
// one sample of 123456789 bytes, taken at 2020-03-01T20:59:00Z
fn cloudwatch_get_metric_statistics() -> Statistics {
    Statistics {
        datapoints: vec![Datapoint {
            timestamp: Some(Timestamp {
                seconds: 1_583_096_340,
                subsecond_nanos: 0,
            }),
            average: 123_456_789,
        }],
    }
}

fn mock_client() -> Client {
    Client { bucket_name: None }
}

// Walks the catalog, answering each request with the next page
fn walk_metrics(client: &Client, pages: Vec<Result<MetricsPage, String>>) -> Result<Vec<Metric>, Error> {
    let (mut walk, mut request) = client.list_metrics();
    let mut requests = vec![request.clone()];
    for page in pages {
        match client.more_metrics(walk, page) {
            MetricsStep::Fetch(next, asked) => {
                walk = next;
                request = asked;
                requests.push(request.clone());
            }
            MetricsStep::Done(metrics) => return Ok(metrics),
            MetricsStep::Failed(error) => return Err(error),
        }
    }
    panic!("the walk still asks for {:?} after {:?}", request, walk);
}

fn sample(seconds: i64, average: u64) -> Datapoint {
    Datapoint {
        timestamp: Some(Timestamp {
            seconds,
            subsecond_nanos: 0,
        }),
        average,
    }
}

#[test]
fn test_bucket_metrics_from() {
    let metrics = get_metrics();

    // Get the above into our BucketMetrics
    let metrics: BucketMetrics = BucketMetrics::from(metrics);

    let mut names = metrics.bucket_names();
    names.sort();
    assert_eq!(names, vec!["some-bucket-name", "some-other-bucket-name"]);

    let expected: Vec<String> = vec!["StandardIAStorage".into(), "StandardStorage".into()];
    assert_eq!(metrics.storage_types("some-bucket-name"), &expected);

    let expected: Vec<String> = vec!["StandardStorage".into()];
    assert_eq!(metrics.storage_types("some-other-bucket-name"), &expected);
}

#[test]
fn test_bucket_metrics_bucket_names() {
    let metrics = get_metrics();

    // Get the above into our BucketMetrics
    let metrics: BucketMetrics = BucketMetrics::from(metrics);
    let mut ret = metrics.bucket_names();
    ret.sort();

    let expected = vec!["some-bucket-name", "some-other-bucket-name"];

    assert_eq!(ret, expected);
}

#[test]
fn bucket_metrics_name_each_storage_type_once() {
    let metrics = BucketMetrics::from(vec![
        metric("a", "StandardStorage"),
        metric("b", "StandardStorage"),
        metric("a", "StandardStorage"),
        metric("a", "GlacierStorage"),
        metric("a", "StandardStorage"),
    ]);
    assert_eq!(metrics.bucket_names(), vec!["a", "b"]);
    let expected: Vec<String> = vec!["StandardStorage".into(), "GlacierStorage".into()];
    assert_eq!(metrics.storage_types("a"), &expected);
    let expected: Vec<String> = vec!["StandardStorage".into()];
    assert_eq!(metrics.storage_types("b"), &expected);
    assert!(metrics.contains("a"));
    assert!(!metrics.contains("c"));
}

#[test]
fn metrics_that_lack_a_dimension_are_passed_over() {
    let no_dimensions = Metric { dimensions: vec![] };
    let only_bucket = Metric {
        dimensions: vec![dimension("BucketName", "lonely")],
    };
    let only_class = Metric {
        dimensions: vec![dimension("StorageType", "StandardStorage")],
    };
    let unnamed = Metric {
        dimensions: vec![
            Dimension {
                name: None,
                value: Some("nameless".into()),
            },
            dimension("StorageType", "StandardStorage"),
        ],
    };
    let no_value = Metric {
        dimensions: vec![
            Dimension {
                name: Some("BucketName".into()),
                value: None,
            },
            dimension("StorageType", "StandardStorage"),
        ],
    };
    assert_eq!(metric_labels(&no_dimensions), None);
    assert_eq!(metric_labels(&only_bucket), None);
    assert_eq!(metric_labels(&only_class), None);
    assert_eq!(metric_labels(&unnamed), None);
    assert_eq!(metric_labels(&no_value), None);

    let metrics = BucketMetrics::from(vec![
        no_dimensions,
        only_bucket,
        metric("kept", "StandardStorage"),
        only_class,
        unnamed,
        no_value,
    ]);
    assert_eq!(metrics.bucket_names(), vec!["kept"]);
    assert!(BucketMetrics::from(vec![]).bucket_names().is_empty());
}

#[test]
fn the_last_dimension_of_a_name_counts() {
    let metric = Metric {
        dimensions: vec![
            dimension("StorageType", "StandardStorage"),
            dimension("BucketName", "some-bucket-name"),
            dimension("Other", "ignored"),
            dimension("StorageType", "StandardIAStorage"),
        ],
    };
    assert_eq!(
        metric_labels(&metric),
        Some(("some-bucket-name".to_string(), "StandardIAStorage".to_string()))
    );
}

#[test]
fn bucket_sizer_test_buckets() {
    let expected = vec!["a-bucket-name", "another-bucket-name"];

    let client = mock_client();

    let metrics = walk_metrics(
        &client,
        vec![Ok(MetricsPage {
            metrics: cloudwatch_list_metrics(),
            next_token: None,
        })],
    )
    .unwrap();
    let buckets = client.buckets(metrics);

    let mut buckets: Vec<String> = buckets.iter().map(|b| b.name.to_owned()).collect();

    buckets.sort();

    assert_eq!(buckets, expected);
}

#[test]
fn bucketsizer_test_list_buckets() {
    let expected = vec!["a-bucket-name", "another-bucket-name"];

    let client = mock_client();
    let found = BucketMetrics::from(cloudwatch_list_metrics());
    let mut ret = found.bucket_names();
    ret.sort();

    assert_eq!(ret, expected);

    let mut listed: Vec<String> = client
        .buckets(cloudwatch_list_metrics())
        .into_iter()
        .map(|bucket| bucket.name)
        .collect();
    listed.sort();
    assert_eq!(listed, expected);
}

#[test]
fn buckets_carry_their_storage_types_and_no_region() {
    let buckets = mock_client().buckets(cloudwatch_list_metrics());
    assert_eq!(buckets.len(), 2);
    let first = buckets.iter().find(|b| b.name == "a-bucket-name").unwrap();
    let expected: Vec<String> = vec!["StandardStorage".into(), "StandardIAStorage".into()];
    assert_eq!(first.storage_types.as_ref(), Some(&expected));
    assert!(first.region.is_none());
    let second = buckets.iter().find(|b| b.name == "another-bucket-name").unwrap();
    let expected: Vec<String> = vec!["StandardStorage".into()];
    assert_eq!(second.storage_types.as_ref(), Some(&expected));
    assert!(second.region.is_none());
}

#[test]
fn bucket_sizer_test_bucket_size() {
    let client = mock_client();

    let ret = client
        .bucket_size(&vec![cloudwatch_get_metric_statistics()])
        .unwrap();

    let expected = 123_456_789;

    assert_eq!(ret, expected);
}

#[test]
fn bucketsizer_test_bucket_size() {
    let metrics = vec![
        Metric {
            dimensions: vec![
                dimension("StorageType", "StandardStorage"),
                dimension("BucketName", "some-bucket-name"),
                dimension("StorageType", "StandardIAStorage"),
            ],
        },
        Metric {
            dimensions: vec![
                dimension("StorageType", "StandardStorage"),
                dimension("BucketName", "some-other-bucket-name"),
            ],
        },
    ];
    let client = mock_client();
    let buckets = client.buckets(metrics);
    let bucket = buckets
        .iter()
        .find(|bucket| bucket.name == "some-other-bucket-name")
        .unwrap();

    // one query for the bucket's one storage type, answered with one sample
    let queries = client.get_metric_statistics(bucket, 1_583_100_000);
    assert_eq!(queries.len(), 1);
    let statistics: Vec<Statistics> = queries
        .iter()
        .map(|_| cloudwatch_get_metric_statistics())
        .collect();
    let ret = client.bucket_size(&statistics).unwrap();

    let expected = 123456789;

    assert_eq!(ret, expected);
}

#[test]
fn bucket_size_sums_the_storage_classes() {
    // one bucket with two storage classes, one sample each
    let client = mock_client();
    let class_a = Statistics {
        datapoints: vec![sample(1_583_096_340, 100)],
    };
    let class_b = Statistics {
        datapoints: vec![sample(1_583_096_340, 50)],
    };
    assert_eq!(client.bucket_size(&vec![class_a, class_b]), Ok(150));
}

#[test]
fn metrics_happy_path() {
    let client = mock_client();
    let catalog = walk_metrics(
        &client,
        vec![Ok(MetricsPage {
            metrics: vec![
                metric("a-bucket-name", "StandardStorage"),
                metric("a-bucket-name", "StandardIAStorage"),
            ],
            next_token: None,
        })],
    )
    .unwrap();
    let buckets = client.buckets(catalog);
    assert_eq!(buckets.len(), 1);
    assert_eq!(buckets[0].name, "a-bucket-name");

    let queries = client.get_metric_statistics(&buckets[0], 1_583_100_000);
    let classes: Vec<&str> = queries.iter().map(|q| q.storage_type.as_str()).collect();
    assert_eq!(classes, vec!["StandardStorage", "StandardIAStorage"]);

    let statistics: Vec<Statistics> = queries
        .iter()
        .map(|query| Statistics {
            datapoints: vec![sample(
                1_583_096_340,
                if query.storage_type == "StandardStorage" { 100 } else { 50 },
            )],
        })
        .collect();
    assert_eq!(client.bucket_size(&statistics), Ok(150));
}

#[test]
fn a_class_without_samples_adds_nothing() {
    let client = mock_client();
    let empty = Statistics { datapoints: vec![] };
    let sampled = Statistics {
        datapoints: vec![sample(1_583_096_340, 4096)],
    };
    assert_eq!(
        client.bucket_size(&vec![empty.clone(), sampled.clone()]),
        Ok(4096)
    );
    assert_eq!(
        client.bucket_size(&vec![sampled.clone(), empty.clone(), sampled]),
        Ok(8192)
    );
    // a sample of nothing is a sample
    let zero = Statistics {
        datapoints: vec![sample(1_583_096_340, 0)],
    };
    assert_eq!(client.bucket_size(&vec![empty, zero]), Ok(0));
}

#[test]
fn a_bucket_without_any_sample_has_no_size() {
    let client = mock_client();
    let empty = Statistics { datapoints: vec![] };
    assert_eq!(
        client.bucket_size(&vec![empty.clone()]),
        Err(Error::NoUsableData)
    );
    assert_eq!(
        client.bucket_size(&vec![empty.clone(), empty.clone(), empty]),
        Err(Error::NoUsableData)
    );
    assert_eq!(client.bucket_size(&vec![]), Err(Error::NoUsableData));
}

#[test]
fn a_bucket_size_beyond_the_total_is_refused() {
    let client = mock_client();
    let huge = Statistics {
        datapoints: vec![sample(1_583_096_340, u64::MAX)],
    };
    let one = Statistics {
        datapoints: vec![sample(1_583_096_340, 1)],
    };
    assert_eq!(client.bucket_size(&vec![huge.clone()]), Ok(u64::MAX));
    assert_eq!(
        client.bucket_size(&vec![huge, one]),
        Err(Error::SizeOverflow)
    );
}

#[test]
fn the_latest_sample_counts() {
    let client = mock_client();
    let older = sample(1_583_000_000, 1);
    let newest = sample(1_583_096_340, 2);
    let middle = sample(1_583_050_000, 3);
    let orders = vec![
        vec![older, newest, middle],
        vec![older, middle, newest],
        vec![newest, older, middle],
        vec![newest, middle, older],
        vec![middle, older, newest],
        vec![middle, newest, older],
    ];
    for datapoints in orders {
        let at = latest(&datapoints).unwrap();
        assert_eq!(datapoints[at], newest);
        assert_eq!(client.bucket_size(&vec![Statistics { datapoints }]), Ok(2));
    }
    assert_eq!(latest(&vec![]), None);
    assert_eq!(latest(&vec![older]), Some(0));
}

#[test]
fn samples_are_ordered_by_seconds_then_nanoseconds() {
    let at = |seconds: i64, subsecond_nanos: u32, average: u64| Datapoint {
        timestamp: Some(Timestamp {
            seconds,
            subsecond_nanos,
        }),
        average,
    };
    let undated = Datapoint {
        timestamp: None,
        average: 9,
    };
    assert_eq!(latest(&vec![at(5, 1, 0), at(5, 2, 0), at(4, 999_999_999, 0)]), Some(1));
    assert_eq!(latest(&vec![at(-5, 0, 0), at(-6, 999_999_999, 0)]), Some(0));
    // a sample without a timestamp stands before all that have one
    assert_eq!(latest(&vec![undated, at(i64::MIN, 0, 0)]), Some(1));
    assert_eq!(latest(&vec![at(i64::MIN, 0, 0), undated]), Some(0));
    assert_eq!(latest(&vec![undated, undated]), Some(0));
    // of samples of one instant the first counts
    assert_eq!(latest(&vec![at(7, 0, 1), at(7, 0, 2), at(6, 0, 3)]), Some(0));
    assert_eq!(latest(&vec![at(i64::MAX, u32::MAX, 1), at(i64::MAX, 0, 2)]), Some(0));
}

#[test]
fn test_get_metric_statistics() {
    let client = mock_client();

    let storage_types = vec!["StandardStorage".into()];

    let bucket = Bucket {
        name: "test-bucket".into(),
        region: None,
        storage_types: Some(storage_types),
    };

    // 2020-03-01T20:59:00Z
    let now = 1_583_096_340;
    let ret = client.get_metric_statistics(&bucket, now);

    let expected = vec![StatisticsQuery {
        namespace: "AWS/S3".into(),
        metric_name: "BucketSizeBytes".into(),
        bucket_name: "test-bucket".into(),
        storage_type: "StandardStorage".into(),
        start_time: now - 86_400,
        end_time: now,
        period: 86_400,
        statistic: "Average".into(),
        unit: "Bytes".into(),
    }];

    assert_eq!(ret, expected);
    assert_eq!(ONE_DAY, 86_400);
}

#[test]
fn statistics_are_asked_for_each_storage_type() {
    let client = mock_client();
    let bucket = Bucket {
        name: "test-bucket".into(),
        region: None,
        storage_types: Some(vec!["StandardStorage".into(), "GlacierStorage".into()]),
    };
    let queries = client.get_metric_statistics(&bucket, 100_000);
    assert_eq!(queries.len(), 2);
    assert_eq!(queries[0].storage_type, "StandardStorage");
    assert_eq!(queries[1].storage_type, "GlacierStorage");
    for query in &queries {
        assert_eq!(query.bucket_name, "test-bucket");
        assert_eq!(query.start_time, 13_600);
        assert_eq!(query.end_time, 100_000);
    }

    let unknown = Bucket {
        name: "test-bucket".into(),
        region: None,
        storage_types: None,
    };
    assert!(client.get_metric_statistics(&unknown, 100_000).is_empty());

    // the window starts no earlier than time can be written
    let early = client.get_metric_statistics(&bucket, i64::MIN + 5);
    assert_eq!(early[0].start_time, i64::MIN);
    assert_eq!(early[0].end_time, i64::MIN + 5);
}

#[test]
fn test_list_metrics() {
    let client = mock_client();
    let ret = walk_metrics(
        &client,
        vec![Ok(MetricsPage {
            metrics: cloudwatch_list_metrics(),
            next_token: None,
        })],
    )
    .unwrap();

    let expected = vec![
        metric("a-bucket-name", "StandardStorage"),
        metric("a-bucket-name", "StandardIAStorage"),
        metric("another-bucket-name", "StandardStorage"),
    ];

    assert_eq!(ret, expected);
}

#[test]
fn list_metrics_asks_for_the_size_metrics() {
    let (walk, request) = mock_client().list_metrics();
    assert!(walk.metrics.is_empty());
    assert_eq!(
        request,
        ListMetricsRequest {
            namespace: "AWS/S3".into(),
            metric_name: "BucketSizeBytes".into(),
            bucket_name: None,
            next_token: None,
        }
    );

    let chosen = Client::new(ClientConfig {
        bucket_name: Some("a-bucket-name".into()),
        ..ClientConfig::default()
    });
    let (_, request) = chosen.list_metrics();
    assert_eq!(request.bucket_name.as_deref(), Some("a-bucket-name"));
    assert_eq!(request.next_token, None);
}

#[test]
fn list_metrics_follows_the_tokens() {
    let client = Client {
        bucket_name: Some("a-bucket-name".into()),
    };
    let (walk, _) = client.list_metrics();
    let first = MetricsPage {
        metrics: vec![metric("a-bucket-name", "StandardStorage")],
        next_token: Some("page-2".into()),
    };
    let walk = match client.more_metrics(walk, Ok(first)) {
        MetricsStep::Fetch(walk, request) => {
            assert_eq!(request.next_token.as_deref(), Some("page-2"));
            assert_eq!(request.bucket_name.as_deref(), Some("a-bucket-name"));
            assert_eq!(request.namespace, "AWS/S3");
            assert_eq!(request.metric_name, "BucketSizeBytes");
            walk
        }
        other => panic!("{:?}", other),
    };
    let second = MetricsPage {
        metrics: vec![metric("a-bucket-name", "StandardIAStorage")],
        next_token: None,
    };
    match client.more_metrics(walk, Ok(second)) {
        MetricsStep::Done(metrics) => assert_eq!(
            metrics,
            vec![
                metric("a-bucket-name", "StandardStorage"),
                metric("a-bucket-name", "StandardIAStorage"),
            ]
        ),
        other => panic!("{:?}", other),
    }
}

#[test]
fn list_metrics_gathers_every_page() {
    let client = mock_client();
    for pages in 1..6usize {
        let mut responses = Vec::new();
        let mut expected = Vec::new();
        for page in 0..pages {
            let metrics = vec![
                metric(&format!("bucket-{}", page), "StandardStorage"),
                metric(&format!("bucket-{}", page), "StandardIAStorage"),
            ];
            expected.extend(metrics.clone());
            responses.push(Ok(MetricsPage {
                metrics,
                next_token: if page + 1 < pages {
                    Some(format!("token-{}", page + 1))
                } else {
                    None
                },
            }));
        }
        assert_eq!(walk_metrics(&client, responses), Ok(expected));
    }
}

#[test]
fn list_metrics_passes_empty_pages() {
    let client = mock_client();
    let responses = vec![
        Ok(MetricsPage {
            metrics: vec![],
            next_token: Some("a".into()),
        }),
        Ok(MetricsPage {
            metrics: vec![metric("a-bucket-name", "StandardStorage")],
            next_token: Some("b".into()),
        }),
        Ok(MetricsPage {
            metrics: vec![],
            next_token: Some("c".into()),
        }),
        Ok(MetricsPage {
            metrics: vec![metric("another-bucket-name", "StandardStorage")],
            next_token: None,
        }),
    ];
    assert_eq!(
        walk_metrics(&client, responses),
        Ok(vec![
            metric("a-bucket-name", "StandardStorage"),
            metric("another-bucket-name", "StandardStorage"),
        ])
    );
    // a catalog of one empty page is an empty catalog
    let nothing = vec![Ok(MetricsPage {
        metrics: vec![],
        next_token: None,
    })];
    assert_eq!(walk_metrics(&client, nothing), Ok(vec![]));
}

#[test]
fn list_metrics_fails_with_the_transport() {
    let client = mock_client();
    let responses = vec![
        Ok(MetricsPage {
            metrics: vec![metric("a-bucket-name", "StandardStorage")],
            next_token: Some("a".into()),
        }),
        Err("dispatch failure".to_string()),
    ];
    assert_eq!(
        walk_metrics(&client, responses),
        Err(Error::Transport("dispatch failure".into()))
    );
    assert_eq!(
        walk_metrics(&client, vec![Err("access denied".to_string())]),
        Err(Error::Transport("access denied".into()))
    );
}
