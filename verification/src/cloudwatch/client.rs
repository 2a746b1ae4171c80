//! The CloudWatch client's settings and the requests it makes.
use crate::cloudwatch::bucket_metrics::Metric;
use crate::common::bucket::Bucket;
use crate::common::client_config::ClientConfig;
use crate::common::error::{Error, ErrorModel};
use crate::common::text::{chars_of, copy_of};
use vstd::prelude::*;

verus! {

/// The seconds of the window that statistics are asked for, and of the
/// period they are averaged over.
pub const ONE_DAY: i32 = 86_400;

/// What the CloudWatch backend was set up with.
#[derive(Debug, Clone)]
pub struct Client {
    /// The one bucket to report on, where one was chosen.
    pub bucket_name: Option<String>,
}

/// A request for one page of the metric catalog.
#[derive(Debug, Clone, PartialEq, Eq)]
pub struct ListMetricsRequest {
    /// The namespace of the metrics asked for.
    pub namespace: String,
    /// The name of the metrics asked for.
    pub metric_name: String,
    /// The value that the metrics' `BucketName` dimension must have, if any.
    pub bucket_name: Option<String>,
    /// Where the page starts: the token that the page before it named.
    pub next_token: Option<String>,
}

/// The model of a [`ListMetricsRequest`].
pub struct ListMetricsRequestModel {
    pub namespace: Seq<char>,
    pub metric_name: Seq<char>,
    pub bucket_name: Option<Seq<char>>,
    pub next_token: Option<Seq<char>>,
}

impl DeepView for ListMetricsRequest {
    type V = ListMetricsRequestModel;

    open spec fn deep_view(&self) -> ListMetricsRequestModel {
        ListMetricsRequestModel {
            namespace: self.namespace@,
            metric_name: self.metric_name@,
            bucket_name: chars_of(self.bucket_name),
            next_token: chars_of(self.next_token),
        }
    }
}

/// One page of the metric catalog.
#[derive(Debug, Clone, PartialEq, Eq)]
pub struct MetricsPage {
    /// The metrics on this page.
    pub metrics: Vec<Metric>,
    /// The token of the next page, where there is one.
    pub next_token: Option<String>,
}

/// A walk through the metric catalog: the metrics gathered so far.
#[derive(Debug)]
pub struct MetricsWalk {
    /// The metrics of the pages read, in the order they came.
    pub metrics: Vec<Metric>,
}

/// What a walk through the metric catalog does next.
#[derive(Debug)]
pub enum MetricsStep {
    /// Send the request and hand its response to the walk.
    Fetch(MetricsWalk, ListMetricsRequest),
    /// The catalog is read: these are its metrics.
    Done(Vec<Metric>),
    /// The walk has failed, and what it had gathered is dropped.
    Failed(Error),
}

/// The model of a [`MetricsStep`]: the metrics as a sequence, the request and
/// the error as their models.
pub enum MetricsStepModel {
    Fetch(Seq<Metric>, ListMetricsRequestModel),
    Done(Seq<Metric>),
    Failed(ErrorModel),
}

impl View for MetricsStep {
    type V = MetricsStepModel;

    open spec fn view(&self) -> MetricsStepModel {
        match self {
            MetricsStep::Fetch(walk, request) => MetricsStepModel::Fetch(
                walk.metrics@,
                request.deep_view(),
            ),
            MetricsStep::Done(metrics) => MetricsStepModel::Done(metrics@),
            MetricsStep::Failed(error) => MetricsStepModel::Failed(error.deep_view()),
        }
    }
}

/// A query for the statistics of one bucket in one storage class.
#[derive(Debug, Clone, PartialEq, Eq)]
pub struct StatisticsQuery {
    /// The namespace of the metric.
    pub namespace: String,
    /// The name of the metric.
    pub metric_name: String,
    /// The value of the `BucketName` dimension.
    pub bucket_name: String,
    /// The value of the `StorageType` dimension.
    pub storage_type: String,
    /// The start of the window, in seconds since the Unix epoch.
    pub start_time: i64,
    /// The end of the window, in seconds since the Unix epoch.
    pub end_time: i64,
    /// The seconds that each sample covers.
    pub period: i32,
    /// The statistic asked for.
    pub statistic: String,
    /// The unit asked for.
    pub unit: String,
}

/// The model of a [`StatisticsQuery`].
pub struct StatisticsQueryModel {
    pub namespace: Seq<char>,
    pub metric_name: Seq<char>,
    pub bucket_name: Seq<char>,
    pub storage_type: Seq<char>,
    pub start_time: int,
    pub end_time: int,
    pub period: int,
    pub statistic: Seq<char>,
    pub unit: Seq<char>,
}

impl DeepView for StatisticsQuery {
    type V = StatisticsQueryModel;

    open spec fn deep_view(&self) -> StatisticsQueryModel {
        StatisticsQueryModel {
            namespace: self.namespace@,
            metric_name: self.metric_name@,
            bucket_name: self.bucket_name@,
            storage_type: self.storage_type@,
            start_time: self.start_time as int,
            end_time: self.end_time as int,
            period: self.period as int,
            statistic: self.statistic@,
            unit: self.unit@,
        }
    }
}

/// The start of the day that ends at `now`, held at the earliest moment
/// that can be written.
pub open spec fn day_before(now: int) -> int {
    if now - ONE_DAY < i64::MIN {
        i64::MIN as int
    } else {
        now - ONE_DAY
    }
}

/// The query for the average size in bytes of `bucket` in `storage_type`,
/// over the day that ends at `now`, as one sample.
pub open spec fn query_for(bucket: Seq<char>, storage_type: Seq<char>, now: int)
    -> StatisticsQueryModel {
    StatisticsQueryModel {
        namespace: "AWS/S3"@,
        metric_name: "BucketSizeBytes"@,
        bucket_name: bucket,
        storage_type,
        start_time: day_before(now),
        end_time: now,
        period: ONE_DAY as int,
        statistic: "Average"@,
        unit: "Bytes"@,
    }
}

/// The storage classes that `bucket` was found with.
pub open spec fn classes_of(bucket: Bucket) -> Seq<Seq<char>> {
    match bucket.storage_types {
        Some(classes) => classes.deep_view(),
        None => Seq::empty(),
    }
}

impl Client {
    /// The request for the page of the catalog that starts at `token`: the
    /// size metrics of S3, of the chosen bucket where one was chosen.
    pub open spec fn metrics_request(&self, token: Option<Seq<char>>) -> ListMetricsRequestModel {
        ListMetricsRequestModel {
            namespace: "AWS/S3"@,
            metric_name: "BucketSizeBytes"@,
            bucket_name: chars_of(self.bucket_name),
            next_token: token,
        }
    }

    /// What a walk that has gathered `gathered` does with `response`. A
    /// request that failed fails the walk with the transport's error. A
    /// page's metrics are added to those gathered, few or none as they may
    /// be; the walk goes on while a page names a next token, and is done
    /// with the first page that names none.
    pub open spec fn metrics_stepped(
        &self,
        gathered: Seq<Metric>,
        response: Result<MetricsPage, String>,
    ) -> MetricsStepModel {
        match response {
            Err(text) => MetricsStepModel::Failed(ErrorModel::Transport(text@)),
            Ok(page) => match page.next_token {
                Some(token) => MetricsStepModel::Fetch(
                    gathered + page.metrics@,
                    self.metrics_request(Some(token@)),
                ),
                None => MetricsStepModel::Done(gathered + page.metrics@),
            },
        }
    }

    /// A client for the given settings.
    pub fn new(config: ClientConfig) -> (client: Client)
        ensures
            client.bucket_name == config.bucket_name,
    {
        Client { bucket_name: config.bucket_name }
    }

    /// The request for one page of the catalog.
    fn request(&self, next_token: Option<String>) -> (request: ListMetricsRequest)
        ensures
            request.deep_view() == self.metrics_request(chars_of(next_token)),
    {
        ListMetricsRequest {
            namespace: "AWS/S3".to_owned(),
            metric_name: "BucketSizeBytes".to_owned(),
            bucket_name: copy_of(&self.bucket_name),
            next_token,
        }
    }

    /// Starts a walk through the metric catalog: nothing is gathered, and
    /// the first page is asked for without a token.
    pub fn list_metrics(&self) -> (start: (MetricsWalk, ListMetricsRequest))
        ensures
            start.0.metrics@.len() == 0,
            start.1.deep_view() == self.metrics_request(None),
    {
        (MetricsWalk { metrics: Vec::new() }, self.request(None))
    }

    /// Takes the response to the request that `walk` made last, and says
    /// what the walk does next.
    pub fn more_metrics(&self, walk: MetricsWalk, response: Result<MetricsPage, String>) -> (step:
        MetricsStep)
        ensures
            step@ == self.metrics_stepped(walk.metrics@, response),
    {
        match response {
            Err(text) => MetricsStep::Failed(Error::Transport(text)),
            Ok(page) => {
                let mut metrics = walk.metrics;
                let mut found = page.metrics;
                metrics.append(&mut found);
                match page.next_token {
                    Some(token) => {
                        let request = self.request(Some(token));
                        MetricsStep::Fetch(MetricsWalk { metrics }, request)
                    },
                    None => MetricsStep::Done(metrics),
                }
            },
        }
    }

    /// The queries that size `bucket`: one for each storage class it was
    /// found with, in their order, each over the day that ends at `now`.
    pub fn get_metric_statistics(&self, bucket: &Bucket, now: i64) -> (queries: Vec<
        StatisticsQuery,
    >)
        ensures
            queries.deep_view() == classes_of(*bucket).map_values(
                |class: Seq<char>| query_for(bucket.name@, class, now as int),
            ),
    {
        let ghost wanted = classes_of(*bucket).map_values(
            |class: Seq<char>| query_for(bucket.name@, class, now as int),
        );
        let mut queries: Vec<StatisticsQuery> = Vec::new();
        let start_time: i64 = if now < -0x8000_0000_0000_0000i64 + 86_400 {
            -0x8000_0000_0000_0000i64
        } else {
            now - 86_400
        };
        match &bucket.storage_types {
            None => {
                proof {
                    assert(queries.deep_view() =~= wanted);
                }
            },
            Some(classes) => {
                let mut at: usize = 0;
                while at < classes.len()
                    invariant
                        at <= classes.len(),
                        bucket.storage_types == Some(*classes),
                        start_time == day_before(now as int),
                        wanted == classes_of(*bucket).map_values(
                            |class: Seq<char>| query_for(bucket.name@, class, now as int),
                        ),
                        queries.deep_view() =~= wanted.take(at as int),
                    decreases classes.len() - at,
                {
                    let ghost before = queries.deep_view();
                    let query = StatisticsQuery {
                        namespace: "AWS/S3".to_owned(),
                        metric_name: "BucketSizeBytes".to_owned(),
                        bucket_name: bucket.name.clone(),
                        storage_type: classes[at].clone(),
                        start_time,
                        end_time: now,
                        period: ONE_DAY,
                        statistic: "Average".to_owned(),
                        unit: "Bytes".to_owned(),
                    };
                    proof {
                        assert(classes.deep_view()[at as int] == classes@[at as int]@);
                        assert(query.deep_view() == wanted[at as int]);
                    }
                    queries.push(query);
                    proof {
                        assert(queries.deep_view() =~= before.push(wanted[at as int]));
                    }
                    at = at + 1;
                }
                proof {
                    assert(wanted.take(at as int) =~= wanted);
                }
            },
        }
        queries
    }
}

} // verus!
