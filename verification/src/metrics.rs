//! The request counter, and the export of the metrics.
//!
//! The counter that is exported is the one of `prometheus`. This library
//! holds the only handle that writes to it, and keeps its own count of the
//! requests beside it; the two are equal at all times.

use vstd::prelude::*;
use vstd::string::*;
use crate::outcome::{failure_reply, HttpReply, ReplyModel};

verus! {

/// The request counter of `prometheus`. The registry that exports it reads
/// it; nothing but this handle writes to it. Opaque: its value is spoken of
/// as `counter_value`.
#[verifier::external_body]
pub struct RequestCounter {
    inner: prometheus::Counter,
}

/// The value of a counter: what `prometheus::Counter::get` would give, and
/// what the export shows for it.
pub uninterp spec fn counter_value(counter: RequestCounter) -> nat;

/// Whether `prometheus::Counter::new` accepts a name and a help text.
pub uninterp spec fn counter_accepted(name: Seq<char>, help: Seq<char>) -> bool;

/// The highest value that a counter reaches by steps of one. A counter
/// counts in double precision, in which this number plus one is this number
/// again.
pub const COUNTER_LIMIT: u64 = 9007199254740992;

/// One named family of metrics, as `prometheus` gathers it. Opaque.
#[verifier::external_type_specification]
#[verifier::external_body]
pub struct ExMetricFamily(prometheus::proto::MetricFamily);

/// The error of `prometheus`. Opaque: only its presence is used.
#[verifier::external_type_specification]
#[verifier::external_body]
pub struct ExMetricsError(prometheus::Error);

/// The kind of a metric family.
#[derive(Clone, Copy, Debug, PartialEq, Eq)]
pub enum MetricKind {
    Counter,
    Gauge,
    Summary,
    Untyped,
    Histogram,
}

/// The kind that `prometheus` records in a metric family.
pub uninterp spec fn metric_kind(family: prometheus::proto::MetricFamily) -> MetricKind;

/// The text that the text encoder of `prometheus` writes for a sequence of
/// metric families, `None` where it reports an error.
pub uninterp spec fn exposition_text(families: Seq<prometheus::proto::MetricFamily>) -> Option<
    Seq<char>,
>;

/// Calls `prometheus::Counter::new`. Trusted: whether it makes a counter
/// depends on the name and the help text alone, and a counter that it makes
/// stands at zero.
#[verifier::external_body]
fn create_counter(name: &str, help: &str) -> (r: Result<RequestCounter, prometheus::Error>)
    ensures
        r is Ok <==> counter_accepted(name@, help@),
        r matches Ok(counter) ==> counter_value(counter) == 0,
{
    match prometheus::Counter::new(name, help) {
        Ok(inner) => Ok(RequestCounter { inner }),
        Err(error) => Err(error),
    }
}

/// Calls `prometheus::register` with a handle on the counter, which adds it
/// to the default registry or reports why it cannot. Trusted, and without a
/// contract: the result depends on what the process registered before.
#[verifier::external_body]
fn register_counter(counter: &RequestCounter) -> Result<(), prometheus::Error> {
    prometheus::register(Box::new(counter.inner.clone()))
}

/// Calls `prometheus::Counter::inc`, which adds one to the counter.
/// Trusted: below the limit the sum is exact, and the handle is held
/// exclusively, so the value after the call is the value before plus one.
#[verifier::external_body]
fn increment(counter: &mut RequestCounter)
    requires
        counter_value(*old(counter)) < COUNTER_LIMIT,
    ensures
        counter_value(*final(counter)) == counter_value(*old(counter)) + 1,
    no_unwind
{
    counter.inner.inc()
}

/// Calls `prometheus::gather`, which collects the metric families of the
/// default registry as they stand at the moment of the call. Trusted, and
/// without a contract: the result depends on the state of the process.
#[verifier::external_body]
fn gather_families() -> Vec<prometheus::proto::MetricFamily> {
    prometheus::gather()
}

/// Calls `prometheus::proto::MetricFamily::get_field_type`. Trusted: the
/// result is the kind that `metric_kind` names, variant for variant.
#[verifier::external_body]
fn kind_of(family: &prometheus::proto::MetricFamily) -> (kind: MetricKind)
    ensures
        kind == metric_kind(*family),
{
    match family.get_field_type() {
        prometheus::proto::MetricType::COUNTER => MetricKind::Counter,
        prometheus::proto::MetricType::GAUGE => MetricKind::Gauge,
        prometheus::proto::MetricType::SUMMARY => MetricKind::Summary,
        prometheus::proto::MetricType::UNTYPED => MetricKind::Untyped,
        prometheus::proto::MetricType::HISTOGRAM => MetricKind::Histogram,
    }
}

/// Calls `prometheus::TextEncoder::encode_to_string`. Trusted: the result
/// depends on the families alone, and is `Ok` with the text exactly where
/// `exposition_text` has one. The encoder has no text for an untyped family
/// and stops the program on one, so none may be handed to it.
#[verifier::external_body]
fn encode_families(families: &Vec<prometheus::proto::MetricFamily>) -> (r: Result<
    String,
    prometheus::Error,
>)
    requires
        encodable(families@),
    ensures
        r is Ok <==> exposition_text(families@) is Some,
        r matches Ok(text) ==> exposition_text(families@) == Some(text@),
{
    prometheus::TextEncoder::new().encode_to_string(families)
}

/// The count after one more request: one more, and no further once the
/// counter's limit is reached.
pub open spec fn counted(total: u64) -> u64 {
    if total < COUNTER_LIMIT {
        (total + 1) as u64
    } else {
        total
    }
}

/// The name under which the request counter is exported.
pub open spec fn counter_name() -> Seq<char> {
    "requests_total"@
}

/// The help text of the request counter.
pub open spec fn counter_help() -> Seq<char> {
    "Total number of requests made."@
}

/// Adds one to a count and to the counter that stands for it, below the
/// limit; at the limit both stay.
fn count_one(total: &mut u64, counter: &mut RequestCounter)
    requires
        *old(total) == counter_value(*old(counter)),
    ensures
        *final(total) == counted(*old(total)),
        *final(total) == counter_value(*final(counter)),
    no_unwind
{
    if *total < COUNTER_LIMIT {
        increment(counter);
        *total = *total + 1;
    }
}

/// The content type of the metrics export.
pub open spec fn exposition_content_type() -> Seq<char> {
    "text/plain; version=0.0.4"@
}

/// The reply that carries an export, given the encoded text (`None` where
/// the encoder failed): the text as plain text, or a bare server failure.
pub open spec fn export_reply(encoded: Option<Seq<char>>) -> ReplyModel {
    match encoded {
        Some(text) => ReplyModel {
            status: 200,
            content_type: Some(exposition_content_type()),
            body: Some(text),
        },
        None => failure_reply(),
    }
}

/// Whether the encoder can be asked for a sequence of families: none of
/// them is untyped.
pub open spec fn encodable(families: Seq<prometheus::proto::MetricFamily>) -> bool {
    forall|i: int| 0 <= i < families.len() ==> #[trigger] metric_kind(families[i]) != MetricKind::Untyped
}

/// The reply that carries the export of a snapshot: the encoder's text, or
/// a bare server failure where the encoder fails or cannot be asked.
pub open spec fn export_of(families: Seq<prometheus::proto::MetricFamily>) -> ReplyModel {
    if encodable(families) {
        export_reply(exposition_text(families))
    } else {
        failure_reply()
    }
}

/// Why the metrics could not be set up.
#[derive(Clone, Copy, Debug, PartialEq, Eq)]
pub enum MetricsError {
    /// The counter could not be made.
    Create,
    /// The counter could not be added to the registry.
    Register,
}

/// The instrumentation of the service: the exported request counter, and
/// the number of requests recorded. The count only grows, and the counter
/// always stands at the count.
pub struct Metrics {
    requests_total: u64,
    counter: RequestCounter,
}

impl Metrics {
    #[verifier::type_invariant]
    spec fn counter_stands_at_count(self) -> bool {
        self.requests_total == counter_value(self.counter)
    }

    /// The number of requests recorded so far.
    pub closed spec fn total(&self) -> u64 {
        self.requests_total
    }

    /// The value of the exported counter.
    pub closed spec fn exported(&self) -> nat {
        counter_value(self.counter)
    }

    /// Metrics around a counter that was just made and stands at zero, or
    /// the error where none was made: no request recorded.
    pub fn from_created(created: Result<RequestCounter, prometheus::Error>) -> (result: Result<
        Metrics,
        MetricsError,
    >)
        requires
            created matches Ok(counter) ==> counter_value(counter) == 0,
        ensures
            created is Ok ==> result is Ok && result->Ok_0.total() == 0 && result->Ok_0.exported()
                == 0,
            created is Err ==> result == Err::<Metrics, MetricsError>(MetricsError::Create),
    {
        match created {
            Ok(counter) => Ok(Metrics { requests_total: 0, counter }),
            Err(_) => Err(MetricsError::Create),
        }
    }

    /// Fresh metrics with a counter named `requests_total` that no registry
    /// knows yet: no request recorded, and the counter at zero. Fails only
    /// where `prometheus` does not accept the counter's name and help text.
    pub fn new() -> (result: Result<Metrics, MetricsError>)
        ensures
            result is Ok <==> counter_accepted(counter_name(), counter_help()),
            match result {
                Ok(metrics) => metrics.total() == 0 && metrics.exported() == 0,
                Err(error) => error == MetricsError::Create,
            },
    {
        Metrics::from_created(create_counter("requests_total", "Total number of requests made."))
    }

    /// What a registration came to, as this library reports it.
    pub fn registration(registered: Result<(), prometheus::Error>) -> (result: Result<
        (),
        MetricsError,
    >)
        ensures
            registered is Ok <==> result is Ok,
            registered is Err ==> result == Err::<(), MetricsError>(MetricsError::Register),
    {
        match registered {
            Ok(_) => Ok(()),
            Err(_) => Err(MetricsError::Register),
        }
    }

    /// Adds the counter to the default registry, so that the export shows
    /// it. Fails where the registry refuses, as it does for a name that it
    /// already holds. The count is untouched either way.
    pub fn register(&self) -> (result: Result<(), MetricsError>)
        ensures
            result is Err ==> result == Err::<(), MetricsError>(MetricsError::Register),
    {
        Metrics::registration(register_counter(&self.counter))
    }

    /// The number of requests recorded so far.
    pub fn requests_total(&self) -> (total: u64)
        ensures
            total == self.total(),
    {
        self.requests_total
    }

    /// Records one request: adds one to the count and to the exported
    /// counter, which stands at the count before and after.
    pub fn record_request(&mut self)
        ensures
            final(self).total() == counted(old(self).total()),
            final(self).exported() == final(self).total(),
            old(self).exported() == old(self).total(),
    {
        proof {
            use_type_invariant(&*self);
        }
        count_one(&mut self.requests_total, &mut self.counter);
    }

    /// The reply that carries an export whose text is given, or a bare
    /// server failure where there is none.
    pub fn export_reply(encoded: Option<String>) -> (reply: HttpReply)
        ensures
            reply@ == export_reply(
                match encoded {
                    Some(text) => Some(text@),
                    None => None,
                },
            ),
    {
        match encoded {
            Some(text) => HttpReply {
                status: 200,
                content_type: Some(String::from_str("text/plain; version=0.0.4")),
                body: Some(text),
            },
            None => HttpReply::failure(),
        }
    }

    /// Whether the encoder can be asked for these families.
    pub fn all_encodable(families: &Vec<prometheus::proto::MetricFamily>) -> (ok: bool)
        ensures
            ok == encodable(families@),
    {
        let mut i: usize = 0;
        while i < families.len()
            invariant
                i <= families@.len(),
                forall|k: int| 0 <= k < i ==> #[trigger] metric_kind(families@[k]) != MetricKind::Untyped,
            decreases families@.len() - i,
        {
            match kind_of(&families[i]) {
                MetricKind::Untyped => {
                    return false;
                },
                _ => {},
            }
            i = i + 1;
        }
        true
    }

    /// The reply that carries the export of a given snapshot of metric
    /// families, all of it encoded in one piece.
    pub fn export_families(families: &Vec<prometheus::proto::MetricFamily>) -> (reply: HttpReply)
        ensures
            reply@ == export_of(families@),
    {
        if Metrics::all_encodable(families) {
            match encode_families(families) {
                Ok(text) => Metrics::export_reply(Some(text)),
                Err(_) => Metrics::export_reply(None),
            }
        } else {
            HttpReply::failure()
        }
    }

    /// Exports every registered metric as it stands at the moment of the
    /// call: one snapshot is taken, and the reply is the export of that
    /// snapshot.
    pub fn export() -> (reply: HttpReply)
        ensures
            exists|families: Seq<prometheus::proto::MetricFamily>| reply@ == #[trigger] export_of(families),
    {
        let families = gather_families();
        Metrics::export_families(&families)
    }
}

} // verus!
