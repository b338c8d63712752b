//! The text exposition of a gauge, and the operations of
//! `prometheus_exporter_base` that write it.

use vstd::prelude::*;
use prometheus_exporter_base::{MetricType, PrometheusInstance, PrometheusMetric};

verus! {

/// `prometheus_exporter_base::PrometheusMetric`: a metric under
/// construction, which holds its name, its help, its type and the lines of
/// the samples appended so far.
#[verifier::external_type_specification]
#[verifier::external_body]
pub struct ExPrometheusMetric<'a>(prometheus_exporter_base::PrometheusMetric<'a>);

/// The decimal digit for a value below ten.
pub open spec fn digit(value: int) -> char {
    "0123456789"@[value]
}

/// The decimal digits of a natural number, without leading zeros.
pub open spec fn digits(value: nat) -> Seq<char>
    decreases value,
{
    if value < 10 {
        seq![digit(value as int)]
    } else {
        digits(value / 10).push(digit((value % 10) as int))
    }
}

/// An integer in decimal notation, with a minus sign when it is negative.
pub open spec fn decimal(value: int) -> Seq<char> {
    if value < 0 {
        seq!['-'] + digits((-value) as nat)
    } else {
        digits(value as nat)
    }
}

/// The two comment lines that open the exposition of a gauge.
pub open spec fn gauge_header(name: Seq<char>, help: Seq<char>) -> Seq<char> {
    "# HELP "@ + name + " "@ + help + "\n# TYPE "@ + name + " gauge\n"@
}

/// The line of one sample that carries a single label.
pub open spec fn instance_line(name: Seq<char>, label: Seq<char>, value: Seq<char>, number: int) -> Seq<
    char,
> {
    name + "{"@ + label + "=\""@ + value + "\"} "@ + decimal(number) + "\n"@
}

/// The text that `PrometheusMetric::render` gives for a metric.
pub uninterp spec fn rendering(metric: prometheus_exporter_base::PrometheusMetric<'_>) -> Seq<char>;

/// The name that a metric was built with.
pub uninterp spec fn metric_name(metric: prometheus_exporter_base::PrometheusMetric<'_>) -> Seq<char>;

/// The builder of `PrometheusMetric`, with name, help and the gauge type: a
/// metric without samples, which renders as its two header lines.
#[verifier::external_body]
pub(crate) fn new_gauge<'a>(name: &'a str, help: &'a str) -> (metric: PrometheusMetric<'a>)
    ensures
        metric_name(metric) == name@,
        rendering(metric) == gauge_header(name@, help@),
{
    PrometheusMetric::build().with_name(name).with_help(help).with_metric_type(MetricType::Gauge).build()
}

/// `PrometheusMetric::render_and_append_instance` with an instance of one
/// label and an integer value: the metric's text grows by one line, made of
/// the metric's name, the label in braces and the value in decimal.
#[verifier::external_body]
pub(crate) fn append_instance(metric: &mut PrometheusMetric<'_>, label: &str, value: &str, number: i64)
    ensures
        metric_name(*final(metric)) == metric_name(*old(metric)),
        rendering(*final(metric)) == rendering(*old(metric)) + instance_line(
            metric_name(*old(metric)),
            label@,
            value@,
            number as int,
        ),
{
    metric.render_and_append_instance(&PrometheusInstance::new().with_label(label, value).with_value(number));
}

/// `PrometheusMetric::render`: the header lines and then the sample lines in
/// the order in which they were appended.
#[verifier::external_body]
pub(crate) fn render(metric: &PrometheusMetric<'_>) -> (text: String)
    ensures
        text@ == rendering(*metric),
{
    metric.render()
}

} // verus!
