//! The text of what a run reports.
//!
//! Durations are shown with a fixed number of digits after the point,
//! rounded to the nearest unit of the last digit, halves upwards.

use vstd::prelude::*;
use vstd::string::StringExecFns;

use crate::executor::ResponseHeader;
use crate::stats::{summary_of, LatencySummary, StatsView, Summary};
use crate::text::{
    append_decimal, append_fixed, decimal, div_rounded, fixed, lines_of, rounded_div,
};

verus! {

/// Nanoseconds in a millisecond.
pub const NANOS_PER_MILLI: u64 = 1_000_000;

/// Nanoseconds in a microsecond.
pub const NANOS_PER_MICRO: u64 = 1_000;

/// Nanoseconds in a tenth of a second.
pub const NANOS_PER_TENTH: u64 = 100_000_000;

/// Hundredths of a request per second in one request per nanosecond.
pub const HUNDREDTHS_PER_NANO: u64 = 100_000_000_000;

/// `nanos` in seconds, with three digits after the point.
pub open spec fn seconds_text(nanos: u64) -> Seq<char> {
    fixed(rounded_div(nanos as nat, NANOS_PER_MILLI as nat), 3) + "s"@
}

/// `nanos` in seconds, with one digit after the point.
pub open spec fn tenths_text(nanos: u64) -> Seq<char> {
    fixed(rounded_div(nanos as nat, NANOS_PER_TENTH as nat), 1) + "s"@
}

/// `nanos` in milliseconds, with three digits after the point.
pub open spec fn millis_text(nanos: u64) -> Seq<char> {
    fixed(rounded_div(nanos as nat, NANOS_PER_MICRO as nat), 3) + "ms"@
}

/// Requests per second in hundredths, rounded: all attempted requests, the
/// failed ones too, over the duration of the run. A run that took no time
/// has no throughput.
pub open spec fn throughput_of(total_requests: u64, total_duration: u64) -> Option<nat> {
    if total_duration == 0 {
        None
    } else {
        Some(rounded_div((total_requests * HUNDREDTHS_PER_NANO) as nat, total_duration as nat))
    }
}

/// Requests per second with two digits after the point. For a run that took
/// no time: `inf` where it made requests, `NaN` where it made none.
pub open spec fn throughput_text(total_requests: u64, total_duration: u64) -> Seq<char> {
    match throughput_of(total_requests, total_duration) {
        Some(hundredths) => fixed(hundredths, 2),
        None => if total_requests == 0 {
            "NaN"@
        } else {
            "inf"@
        },
    }
}

/// The lines on the run as a whole.
pub open spec fn result_lines(summary: Summary) -> Seq<Seq<char>> {
    seq![
        ""@,
        "=== Benchmark Results ==="@,
        "Total Duration: "@ + seconds_text(summary.total_duration),
        "Total Requests: "@ + decimal(summary.total_requests as nat),
        "Successful: "@ + decimal(summary.successful_requests as nat),
        "Failed: "@ + decimal(summary.failed_requests as nat),
        "Requests/sec: "@ + throughput_text(summary.total_requests, summary.total_duration),
    ]
}

/// The lines on the latencies of the successful requests.
pub open spec fn latency_lines(latency: LatencySummary) -> Seq<Seq<char>> {
    seq![
        ""@,
        "=== Latency Statistics ==="@,
        "Min: "@ + millis_text(latency.min),
        "Max: "@ + millis_text(latency.max),
        "Avg: "@ + millis_text(latency.avg),
        "P50: "@ + millis_text(latency.p50),
        "P90: "@ + millis_text(latency.p90),
        "P95: "@ + millis_text(latency.p95),
        "P99: "@ + millis_text(latency.p99),
    ]
}

/// The lines of the summary of a run: those on the run as a whole, and
/// those on the latencies only where a request succeeded.
pub open spec fn summary_lines(summary: Summary) -> Seq<Seq<char>> {
    match summary.latency {
        Some(latency) => result_lines(summary) + latency_lines(latency),
        None => result_lines(summary),
    }
}

/// The progress line after `total_requests` attempts, `elapsed` nanoseconds
/// into the run.
pub open spec fn progress_text(total_requests: u64, elapsed: u64) -> Seq<char> {
    "Requests: "@ + decimal(total_requests as nat) + " | Elapsed: "@ + tenths_text(elapsed)
}

/// The line on a single request that succeeded after `latency` nanoseconds:
/// the latency in seconds, and in whole milliseconds.
pub open spec fn completion_text(latency: u64) -> Seq<char> {
    "Request completed in: "@ + seconds_text(latency) + " ("@ + decimal(
        (latency / NANOS_PER_MILLI) as nat,
    ) + "ms)"@
}

/// The line that shows one header of a response.
pub open spec fn header_text(header: ResponseHeader) -> Seq<char> {
    "  "@ + header.name@ + ": "@ + header.spec_shown_value()
}

impl Summary {
    /// Requests per second in hundredths: see `throughput_of`.
    pub fn throughput(&self) -> (hundredths: Option<u128>)
        ensures
            hundredths is Some <==> self.total_duration > 0,
            hundredths matches Some(h) ==> throughput_of(self.total_requests, self.total_duration)
                == Some(h as nat),
    {
        if self.total_duration == 0 {
            None
        } else {
            assert(self.total_requests * HUNDREDTHS_PER_NANO <= u64::MAX * HUNDREDTHS_PER_NANO)
                by (nonlinear_arith)
                requires
                    self.total_requests <= u64::MAX,
                    HUNDREDTHS_PER_NANO >= 0,
            ;
            Some(
                div_rounded(
                    self.total_requests as u128 * HUNDREDTHS_PER_NANO as u128,
                    self.total_duration as u128,
                ),
            )
        }
    }
}

/// Appends `value` and `unit` to `out`, the value counted in `per`
/// nanoseconds with `decimals` digits after the point.
fn append_duration(out: &mut String, nanos: u64, per: u64, decimals: u8, unit: &str)
    requires
        per > 0,
        decimals <= 3,
    ensures
        final(out)@ == old(out)@ + fixed(rounded_div(nanos as nat, per as nat), decimals as nat)
            + unit@,
{
    append_fixed(out, div_rounded(nanos as u128, per as u128), decimals);
    out.append(unit);
}

/// A line made of a label and a count.
fn count_line(label: &str, count: u64) -> (line: String)
    ensures
        line@ == label@ + decimal(count as nat),
{
    let mut line = String::from_str(label);
    append_decimal(&mut line, count as u128);
    line
}

/// A line made of a label and a duration in milliseconds.
fn millis_line(label: &str, nanos: u64) -> (line: String)
    ensures
        line@ == label@ + millis_text(nanos),
{
    let mut line = String::from_str(label);
    append_duration(&mut line, nanos, NANOS_PER_MICRO, 3, "ms");
    assert(line@ =~= label@ + millis_text(nanos));
    line
}

/// The line on the throughput of a run.
fn throughput_line(summary: &Summary) -> (line: String)
    ensures
        line@ == "Requests/sec: "@ + throughput_text(
            summary.total_requests,
            summary.total_duration,
        ),
{
    let mut line = String::from_str("Requests/sec: ");
    match summary.throughput() {
        Some(hundredths) => {
            append_fixed(&mut line, hundredths, 2);
        },
        None => {
            if summary.total_requests == 0 {
                line.append("NaN");
            } else {
                line.append("inf");
            }
        },
    }
    line
}

/// The lines of the summary of a run.
pub fn render_summary(summary: &Summary) -> (lines: Vec<String>)
    ensures
        lines_of(lines@) == summary_lines(*summary),
{
    let mut lines: Vec<String> = Vec::new();
    lines.push(String::from_str(""));
    lines.push(String::from_str("=== Benchmark Results ==="));
    let mut duration = String::from_str("Total Duration: ");
    append_duration(&mut duration, summary.total_duration, NANOS_PER_MILLI, 3, "s");
    assert(duration@ =~= "Total Duration: "@ + seconds_text(summary.total_duration));
    lines.push(duration);
    lines.push(count_line("Total Requests: ", summary.total_requests));
    lines.push(count_line("Successful: ", summary.successful_requests));
    lines.push(count_line("Failed: ", summary.failed_requests));
    lines.push(throughput_line(summary));
    assert(lines_of(lines@) =~= result_lines(*summary));
    match summary.latency {
        Some(latency) => {
            let ghost before = lines@;
            lines.push(String::from_str(""));
            lines.push(String::from_str("=== Latency Statistics ==="));
            lines.push(millis_line("Min: ", latency.min));
            lines.push(millis_line("Max: ", latency.max));
            lines.push(millis_line("Avg: ", latency.avg));
            lines.push(millis_line("P50: ", latency.p50));
            lines.push(millis_line("P90: ", latency.p90));
            lines.push(millis_line("P95: ", latency.p95));
            lines.push(millis_line("P99: ", latency.p99));
            assert(lines_of(lines@) =~= lines_of(before) + latency_lines(latency));
        },
        None => {},
    }
    lines
}

/// The progress line of a run.
pub fn render_progress(total_requests: u64, elapsed: u64) -> (line: String)
    ensures
        line@ == progress_text(total_requests, elapsed),
{
    let mut line = count_line("Requests: ", total_requests);
    line.append(" | Elapsed: ");
    append_duration(&mut line, elapsed, NANOS_PER_TENTH, 1, "s");
    assert(line@ =~= progress_text(total_requests, elapsed));
    line
}

/// The line on a single request that succeeded.
pub fn render_completion(latency: u64) -> (line: String)
    ensures
        line@ == completion_text(latency),
{
    let mut line = String::from_str("Request completed in: ");
    append_duration(&mut line, latency, NANOS_PER_MILLI, 3, "s");
    line.append(" (");
    append_decimal(&mut line, (latency / NANOS_PER_MILLI) as u128);
    line.append("ms)");
    assert(line@ =~= completion_text(latency));
    line
}

/// The line that shows one header of a response.
pub fn render_header(header: &ResponseHeader) -> (line: String)
    ensures
        line@ == header_text(*header),
{
    let mut line = String::from_str("  ");
    line.append(header.name.as_str());
    line.append(": ");
    line.append(header.shown_value().as_str());
    line
}

/// The summary of a run without a successful request has no line on
/// latencies: it ends with the line on the throughput.
pub proof fn lemma_no_latency_lines_without_success(summary: Summary)
    requires
        summary.latency is None,
    ensures
        summary_lines(summary) == result_lines(summary),
        summary_lines(summary).len() == 7,
{
}

/// The summary of a run whose requests all failed shows the counts and the
/// throughput, and nothing on latencies.
pub proof fn lemma_failures_only_summary(view: StatsView)
    requires
        view.latencies.len() == 0,
    ensures
        summary_lines(summary_of(view)) == result_lines(summary_of(view)),
{
}

/// The summary of a run with a successful request has the lines on the run
/// as a whole and, after them, those on the latencies.
pub proof fn lemma_latency_lines_follow(summary: Summary)
    requires
        summary.latency is Some,
    ensures
        summary_lines(summary).len() == 16,
        summary_lines(summary).take(7) == result_lines(summary),
        summary_lines(summary).skip(7) == latency_lines(summary.latency->0),
{
    assert(summary_lines(summary).take(7) =~= result_lines(summary));
    assert(summary_lines(summary).skip(7) =~= latency_lines(summary.latency->0));
}

} // verus!
