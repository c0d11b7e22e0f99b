//! The run report: per-step outcomes gathered into one document.
//!
//! The report document combines run metadata — source file, platform label,
//! timestamp, elapsed time, steps executed — with the per-step detail rows
//! the executor produced.  Rendering is exact but for the timestamp, which
//! the wall clock supplies; writing the document to disk is the caller's
//! business.

use vstd::prelude::*;

use crate::executor::ReportRow;
use crate::strutil::{
    spec_two_digit_string, spec_u64_string, two_digit_string, u64_to_string,
};

verus! {

/// A run report: metadata plus the rendered detail rows.
#[derive(Debug)]
pub struct TestReport {
    pub test_file: String,
    pub platform: String,
    pub steps_executed: usize,
    pub execution_millis: u64,
    pub details: String,
}

/// Relies on chrono's `Local::now` and its formatter: the current wall-clock
/// time rendered as `YYYY-MM-DD HH:MM:SS`.  The result depends on the clock,
/// so nothing is promised of it.
#[verifier::external_body]
fn now_timestamp() -> String {
    chrono::Local::now().format("%Y-%m-%d %H:%M:%S").to_string()
}

/// The report document for the given metadata, details text and timestamp.
pub open spec fn spec_report_markdown(
    test_file: Seq<char>,
    platform: Seq<char>,
    steps_executed: nat,
    execution_millis: nat,
    details: Seq<char>,
    ts: Seq<char>,
) -> Seq<char> {
    "# Test suite report\n\n![LOGO](./assets/logo.webp)\n\nTest file: "@ + test_file
        + "\n\nPlatform: "@ + platform + "\n\n🕒 Date and time: "@ + ts
        + "\n\n✅ Steps executed: "@ + spec_u64_string(steps_executed) + " successfully\n\n⏱️ Total execution time: "@
        + spec_u64_string(execution_millis / 1000) + "."@ + spec_two_digit_string(
        ((execution_millis % 1000) / 10) as nat,
    ) + " seconds\n\n## Test Details\n\n"@ + details + "\n"@
}

impl TestReport {
    /// Builds an empty report for a run of the given flow file and platform.
    pub fn new(test_file: String, platform: String) -> (r: TestReport)
        ensures
            r.test_file == test_file,
            r.platform == platform,
            r.steps_executed == 0,
            r.execution_millis == 0,
            r.details@ == Seq::<char>::empty(),
    {
        TestReport {
            test_file,
            platform,
            steps_executed: 0,
            execution_millis: 0,
            details: String::new(),
        }
    }

    /// Renders the report document, timestamped with the current wall-clock
    /// time.
    pub fn generate_markdown(&self) -> (r: String)
        ensures
            exists|ts: Seq<char>|
                r@ == spec_report_markdown(
                    self.test_file@,
                    self.platform@,
                    self.steps_executed as nat,
                    self.execution_millis as nat,
                    self.details@,
                    ts,
                ),
    {
        let ts = now_timestamp();
        self.generate_markdown_at(ts.as_str())
    }

    /// Renders the report document with the given timestamp text.
    pub fn generate_markdown_at(&self, ts: &str) -> (r: String)
        ensures
            r@ == spec_report_markdown(
                self.test_file@,
                self.platform@,
                self.steps_executed as nat,
                self.execution_millis as nat,
                self.details@,
                ts@,
            ),
    {
        let mut s = String::from_str("# Test suite report\n\n![LOGO](./assets/logo.webp)\n\nTest file: ");
        s.append(self.test_file.as_str());
        s.append("\n\nPlatform: ");
        s.append(self.platform.as_str());
        s.append("\n\n🕒 Date and time: ");
        s.append(ts);
        s.append("\n\n✅ Steps executed: ");
        s.append(u64_to_string(self.steps_executed as u64).as_str());
        s.append(" successfully\n\n⏱️ Total execution time: ");
        s.append(u64_to_string(self.execution_millis / 1000).as_str());
        s.append(".");
        s.append(two_digit_string((self.execution_millis % 1000) / 10).as_str());
        s.append(" seconds\n\n## Test Details\n\n");
        s.append(self.details.as_str());
        s.append("\n");
        proof {
            assert(s@ =~= spec_report_markdown(
                self.test_file@,
                self.platform@,
                self.steps_executed as nat,
                self.execution_millis as nat,
                self.details@,
                ts@,
            ));
        }
        s
    }
}

/// The detail-table text for a sequence of report rows, after the table
/// header: one line per row.
pub open spec fn spec_rows_markdown(rows: Seq<ReportRow>) -> Seq<char>
    decreases rows.len(),
{
    if rows.len() == 0 {
        Seq::empty()
    } else {
        spec_rows_markdown(rows.drop_last()) + "| "@ + rows.last().description@ + " | ✅ | "@
            + rows.last().observation@ + " |\n"@
    }
}

/// The full detail table: header line, separator, one line per row.
pub open spec fn spec_details_markdown(rows: Seq<ReportRow>) -> Seq<char> {
    "| Description | State | Observation |\n|----|----|----|\n"@ + spec_rows_markdown(rows)
}

/// Renders the executor's report rows as the detail table.
pub fn render_details(rows: &Vec<ReportRow>) -> (r: String)
    ensures
        r@ == spec_details_markdown(rows@),
{
    let mut s = String::from_str("| Description | State | Observation |\n|----|----|----|\n");
    let n = rows.len();
    let mut i: usize = 0;
    while i < n
        invariant
            i <= n,
            n == rows@.len(),
            s@ == "| Description | State | Observation |\n|----|----|----|\n"@
                + spec_rows_markdown(rows@.subrange(0, i as int)),
        decreases n - i,
    {
        s.append("| ");
        s.append(rows[i].description.as_str());
        s.append(" | ✅ | ");
        s.append(rows[i].observation.as_str());
        s.append(" |\n");
        proof {
            let pre = rows@.subrange(0, i + 1);
            assert(pre.drop_last() =~= rows@.subrange(0, i as int));
            assert(pre.last() == rows@[i as int]);
        }
        i = i + 1;
    }
    proof {
        assert(rows@.subrange(0, n as int) =~= rows@);
    }
    s
}

} // verus!
