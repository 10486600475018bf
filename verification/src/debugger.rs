//! The scored debugging system: each entry compares an expected and an
//! actual outcome, derives a 0-100 alignment score with a ten-band
//! severity, and renders as a readable scroll. Writing entries to disk
//! is the caller's concern; this module only builds and formats them.
use vstd::prelude::*;

use crate::text::{dec_spec, split_ws_spec, u64_to_string};

verus! {

/// Diagnostic health in ten-point bands, from collapse to full
/// alignment.
#[derive(Debug, PartialEq, Eq, Structural, Clone, Copy)]
pub enum Severity {
    /// 0-9: collapse, irreparable failure.
    Fatal,
    /// 10-19: emergency systemic failure.
    Critical,
    /// 20-29: major logical break.
    Error,
    /// 30-39: recoverable issue.
    Fault,
    /// 40-49: minor vulnerability.
    Weakness,
    /// 50-59: unstable but functional.
    Instability,
    /// 60-69: reduced capacity.
    Degraded,
    /// 70-79: slight divergence.
    Drift,
    /// 80-89: almost aligned.
    Info,
    /// 90-100: full alignment.
    Pass,
}

/// What to do with a finding.
#[derive(Debug, PartialEq, Eq, Structural, Clone, Copy)]
pub enum DebugResponse {
    Ignore,
    Retry,
    Halt,
    Patch,
    Prompt,
}

/// A scored snapshot of one operation: what was attempted, what was
/// expected, what happened, and how well they align.
#[derive(Debug)]
pub struct DebugEntry {
    pub command: String,
    pub input: String,
    pub expected: String,
    pub actual: String,
    pub discrepancy: Option<String>,
    pub location: Option<String>,
    pub suggestions: Vec<String>,
    pub response: DebugResponse,
    pub score: u8,
    pub severity: Severity,
    pub timestamp: String,
}

/// Relies on `std::time::SystemTime::now`, `chrono::DateTime::from_timestamp`
/// and `DateTime::to_rfc3339`: yields the current moment as an RFC 3339
/// string, falling back to the epoch string when the clock reads before
/// the epoch or outside chrono's representable range (so no clock state
/// can abort the caller). The result depends on the clock, so nothing is
/// promised of it.
#[verifier::external_body]
fn now_rfc3339() -> String {
    let since_epoch = std::time::SystemTime::now().duration_since(std::time::UNIX_EPOCH);
    match since_epoch {
        Ok(elapsed) => {
            match chrono::DateTime::from_timestamp(elapsed.as_secs() as i64, elapsed.subsec_nanos())
            {
                Some(moment) => moment.to_rfc3339(),
                None => String::from("1970-01-01T00:00:00+00:00"),
            }
        },
        Err(_) => String::from("1970-01-01T00:00:00+00:00"),
    }
}

/// Positionwise word mismatches between two word lists, over the
/// shorter length.
pub open spec fn word_mismatches(e: Seq<Seq<char>>, a: Seq<Seq<char>>) -> int
    decreases e.len(),
{
    if e.len() == 0 || a.len() == 0 {
        0
    } else {
        (if e[0] != a[0] {
            1int
        } else {
            0int
        }) + word_mismatches(e.drop_first(), a.drop_first())
    }
}

/// The alignment score: 100 for an exact match, else 100 less ten per
/// mismatched word, saturating at zero after a byte-sized wrap of the
/// penalty.
pub open spec fn score_spec(expected: Seq<char>, actual: Seq<char>) -> int {
    if expected == actual {
        100
    } else {
        let d = (word_mismatches(split_ws_spec(expected), split_ws_spec(actual)) * 10) % 256;
        if d <= 100 {
            100 - d
        } else {
            0
        }
    }
}

/// The severity band of a score.
pub open spec fn severity_of(score: int) -> Severity {
    if score <= 9 {
        Severity::Fatal
    } else if score <= 19 {
        Severity::Critical
    } else if score <= 29 {
        Severity::Error
    } else if score <= 39 {
        Severity::Fault
    } else if score <= 49 {
        Severity::Weakness
    } else if score <= 59 {
        Severity::Instability
    } else if score <= 69 {
        Severity::Degraded
    } else if score <= 79 {
        Severity::Drift
    } else if score <= 89 {
        Severity::Info
    } else {
        Severity::Pass
    }
}

/// The diagnostic name of a severity band.
pub open spec fn severity_name(s: Severity) -> Seq<char> {
    match s {
        Severity::Fatal => "Fatal"@,
        Severity::Critical => "Critical"@,
        Severity::Error => "Error"@,
        Severity::Fault => "Fault"@,
        Severity::Weakness => "Weakness"@,
        Severity::Instability => "Instability"@,
        Severity::Degraded => "Degraded"@,
        Severity::Drift => "Drift"@,
        Severity::Info => "Info"@,
        Severity::Pass => "Pass"@,
    }
}

fn severity_name_exec(s: Severity) -> (r: &'static str)
    ensures
        r@ == severity_name(s),
{
    match s {
        Severity::Fatal => "Fatal",
        Severity::Critical => "Critical",
        Severity::Error => "Error",
        Severity::Fault => "Fault",
        Severity::Weakness => "Weakness",
        Severity::Instability => "Instability",
        Severity::Degraded => "Degraded",
        Severity::Drift => "Drift",
        Severity::Info => "Info",
        Severity::Pass => "Pass",
    }
}

/// The diagnostic name of a response.
pub open spec fn response_name(r: DebugResponse) -> Seq<char> {
    match r {
        DebugResponse::Ignore => "Ignore"@,
        DebugResponse::Retry => "Retry"@,
        DebugResponse::Halt => "Halt"@,
        DebugResponse::Patch => "Patch"@,
        DebugResponse::Prompt => "Prompt"@,
    }
}

fn response_name_exec(r: DebugResponse) -> (res: &'static str)
    ensures
        res@ == response_name(r),
{
    match r {
        DebugResponse::Ignore => "Ignore",
        DebugResponse::Retry => "Retry",
        DebugResponse::Halt => "Halt",
        DebugResponse::Patch => "Patch",
        DebugResponse::Prompt => "Prompt",
    }
}

/// The suggestion lines of a scroll rendering.
pub open spec fn suggestion_lines(sugg: Seq<Seq<char>>) -> Seq<char>
    decreases sugg.len(),
{
    if sugg.len() == 0 {
        Seq::empty()
    } else {
        "\n  - "@ + sugg[0] + suggestion_lines(sugg.drop_first())
    }
}

/// The full scroll rendering of an entry.
pub open spec fn scroll_text(e: DebugEntry) -> Seq<char> {
    let head = "==============================================\n"@
        + "OmniDebug Scroll - "@ + e.timestamp@ + "\n"@
        + "==============================================\n"@ + "Command:     "@ + e.command@
        + "\n"@ + "Input:       "@ + e.input@ + "\n"@ + "Expected:    "@ + e.expected@ + "\n"@
        + "Actual:      "@ + e.actual@ + "\n"@ + "Score:       "@ + dec_spec(e.score as int)
        + "/100\n"@ + "Severity:    "@ + severity_name(e.severity);
    let with_disc = match e.discrepancy {
        Some(d) => head + "\nDiscrepancy:  "@ + d@,
        None => head,
    };
    let with_loc = match e.location {
        Some(l) => with_disc + "\nLocation:     "@ + l@,
        None => with_disc,
    };
    let with_sugg = if e.suggestions@.len() > 0 {
        with_loc + "\nSuggestions:"@ + suggestion_lines(
            e.suggestions@.map_values(|s: String| s@),
        )
    } else {
        with_loc
    };
    with_sugg + "\nResponse:     "@ + response_name(e.response) + "\n"@
}

impl DebugEntry {
    /// Builds a scored entry: a mismatch between expected and actual
    /// output records a discrepancy note and lowers the alignment score
    /// by ten per mismatched word.
    pub fn new(command: &str, input: &str, expected: &str, actual: &str) -> (r: DebugEntry)
        ensures
            r.command@ == command@,
            r.input@ == input@,
            r.expected@ == expected@,
            r.actual@ == actual@,
            r.score as int == score_spec(expected@, actual@),
            r.severity == severity_of(score_spec(expected@, actual@)),
            expected@ == actual@ ==> r.discrepancy is None,
            expected@ != actual@ ==> (r.discrepancy matches Some(d) && d@
                == "Mismatch - expected '"@ + expected@ + "', got '"@ + actual@ + "'"@),
            r.location is None,
            r.suggestions@.len() == 0,
            r.response == DebugResponse::Prompt,
    {
        let same = crate::text::str_eq(expected, actual);
        let discrepancy: Option<String> = if !same {
            let mut d = String::new();
            d.append("Mismatch - expected '");
            d.append(expected);
            d.append("', got '");
            d.append(actual);
            d.append("'");
            Some(d)
        } else {
            None
        };
        let score: u8 = if same {
            100
        } else {
            let exp_words = crate::text::split_whitespace_words(expected);
            let act_words = crate::text::split_whitespace_words(actual);
            let ghost ew = exp_words@.map_values(|w: String| w@);
            let ghost aw = act_words@.map_values(|w: String| w@);
            let shorter = if exp_words.len() <= act_words.len() {
                exp_words.len()
            } else {
                act_words.len()
            };
            let mut mismatches: usize = 0;
            let mut i: usize = shorter;
            proof {
                lemma_word_mismatches_tail(ew, aw, i as int);
            }
            while i > 0
                invariant
                    i <= shorter,
                    shorter <= ew.len(),
                    shorter <= aw.len(),
                    shorter == (if ew.len() <= aw.len() {
                        ew.len()
                    } else {
                        aw.len()
                    }),
                    ew == exp_words@.map_values(|w: String| w@),
                    aw == act_words@.map_values(|w: String| w@),
                    mismatches <= shorter - i,
                    mismatches == word_mismatches(ew.skip(i as int), aw.skip(i as int)),
                decreases i,
            {
                i = i - 1;
                proof {
                    assert(ew.skip(i as int)[0] == ew[i as int]);
                    assert(aw.skip(i as int)[0] == aw[i as int]);
                    assert(ew.skip(i as int).drop_first() =~= ew.skip(i + 1));
                    assert(aw.skip(i as int).drop_first() =~= aw.skip(i + 1));
                    assert(ew[i as int] == exp_words@[i as int]@);
                    assert(aw[i as int] == act_words@[i as int]@);
                }
                if !crate::text::str_eq(exp_words[i].as_str(), act_words[i].as_str()) {
                    mismatches = mismatches + 1;
                }
            }
            proof {
                assert(ew.skip(0) =~= ew);
                assert(aw.skip(0) =~= aw);
            }
            let wide: u128 = (mismatches as u128) * 10;
            let d: u8 = (wide % 256) as u8;
            proof {
                assert(wide as int == (mismatches as int) * 10);
                assert(d as int == (mismatches * 10) % 256);
            }
            if 100 >= d {
                100 - d
            } else {
                0
            }
        };
        let severity = DebugEntry::resolve_severity(score);
        let timestamp = now_rfc3339();
        DebugEntry {
            command: command.to_owned(),
            input: input.to_owned(),
            expected: expected.to_owned(),
            actual: actual.to_owned(),
            discrepancy,
            location: None,
            suggestions: Vec::new(),
            response: DebugResponse::Prompt,
            score,
            severity,
            timestamp,
        }
    }

    /// Classifies a score into its severity band.
    pub fn resolve_severity(score: u8) -> (r: Severity)
        ensures
            r == severity_of(score as int),
    {
        if score <= 9 {
            Severity::Fatal
        } else if score <= 19 {
            Severity::Critical
        } else if score <= 29 {
            Severity::Error
        } else if score <= 39 {
            Severity::Fault
        } else if score <= 49 {
            Severity::Weakness
        } else if score <= 59 {
            Severity::Instability
        } else if score <= 69 {
            Severity::Degraded
        } else if score <= 79 {
            Severity::Drift
        } else if score <= 89 {
            Severity::Info
        } else {
            Severity::Pass
        }
    }

    /// Chains a location onto the entry.
    pub fn with_location(self, loc: &str) -> (r: DebugEntry)
        ensures
            r.location matches Some(l) && l@ == loc@,
            r.command == self.command,
            r.input == self.input,
            r.expected == self.expected,
            r.actual == self.actual,
            r.discrepancy == self.discrepancy,
            r.suggestions == self.suggestions,
            r.response == self.response,
            r.score == self.score,
            r.severity == self.severity,
            r.timestamp == self.timestamp,
    {
        let mut r = self;
        r.location = Some(loc.to_owned());
        r
    }

    /// Chains one more suggestion onto the entry.
    pub fn with_suggestion(self, note: &str) -> (r: DebugEntry)
        ensures
            r.suggestions@.len() == self.suggestions@.len() + 1,
            r.suggestions@.last()@ == note@,
            forall|j: int|
                0 <= j < self.suggestions@.len() ==> #[trigger] r.suggestions@[j]
                    == self.suggestions@[j],
            r.command == self.command,
            r.input == self.input,
            r.expected == self.expected,
            r.actual == self.actual,
            r.discrepancy == self.discrepancy,
            r.location == self.location,
            r.response == self.response,
            r.score == self.score,
            r.severity == self.severity,
            r.timestamp == self.timestamp,
    {
        let mut r = self;
        r.suggestions.push(note.to_owned());
        r
    }

    /// Renders the entry as a readable scroll.
    pub fn to_scroll(&self) -> (r: String)
        ensures
            r@ == scroll_text(*self),
    {
        let mut block = String::new();
        block.append("==============================================\n");
        block.append("OmniDebug Scroll - ");
        block.append(self.timestamp.as_str());
        block.append("\n");
        block.append("==============================================\n");
        block.append("Command:     ");
        block.append(self.command.as_str());
        block.append("\n");
        block.append("Input:       ");
        block.append(self.input.as_str());
        block.append("\n");
        block.append("Expected:    ");
        block.append(self.expected.as_str());
        block.append("\n");
        block.append("Actual:      ");
        block.append(self.actual.as_str());
        block.append("\n");
        block.append("Score:       ");
        let score_text = u64_to_string(self.score as u64);
        block.append(score_text.as_str());
        block.append("/100\n");
        block.append("Severity:    ");
        block.append(severity_name_exec(self.severity));
        match &self.discrepancy {
            Some(d) => {
                block.append("\nDiscrepancy:  ");
                block.append(d.as_str());
            },
            None => {},
        }
        match &self.location {
            Some(l) => {
                block.append("\nLocation:     ");
                block.append(l.as_str());
            },
            None => {},
        }
        if self.suggestions.len() > 0 {
            block.append("\nSuggestions:");
            let ghost sg = self.suggestions@.map_values(|s: String| s@);
            let ghost base = block@;
            proof {
                assert(sg.skip(0) =~= sg);
            }
            let mut i: usize = 0;
            while i < self.suggestions.len()
                invariant
                    i <= self.suggestions@.len(),
                    sg == self.suggestions@.map_values(|s: String| s@),
                    sg.len() == self.suggestions@.len(),
                    base + suggestion_lines(sg) == block@ + suggestion_lines(sg.skip(i as int)),
                decreases self.suggestions@.len() - i,
            {
                let ghost b0 = block@;
                block.append("\n  - ");
                block.append(self.suggestions[i].as_str());
                i = i + 1;
                proof {
                    assert(sg.skip(i - 1)[0] == sg[i - 1]);
                    assert(sg.skip(i - 1).drop_first() =~= sg.skip(i as int));
                    assert(sg[i - 1] == self.suggestions@[i - 1]@);
                    assert(suggestion_lines(sg.skip(i - 1)) == "\n  - "@ + sg[i - 1]
                        + suggestion_lines(sg.skip(i as int)));
                    assert(base + suggestion_lines(sg) =~= block@ + suggestion_lines(
                        sg.skip(i as int),
                    ));
                }
            }
            proof {
                assert(suggestion_lines(sg.skip(self.suggestions@.len() as int)) =~= Seq::<
                    char,
                >::empty());
                assert(base + suggestion_lines(sg) =~= block@);
            }
        }
        block.append("\nResponse:     ");
        block.append(response_name_exec(self.response));
        block.append("\n");
        proof {
            assert(block@ =~= scroll_text(*self));
        }
        block
    }
}

proof fn lemma_word_mismatches_tail(e: Seq<Seq<char>>, a: Seq<Seq<char>>, i: int)
    requires
        i == (if e.len() <= a.len() {
            e.len() as int
        } else {
            a.len() as int
        }),
    ensures
        word_mismatches(e.skip(i), a.skip(i)) == 0,
{
    if e.len() <= a.len() {
        assert(e.skip(i).len() == 0);
    } else {
        assert(a.skip(i).len() == 0);
    }
}

} // verus!
