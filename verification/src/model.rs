//! The values the analysis works on and reports: threats, results,
//! configuration, custom hooks, and how findings add up to a risk score.

use vstd::prelude::*;
use crate::patterns::Pattern;

verus! {

/// The text of each string, in order.
pub open spec fn texts(v: Seq<String>) -> Seq<Seq<char>> {
    v.map_values(|s: String| s@)
}

/// A detected threat.
#[derive(Debug, Clone)]
pub struct Threat {
    pub category: String,
    pub severity: String,
    pub description: String,
    pub matched_pattern: Option<String>,
}

/// The plain-text view of each threat, in order.
pub open spec fn threat_views(v: Seq<Threat>) -> Seq<ThreatView> {
    v.map_values(|t: Threat| t@)
}

/// A threat as plain text.
pub struct ThreatView {
    pub category: Seq<char>,
    pub severity: Seq<char>,
    pub description: Seq<char>,
    pub matched_pattern: Option<Seq<char>>,
}

impl View for Threat {
    type V = ThreatView;

    open spec fn view(&self) -> ThreatView {
        ThreatView {
            category: self.category@,
            severity: self.severity@,
            description: self.description@,
            matched_pattern: match self.matched_pattern {
                Some(m) => Some(m@),
                None => None,
            },
        }
    }
}

/// A threat together with the risk points it adds, in hundredths of the
/// full score.
pub struct Finding {
    pub threat: ThreatView,
    pub points: nat,
}

/// Builds a finding.
pub open spec fn finding(
    category: Seq<char>,
    severity: Seq<char>,
    description: Seq<char>,
    matched_pattern: Option<Seq<char>>,
    points: nat,
) -> Finding {
    Finding {
        threat: ThreatView { category, severity, description, matched_pattern },
        points,
    }
}

/// The sum of the points of the findings.
pub open spec fn total_points(f: Seq<Finding>) -> nat
    decreases f.len(),
{
    if f.len() == 0 {
        0
    } else {
        total_points(f.drop_last()) + f.last().points
    }
}

/// The risk score, in hundredths: the sum of the points, clamped to 100.
pub open spec fn risk_points(f: Seq<Finding>) -> nat {
    if total_points(f) <= 100 {
        total_points(f)
    } else {
        100
    }
}

/// The threat level that a risk score, in hundredths, falls into.
pub open spec fn level_of(points: nat) -> Seq<char> {
    if points >= 70 {
        "CRITICAL"@
    } else if points >= 40 {
        "HIGH"@
    } else if points >= 20 {
        "MEDIUM"@
    } else if points >= 5 {
        "LOW"@
    } else {
        "SAFE"@
    }
}

/// The threats of the findings, in order.
pub open spec fn threats_of(f: Seq<Finding>) -> Seq<ThreatView> {
    f.map_values(|x: Finding| x.threat)
}

/// The result of an analysis.
#[derive(Debug, Clone)]
pub struct AnalysisResult {
    /// Risk score in hundredths: 0 is safe, 100 is critical.
    pub risk_points: u64,
    /// Textual threat level.
    pub threat_level: String,
    /// The detected threats.
    pub threats: Vec<Threat>,
    /// SHA-256 fingerprint of the analysed text, in lower-case hexadecimal.
    pub content_hash: String,
    /// Analysis time in microseconds; the library leaves it 0 for the caller
    /// that times the call to fill in.
    pub analysis_time_us: u64,
}

/// A result as plain values.
pub struct ResultView {
    pub risk_points: nat,
    pub threat_level: Seq<char>,
    pub threats: Seq<ThreatView>,
    pub content_hash: Seq<char>,
    pub analysis_time_us: nat,
}

impl View for AnalysisResult {
    type V = ResultView;

    open spec fn view(&self) -> ResultView {
        ResultView {
            risk_points: self.risk_points as nat,
            threat_level: self.threat_level@,
            threats: threat_views(self.threats@),
            content_hash: self.content_hash@,
            analysis_time_us: self.analysis_time_us as nat,
        }
    }
}

/// The result reported for a list of findings and a fingerprint.
pub open spec fn result_of(f: Seq<Finding>, content_hash: Seq<char>) -> ResultView {
    ResultView {
        risk_points: risk_points(f),
        threat_level: level_of(risk_points(f)),
        threats: threats_of(f),
        content_hash,
        analysis_time_us: 0,
    }
}

/// A score in hundredths written with two decimals, as `{:.2}` writes the
/// score as a fraction of one.
pub open spec fn score_text(points: nat) -> Seq<char> {
    crate::text::decimal(points / 100) + seq!['.']
        + seq![crate::text::hex_digit((points % 100) / 10), crate::text::hex_digit(points % 10)]
}

/// The one-line summary of a result: level, score, number of threats and
/// the description of the first one.
pub open spec fn summary(r: ResultView) -> Seq<char> {
    "["@ + r.threat_level + "] Score: "@ + score_text(r.risk_points) + " | Menaces: "@
        + crate::text::decimal(r.threats.len()) + " | "@
        + if r.threats.len() > 0 { r.threats[0].description } else { "Aucune menace"@ }
}

/// Configuration of the analyser.
#[derive(Debug)]
pub struct AnalyzerConfig {
    pub enable_url_analysis: bool,
    pub enable_content_analysis: bool,
    pub enable_script_detection: bool,
    pub enable_crypto_checks: bool,
    pub custom_blocklist: Vec<String>,
}

/// A configuration as plain values.
pub struct ConfigView {
    pub enable_url_analysis: bool,
    pub enable_content_analysis: bool,
    pub enable_script_detection: bool,
    pub enable_crypto_checks: bool,
    pub custom_blocklist: Seq<Seq<char>>,
}

impl View for AnalyzerConfig {
    type V = ConfigView;

    open spec fn view(&self) -> ConfigView {
        ConfigView {
            enable_url_analysis: self.enable_url_analysis,
            enable_content_analysis: self.enable_content_analysis,
            enable_script_detection: self.enable_script_detection,
            enable_crypto_checks: self.enable_crypto_checks,
            custom_blocklist: texts(self.custom_blocklist@),
        }
    }
}

impl Default for AnalyzerConfig {
    /// URL, content and script analysis on, crypto checks off, no blocklist.
    fn default() -> (res: Self)
        ensures
            res@ == (ConfigView {
                enable_url_analysis: true,
                enable_content_analysis: true,
                enable_script_detection: true,
                enable_crypto_checks: false,
                custom_blocklist: Seq::empty(),
            }),
    {
        let res = AnalyzerConfig {
            enable_url_analysis: true,
            enable_content_analysis: true,
            enable_script_detection: true,
            enable_crypto_checks: false,
            custom_blocklist: Vec::new(),
        };
        assert(texts(res.custom_blocklist@) =~= Seq::empty());
        res
    }
}

/// A custom detection hook: a pattern applied to URLs or to content.
pub struct CustomHook {
    /// `url` or `content`.
    pub target: String,
    pub pattern: Pattern,
    pub category: String,
    pub severity: String,
    pub description: String,
}

/// A hook as plain text; the pattern by its source text.
pub struct HookView {
    pub target: Seq<char>,
    pub pattern: Seq<char>,
    pub category: Seq<char>,
    pub severity: Seq<char>,
    pub description: Seq<char>,
}

impl View for CustomHook {
    type V = HookView;

    open spec fn view(&self) -> HookView {
        HookView {
            target: self.target@,
            pattern: self.pattern@,
            category: self.category@,
            severity: self.severity@,
            description: self.description@,
        }
    }
}

} // verus!
