//! The analyser: its state, its set-up, and the analyses of URLs and page
//! content.

use vstd::prelude::*;
use crate::digest::{fingerprint, fingerprint_of};
use crate::model::{
    finding, level_of, result_of, summary, texts, AnalysisResult, AnalyzerConfig, ConfigView,
    CustomHook, HookView, ResultView, Threat, ThreatView,
};
use crate::patterns::{compile, count_matches, find, is_match, regex_compiles, source_text, Pattern};
use crate::report::Report;
use crate::rules::{
    blocklist_part, builtin_patterns_compile, content_findings, crypto_part, crypto_sources,
    data_uri_part, data_uri_source, finding_if, first_redirect, hook_findings, iframe_part,
    iframe_source, initial_threat_domains, ip_part, known_domain_part, lemma_append_content_parts,
    lemma_append_parts, malware_part, malware_url_sources, matched_url, or_empty,
    parsed_url_findings, pattern_findings, phishing_part, phishing_sources, redirect_part,
    redirect_sources, scheme_part, script_part, script_sources, severity_points, shortener_domains,
    shortener_part, subdomain_part, url_findings,
};
use crate::text::{
    chars_eq_ignore_ascii_case, chars_of, contains_sub, contains_sub_exec, count_char_exec,
    eq_ignore_ascii_case, push_char, push_decimal, push_str, str_eq, to_lowercase,
};
use crate::url_parts::{opt_text, parse_url, url_parse, ParsedUrl, UrlView};

verus! {

/// The text of each string slice, in order.
pub open spec fn str_texts(v: Seq<&str>) -> Seq<Seq<char>> {
    v.map_values(|s: &str| s@)
}

/// The source text of each pattern, in order.
pub open spec fn pattern_sources(v: Seq<Pattern>) -> Seq<Seq<char>> {
    v.map_values(|p: Pattern| p@)
}

/// The plain view of each hook, in order.
pub open spec fn hook_views(v: Seq<CustomHook>) -> Seq<HookView> {
    v.map_values(|h: CustomHook| h@)
}

/// The state of an analyser that the analyses read and change.
pub struct AnalyzerView {
    pub config: ConfigView,
    /// Domains reported as known threats.
    pub threat_domains: Set<Seq<char>>,
    /// Custom hooks, in registration order.
    pub custom_hooks: Seq<HookView>,
    /// Number of analyses made.
    pub total_analyzed: nat,
    /// Number of analyses that reported at least one threat.
    pub total_threats: nat,
}

/// The state after one more analysis, which did or did not report a threat.
pub open spec fn counted(s: AnalyzerView, found_threat: bool) -> AnalyzerView {
    AnalyzerView {
        total_analyzed: s.total_analyzed + 1,
        total_threats: s.total_threats + if found_threat { 1nat } else { 0nat },
        ..s
    }
}

/// The view of an optional parsed URL.
pub open spec fn parsed_view(p: Option<&ParsedUrl>) -> Option<UrlView> {
    match p {
        Some(u) => Some(u@),
        None => None,
    }
}

/// The result of analysing a URL in state `s`, given what parsing it gave
/// and its host read as an IP address.
pub open spec fn url_result(
    s: AnalyzerView,
    url: Seq<char>,
    parsed: Option<UrlView>,
    host_ip: Option<Seq<char>>,
) -> ResultView {
    result_of(
        if s.config.enable_url_analysis {
            url_findings(s.config, s.threat_domains, s.custom_hooks, parsed, host_ip)
        } else {
            Seq::empty()
        },
        fingerprint(url),
    )
}

/// The result of analysing page content in state `s`.
pub open spec fn content_result(s: AnalyzerView, text: Seq<char>) -> ResultView {
    result_of(
        if s.config.enable_content_analysis {
            content_findings(s.config, s.custom_hooks, text)
        } else {
            Seq::empty()
        },
        fingerprint(text),
    )
}

/// Counters of an analyser.
pub struct AnalyzerStats {
    pub total_analyzed: u64,
    pub total_threats: u64,
}

/// The main analyser.
pub struct SecurityAnalyzer {
    config: AnalyzerConfig,
    phishing_patterns: Vec<Pattern>,
    malware_url_patterns: Vec<Pattern>,
    suspicious_script_patterns: Vec<Pattern>,
    /// The known threat domains, each held once, viewed as a set. A
    /// `HashSet<String>` is not used: vstd states what `contains` and
    /// `insert` do only for key types that it shows to obey its key model
    /// (integers and `bool`), not for `String`, and that fact could only be
    /// assumed here.
    known_threat_domains: Vec<String>,
    crypto_stealer_patterns: Vec<Pattern>,
    data_uri_pattern: Pattern,
    iframe_pattern: Pattern,
    custom_hooks: Vec<CustomHook>,
    total_analyzed: u64,
    total_threats: u64,
}

impl View for SecurityAnalyzer {
    type V = AnalyzerView;

    closed spec fn view(&self) -> AnalyzerView {
        AnalyzerView {
            config: self.config@,
            threat_domains: texts(self.known_threat_domains@).to_set(),
            custom_hooks: hook_views(self.custom_hooks@),
            total_analyzed: self.total_analyzed as nat,
            total_threats: self.total_threats as nat,
        }
    }
}

/// Compiles each pattern; `None` if one of them does not compile.
fn compile_all(sources: &Vec<&str>) -> (res: Option<Vec<Pattern>>)
    ensures
        res is Some <==> forall|i: int| 0 <= i < sources@.len() ==> regex_compiles(#[trigger] sources@[i]@),
        res matches Some(v) ==> pattern_sources(v@) == str_texts(sources@),
{
    let mut out: Vec<Pattern> = Vec::new();
    let mut i: usize = 0;
    while i < sources.len()
        invariant
            0 <= i <= sources@.len(),
            out@.len() == i,
            forall|j: int| 0 <= j < i ==> regex_compiles(#[trigger] sources@[j]@),
            forall|j: int| 0 <= j < i ==> #[trigger] out@[j]@ == sources@[j]@,
        decreases sources.len() - i,
    {
        match compile(sources[i]) {
            Ok(p) => {
                out.push(p);
            },
            Err(_) => {
                return None;
            },
        }
        i = i + 1;
    }
    assert(pattern_sources(out@) =~= str_texts(sources@));
    Some(out)
}

/// Compiles patterns that are known to compile.
fn compile_listed(sources: Vec<&str>) -> (res: Vec<Pattern>)
    requires
        forall|i: int| 0 <= i < str_texts(sources@).len() ==> regex_compiles(#[trigger] str_texts(sources@)[i]),
    ensures
        pattern_sources(res@) == str_texts(sources@),
{
    assert forall|i: int| 0 <= i < sources@.len() implies regex_compiles(#[trigger] sources@[i]@) by {
        assert(str_texts(sources@)[i] == sources@[i]@);
    }
    compile_all(&sources).unwrap()
}

/// Whether every pattern compiles.
fn all_compile(sources: Vec<&str>) -> (res: bool)
    ensures
        res == forall|i: int| 0 <= i < str_texts(sources@).len() ==> regex_compiles(#[trigger] str_texts(sources@)[i]),
{
    let res = compile_all(&sources).is_some();
    if res {
        assert forall|i: int| 0 <= i < str_texts(sources@).len() implies regex_compiles(#[trigger] str_texts(sources@)[i]) by {
            assert(str_texts(sources@)[i] == sources@[i]@);
        }
    } else {
        proof {
            let k = choose|k: int| 0 <= k < sources@.len() && !regex_compiles(#[trigger] sources@[k]@);
            assert(str_texts(sources@)[k] == sources@[k]@);
        }
    }
    res
}

fn phishing_list() -> (v: Vec<&'static str>)
    ensures
        str_texts(v@) == phishing_sources(),
{
    let v = vec![
        r"(?i)login|signin|account|password|credential|verify|secure|banking",
        r"(?i)update.*(?:account|payment|billing)",
        r"(?i)(?:free|win|prize|lottery|lucky).*\$.+",
        r"(?i)(?:paypal|amazon|apple|google|microsoft|facebook).*(?:login|verify|confirm)",
    ];
    assert(str_texts(v@) =~= phishing_sources());
    v
}

fn malware_url_list() -> (v: Vec<&'static str>)
    ensures
        str_texts(v@) == malware_url_sources(),
{
    let v = vec![
        r"(?i)\.(?:exe|dll|scr|bat|ps1|vbs|jar|apk|msi)\.(?:com|net|org|xyz|top|gq|ml|tk)",
        r"(?i)(?:download|get|file|dl).*(?:\.exe|\.zip|\.rar)",
        r"(?i)(?:redirect|goto|out|track|click)\?.*(?:url|to|link|r)=http",
        r"(?i)\d{1,3}(?:\.\d{1,3}){3}:\d{4,}",
    ];
    assert(str_texts(v@) =~= malware_url_sources());
    v
}

fn script_list() -> (v: Vec<&'static str>)
    ensures
        str_texts(v@) == script_sources(),
{
    let v = vec![
        r"(?i)eval\s*\(\s*(?:typeof|constructor|prototype)",
        r"(?i)document\.write\s*\(\s*(?:atob|fromCharCode)",
        r"(?i)(?:base64|btoa|atob).*(?:eval|Function|setTimeout)",
        r"(?i)(?:document\.cookie|navigator|screen|location)\s*=",
        r#"(?i)(?:String\.fromCharCode|\\x[0-9a-f]{2}){10,}"#,
        r#"(?i)new\s+Function\s*\(.*['"].*['"]\s*\)"#,
        r"(?i)(?:onerror|onload|onmouseover)\s*=\s*(?:eval|Function)",
    ];
    assert(str_texts(v@) =~= script_sources());
    v
}

fn crypto_list() -> (v: Vec<&'static str>)
    ensures
        str_texts(v@) == crypto_sources(),
{
    let v = vec![
        r"(?i)(?:bitcoin|btc|eth|ethereum|wallet|metamask|phantom|keplr)",
        r"(?i)(?:mnemonic|seed.?phrase|private.?key|keystore)",
        r"(?i)(?:connect|import).*(?:wallet|account)",
    ];
    assert(str_texts(v@) =~= crypto_sources());
    v
}

fn shortener_list() -> (v: Vec<&'static str>)
    ensures
        str_texts(v@) == shortener_domains(),
{
    let v = vec!["bit.ly", "tinyurl.com", "goo.gl", "t.co", "shorturl.at"];
    assert(str_texts(v@) =~= shortener_domains());
    v
}

fn redirect_list() -> (v: Vec<&'static str>)
    ensures
        str_texts(v@) == redirect_sources(),
{
    let v = vec![
        r"window\.location\s*=",
        r"document\.location\s*=",
        r"location\.href\s*=",
        r"location\.replace\(",
    ];
    assert(str_texts(v@) =~= redirect_sources());
    v
}

/// The threat level of a risk score in hundredths.
fn threat_level_from_score(points: u64) -> (res: &'static str)
    ensures
        res@ == level_of(points as nat),
{
    if points >= 70 {
        "CRITICAL"
    } else if points >= 40 {
        "HIGH"
    } else if points >= 20 {
        "MEDIUM"
    } else if points >= 5 {
        "LOW"
    } else {
        "SAFE"
    }
}

/// The points a custom hook adds, by its lower-cased severity.
fn severity_points_of(lower: &str) -> (res: u64)
    ensures
        res as nat == severity_points(lower@),
{
    if str_eq(lower, "critical") {
        70
    } else if str_eq(lower, "high") {
        40
    } else if str_eq(lower, "medium") {
        20
    } else if str_eq(lower, "low") {
        10
    } else {
        5
    }
}

/// Whether a host holds one of the shortening services' names.
fn uses_shortener(host: &Vec<char>) -> (res: bool)
    ensures
        res == exists|i: int| 0 <= i < shortener_domains().len()
            && #[trigger] contains_sub(host@, shortener_domains()[i]),
{
    let list = shortener_list();
    let mut i: usize = 0;
    while i < list.len()
        invariant
            0 <= i <= list@.len(),
            str_texts(list@) == shortener_domains(),
            forall|j: int| 0 <= j < i ==> !#[trigger] contains_sub(host@, shortener_domains()[j]),
        decreases list.len() - i,
    {
        let d = chars_of(list[i]);
        assert(str_texts(list@)[i as int] == list@[i as int]@);
        if contains_sub_exec(host, &d) {
            return true;
        }
        i = i + 1;
    }
    false
}

/// The URL as it is matched against patterns.
fn build_matched_url(u: &ParsedUrl) -> (res: String)
    ensures
        res@ == matched_url(u@),
{
    let host = match &u.host {
        Some(h) => h.clone(),
        None => String::new(),
    };
    let query = match &u.query {
        Some(q) => q.clone(),
        None => String::new(),
    };
    let mut full = u.scheme.clone();
    push_str(&mut full, "://");
    push_str(&mut full, host.as_str());
    push_str(&mut full, u.path.as_str());
    if !query.as_str().is_empty() {
        push_str(&mut full, "?");
        push_str(&mut full, query.as_str());
    }
    full
}

/// Writes the one-line summary of a result.
fn summary_of(r: &AnalysisResult) -> (res: String)
    requires
        r.risk_points <= 100,
    ensures
        res@ == summary(r@),
{
    let mut res = "[".to_owned();
    push_str(&mut res, r.threat_level.as_str());
    push_str(&mut res, "] Score: ");
    push_decimal(&mut res, r.risk_points / 100);
    push_char(&mut res, '.');
    push_decimal(&mut res, (r.risk_points % 100) / 10);
    push_decimal(&mut res, r.risk_points % 10);
    push_str(&mut res, " | Menaces: ");
    push_decimal(&mut res, r.threats.len() as u64);
    push_str(&mut res, " | ");
    if r.threats.len() > 0 {
        assert(r@.threats[0] == r.threats@[0]@);
        push_str(&mut res, r.threats[0].description.as_str());
    } else {
        push_str(&mut res, "Aucune menace");
    }
    let ghost p = r.risk_points as nat;
    assert(crate::text::decimal((p % 100) / 10) == seq![crate::text::hex_digit((p % 100) / 10)]);
    assert(crate::text::decimal(p % 10) == seq![crate::text::hex_digit(p % 10)]);
    assert(res@ =~= summary(r@));
    res
}

fn threat_domain_list() -> (v: Vec<&'static str>)
    ensures
        str_texts(v@) == initial_threat_domains(),
{
    let v = vec![
        "malware-site.xyz",
        "phishing-login.tk",
        "steal-info.gq",
        "fake-bank.ml",
        "crypto-scam.top",
        "ransomware.cf",
    ];
    assert(str_texts(v@) =~= initial_threat_domains());
    v
}

/// Adds a text to a list that holds no text twice, unless it is there.
fn insert_text(v: &mut Vec<String>, d: &str)
    requires
        texts(old(v)@).no_duplicates(),
    ensures
        texts(final(v)@).no_duplicates(),
        texts(final(v)@).to_set() == texts(old(v)@).to_set().insert(d@),
{
    let mut i: usize = 0;
    while i < v.len()
        invariant
            0 <= i <= v@.len(),
            v@ == old(v)@,
            texts(v@).no_duplicates(),
            forall|j: int| 0 <= j < i ==> #[trigger] texts(v@)[j] != d@,
        decreases v.len() - i,
    {
        if str_eq(v[i].as_str(), d) {
            assert(texts(v@).contains(d@)) by {
                assert(texts(v@)[i as int] == d@);
            }
            assert(texts(v@).to_set() =~= texts(v@).to_set().insert(d@));
            return;
        }
        i = i + 1;
    }
    let ghost before = texts(v@);
    v.push(d.to_owned());
    assert(texts(v@) =~= before.push(d@));
    assert(!before.contains(d@)) by {
        if before.contains(d@) {
            let k = choose|k: int| 0 <= k < before.len() && before[k] == d@;
            assert(texts(old(v)@)[k] != d@);
        }
    }
    proof {
        before.lemma_push_to_set_commute(d@);
    }
}

impl SecurityAnalyzer {
    /// The internal invariant: the built-in patterns are the ones listed in
    /// the rules, the threat domains are held once each and include the
    /// built-in ones, and no more analyses reported a threat than were made.
    pub closed spec fn wf(&self) -> bool {
        &&& pattern_sources(self.phishing_patterns@) == phishing_sources()
        &&& pattern_sources(self.malware_url_patterns@) == malware_url_sources()
        &&& pattern_sources(self.suspicious_script_patterns@) == script_sources()
        &&& pattern_sources(self.crypto_stealer_patterns@) == crypto_sources()
        &&& self.data_uri_pattern@ == data_uri_source()
        &&& self.iframe_pattern@ == iframe_source()
        &&& texts(self.known_threat_domains@).no_duplicates()
        &&& initial_threat_domains().to_set().subset_of(texts(self.known_threat_domains@).to_set())
        &&& self.total_threats <= self.total_analyzed
    }

    /// Creates an analyser with the default configuration, the built-in
    /// patterns and threat domains, no custom hook and zero counters.
    pub fn new() -> (res: Self)
        requires
            builtin_patterns_compile(),
        ensures
            res.wf(),
            res@ == (AnalyzerView {
                config: ConfigView {
                    enable_url_analysis: true,
                    enable_content_analysis: true,
                    enable_script_detection: true,
                    enable_crypto_checks: false,
                    custom_blocklist: Seq::empty(),
                },
                threat_domains: initial_threat_domains().to_set(),
                custom_hooks: Seq::empty(),
                total_analyzed: 0,
                total_threats: 0,
            }),
    {
        let phishing_patterns = compile_listed(phishing_list());
        let malware_url_patterns = compile_listed(malware_url_list());
        let suspicious_script_patterns = compile_listed(script_list());
        let crypto_stealer_patterns = compile_listed(crypto_list());
        let data_uri_pattern = compile(r"(?i)data:").unwrap();
        let iframe_pattern = compile(r"(?i)<iframe").unwrap();

        let domains = threat_domain_list();
        let mut known_threat_domains: Vec<String> = Vec::new();
        let mut i: usize = 0;
        while i < domains.len()
            invariant
                0 <= i <= domains@.len(),
                texts(known_threat_domains@).no_duplicates(),
                texts(known_threat_domains@).to_set() == str_texts(domains@).take(i as int).to_set(),
            decreases domains.len() - i,
        {
            let ghost prev = str_texts(domains@).take(i as int);
            insert_text(&mut known_threat_domains, domains[i]);
            assert(str_texts(domains@).take(i + 1) =~= prev.push(domains@[i as int]@));
            proof {
                prev.lemma_push_to_set_commute(domains@[i as int]@);
            }
            i = i + 1;
        }
        assert(str_texts(domains@).take(domains@.len() as int) =~= str_texts(domains@));

        let res = SecurityAnalyzer {
            config: AnalyzerConfig::default(),
            phishing_patterns,
            malware_url_patterns,
            suspicious_script_patterns,
            known_threat_domains,
            crypto_stealer_patterns,
            data_uri_pattern,
            iframe_pattern,
            custom_hooks: Vec::new(),
            total_analyzed: 0,
            total_threats: 0,
        };
        assert(hook_views(res.custom_hooks@) =~= Seq::empty());
        res
    }

    /// Creates an analyser as `new` does, if every built-in pattern compiles;
    /// `None` otherwise.
    pub fn try_new() -> (res: Option<Self>)
        ensures
            res is Some <==> builtin_patterns_compile(),
            res matches Some(a) ==> a.wf() && a@ == (AnalyzerView {
                config: ConfigView {
                    enable_url_analysis: true,
                    enable_content_analysis: true,
                    enable_script_detection: true,
                    enable_crypto_checks: false,
                    custom_blocklist: Seq::empty(),
                },
                threat_domains: initial_threat_domains().to_set(),
                custom_hooks: Seq::empty(),
                total_analyzed: 0,
                total_threats: 0,
            }),
    {
        let ok = all_compile(phishing_list())
            && all_compile(malware_url_list())
            && all_compile(script_list())
            && all_compile(crypto_list())
            && compile(r"(?i)data:").is_ok()
            && compile(r"(?i)<iframe").is_ok();
        if ok {
            Some(Self::new())
        } else {
            None
        }
    }

    /// Replaces the configuration.
    pub fn configure(&mut self, config: AnalyzerConfig)
        requires
            old(self).wf(),
        ensures
            final(self).wf(),
            final(self)@ == (AnalyzerView { config: config@, ..old(self)@ }),
    {
        self.config = config;
    }

    /// Registers a custom detection hook for `url` or `content`. Returns
    /// false, and registers nothing, when the target is neither or the
    /// pattern does not compile.
    pub fn register_hook(
        &mut self,
        target: &str,
        regex: &str,
        category: &str,
        severity: &str,
        description: &str,
    ) -> (res: bool)
        requires
            old(self).wf(),
        ensures
            final(self).wf(),
            res == ((target@ == "url"@ || target@ == "content"@) && regex_compiles(regex@)),
            final(self)@ == if res {
                AnalyzerView {
                    custom_hooks: old(self)@.custom_hooks.push(HookView {
                        target: target@,
                        pattern: regex@,
                        category: category@,
                        severity: severity@,
                        description: description@,
                    }),
                    ..old(self)@
                }
            } else {
                old(self)@
            },
    {
        if !str_eq(target, "url") && !str_eq(target, "content") {
            return false;
        }
        match compile(regex) {
            Ok(pattern) => {
                let hook = CustomHook {
                    target: target.to_owned(),
                    pattern,
                    category: category.to_owned(),
                    severity: severity.to_owned(),
                    description: description.to_owned(),
                };
                let ghost before = self.custom_hooks@;
                self.custom_hooks.push(hook);
                assert(hook_views(self.custom_hooks@) =~= hook_views(before).push(hook@));
                true
            },
            Err(_) => false,
        }
    }

    /// Adds a domain to the known threat domains.
    pub fn add_to_blocklist(&mut self, domain: &str)
        requires
            old(self).wf(),
        ensures
            final(self).wf(),
            final(self)@ == (AnalyzerView {
                threat_domains: old(self)@.threat_domains.insert(domain@),
                ..old(self)@
            }),
    {
        insert_text(&mut self.known_threat_domains, domain);
    }

    fn new_threat(
        &self,
        category: &str,
        severity: &str,
        description: &str,
        matched_pattern: Option<String>,
    ) -> (t: Threat)
        ensures
            t@ == (ThreatView {
                category: category@,
                severity: severity@,
                description: description@,
                matched_pattern: opt_text(matched_pattern),
            }),
    {
        Threat {
            category: category.to_owned(),
            severity: severity.to_owned(),
            description: description.to_owned(),
            matched_pattern,
        }
    }

    /// Adds a finding for each pattern that matches the text.
    fn add_pattern_findings(
        &self,
        report: &mut Report,
        patterns: &Vec<Pattern>,
        text: &str,
        category: &str,
        severity: &str,
        description: &str,
        points: u64,
    )
        requires
            old(report).wf(),
            points <= 100,
        ensures
            final(report).wf(),
            final(report)@ == old(report)@ + pattern_findings(
                pattern_sources(patterns@),
                text@,
                category@,
                severity@,
                description@,
                points as nat,
            ),
    {
        let ghost srcs = pattern_sources(patterns@);
        let mut i: usize = 0;
        while i < patterns.len()
            invariant
                0 <= i <= patterns@.len(),
                points <= 100,
                srcs == pattern_sources(patterns@),
                report.wf(),
                report@ == old(report)@ + pattern_findings(
                    srcs.take(i as int),
                    text@,
                    category@,
                    severity@,
                    description@,
                    points as nat,
                ),
            decreases patterns.len() - i,
        {
            assert(srcs.take(i + 1).drop_last() =~= srcs.take(i as int));
            assert(srcs.take(i + 1).last() == patterns@[i as int]@);
            let ghost before = report@;
            match find(&patterns[i], text) {
                Some(m) => {
                    let t = self.new_threat(category, severity, description, Some(m));
                    report.add(t, points);
                    assert(report@ =~= old(report)@ + pattern_findings(
                        srcs.take(i + 1),
                        text@,
                        category@,
                        severity@,
                        description@,
                        points as nat,
                    ));
                },
                None => {},
            }
            i = i + 1;
        }
        assert(srcs.take(patterns@.len() as int) =~= srcs);
    }

    /// Adds a finding for each custom hook for the target that matches.
    fn run_custom_hooks(&self, report: &mut Report, target: &str, text: &str)
        requires
            old(report).wf(),
        ensures
            final(report).wf(),
            final(report)@ == old(report)@ + hook_findings(self@.custom_hooks, target@, text@),
    {
        let ghost hooks = hook_views(self.custom_hooks@);
        let mut i: usize = 0;
        while i < self.custom_hooks.len()
            invariant
                0 <= i <= self.custom_hooks@.len(),
                hooks == hook_views(self.custom_hooks@),
                report.wf(),
                report@ == old(report)@ + hook_findings(hooks.take(i as int), target@, text@),
            decreases self.custom_hooks.len() - i,
        {
            assert(hooks.take(i + 1).drop_last() =~= hooks.take(i as int));
            assert(hooks.take(i + 1).last() == self.custom_hooks@[i as int]@);
            let hook = &self.custom_hooks[i];
            if str_eq(hook.target.as_str(), target) && is_match(&hook.pattern, text) {
                let matched = source_text(&hook.pattern);
                let lower = to_lowercase(hook.severity.as_str());
                let points = severity_points_of(lower.as_str());
                let t = self.new_threat(
                    hook.category.as_str(),
                    hook.severity.as_str(),
                    hook.description.as_str(),
                    Some(matched),
                );
                report.add(t, points);
                assert(report@ =~= old(report)@ + hook_findings(hooks.take(i + 1), target@, text@));
            }
            i = i + 1;
        }
        assert(hooks.take(self.custom_hooks@.len() as int) =~= hooks);
    }

    /// Whether the host is in the configured blocklist, up to ASCII case.
    fn in_custom_blocklist(&self, host: &Vec<char>) -> (res: bool)
        ensures
            res == exists|i: int| 0 <= i < self@.config.custom_blocklist.len()
                && #[trigger] eq_ignore_ascii_case(self@.config.custom_blocklist[i], host@),
    {
        let list = &self.config.custom_blocklist;
        let mut i: usize = 0;
        while i < list.len()
            invariant
                0 <= i <= list@.len(),
                list == &self.config.custom_blocklist,
                forall|j: int| 0 <= j < i ==> !#[trigger] eq_ignore_ascii_case(texts(list@)[j], host@),
            decreases list.len() - i,
        {
            let d = chars_of(list[i].as_str());
            if chars_eq_ignore_ascii_case(&d, host) {
                assert(eq_ignore_ascii_case(self@.config.custom_blocklist[i as int], host@));
                return true;
            }
            i = i + 1;
        }
        false
    }

    /// Whether the host is a known threat domain.
    fn is_known_threat_domain(&self, host: &str) -> (res: bool)
        ensures
            res == self@.threat_domains.contains(host@),
    {
        let list = &self.known_threat_domains;
        let mut i: usize = 0;
        while i < list.len()
            invariant
                0 <= i <= list@.len(),
                list == &self.known_threat_domains,
                forall|j: int| 0 <= j < i ==> #[trigger] texts(list@)[j] != host@,
            decreases list.len() - i,
        {
            if str_eq(list[i].as_str(), host) {
                assert(texts(list@)[i as int] == host@);
                return true;
            }
            i = i + 1;
        }
        false
    }

    fn add_blocklist_finding(&self, report: &mut Report, host: &String, host_chars: &Vec<char>)
        requires
            old(report).wf(),
            host_chars@ == host@,
        ensures
            final(report).wf(),
            final(report)@ == old(report)@ + blocklist_part(self@.config, host@),
    {
        if self.in_custom_blocklist(host_chars) {
            let mut desc = "Domaine ajouté à la liste noire : ".to_owned();
            push_str(&mut desc, host.as_str());
            let t = self.new_threat("blacklist", "critical", desc.as_str(), Some(host.clone()));
            report.add(t, 90);
        }
        assert(report@ =~= old(report)@ + blocklist_part(self@.config, host@));
    }

    fn add_scheme_finding(&self, report: &mut Report, scheme: &String)
        requires
            old(report).wf(),
        ensures
            final(report).wf(),
            final(report)@ == old(report)@ + scheme_part(scheme@),
    {
        if !str_eq(scheme.as_str(), "https") && !str_eq(scheme.as_str(), "wss") {
            let t = self.new_threat(
                "connection",
                "medium",
                "Connexion non chiffrée (HTTP au lieu de HTTPS)",
                Some(scheme.clone()),
            );
            report.add(t, 15);
        }
        assert(report@ =~= old(report)@ + scheme_part(scheme@));
    }

    fn add_known_domain_finding(&self, report: &mut Report, host: &String)
        requires
            old(report).wf(),
        ensures
            final(report).wf(),
            final(report)@ == old(report)@ + known_domain_part(self@.threat_domains, host@),
    {
        if self.is_known_threat_domain(host.as_str()) {
            let mut desc = "Domaine présent dans la liste noire : ".to_owned();
            push_str(&mut desc, host.as_str());
            let t = self.new_threat("blacklist", "critical", desc.as_str(), Some(host.clone()));
            report.add(t, 80);
        }
        assert(report@ =~= old(report)@ + known_domain_part(self@.threat_domains, host@));
    }

    fn add_subdomain_finding(&self, report: &mut Report, host: &String, host_chars: &Vec<char>)
        requires
            old(report).wf(),
            host_chars@ == host@,
        ensures
            final(report).wf(),
            final(report)@ == old(report)@ + subdomain_part(host@),
    {
        if count_char_exec(host_chars, '.') > 3 {
            let t = self.new_threat("suspicious_domain", "low", "Nombre anormal de sous-domaines", Some(host.clone()));
            report.add(t, 10);
        }
        assert(report@ =~= old(report)@ + subdomain_part(host@));
    }

    fn add_shortener_finding(&self, report: &mut Report, host: &String, host_chars: &Vec<char>)
        requires
            old(report).wf(),
            host_chars@ == host@,
        ensures
            final(report).wf(),
            final(report)@ == old(report)@ + shortener_part(host@),
    {
        if uses_shortener(host_chars) {
            let t = self.new_threat(
                "url_shortener",
                "medium",
                "Utilisation d'un service de raccourcissement d'URL",
                Some(host.clone()),
            );
            report.add(t, 25);
        }
        assert(report@ =~= old(report)@ + shortener_part(host@));
    }

    fn add_ip_finding(&self, report: &mut Report, host: &String, host_ip: &Option<String>)
        requires
            old(report).wf(),
        ensures
            final(report).wf(),
            final(report)@ == old(report)@ + ip_part(host@, opt_text(*host_ip)),
    {
        match host_ip {
            Some(ip) => {
                let mut desc = "Accès direct à une adresse IP : ".to_owned();
                push_str(&mut desc, ip.as_str());
                let t = self.new_threat("ip_address", "low", desc.as_str(), Some(host.clone()));
                report.add(t, 15);
            },
            None => {},
        }
        assert(report@ =~= old(report)@ + ip_part(host@, opt_text(*host_ip)));
    }

    /// Adds the findings of a parsed URL that come before the custom hooks,
    /// and returns the URL as it is matched against patterns.
    fn add_parsed_url_findings(&self, report: &mut Report, u: &ParsedUrl, host_ip: &Option<String>) -> (full: String)
        requires
            self.wf(),
            old(report).wf(),
        ensures
            final(report).wf(),
            final(report)@ == old(report)@ + parsed_url_findings(
                self@.config,
                self@.threat_domains,
                u@,
                opt_text(*host_ip),
            ),
            full@ == matched_url(u@),
    {
        let host: String = match &u.host {
            Some(h) => h.clone(),
            None => String::new(),
        };
        let full = build_matched_url(u);
        let host_chars = chars_of(host.as_str());
        self.add_blocklist_finding(report, &host, &host_chars);
        self.add_scheme_finding(report, &u.scheme);
        self.add_known_domain_finding(report, &host);
        self.add_pattern_findings(
            report,
            &self.malware_url_patterns,
            full.as_str(),
            "malware_url",
            "high",
            "Pattern d'URL malveillante détecté",
            50,
        );
        self.add_pattern_findings(
            report,
            &self.phishing_patterns,
            full.as_str(),
            "phishing",
            "high",
            "Tentative de phishing détectée",
            40,
        );
        self.add_subdomain_finding(report, &host, &host_chars);
        self.add_shortener_finding(report, &host, &host_chars);
        self.add_ip_finding(report, &host, host_ip);
        proof {
            let h = or_empty(u@.1);
            assert(host@ == h);
            lemma_append_parts(
                old(report)@,
                blocklist_part(self@.config, h),
                scheme_part(u@.0),
                known_domain_part(self@.threat_domains, h),
                malware_part(full@),
                phishing_part(full@),
                subdomain_part(h),
                shortener_part(h),
                ip_part(h, opt_text(*host_ip)),
            );
        }
        full
    }

    /// Closes an analysis: the threat level from the score, and the count of
    /// analyses that reported a threat.
    fn finalize_result(&mut self, report: Report, content_hash: String) -> (res: AnalysisResult)
        requires
            old(self).wf(),
            report.wf(),
            old(self)@.total_threats < old(self)@.total_analyzed,
        ensures
            final(self).wf(),
            res@ == result_of(report@, content_hash@),
            final(self)@ == (AnalyzerView {
                total_threats: old(self)@.total_threats + if report@.len() > 0 { 1nat } else { 0nat },
                ..old(self)@
            }),
    {
        let points = report.points();
        let threat_level = threat_level_from_score(points).to_owned();
        if !report.is_empty() {
            self.total_threats = self.total_threats + 1;
        }
        let threats = report.into_threats();
        AnalysisResult {
            risk_points: points,
            threat_level,
            threats,
            content_hash,
            analysis_time_us: 0,
        }
    }

    /// Analyses a URL, given what parsing it gave and its host read as an IP
    /// address, if it is one.
    pub fn analyze_parsed_url(
        &mut self,
        url_str: &str,
        parsed: Option<&ParsedUrl>,
        host_ip: Option<String>,
    ) -> (res: AnalysisResult)
        requires
            old(self).wf(),
            old(self)@.total_analyzed < u64::MAX,
        ensures
            final(self).wf(),
            res@ == url_result(old(self)@, url_str@, parsed_view(parsed), opt_text(host_ip)),
            final(self)@ == counted(old(self)@, res@.threats.len() > 0),
    {
        self.total_analyzed = self.total_analyzed + 1;
        let mut report = Report::new();
        if !self.config.enable_url_analysis {
            let content_hash = fingerprint_of(url_str);
            return self.finalize_result(report, content_hash);
        }
        match parsed {
            Some(u) => {
                let full = self.add_parsed_url_findings(&mut report, u, &host_ip);
                self.run_custom_hooks(&mut report, "url", full.as_str());
            },
            None => {
                let t = self.new_threat("invalid_url", "low", "L'URL n'a pas pu être parsée", None);
                report.add(t, 10);
            },
        }
        let content_hash = fingerprint_of(url_str);
        self.finalize_result(report, content_hash)
    }

    /// Analyses a URL. `host_ip` is the host of the URL read as an IP
    /// address, in its usual text form, where it is one.
    pub fn analyze_url(&mut self, url_str: &str, host_ip: Option<String>) -> (res: AnalysisResult)
        requires
            old(self).wf(),
            old(self)@.total_analyzed < u64::MAX,
        ensures
            final(self).wf(),
            res@ == url_result(old(self)@, url_str@, url_parse(url_str@), opt_text(host_ip)),
            final(self)@ == counted(old(self)@, res@.threats.len() > 0),
    {
        if !self.config.enable_url_analysis {
            return self.analyze_parsed_url(url_str, None, host_ip);
        }
        let parsed = parse_url(url_str);
        self.analyze_parsed_url(url_str, parsed.as_ref(), host_ip)
    }

    fn add_count_finding(
        &self,
        report: &mut Report,
        pattern: &Pattern,
        text: &str,
        threshold: usize,
        category: &str,
        prefix: &str,
        points: u64,
    ) -> (ghost_count: Ghost<nat>)
        requires
            old(report).wf(),
            points <= 100,
        ensures
            final(report).wf(),
            ghost_count@ == crate::patterns::regex_match_count(pattern@, text@),
            final(report)@ == old(report)@ + finding_if(
                ghost_count@ > threshold,
                finding(category@, "medium"@, prefix@ + crate::text::decimal(ghost_count@) + ")"@, None, points as nat),
            ),
    {
        let n = count_matches(pattern, text);
        if n > threshold {
            let mut desc = prefix.to_owned();
            push_decimal(&mut desc, n as u64);
            push_str(&mut desc, ")");
            let t = self.new_threat(category, "medium", desc.as_str(), None);
            report.add(t, points);
        }
        let ghost c = n as nat;
        assert(report@ =~= old(report)@ + finding_if(
            c > threshold,
            finding(category@, "medium"@, prefix@ + crate::text::decimal(c) + ")"@, None, points as nat),
        ));
        Ghost(c)
    }

    fn add_redirect_finding(&self, report: &mut Report, text: &str)
        requires
            old(report).wf(),
        ensures
            final(report).wf(),
            final(report)@ == old(report)@ + redirect_part(text@),
    {
        let list = redirect_list();
        let ghost srcs = str_texts(list@);
        let mut found: Option<String> = None;
        let mut i: usize = 0;
        assert(srcs.skip(0) =~= srcs);
        while i < list.len() && found.is_none()
            invariant
                0 <= i <= list@.len(),
                srcs == str_texts(list@),
                srcs == redirect_sources(),
                found is None ==> first_redirect(srcs, text@) == first_redirect(srcs.skip(i as int), text@),
                found matches Some(f) ==> first_redirect(srcs, text@) == Some(f@),
            decreases list.len() - i,
        {
            assert(srcs.skip(i as int)[0] == list@[i as int]@);
            assert(srcs.skip(i as int).drop_first() =~= srcs.skip(i + 1));
            match compile(list[i]) {
                Ok(re) => {
                    if is_match(&re, text) {
                        found = Some(list[i].to_owned());
                    }
                },
                Err(_) => {},
            }
            i = i + 1;
        }
        if found.is_none() {
            assert(srcs.skip(i as int) =~= Seq::<Seq<char>>::empty());
        }
        match found {
            Some(f) => {
                let t = self.new_threat("redirect", "low", "Redirection JavaScript détectée", Some(f));
                report.add(t, 10);
            },
            None => {},
        }
        assert(report@ =~= old(report)@ + redirect_part(text@));
    }

    /// Analyses page content: scripts, crypto-wallet theft, data URIs,
    /// iframes, redirections and custom hooks.
    pub fn analyze_content(&mut self, content: &str) -> (res: AnalysisResult)
        requires
            old(self).wf(),
            old(self)@.total_analyzed < u64::MAX,
        ensures
            final(self).wf(),
            res@ == content_result(old(self)@, content@),
            final(self)@ == counted(old(self)@, res@.threats.len() > 0),
    {
        self.total_analyzed = self.total_analyzed + 1;
        let mut report = Report::new();
        if !self.config.enable_content_analysis {
            let content_hash = fingerprint_of(content);
            return self.finalize_result(report, content_hash);
        }
        let ghost start = report@;
        let ghost config = self@.config;
        if self.config.enable_script_detection {
            self.add_pattern_findings(
                &mut report,
                &self.suspicious_script_patterns,
                content,
                "suspicious_script",
                "high",
                "Pattern de script JavaScript suspect détecté",
                35,
            );
        }
        assert(report@ =~= start + script_part(config, content@));
        let ghost r1 = report@;
        if self.config.enable_crypto_checks {
            self.add_pattern_findings(
                &mut report,
                &self.crypto_stealer_patterns,
                content,
                "crypto_stealer",
                "high",
                "Pattern de vol de cryptomonnaie détecté",
                45,
            );
        }
        assert(report@ =~= r1 + crypto_part(config, content@));
        self.add_count_finding(&mut report, &self.data_uri_pattern, content, 5, "data_uri_abuse",
            "Nombre anormal de data URIs (", 20);
        self.add_count_finding(&mut report, &self.iframe_pattern, content, 3, "hidden_iframes",
            "Nombre anormal d'iframes (", 25);
        self.add_redirect_finding(&mut report, content);
        self.run_custom_hooks(&mut report, "content", content);
        proof {
            lemma_append_content_parts(
                start,
                script_part(config, content@),
                crypto_part(config, content@),
                data_uri_part(content@),
                iframe_part(content@),
                redirect_part(content@),
                hook_findings(self@.custom_hooks, "content"@, content@),
            );
        }
        let content_hash = fingerprint_of(content);
        self.finalize_result(report, content_hash)
    }

    /// Analyses an event by its type: a URL for `url`, page content for any
    /// other type.
    pub fn scan_event(&mut self, event_type: &str, data: &str, host_ip: Option<String>) -> (res: AnalysisResult)
        requires
            old(self).wf(),
            old(self)@.total_analyzed < u64::MAX,
        ensures
            final(self).wf(),
            res@ == if event_type@ == "url"@ {
                url_result(old(self)@, data@, url_parse(data@), opt_text(host_ip))
            } else {
                content_result(old(self)@, data@)
            },
            final(self)@ == counted(old(self)@, res@.threats.len() > 0),
    {
        if str_eq(event_type, "url") {
            self.analyze_url(data, host_ip)
        } else {
            self.analyze_content(data)
        }
    }

    /// Analyses a URL or page content and sums the result up in one line.
    pub fn quick_scan(&mut self, data: &str, is_url: bool, host_ip: Option<String>) -> (res: String)
        requires
            old(self).wf(),
            old(self)@.total_analyzed < u64::MAX,
        ensures
            final(self).wf(),
            ({
                let r = if is_url {
                    url_result(old(self)@, data@, url_parse(data@), opt_text(host_ip))
                } else {
                    content_result(old(self)@, data@)
                };
                &&& res@ == summary(r)
                &&& final(self)@ == counted(old(self)@, r.threats.len() > 0)
            }),
    {
        let result = if is_url {
            self.analyze_url(data, host_ip)
        } else {
            self.analyze_content(data)
        };
        summary_of(&result)
    }

    /// Every analyser treats the six built-in threat domains as known
    /// threats, whatever was added since it was created.
    pub proof fn law_builtin_threat_domains_kept(&self)
        requires
            self.wf(),
        ensures
            self@.threat_domains.contains("malware-site.xyz"@),
            self@.threat_domains.contains("phishing-login.tk"@),
            self@.threat_domains.contains("steal-info.gq"@),
            self@.threat_domains.contains("fake-bank.ml"@),
            self@.threat_domains.contains("crypto-scam.top"@),
            self@.threat_domains.contains("ransomware.cf"@),
    {
        let d = initial_threat_domains();
        assert(d.contains(d[0]) && d.contains(d[1]) && d.contains(d[2]));
        assert(d.contains(d[3]) && d.contains(d[4]) && d.contains(d[5]));
        assert(d[0] == "malware-site.xyz"@ && d[1] == "phishing-login.tk"@ && d[2] == "steal-info.gq"@);
        assert(d[3] == "fake-bank.ml"@ && d[4] == "crypto-scam.top"@ && d[5] == "ransomware.cf"@);
    }

    /// No more analyses reported a threat than were made.
    pub proof fn law_threats_never_exceed_analyses(&self)
        requires
            self.wf(),
        ensures
            self@.total_threats <= self@.total_analyzed,
    {
    }

    /// The counters.
    pub fn get_stats(&self) -> (res: AnalyzerStats)
        ensures
            res.total_analyzed == self@.total_analyzed,
            res.total_threats == self@.total_threats,
    {
        AnalyzerStats { total_analyzed: self.total_analyzed, total_threats: self.total_threats }
    }
}

} // verus!
