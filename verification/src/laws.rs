//! Properties of the analysis that hold for every input: the score range,
//! what the threat level says, and what custom hooks and blocklists bring.

use vstd::prelude::*;
use crate::analyzer::{content_result, url_result, AnalyzerView};
use crate::model::{finding, level_of, risk_points, threats_of, total_points, Finding, HookView, ThreatView};
use crate::patterns::{regex_compiles, regex_first_match};
use crate::rules::{
    blocklist_part, content_findings, crypto_part, data_uri_part, finding_if, hook_finding,
    hook_findings, iframe_part, ip_part, known_domain_part, malware_part, matched_url, or_empty,
    parsed_url_findings, pattern_findings, phishing_part, redirect_part, scheme_part, script_part,
    severity_points, shortener_part, subdomain_part, url_findings,
};
use crate::text::{contains_sub, eq_ignore_ascii_case};
use crate::url_parts::UrlView;

verus! {

/// Every finding adds at least five hundredths.
pub open spec fn weighty(f: Seq<Finding>) -> bool {
    forall|i: int| 0 <= i < f.len() ==> #[trigger] f[i].points >= 5
}

proof fn lemma_concat_weighty(a: Seq<Finding>, b: Seq<Finding>)
    requires
        weighty(a),
        weighty(b),
    ensures
        weighty(a + b),
{
    assert forall|i: int| 0 <= i < (a + b).len() implies #[trigger] (a + b)[i].points >= 5 by {
        if i >= a.len() {
            assert((a + b)[i] == b[i - a.len()]);
        }
    }
}

proof fn lemma_pattern_findings_weighty(
    sources: Seq<Seq<char>>,
    text: Seq<char>,
    category: Seq<char>,
    severity: Seq<char>,
    description: Seq<char>,
    points: nat,
)
    requires
        points >= 5,
    ensures
        weighty(pattern_findings(sources, text, category, severity, description, points)),
    decreases sources.len(),
{
    if sources.len() > 0 {
        lemma_pattern_findings_weighty(sources.drop_last(), text, category, severity, description, points);
    }
}

proof fn lemma_hook_findings_weighty(hooks: Seq<HookView>, target: Seq<char>, text: Seq<char>)
    ensures
        weighty(hook_findings(hooks, target, text)),
    decreases hooks.len(),
{
    if hooks.len() > 0 {
        lemma_hook_findings_weighty(hooks.drop_last(), target, text);
    }
}

proof fn lemma_url_findings_weighty(
    s: AnalyzerView,
    parsed: Option<UrlView>,
    host_ip: Option<Seq<char>>,
)
    ensures
        weighty(url_findings(s.config, s.threat_domains, s.custom_hooks, parsed, host_ip)),
{
    match parsed {
        Some(u) => {
            let host = or_empty(u.1);
            let full = matched_url(u);
            let p1 = blocklist_part(s.config, host);
            let p2 = scheme_part(u.0);
            let p3 = known_domain_part(s.threat_domains, host);
            let p4 = malware_part(full);
            let p5 = phishing_part(full);
            let p6 = subdomain_part(host);
            let p7 = shortener_part(host);
            let p8 = ip_part(host, host_ip);
            let h = hook_findings(s.custom_hooks, "url"@, full);
            lemma_pattern_findings_weighty(crate::rules::malware_url_sources(), full, "malware_url"@,
                "high"@, "Pattern d'URL malveillante détecté"@, 50);
            lemma_pattern_findings_weighty(crate::rules::phishing_sources(), full, "phishing"@,
                "high"@, "Tentative de phishing détectée"@, 40);
            lemma_hook_findings_weighty(s.custom_hooks, "url"@, full);
            lemma_concat_weighty(p1, p2);
            lemma_concat_weighty(p1 + p2, p3);
            lemma_concat_weighty(p1 + p2 + p3, p4);
            lemma_concat_weighty(p1 + p2 + p3 + p4, p5);
            lemma_concat_weighty(p1 + p2 + p3 + p4 + p5, p6);
            lemma_concat_weighty(p1 + p2 + p3 + p4 + p5 + p6, p7);
            lemma_concat_weighty(p1 + p2 + p3 + p4 + p5 + p6 + p7, p8);
            lemma_concat_weighty(p1 + p2 + p3 + p4 + p5 + p6 + p7 + p8, h);
        },
        None => {},
    }
}

proof fn lemma_content_findings_weighty(s: AnalyzerView, text: Seq<char>)
    ensures
        weighty(content_findings(s.config, s.custom_hooks, text)),
{
    let p1 = script_part(s.config, text);
    let p2 = crypto_part(s.config, text);
    let p3 = data_uri_part(text);
    let p4 = iframe_part(text);
    let p5 = redirect_part(text);
    let h = hook_findings(s.custom_hooks, "content"@, text);
    lemma_pattern_findings_weighty(crate::rules::script_sources(), text, "suspicious_script"@, "high"@,
        "Pattern de script JavaScript suspect détecté"@, 35);
    lemma_pattern_findings_weighty(crate::rules::crypto_sources(), text, "crypto_stealer"@, "high"@,
        "Pattern de vol de cryptomonnaie détecté"@, 45);
    lemma_hook_findings_weighty(s.custom_hooks, "content"@, text);
    lemma_concat_weighty(p1, p2);
    lemma_concat_weighty(p1 + p2, p3);
    lemma_concat_weighty(p1 + p2 + p3, p4);
    lemma_concat_weighty(p1 + p2 + p3 + p4, p5);
    lemma_concat_weighty(p1 + p2 + p3 + p4 + p5, h);
}

/// The points of a concatenation are the sum of the points of its parts.
pub proof fn lemma_total_points_concat(a: Seq<Finding>, b: Seq<Finding>)
    ensures
        total_points(a + b) == total_points(a) + total_points(b),
    decreases b.len(),
{
    if b.len() > 0 {
        lemma_total_points_concat(a, b.drop_last());
        assert((a + b).drop_last() =~= a + b.drop_last());
    } else {
        assert(a + b =~= a);
    }
}

proof fn lemma_total_points_positive(f: Seq<Finding>)
    requires
        weighty(f),
        f.len() > 0,
    ensures
        total_points(f) >= 5,
{
    assert(f[f.len() - 1].points >= 5);
}

proof fn lemma_level_safe(p: nat)
    ensures
        (level_of(p) == "SAFE"@) <==> p < 5,
{
    reveal_strlit("SAFE");
    reveal_strlit("LOW");
    reveal_strlit("MEDIUM");
    reveal_strlit("HIGH");
    reveal_strlit("CRITICAL");
    if p >= 5 {
        assert(level_of(p).len() != 4 || level_of(p)[0] == 'H');
    }
}

/// The rank of a threat level: SAFE 0, LOW 1, MEDIUM 2, HIGH 3, and
/// CRITICAL (or any other text) 4.
pub open spec fn level_rank(level: Seq<char>) -> nat {
    if level == "SAFE"@ {
        0
    } else if level == "LOW"@ {
        1
    } else if level == "MEDIUM"@ {
        2
    } else if level == "HIGH"@ {
        3
    } else {
        4
    }
}

/// The threat level never falls as the risk score rises.
pub proof fn law_level_monotone(p1: nat, p2: nat)
    requires
        p1 <= p2,
    ensures
        level_rank(level_of(p1)) <= level_rank(level_of(p2)),
{
    reveal_strlit("SAFE");
    reveal_strlit("LOW");
    reveal_strlit("MEDIUM");
    reveal_strlit("HIGH");
    reveal_strlit("CRITICAL");
    assert("SAFE"@ != "LOW"@ && "SAFE"@ != "MEDIUM"@ && "SAFE"@ != "HIGH"@ && "SAFE"@ != "CRITICAL"@) by {
        assert("SAFE"@[0] != "HIGH"@[0]);
    }
    assert("LOW"@.len() == 3 && "MEDIUM"@.len() == 6 && "HIGH"@.len() == 4 && "CRITICAL"@.len() == 8);
}

proof fn lemma_safe_iff_empty(f: Seq<Finding>)
    requires
        weighty(f),
    ensures
        risk_points(f) <= 100,
        (level_of(risk_points(f)) == "SAFE"@) <==> threats_of(f).len() == 0,
{
    lemma_level_safe(risk_points(f));
    if f.len() > 0 {
        lemma_total_points_positive(f);
    }
}

/// The risk score of a URL analysis lies between 0 and 100 hundredths, and
/// its threat level is SAFE exactly when no threat was reported.
pub proof fn law_url_score_and_level(
    s: AnalyzerView,
    url: Seq<char>,
    parsed: Option<UrlView>,
    host_ip: Option<Seq<char>>,
)
    ensures
        url_result(s, url, parsed, host_ip).risk_points <= 100,
        (url_result(s, url, parsed, host_ip).threat_level == "SAFE"@)
            <==> url_result(s, url, parsed, host_ip).threats.len() == 0,
{
    lemma_url_findings_weighty(s, parsed, host_ip);
    if s.config.enable_url_analysis {
        lemma_safe_iff_empty(url_findings(s.config, s.threat_domains, s.custom_hooks, parsed, host_ip));
    } else {
        lemma_safe_iff_empty(Seq::empty());
    }
}

/// The risk score of a content analysis lies between 0 and 100 hundredths,
/// and its threat level is SAFE exactly when no threat was reported.
pub proof fn law_content_score_and_level(s: AnalyzerView, text: Seq<char>)
    ensures
        content_result(s, text).risk_points <= 100,
        (content_result(s, text).threat_level == "SAFE"@) <==> content_result(s, text).threats.len() == 0,
{
    lemma_content_findings_weighty(s, text);
    if s.config.enable_content_analysis {
        lemma_safe_iff_empty(content_findings(s.config, s.custom_hooks, text));
    } else {
        lemma_safe_iff_empty(Seq::empty());
    }
}

/// With an analysis switched off, nothing is reported: no threat, a zero
/// score, the SAFE level; the fingerprint is still that of the text.
pub proof fn law_disabled_analysis_reports_nothing(
    s: AnalyzerView,
    text: Seq<char>,
    parsed: Option<UrlView>,
    host_ip: Option<Seq<char>>,
)
    ensures
        !s.config.enable_url_analysis ==> {
            &&& url_result(s, text, parsed, host_ip).threats.len() == 0
            &&& url_result(s, text, parsed, host_ip).risk_points == 0
            &&& url_result(s, text, parsed, host_ip).threat_level == "SAFE"@
            &&& url_result(s, text, parsed, host_ip).content_hash == crate::digest::fingerprint(text)
        },
        !s.config.enable_content_analysis ==> {
            &&& content_result(s, text).threats.len() == 0
            &&& content_result(s, text).risk_points == 0
            &&& content_result(s, text).threat_level == "SAFE"@
            &&& content_result(s, text).content_hash == crate::digest::fingerprint(text)
        },
{
    lemma_level_safe(0);
}

/// A text that is not a valid URL is reported as one low threat, worth ten
/// hundredths, when URL analysis is on.
pub proof fn law_unparsable_url(s: AnalyzerView, url: Seq<char>, host_ip: Option<Seq<char>>)
    requires
        s.config.enable_url_analysis,
    ensures
        url_result(s, url, None, host_ip).threats
            == seq![finding("invalid_url"@, "low"@, "L'URL n'a pas pu être parsée"@, None, 10).threat],
        url_result(s, url, None, host_ip).risk_points == 10,
        url_result(s, url, None, host_ip).threat_level == "LOW"@,
{
    let f = seq![finding("invalid_url"@, "low"@, "L'URL n'a pas pu être parsée"@, None, 10)];
    assert(f.drop_last() =~= Seq::<Finding>::empty());
    assert(total_points(f.drop_last()) == 0);
    assert(f.last().points == 10);
    assert(total_points(f) == 10);
    assert(threats_of(f) =~= seq![f[0].threat]);
}

proof fn lemma_hook_findings_push(hooks: Seq<HookView>, h: HookView, target: Seq<char>, text: Seq<char>)
    requires
        h.target == target,
        regex_first_match(h.pattern, text) is Some,
    ensures
        hook_findings(hooks.push(h), target, text) == hook_findings(hooks, target, text).push(hook_finding(h)),
{
    assert(hooks.push(h).drop_last() =~= hooks);
}

/// Once a content hook is registered, content that its pattern matches is
/// reported with the hook's threat, last of all, when content analysis is on.
pub proof fn law_registered_content_hook_fires(s: AnalyzerView, h: HookView, text: Seq<char>)
    requires
        s.config.enable_content_analysis,
        h.target == "content"@,
        regex_first_match(h.pattern, text) is Some,
    ensures
        ({
            let r = content_result(AnalyzerView { custom_hooks: s.custom_hooks.push(h), ..s }, text);
            &&& r.threats.len() > 0
            &&& r.threats.last() == hook_finding(h).threat
        }),
{
    let s2 = AnalyzerView { custom_hooks: s.custom_hooks.push(h), ..s };
    lemma_hook_findings_push(s.custom_hooks, h, "content"@, text);
    let f = content_findings(s2.config, s2.custom_hooks, text);
    assert(f.last() == hook_finding(h));
    assert(threats_of(f).last() == f.last().threat);
}

/// Once a URL hook is registered, a URL whose matched form its pattern
/// matches is reported with the hook's threat, last of all, when URL analysis
/// is on.
pub proof fn law_registered_url_hook_fires(
    s: AnalyzerView,
    h: HookView,
    url: Seq<char>,
    u: UrlView,
    host_ip: Option<Seq<char>>,
)
    requires
        s.config.enable_url_analysis,
        h.target == "url"@,
        regex_first_match(h.pattern, matched_url(u)) is Some,
    ensures
        ({
            let r = url_result(AnalyzerView { custom_hooks: s.custom_hooks.push(h), ..s }, url, Some(u), host_ip);
            &&& r.threats.len() > 0
            &&& r.threats.last() == hook_finding(h).threat
        }),
{
    let s2 = AnalyzerView { custom_hooks: s.custom_hooks.push(h), ..s };
    lemma_hook_findings_push(s.custom_hooks, h, "url"@, matched_url(u));
    let f = url_findings(s2.config, s2.threat_domains, s2.custom_hooks, Some(u), host_ip);
    assert(f.last() == hook_finding(h));
    assert(threats_of(f).last() == f.last().threat);
}

proof fn lemma_level_critical(p: nat)
    requires
        p >= 70,
    ensures
        level_of(p) == "CRITICAL"@,
{
}

/// A URL whose host was added to the threat domains is reported as a known
/// threat domain and its level is CRITICAL, when URL analysis is on.
pub proof fn law_blocklisted_domain_is_critical(
    s: AnalyzerView,
    domain: Seq<char>,
    url: Seq<char>,
    u: UrlView,
    host_ip: Option<Seq<char>>,
)
    requires
        s.config.enable_url_analysis,
        u.1 == Some(domain),
    ensures
        ({
            let r = url_result(
                AnalyzerView { threat_domains: s.threat_domains.insert(domain), ..s },
                url,
                Some(u),
                host_ip,
            );
            &&& r.threat_level == "CRITICAL"@
            &&& r.threats.contains(ThreatView {
                category: "blacklist"@,
                severity: "critical"@,
                description: "Domaine présent dans la liste noire : "@ + domain,
                matched_pattern: Some(domain),
            })
        }),
{
    let s2 = AnalyzerView { threat_domains: s.threat_domains.insert(domain), ..s };
    let host = or_empty(u.1);
    let full = matched_url(u);
    let p1 = blocklist_part(s2.config, host);
    let p2 = scheme_part(u.0);
    let p3 = known_domain_part(s2.threat_domains, host);
    let rest = malware_part(full) + phishing_part(full) + subdomain_part(host) + shortener_part(host)
        + ip_part(host, host_ip) + hook_findings(s2.custom_hooks, "url"@, full);
    let f = url_findings(s2.config, s2.threat_domains, s2.custom_hooks, Some(u), host_ip);
    assert(f =~= p1 + p2 + p3 + rest);
    assert(p3 =~= seq![finding("blacklist"@, "critical"@, "Domaine présent dans la liste noire : "@ + domain, Some(domain), 80)]);
    assert(p3.drop_last() =~= Seq::<Finding>::empty());
    lemma_total_points_concat(p1 + p2, p3);
    lemma_total_points_concat(p1 + p2 + p3, rest);
    let k: int = (p1.len() + p2.len()) as int;
    assert(f[k] == p3[0]);
    assert(threats_of(f)[k] == p3[0].threat);
    lemma_level_critical(risk_points(f));
}

/// A URL whose host equals, up to ASCII case, an entry of the configured
/// blocklist is reported first as a blacklisted domain and its level is
/// CRITICAL, when URL analysis is on.
pub proof fn law_configured_blocklist_is_critical(
    s: AnalyzerView,
    url: Seq<char>,
    u: UrlView,
    host_ip: Option<Seq<char>>,
    i: int,
)
    requires
        s.config.enable_url_analysis,
        0 <= i < s.config.custom_blocklist.len(),
        eq_ignore_ascii_case(s.config.custom_blocklist[i], or_empty(u.1)),
    ensures
        ({
            let r = url_result(s, url, Some(u), host_ip);
            &&& r.threat_level == "CRITICAL"@
            &&& r.threats[0] == (ThreatView {
                category: "blacklist"@,
                severity: "critical"@,
                description: "Domaine ajouté à la liste noire : "@ + or_empty(u.1),
                matched_pattern: Some(or_empty(u.1)),
            })
        }),
{
    let host = or_empty(u.1);
    let full = matched_url(u);
    let p1 = blocklist_part(s.config, host);
    let rest = scheme_part(u.0) + known_domain_part(s.threat_domains, host) + malware_part(full)
        + phishing_part(full) + subdomain_part(host) + shortener_part(host) + ip_part(host, host_ip)
        + hook_findings(s.custom_hooks, "url"@, full);
    let f = url_findings(s.config, s.threat_domains, s.custom_hooks, Some(u), host_ip);
    assert(f =~= p1 + rest);
    assert(p1.drop_last() =~= Seq::<Finding>::empty());
    lemma_total_points_concat(p1, rest);
    assert(f[0] == p1[0]);
    lemma_level_critical(risk_points(f));
}

proof fn lemma_concat_contains(a: Seq<Finding>, b: Seq<Finding>, x: Finding)
    ensures
        a.contains(x) || b.contains(x) ==> (a + b).contains(x),
{
    if a.contains(x) {
        let i = choose|i: int| 0 <= i < a.len() && a[i] == x;
        assert((a + b)[i] == x);
    } else if b.contains(x) {
        let i = choose|i: int| 0 <= i < b.len() && b[i] == x;
        assert((a + b)[a.len() + i] == x);
    }
}

proof fn lemma_threats_contains(f: Seq<Finding>, x: Finding)
    requires
        f.contains(x),
    ensures
        threats_of(f).contains(x.threat),
{
    let i = choose|i: int| 0 <= i < f.len() && f[i] == x;
    assert(threats_of(f)[i] == x.threat);
}

proof fn lemma_pattern_findings_contains(
    sources: Seq<Seq<char>>,
    text: Seq<char>,
    category: Seq<char>,
    severity: Seq<char>,
    description: Seq<char>,
    points: nat,
    i: int,
    m: Seq<char>,
)
    requires
        0 <= i < sources.len(),
        regex_first_match(sources[i], text) == Some(m),
    ensures
        pattern_findings(sources, text, category, severity, description, points).contains(
            finding(category, severity, description, Some(m), points),
        ),
    decreases sources.len(),
{
    let x = finding(category, severity, description, Some(m), points);
    let before = pattern_findings(sources.drop_last(), text, category, severity, description, points);
    if i == sources.len() - 1 {
        assert(before.push(x)[before.len() as int] == x);
    } else {
        lemma_pattern_findings_contains(sources.drop_last(), text, category, severity, description, points, i, m);
        assert(sources.drop_last()[i] == sources[i]);
        let j = choose|j: int| 0 <= j < before.len() && before[j] == x;
        match regex_first_match(sources.last(), text) {
            Some(m2) => {
                assert(before.push(finding(category, severity, description, Some(m2), points))[j] == x);
            },
            None => {},
        }
    }
}

/// The parts of the findings of a parsed URL, in order.
proof fn lemma_url_findings_parts(s: AnalyzerView, u: UrlView, host_ip: Option<Seq<char>>)
    ensures
        ({
            let host = or_empty(u.1);
            let full = matched_url(u);
            url_findings(s.config, s.threat_domains, s.custom_hooks, Some(u), host_ip)
                == blocklist_part(s.config, host) + scheme_part(u.0)
                + known_domain_part(s.threat_domains, host) + malware_part(full) + phishing_part(full)
                + subdomain_part(host) + shortener_part(host) + ip_part(host, host_ip)
                + hook_findings(s.custom_hooks, "url"@, full)
        }),
{
}

/// The threat level grades the risk score in fixed bands: below 5 hundredths
/// SAFE, below 20 LOW, below 40 MEDIUM, below 70 HIGH, from 70 CRITICAL.
pub proof fn law_level_bands(p: nat)
    ensures
        p < 5 ==> level_of(p) == "SAFE"@,
        5 <= p < 20 ==> level_of(p) == "LOW"@,
        20 <= p < 40 ==> level_of(p) == "MEDIUM"@,
        40 <= p < 70 ==> level_of(p) == "HIGH"@,
        70 <= p ==> level_of(p) == "CRITICAL"@,
{
}

/// Every analysis result grades its own risk score in those bands.
pub proof fn law_result_level_bands(
    s: AnalyzerView,
    text: Seq<char>,
    parsed: Option<UrlView>,
    host_ip: Option<Seq<char>>,
)
    ensures
        ({
            let r = url_result(s, text, parsed, host_ip);
            &&& r.risk_points < 5 ==> r.threat_level == "SAFE"@
            &&& 5 <= r.risk_points < 20 ==> r.threat_level == "LOW"@
            &&& 20 <= r.risk_points < 40 ==> r.threat_level == "MEDIUM"@
            &&& 40 <= r.risk_points < 70 ==> r.threat_level == "HIGH"@
            &&& 70 <= r.risk_points ==> r.threat_level == "CRITICAL"@
        }),
        ({
            let r = content_result(s, text);
            &&& r.risk_points < 5 ==> r.threat_level == "SAFE"@
            &&& 5 <= r.risk_points < 20 ==> r.threat_level == "LOW"@
            &&& 20 <= r.risk_points < 40 ==> r.threat_level == "MEDIUM"@
            &&& 40 <= r.risk_points < 70 ==> r.threat_level == "HIGH"@
            &&& 70 <= r.risk_points ==> r.threat_level == "CRITICAL"@
        }),
{
    law_level_bands(url_result(s, text, parsed, host_ip).risk_points);
    law_level_bands(content_result(s, text).risk_points);
}

/// The text that URL patterns and URL hooks are matched against is
/// scheme, `://`, host, path, and, where the query is not empty, `?` and the
/// query.
pub proof fn law_matched_url_parts(u: UrlView)
    ensures
        or_empty(u.3).len() > 0 ==> matched_url(u) == u.0 + "://"@ + or_empty(u.1) + u.2 + "?"@ + or_empty(u.3),
        or_empty(u.3).len() == 0 ==> matched_url(u) == u.0 + "://"@ + or_empty(u.1) + u.2,
{
}

/// The open-redirect pattern sees the query: when it matches scheme, `://`,
/// host, path, `?` and a non-empty query, the URL is reported as malicious
/// with the matched text, when URL analysis is on.
pub proof fn law_query_reaches_url_patterns(
    s: AnalyzerView,
    url: Seq<char>,
    u: UrlView,
    host_ip: Option<Seq<char>>,
    m: Seq<char>,
)
    requires
        s.config.enable_url_analysis,
        or_empty(u.3).len() > 0,
        regex_first_match(
            r"(?i)(?:redirect|goto|out|track|click)\?.*(?:url|to|link|r)=http"@,
            u.0 + "://"@ + or_empty(u.1) + u.2 + "?"@ + or_empty(u.3),
        ) == Some(m),
    ensures
        url_result(s, url, Some(u), host_ip).threats.contains(ThreatView {
            category: "malware_url"@,
            severity: "high"@,
            description: "Pattern d'URL malveillante détecté"@,
            matched_pattern: Some(m),
        }),
{
    let host = or_empty(u.1);
    let full = matched_url(u);
    let x = finding("malware_url"@, "high"@, "Pattern d'URL malveillante détecté"@, Some(m), 50);
    assert(crate::rules::malware_url_sources()[2]
        == r"(?i)(?:redirect|goto|out|track|click)\?.*(?:url|to|link|r)=http"@);
    lemma_pattern_findings_contains(crate::rules::malware_url_sources(), full, "malware_url"@, "high"@,
        "Pattern d'URL malveillante détecté"@, 50, 2, m);
    lemma_url_findings_parts(s, u, host_ip);
    let a = blocklist_part(s.config, host) + scheme_part(u.0) + known_domain_part(s.threat_domains, host);
    let b = phishing_part(full) + subdomain_part(host) + shortener_part(host) + ip_part(host, host_ip)
        + hook_findings(s.custom_hooks, "url"@, full);
    let f = url_findings(s.config, s.threat_domains, s.custom_hooks, Some(u), host_ip);
    assert(f =~= a + malware_part(full) + b);
    lemma_concat_contains(a, malware_part(full), x);
    lemma_concat_contains(a + malware_part(full), b, x);
    lemma_threats_contains(f, x);
}

/// A URL whose host holds the name of one of the five shortening services
/// (bit.ly, tinyurl.com, goo.gl, t.co, shorturl.at) is reported as using a
/// URL shortener, and its score is at least 25 hundredths, when URL analysis
/// is on.
pub proof fn law_shortener_hosts(
    s: AnalyzerView,
    url: Seq<char>,
    u: UrlView,
    host_ip: Option<Seq<char>>,
    d: Seq<char>,
)
    requires
        s.config.enable_url_analysis,
        d == "bit.ly"@ || d == "tinyurl.com"@ || d == "goo.gl"@ || d == "t.co"@ || d == "shorturl.at"@,
        contains_sub(or_empty(u.1), d),
    ensures
        url_result(s, url, Some(u), host_ip).threats.contains(ThreatView {
            category: "url_shortener"@,
            severity: "medium"@,
            description: "Utilisation d'un service de raccourcissement d'URL"@,
            matched_pattern: Some(or_empty(u.1)),
        }),
        url_result(s, url, Some(u), host_ip).risk_points >= 25,
{
    let host = or_empty(u.1);
    let full = matched_url(u);
    let sd = crate::rules::shortener_domains();
    assert(sd[0] == "bit.ly"@ && sd[1] == "tinyurl.com"@ && sd[2] == "goo.gl"@);
    assert(sd[3] == "t.co"@ && sd[4] == "shorturl.at"@);
    if d == sd[0] {
        assert(contains_sub(host, sd[0]));
    } else if d == sd[1] {
        assert(contains_sub(host, sd[1]));
    } else if d == sd[2] {
        assert(contains_sub(host, sd[2]));
    } else if d == sd[3] {
        assert(contains_sub(host, sd[3]));
    } else {
        assert(contains_sub(host, sd[4]));
    }
    let x = finding("url_shortener"@, "medium"@, "Utilisation d'un service de raccourcissement d'URL"@, Some(host), 25);
    let p7 = shortener_part(host);
    assert(p7 =~= seq![x]);
    assert(p7.drop_last() =~= Seq::<Finding>::empty());
    assert(p7[0] == x);
    lemma_url_findings_parts(s, u, host_ip);
    let a = blocklist_part(s.config, host) + scheme_part(u.0) + known_domain_part(s.threat_domains, host)
        + malware_part(full) + phishing_part(full) + subdomain_part(host);
    let b = ip_part(host, host_ip) + hook_findings(s.custom_hooks, "url"@, full);
    let f = url_findings(s.config, s.threat_domains, s.custom_hooks, Some(u), host_ip);
    assert(f =~= a + p7 + b);
    lemma_concat_contains(a, p7, x);
    lemma_concat_contains(a + p7, b, x);
    lemma_threats_contains(f, x);
    lemma_total_points_concat(a, p7);
    lemma_total_points_concat(a + p7, b);
}

/// A URL whose host is among the analyser's threat domains is reported as a
/// known threat domain and its level is CRITICAL, when URL analysis is on.
pub proof fn law_known_domain_is_critical(s: AnalyzerView, url: Seq<char>, u: UrlView, host_ip: Option<Seq<char>>)
    requires
        s.config.enable_url_analysis,
        u.1 is Some,
        s.threat_domains.contains(or_empty(u.1)),
    ensures
        url_result(s, url, Some(u), host_ip).threat_level == "CRITICAL"@,
        url_result(s, url, Some(u), host_ip).threats.contains(ThreatView {
            category: "blacklist"@,
            severity: "critical"@,
            description: "Domaine présent dans la liste noire : "@ + or_empty(u.1),
            matched_pattern: Some(or_empty(u.1)),
        }),
{
    let d = or_empty(u.1);
    assert(s.threat_domains.insert(d) =~= s.threat_domains);
    assert(AnalyzerView { threat_domains: s.threat_domains.insert(d), ..s } == s);
    law_blocklisted_domain_is_critical(s, d, url, u, host_ip);
}

/// The redirection patterns are tried in this order: window.location
/// assignment, document.location assignment, location.href assignment, and
/// location.replace( calls. Content that only the last one matches is
/// reported with one redirection finding naming that pattern, when content
/// analysis is on.
pub proof fn law_location_replace_redirect(s: AnalyzerView, text: Seq<char>)
    requires
        s.config.enable_content_analysis,
        !(regex_compiles(r"window\.location\s*="@) && regex_first_match(r"window\.location\s*="@, text) is Some),
        !(regex_compiles(r"document\.location\s*="@) && regex_first_match(r"document\.location\s*="@, text) is Some),
        !(regex_compiles(r"location\.href\s*="@) && regex_first_match(r"location\.href\s*="@, text) is Some),
        regex_compiles(r"location\.replace\("@),
        regex_first_match(r"location\.replace\("@, text) is Some,
    ensures
        redirect_part(text) == seq![finding(
            "redirect"@,
            "low"@,
            "Redirection JavaScript détectée"@,
            Some(r"location\.replace\("@),
            10,
        )],
        content_result(s, text).threats.contains(ThreatView {
            category: "redirect"@,
            severity: "low"@,
            description: "Redirection JavaScript détectée"@,
            matched_pattern: Some(r"location\.replace\("@),
        }),
{
    let r = crate::rules::redirect_sources();
    assert(r[0] == r"window\.location\s*="@ && r[1] == r"document\.location\s*="@);
    assert(r[2] == r"location\.href\s*="@ && r[3] == r"location\.replace\("@);
    assert(r.drop_first() =~= seq![r[1], r[2], r[3]]);
    assert(r.drop_first().drop_first() =~= seq![r[2], r[3]]);
    assert(r.drop_first().drop_first().drop_first() =~= seq![r[3]]);
    reveal_with_fuel(crate::rules::first_redirect, 5);
    assert(crate::rules::first_redirect(r, text) == Some(r[3]));
    let x = finding("redirect"@, "low"@, "Redirection JavaScript détectée"@, Some(r"location\.replace\("@), 10);
    let p5 = redirect_part(text);
    assert(p5 =~= seq![x]);
    assert(p5[0] == x);
    let a = script_part(s.config, text) + crypto_part(s.config, text) + data_uri_part(text) + iframe_part(text);
    let b = hook_findings(s.custom_hooks, "content"@, text);
    let f = content_findings(s.config, s.custom_hooks, text);
    assert(f =~= a + p5 + b);
    lemma_concat_contains(a, p5, x);
    lemma_concat_contains(a + p5, b, x);
    lemma_threats_contains(f, x);
}

proof fn lemma_total_at_least(f: Seq<Finding>, i: int)
    requires
        0 <= i < f.len(),
    ensures
        total_points(f) >= f[i].points,
    decreases f.len(),
{
    if i < f.len() - 1 {
        lemma_total_at_least(f.drop_last(), i);
        assert(f.drop_last()[i] == f[i]);
    }
}

proof fn lemma_reported(f: Seq<Finding>, x: Finding)
    requires
        f.contains(x),
        x.points <= 100,
    ensures
        threats_of(f).contains(x.threat),
        risk_points(f) >= x.points,
{
    lemma_threats_contains(f, x);
    let i = choose|i: int| 0 <= i < f.len() && f[i] == x;
    lemma_total_at_least(f, i);
}

/// A finding in any part of a parsed URL's findings is reported, and the
/// score is at least its points.
proof fn lemma_url_result_has(s: AnalyzerView, url: Seq<char>, u: UrlView, host_ip: Option<Seq<char>>, x: Finding)
    requires
        s.config.enable_url_analysis,
        x.points <= 100,
        ({
            let host = or_empty(u.1);
            let full = matched_url(u);
            ||| blocklist_part(s.config, host).contains(x)
            ||| scheme_part(u.0).contains(x)
            ||| known_domain_part(s.threat_domains, host).contains(x)
            ||| malware_part(full).contains(x)
            ||| phishing_part(full).contains(x)
            ||| subdomain_part(host).contains(x)
            ||| shortener_part(host).contains(x)
            ||| ip_part(host, host_ip).contains(x)
            ||| hook_findings(s.custom_hooks, "url"@, full).contains(x)
        }),
    ensures
        url_result(s, url, Some(u), host_ip).threats.contains(x.threat),
        url_result(s, url, Some(u), host_ip).risk_points >= x.points,
{
    let host = or_empty(u.1);
    let full = matched_url(u);
    let p1 = blocklist_part(s.config, host);
    let p2 = scheme_part(u.0);
    let p3 = known_domain_part(s.threat_domains, host);
    let p4 = malware_part(full);
    let p5 = phishing_part(full);
    let p6 = subdomain_part(host);
    let p7 = shortener_part(host);
    let p8 = ip_part(host, host_ip);
    let h = hook_findings(s.custom_hooks, "url"@, full);
    lemma_concat_contains(p1, p2, x);
    lemma_concat_contains(p1 + p2, p3, x);
    lemma_concat_contains(p1 + p2 + p3, p4, x);
    lemma_concat_contains(p1 + p2 + p3 + p4, p5, x);
    lemma_concat_contains(p1 + p2 + p3 + p4 + p5, p6, x);
    lemma_concat_contains(p1 + p2 + p3 + p4 + p5 + p6, p7, x);
    lemma_concat_contains(p1 + p2 + p3 + p4 + p5 + p6 + p7, p8, x);
    lemma_concat_contains(p1 + p2 + p3 + p4 + p5 + p6 + p7 + p8, h, x);
    lemma_url_findings_parts(s, u, host_ip);
    lemma_reported(url_findings(s.config, s.threat_domains, s.custom_hooks, Some(u), host_ip), x);
}

/// A finding in any part of content findings is reported, and the score is
/// at least its points.
proof fn lemma_content_result_has(s: AnalyzerView, text: Seq<char>, x: Finding)
    requires
        s.config.enable_content_analysis,
        x.points <= 100,
        ({
            ||| script_part(s.config, text).contains(x)
            ||| crypto_part(s.config, text).contains(x)
            ||| data_uri_part(text).contains(x)
            ||| iframe_part(text).contains(x)
            ||| redirect_part(text).contains(x)
            ||| hook_findings(s.custom_hooks, "content"@, text).contains(x)
        }),
    ensures
        content_result(s, text).threats.contains(x.threat),
        content_result(s, text).risk_points >= x.points,
{
    let p1 = script_part(s.config, text);
    let p2 = crypto_part(s.config, text);
    let p3 = data_uri_part(text);
    let p4 = iframe_part(text);
    let p5 = redirect_part(text);
    let h = hook_findings(s.custom_hooks, "content"@, text);
    lemma_concat_contains(p1, p2, x);
    lemma_concat_contains(p1 + p2, p3, x);
    lemma_concat_contains(p1 + p2 + p3, p4, x);
    lemma_concat_contains(p1 + p2 + p3 + p4, p5, x);
    lemma_concat_contains(p1 + p2 + p3 + p4 + p5, h, x);
    lemma_reported(content_findings(s.config, s.custom_hooks, text), x);
}

proof fn lemma_single(x: Finding)
    ensures
        seq![x].contains(x),
{
    assert(seq![x][0] == x);
}

/// A URL whose scheme is neither https nor wss is reported as an unencrypted
/// connection, adding at least 15 hundredths, when URL analysis is on.
pub proof fn law_unencrypted_scheme(s: AnalyzerView, url: Seq<char>, u: UrlView, host_ip: Option<Seq<char>>)
    requires
        s.config.enable_url_analysis,
        u.0 != "https"@,
        u.0 != "wss"@,
    ensures
        url_result(s, url, Some(u), host_ip).threats.contains(ThreatView {
            category: "connection"@,
            severity: "medium"@,
            description: "Connexion non chiffrée (HTTP au lieu de HTTPS)"@,
            matched_pattern: Some(u.0),
        }),
        url_result(s, url, Some(u), host_ip).risk_points >= 15,
{
    let x = finding("connection"@, "medium"@, "Connexion non chiffrée (HTTP au lieu de HTTPS)"@, Some(u.0), 15);
    lemma_single(x);
    lemma_url_result_has(s, url, u, host_ip, x);
}

/// A URL whose host has four dots or more is reported as having too many
/// subdomains, adding at least 10 hundredths, when URL analysis is on.
pub proof fn law_many_subdomains(s: AnalyzerView, url: Seq<char>, u: UrlView, host_ip: Option<Seq<char>>)
    requires
        s.config.enable_url_analysis,
        crate::text::count_char(or_empty(u.1), '.') >= 4,
    ensures
        url_result(s, url, Some(u), host_ip).threats.contains(ThreatView {
            category: "suspicious_domain"@,
            severity: "low"@,
            description: "Nombre anormal de sous-domaines"@,
            matched_pattern: Some(or_empty(u.1)),
        }),
        url_result(s, url, Some(u), host_ip).risk_points >= 10,
{
    let x = finding("suspicious_domain"@, "low"@, "Nombre anormal de sous-domaines"@, Some(or_empty(u.1)), 10);
    lemma_single(x);
    lemma_url_result_has(s, url, u, host_ip, x);
}

/// A URL whose host is an IP address is reported as such, naming the
/// address, adding at least 15 hundredths, when URL analysis is on.
pub proof fn law_ip_host(s: AnalyzerView, url: Seq<char>, u: UrlView, ip: Seq<char>)
    requires
        s.config.enable_url_analysis,
    ensures
        url_result(s, url, Some(u), Some(ip)).threats.contains(ThreatView {
            category: "ip_address"@,
            severity: "low"@,
            description: "Accès direct à une adresse IP : "@ + ip,
            matched_pattern: Some(or_empty(u.1)),
        }),
        url_result(s, url, Some(u), Some(ip)).risk_points >= 15,
{
    let x = finding("ip_address"@, "low"@, "Accès direct à une adresse IP : "@ + ip, Some(or_empty(u.1)), 15);
    lemma_single(x);
    lemma_url_result_has(s, url, u, Some(ip), x);
}

/// Each of the four phishing patterns that matches the URL as it is matched
/// is reported with the matched text, adding at least 40 hundredths, when
/// URL analysis is on.
pub proof fn law_phishing_patterns(
    s: AnalyzerView,
    url: Seq<char>,
    u: UrlView,
    host_ip: Option<Seq<char>>,
    p: Seq<char>,
    m: Seq<char>,
)
    requires
        s.config.enable_url_analysis,
        p == r"(?i)login|signin|account|password|credential|verify|secure|banking"@
            || p == r"(?i)update.*(?:account|payment|billing)"@
            || p == r"(?i)(?:free|win|prize|lottery|lucky).*\$.+"@
            || p == r"(?i)(?:paypal|amazon|apple|google|microsoft|facebook).*(?:login|verify|confirm)"@,
        regex_first_match(p, matched_url(u)) == Some(m),
    ensures
        url_result(s, url, Some(u), host_ip).threats.contains(ThreatView {
            category: "phishing"@,
            severity: "high"@,
            description: "Tentative de phishing détectée"@,
            matched_pattern: Some(m),
        }),
        url_result(s, url, Some(u), host_ip).risk_points >= 40,
{
    let src = crate::rules::phishing_sources();
    let i: int = if p == src[0] { 0 } else if p == src[1] { 1 } else if p == src[2] { 2 } else { 3 };
    lemma_pattern_findings_contains(src, matched_url(u), "phishing"@, "high"@,
        "Tentative de phishing détectée"@, 40, i, m);
    let x = finding("phishing"@, "high"@, "Tentative de phishing détectée"@, Some(m), 40);
    lemma_url_result_has(s, url, u, host_ip, x);
}

/// Each of the four malicious-URL patterns that matches the URL as it is
/// matched is reported with the matched text, adding at least 50 hundredths,
/// when URL analysis is on.
pub proof fn law_malware_url_patterns(
    s: AnalyzerView,
    url: Seq<char>,
    u: UrlView,
    host_ip: Option<Seq<char>>,
    p: Seq<char>,
    m: Seq<char>,
)
    requires
        s.config.enable_url_analysis,
        p == r"(?i)\.(?:exe|dll|scr|bat|ps1|vbs|jar|apk|msi)\.(?:com|net|org|xyz|top|gq|ml|tk)"@
            || p == r"(?i)(?:download|get|file|dl).*(?:\.exe|\.zip|\.rar)"@
            || p == r"(?i)(?:redirect|goto|out|track|click)\?.*(?:url|to|link|r)=http"@
            || p == r"(?i)\d{1,3}(?:\.\d{1,3}){3}:\d{4,}"@,
        regex_first_match(p, matched_url(u)) == Some(m),
    ensures
        url_result(s, url, Some(u), host_ip).threats.contains(ThreatView {
            category: "malware_url"@,
            severity: "high"@,
            description: "Pattern d'URL malveillante détecté"@,
            matched_pattern: Some(m),
        }),
        url_result(s, url, Some(u), host_ip).risk_points >= 50,
{
    let src = crate::rules::malware_url_sources();
    let i: int = if p == src[0] { 0 } else if p == src[1] { 1 } else if p == src[2] { 2 } else { 3 };
    lemma_pattern_findings_contains(src, matched_url(u), "malware_url"@, "high"@,
        "Pattern d'URL malveillante détecté"@, 50, i, m);
    let x = finding("malware_url"@, "high"@, "Pattern d'URL malveillante détecté"@, Some(m), 50);
    lemma_url_result_has(s, url, u, host_ip, x);
}

/// Each of the seven suspicious-script patterns that matches the content is
/// reported with the matched text, adding at least 35 hundredths, when
/// content analysis and script detection are on.
pub proof fn law_script_patterns(s: AnalyzerView, text: Seq<char>, p: Seq<char>, m: Seq<char>)
    requires
        s.config.enable_content_analysis,
        s.config.enable_script_detection,
        p == r"(?i)eval\s*\(\s*(?:typeof|constructor|prototype)"@
            || p == r"(?i)document\.write\s*\(\s*(?:atob|fromCharCode)"@
            || p == r"(?i)(?:base64|btoa|atob).*(?:eval|Function|setTimeout)"@
            || p == r"(?i)(?:document\.cookie|navigator|screen|location)\s*="@
            || p == r#"(?i)(?:String\.fromCharCode|\\x[0-9a-f]{2}){10,}"#@
            || p == r#"(?i)new\s+Function\s*\(.*['"].*['"]\s*\)"#@
            || p == r"(?i)(?:onerror|onload|onmouseover)\s*=\s*(?:eval|Function)"@,
        regex_first_match(p, text) == Some(m),
    ensures
        content_result(s, text).threats.contains(ThreatView {
            category: "suspicious_script"@,
            severity: "high"@,
            description: "Pattern de script JavaScript suspect détecté"@,
            matched_pattern: Some(m),
        }),
        content_result(s, text).risk_points >= 35,
{
    let src = crate::rules::script_sources();
    let i: int = if p == src[0] { 0 } else if p == src[1] { 1 } else if p == src[2] { 2 } else if p == src[3] {
        3
    } else if p == src[4] { 4 } else if p == src[5] { 5 } else { 6 };
    lemma_pattern_findings_contains(src, text, "suspicious_script"@, "high"@,
        "Pattern de script JavaScript suspect détecté"@, 35, i, m);
    let x = finding("suspicious_script"@, "high"@, "Pattern de script JavaScript suspect détecté"@, Some(m), 35);
    lemma_content_result_has(s, text, x);
}

/// Each of the three crypto-theft patterns that matches the content is
/// reported with the matched text, adding at least 45 hundredths, when
/// content analysis and crypto checks are on.
pub proof fn law_crypto_patterns(s: AnalyzerView, text: Seq<char>, p: Seq<char>, m: Seq<char>)
    requires
        s.config.enable_content_analysis,
        s.config.enable_crypto_checks,
        p == r"(?i)(?:bitcoin|btc|eth|ethereum|wallet|metamask|phantom|keplr)"@
            || p == r"(?i)(?:mnemonic|seed.?phrase|private.?key|keystore)"@
            || p == r"(?i)(?:connect|import).*(?:wallet|account)"@,
        regex_first_match(p, text) == Some(m),
    ensures
        content_result(s, text).threats.contains(ThreatView {
            category: "crypto_stealer"@,
            severity: "high"@,
            description: "Pattern de vol de cryptomonnaie détecté"@,
            matched_pattern: Some(m),
        }),
        content_result(s, text).risk_points >= 45,
{
    let src = crate::rules::crypto_sources();
    let i: int = if p == src[0] { 0 } else if p == src[1] { 1 } else { 2 };
    lemma_pattern_findings_contains(src, text, "crypto_stealer"@, "high"@,
        "Pattern de vol de cryptomonnaie détecté"@, 45, i, m);
    let x = finding("crypto_stealer"@, "high"@, "Pattern de vol de cryptomonnaie détecté"@, Some(m), 45);
    lemma_content_result_has(s, text, x);
}

/// When content analysis is on, content with six or more matches of
/// `(?i)data:` is reported as data-URI abuse naming the count, adding at
/// least 20 hundredths, and content with four or more matches of
/// `(?i)<iframe` is reported as hidden iframes naming the count, adding at
/// least 25 hundredths.
pub proof fn law_counted_markers(s: AnalyzerView, text: Seq<char>)
    requires
        s.config.enable_content_analysis,
    ensures
        crate::patterns::regex_match_count(r"(?i)data:"@, text) >= 6 ==> {
            &&& content_result(s, text).threats.contains(ThreatView {
                category: "data_uri_abuse"@,
                severity: "medium"@,
                description: "Nombre anormal de data URIs ("@
                    + crate::text::decimal(crate::patterns::regex_match_count(r"(?i)data:"@, text)) + ")"@,
                matched_pattern: None,
            })
            &&& content_result(s, text).risk_points >= 20
        },
        crate::patterns::regex_match_count(r"(?i)<iframe"@, text) >= 4 ==> {
            &&& content_result(s, text).threats.contains(ThreatView {
                category: "hidden_iframes"@,
                severity: "medium"@,
                description: "Nombre anormal d'iframes ("@
                    + crate::text::decimal(crate::patterns::regex_match_count(r"(?i)<iframe"@, text)) + ")"@,
                matched_pattern: None,
            })
            &&& content_result(s, text).risk_points >= 25
        },
{
    let nd = crate::patterns::regex_match_count(r"(?i)data:"@, text);
    let ni = crate::patterns::regex_match_count(r"(?i)<iframe"@, text);
    if nd >= 6 {
        let x = finding("data_uri_abuse"@, "medium"@, "Nombre anormal de data URIs ("@ + crate::text::decimal(nd) + ")"@, None, 20);
        lemma_single(x);
        lemma_content_result_has(s, text, x);
    }
    if ni >= 4 {
        let x = finding("hidden_iframes"@, "medium"@, "Nombre anormal d'iframes ("@ + crate::text::decimal(ni) + ")"@, None, 25);
        lemma_single(x);
        lemma_content_result_has(s, text, x);
    }
}

/// The redirection patterns are tried in order (window.location assignment,
/// document.location assignment, location.href assignment, location.replace
/// call); the first that compiles and matches is the one reported, once.
pub proof fn law_redirect_order(text: Seq<char>)
    ensures
        redirect_part(text) == if regex_compiles(r"window\.location\s*="@)
            && regex_first_match(r"window\.location\s*="@, text) is Some {
            seq![finding("redirect"@, "low"@, "Redirection JavaScript détectée"@, Some(r"window\.location\s*="@), 10)]
        } else if regex_compiles(r"document\.location\s*="@)
            && regex_first_match(r"document\.location\s*="@, text) is Some {
            seq![finding("redirect"@, "low"@, "Redirection JavaScript détectée"@, Some(r"document\.location\s*="@), 10)]
        } else if regex_compiles(r"location\.href\s*="@)
            && regex_first_match(r"location\.href\s*="@, text) is Some {
            seq![finding("redirect"@, "low"@, "Redirection JavaScript détectée"@, Some(r"location\.href\s*="@), 10)]
        } else if regex_compiles(r"location\.replace\("@)
            && regex_first_match(r"location\.replace\("@, text) is Some {
            seq![finding("redirect"@, "low"@, "Redirection JavaScript détectée"@, Some(r"location\.replace\("@), 10)]
        } else {
            Seq::empty()
        },
{
    let r = crate::rules::redirect_sources();
    assert(r.len() == 4);
    assert(r.drop_first() =~= seq![r[1], r[2], r[3]]);
    assert(r.drop_first().drop_first() =~= seq![r[2], r[3]]);
    assert(r.drop_first().drop_first().drop_first() =~= seq![r[3]]);
    assert(r.drop_first().drop_first().drop_first().drop_first() =~= Seq::<Seq<char>>::empty());
    reveal_with_fuel(crate::rules::first_redirect, 6);
}

/// The points a firing hook adds follow its lower-cased severity: critical
/// 70, high 40, medium 20, low 10, anything else 5.
pub proof fn law_hook_points(h: HookView)
    ensures
        crate::text::unicode_lowercase(h.severity) == "critical"@ ==> hook_finding(h).points == 70,
        crate::text::unicode_lowercase(h.severity) == "high"@ ==> hook_finding(h).points == 40,
        crate::text::unicode_lowercase(h.severity) == "medium"@ ==> hook_finding(h).points == 20,
        crate::text::unicode_lowercase(h.severity) == "low"@ ==> hook_finding(h).points == 10,
        crate::text::unicode_lowercase(h.severity) != "critical"@
            && crate::text::unicode_lowercase(h.severity) != "high"@
            && crate::text::unicode_lowercase(h.severity) != "medium"@
            && crate::text::unicode_lowercase(h.severity) != "low"@ ==> hook_finding(h).points == 5,
        hook_finding(h).threat == (ThreatView {
            category: h.category,
            severity: h.severity,
            description: h.description,
            matched_pattern: Some(h.pattern),
        }),
{
    reveal_strlit("critical");
    reveal_strlit("high");
    reveal_strlit("medium");
    reveal_strlit("low");
    assert("critical"@.len() == 8);
    assert("high"@.len() == 4);
    assert("medium"@.len() == 6);
    assert("low"@.len() == 3);
}

} // verus!
