//! What the analysis finds: the built-in patterns and, for a URL or a page
//! content, the findings in the order they are reported.

use vstd::prelude::*;
use crate::model::{finding, ConfigView, Finding, HookView};
use crate::patterns::{regex_compiles, regex_first_match, regex_match_count};
use crate::text::{contains_sub, count_char, decimal, eq_ignore_ascii_case, unicode_lowercase};
use crate::url_parts::UrlView;

verus! {

/// Phishing patterns, matched against the URL.
pub open spec fn phishing_sources() -> Seq<Seq<char>> {
    seq![
        r"(?i)login|signin|account|password|credential|verify|secure|banking"@,
        r"(?i)update.*(?:account|payment|billing)"@,
        r"(?i)(?:free|win|prize|lottery|lucky).*\$.+"@,
        r"(?i)(?:paypal|amazon|apple|google|microsoft|facebook).*(?:login|verify|confirm)"@,
    ]
}

/// Malicious-URL patterns, matched against the URL.
pub open spec fn malware_url_sources() -> Seq<Seq<char>> {
    seq![
        r"(?i)\.(?:exe|dll|scr|bat|ps1|vbs|jar|apk|msi)\.(?:com|net|org|xyz|top|gq|ml|tk)"@,
        r"(?i)(?:download|get|file|dl).*(?:\.exe|\.zip|\.rar)"@,
        r"(?i)(?:redirect|goto|out|track|click)\?.*(?:url|to|link|r)=http"@,
        r"(?i)\d{1,3}(?:\.\d{1,3}){3}:\d{4,}"@,
    ]
}

/// Suspicious-script patterns, matched against page content.
pub open spec fn script_sources() -> Seq<Seq<char>> {
    seq![
        r"(?i)eval\s*\(\s*(?:typeof|constructor|prototype)"@,
        r"(?i)document\.write\s*\(\s*(?:atob|fromCharCode)"@,
        r"(?i)(?:base64|btoa|atob).*(?:eval|Function|setTimeout)"@,
        r"(?i)(?:document\.cookie|navigator|screen|location)\s*="@,
        r#"(?i)(?:String\.fromCharCode|\\x[0-9a-f]{2}){10,}"#@,
        r#"(?i)new\s+Function\s*\(.*['"].*['"]\s*\)"#@,
        r"(?i)(?:onerror|onload|onmouseover)\s*=\s*(?:eval|Function)"@,
    ]
}

/// Crypto-wallet theft patterns, matched against page content.
pub open spec fn crypto_sources() -> Seq<Seq<char>> {
    seq![
        r"(?i)(?:bitcoin|btc|eth|ethereum|wallet|metamask|phantom|keplr)"@,
        r"(?i)(?:mnemonic|seed.?phrase|private.?key|keystore)"@,
        r"(?i)(?:connect|import).*(?:wallet|account)"@,
    ]
}

/// The pattern whose matches in page content are counted as data URIs.
pub open spec fn data_uri_source() -> Seq<char> {
    r"(?i)data:"@
}

/// The pattern whose matches in page content are counted as iframes.
pub open spec fn iframe_source() -> Seq<char> {
    r"(?i)<iframe"@
}

/// JavaScript redirection patterns, tried in order on page content.
pub open spec fn redirect_sources() -> Seq<Seq<char>> {
    seq![
        r"window\.location\s*="@,
        r"document\.location\s*="@,
        r"location\.href\s*="@,
        r"location\.replace\("@,
    ]
}

/// Domains known to be threats when an analyser is created.
pub open spec fn initial_threat_domains() -> Seq<Seq<char>> {
    seq![
        "malware-site.xyz"@,
        "phishing-login.tk"@,
        "steal-info.gq"@,
        "fake-bank.ml"@,
        "crypto-scam.top"@,
        "ransomware.cf"@,
    ]
}

/// URL-shortening services.
pub open spec fn shortener_domains() -> Seq<Seq<char>> {
    seq!["bit.ly"@, "tinyurl.com"@, "goo.gl"@, "t.co"@, "shorturl.at"@]
}

/// Every built-in pattern compiles.
pub open spec fn builtin_patterns_compile() -> bool {
    &&& forall|i: int| 0 <= i < phishing_sources().len() ==> regex_compiles(#[trigger] phishing_sources()[i])
    &&& forall|i: int| 0 <= i < malware_url_sources().len() ==> regex_compiles(#[trigger] malware_url_sources()[i])
    &&& forall|i: int| 0 <= i < script_sources().len() ==> regex_compiles(#[trigger] script_sources()[i])
    &&& forall|i: int| 0 <= i < crypto_sources().len() ==> regex_compiles(#[trigger] crypto_sources()[i])
    &&& regex_compiles(data_uri_source())
    &&& regex_compiles(iframe_source())
}

/// One finding per pattern that matches the text, in pattern order, carrying
/// the matched text.
pub open spec fn pattern_findings(
    sources: Seq<Seq<char>>,
    text: Seq<char>,
    category: Seq<char>,
    severity: Seq<char>,
    description: Seq<char>,
    points: nat,
) -> Seq<Finding>
    decreases sources.len(),
{
    if sources.len() == 0 {
        Seq::empty()
    } else {
        let before = pattern_findings(sources.drop_last(), text, category, severity, description, points);
        match regex_first_match(sources.last(), text) {
            Some(m) => before.push(finding(category, severity, description, Some(m), points)),
            None => before,
        }
    }
}

/// The points a custom hook adds, by its lower-cased severity.
pub open spec fn severity_points(lower: Seq<char>) -> nat {
    if lower == "critical"@ {
        70
    } else if lower == "high"@ {
        40
    } else if lower == "medium"@ {
        20
    } else if lower == "low"@ {
        10
    } else {
        5
    }
}

/// The finding of a custom hook that fired.
pub open spec fn hook_finding(h: HookView) -> Finding {
    finding(h.category, h.severity, h.description, Some(h.pattern), severity_points(unicode_lowercase(h.severity)))
}

/// One finding per hook for the target whose pattern matches the text, in
/// registration order.
pub open spec fn hook_findings(hooks: Seq<HookView>, target: Seq<char>, text: Seq<char>) -> Seq<Finding>
    decreases hooks.len(),
{
    if hooks.len() == 0 {
        Seq::empty()
    } else {
        let before = hook_findings(hooks.drop_last(), target, text);
        let h = hooks.last();
        if h.target == target && regex_first_match(h.pattern, text) is Some {
            before.push(hook_finding(h))
        } else {
            before
        }
    }
}

/// A single finding when the condition holds, none otherwise.
pub open spec fn finding_if(cond: bool, f: Finding) -> Seq<Finding> {
    if cond {
        seq![f]
    } else {
        Seq::empty()
    }
}

/// The text of an optional part, or the empty text.
pub open spec fn or_empty(s: Option<Seq<char>>) -> Seq<char> {
    match s {
        Some(t) => t,
        None => Seq::empty(),
    }
}

/// The URL as it is matched against patterns: scheme, `://`, host, path, and
/// `?` with the query where the query is not empty.
pub open spec fn matched_url(u: UrlView) -> Seq<char> {
    let query = or_empty(u.3);
    let base = u.0 + "://"@ + or_empty(u.1) + u.2;
    if query.len() == 0 {
        base
    } else {
        base + "?"@ + query
    }
}

/// The host is in the configured blocklist, up to ASCII case.
pub open spec fn blocklist_part(config: ConfigView, host: Seq<char>) -> Seq<Finding> {
    finding_if(
        exists|i: int| 0 <= i < config.custom_blocklist.len()
            && #[trigger] eq_ignore_ascii_case(config.custom_blocklist[i], host),
        finding("blacklist"@, "critical"@, "Domaine ajouté à la liste noire : "@ + host, Some(host), 90),
    )
}

/// The connection is not encrypted.
pub open spec fn scheme_part(scheme: Seq<char>) -> Seq<Finding> {
    finding_if(
        scheme != "https"@ && scheme != "wss"@,
        finding("connection"@, "medium"@, "Connexion non chiffrée (HTTP au lieu de HTTPS)"@, Some(scheme), 15),
    )
}

/// The host is a known threat domain.
pub open spec fn known_domain_part(threat_domains: Set<Seq<char>>, host: Seq<char>) -> Seq<Finding> {
    finding_if(
        threat_domains.contains(host),
        finding("blacklist"@, "critical"@, "Domaine présent dans la liste noire : "@ + host, Some(host), 80),
    )
}

/// Malicious-URL patterns that match the URL.
pub open spec fn malware_part(full: Seq<char>) -> Seq<Finding> {
    pattern_findings(malware_url_sources(), full, "malware_url"@, "high"@, "Pattern d'URL malveillante détecté"@, 50)
}

/// Phishing patterns that match the URL.
pub open spec fn phishing_part(full: Seq<char>) -> Seq<Finding> {
    pattern_findings(phishing_sources(), full, "phishing"@, "high"@, "Tentative de phishing détectée"@, 40)
}

/// The host has more than three dots.
pub open spec fn subdomain_part(host: Seq<char>) -> Seq<Finding> {
    finding_if(
        count_char(host, '.') > 3,
        finding("suspicious_domain"@, "low"@, "Nombre anormal de sous-domaines"@, Some(host), 10),
    )
}

/// The host holds the name of a URL-shortening service.
pub open spec fn shortener_part(host: Seq<char>) -> Seq<Finding> {
    finding_if(
        exists|i: int| 0 <= i < shortener_domains().len()
            && #[trigger] contains_sub(host, shortener_domains()[i]),
        finding("url_shortener"@, "medium"@, "Utilisation d'un service de raccourcissement d'URL"@, Some(host), 25),
    )
}

/// The host is an IP address.
pub open spec fn ip_part(host: Seq<char>, host_ip: Option<Seq<char>>) -> Seq<Finding> {
    finding_if(
        host_ip is Some,
        finding("ip_address"@, "low"@, "Accès direct à une adresse IP : "@ + or_empty(host_ip), Some(host), 15),
    )
}

/// The findings of a URL that was parsed, before the custom hooks.
pub open spec fn parsed_url_findings(
    config: ConfigView,
    threat_domains: Set<Seq<char>>,
    u: UrlView,
    host_ip: Option<Seq<char>>,
) -> Seq<Finding> {
    let host = or_empty(u.1);
    let full = matched_url(u);
    blocklist_part(config, host) + scheme_part(u.0) + known_domain_part(threat_domains, host)
        + malware_part(full) + phishing_part(full) + subdomain_part(host) + shortener_part(host)
        + ip_part(host, host_ip)
}

/// Appending parts one after the other appends their concatenation.
pub proof fn lemma_append_parts(
    s: Seq<Finding>,
    p1: Seq<Finding>,
    p2: Seq<Finding>,
    p3: Seq<Finding>,
    p4: Seq<Finding>,
    p5: Seq<Finding>,
    p6: Seq<Finding>,
    p7: Seq<Finding>,
    p8: Seq<Finding>,
)
    ensures
        s + p1 + p2 + p3 + p4 + p5 + p6 + p7 + p8 == s + (p1 + p2 + p3 + p4 + p5 + p6 + p7 + p8),
{
    assert(s + p1 + p2 + p3 + p4 + p5 + p6 + p7 + p8 =~= s + (p1 + p2 + p3 + p4 + p5 + p6 + p7 + p8));
}

/// The findings of a URL whose parts, if it parsed, are `parsed`, and whose
/// host, read as an IP address, is `host_ip`.
pub open spec fn url_findings(
    config: ConfigView,
    threat_domains: Set<Seq<char>>,
    hooks: Seq<HookView>,
    parsed: Option<UrlView>,
    host_ip: Option<Seq<char>>,
) -> Seq<Finding> {
    match parsed {
        Some(u) => parsed_url_findings(config, threat_domains, u, host_ip)
            + hook_findings(hooks, "url"@, matched_url(u)),
        None => seq![finding("invalid_url"@, "low"@, "L'URL n'a pas pu être parsée"@, None, 10)],
    }
}

/// The first redirection pattern that compiles and matches the text.
pub open spec fn first_redirect(sources: Seq<Seq<char>>, text: Seq<char>) -> Option<Seq<char>>
    decreases sources.len(),
{
    if sources.len() == 0 {
        None
    } else if regex_compiles(sources[0]) && regex_first_match(sources[0], text) is Some {
        Some(sources[0])
    } else {
        first_redirect(sources.drop_first(), text)
    }
}

/// Suspicious-script patterns that match the content, when script
/// detection is on.
pub open spec fn script_part(config: ConfigView, text: Seq<char>) -> Seq<Finding> {
    if config.enable_script_detection {
        pattern_findings(script_sources(), text, "suspicious_script"@, "high"@,
            "Pattern de script JavaScript suspect détecté"@, 35)
    } else {
        Seq::empty()
    }
}

/// Crypto-theft patterns that match the content, when crypto checks are on.
pub open spec fn crypto_part(config: ConfigView, text: Seq<char>) -> Seq<Finding> {
    if config.enable_crypto_checks {
        pattern_findings(crypto_sources(), text, "crypto_stealer"@, "high"@,
            "Pattern de vol de cryptomonnaie détecté"@, 45)
    } else {
        Seq::empty()
    }
}

/// More than five data URIs.
pub open spec fn data_uri_part(text: Seq<char>) -> Seq<Finding> {
    let n = regex_match_count(data_uri_source(), text);
    finding_if(
        n > 5,
        finding("data_uri_abuse"@, "medium"@, "Nombre anormal de data URIs ("@ + decimal(n) + ")"@, None, 20),
    )
}

/// More than three iframes.
pub open spec fn iframe_part(text: Seq<char>) -> Seq<Finding> {
    let n = regex_match_count(iframe_source(), text);
    finding_if(
        n > 3,
        finding("hidden_iframes"@, "medium"@, "Nombre anormal d'iframes ("@ + decimal(n) + ")"@, None, 25),
    )
}

/// A JavaScript redirection, reported once, with the first pattern that
/// matched.
pub open spec fn redirect_part(text: Seq<char>) -> Seq<Finding> {
    let r = first_redirect(redirect_sources(), text);
    finding_if(r is Some, finding("redirect"@, "low"@, "Redirection JavaScript détectée"@, r, 10))
}

/// The findings of page content.
pub open spec fn content_findings(config: ConfigView, hooks: Seq<HookView>, text: Seq<char>) -> Seq<Finding> {
    script_part(config, text) + crypto_part(config, text) + data_uri_part(text) + iframe_part(text)
        + redirect_part(text) + hook_findings(hooks, "content"@, text)
}

/// Appending parts one after the other appends their concatenation.
pub proof fn lemma_append_content_parts(
    s: Seq<Finding>,
    p1: Seq<Finding>,
    p2: Seq<Finding>,
    p3: Seq<Finding>,
    p4: Seq<Finding>,
    p5: Seq<Finding>,
    p6: Seq<Finding>,
)
    ensures
        s + p1 + p2 + p3 + p4 + p5 + p6 == s + (p1 + p2 + p3 + p4 + p5 + p6),
{
    assert(s + p1 + p2 + p3 + p4 + p5 + p6 =~= s + (p1 + p2 + p3 + p4 + p5 + p6));
}

} // verus!
