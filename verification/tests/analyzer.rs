use secureweb_analyzer::SecurityAnalyzer;
use secureweb_analyzer::digest::fingerprint_of;
use secureweb_analyzer::model::{AnalysisResult, AnalyzerConfig};
use secureweb_analyzer::text::{push_decimal, to_hex_lower};
use secureweb_analyzer::url_parts::{parse_url, url_host, ParsedUrl};

fn categories(r: &AnalysisResult) -> Vec<String> {
    r.threats.iter().map(|t| t.category.clone()).collect()
}

fn config(url: bool, content: bool, scripts: bool, crypto: bool, blocklist: &[&str]) -> AnalyzerConfig {
    AnalyzerConfig {
        enable_url_analysis: url,
        enable_content_analysis: content,
        enable_script_detection: scripts,
        enable_crypto_checks: crypto,
        custom_blocklist: blocklist.iter().map(|s| s.to_string()).collect(),
    }
}

#[test]
fn default_config_values() {
    let c = AnalyzerConfig::default();
    assert!(c.enable_url_analysis);
    assert!(c.enable_content_analysis);
    assert!(c.enable_script_detection);
    assert!(!c.enable_crypto_checks);
    assert!(c.custom_blocklist.is_empty());
}

#[test]
fn builtin_patterns_all_compile() {
    let a = SecurityAnalyzer::try_new();
    assert!(a.is_some());
    let stats = a.unwrap().get_stats();
    assert_eq!(stats.total_analyzed, 0);
    assert_eq!(stats.total_threats, 0);
}

#[test]
fn clean_https_url_is_safe() {
    let mut a = SecurityAnalyzer::new();
    let r = a.analyze_url("https://example.com/", None);
    assert_eq!(r.risk_points, 0);
    assert_eq!(r.threat_level, "SAFE");
    assert!(r.threats.is_empty());
    assert_eq!(r.content_hash, "0f115db062b7c0dd030b16878c99dea5c354b49dc37b38eb8846179c7783e9d7");
    assert_eq!(r.analysis_time_us, 0);
    let s = a.get_stats();
    assert_eq!((s.total_analyzed, s.total_threats), (1, 0));
}

#[test]
fn plain_http_is_flagged() {
    let mut a = SecurityAnalyzer::new();
    let r = a.analyze_url("http://example.com/", None);
    assert_eq!(r.risk_points, 15);
    assert_eq!(r.threat_level, "LOW");
    assert_eq!(r.threats.len(), 1);
    let t = &r.threats[0];
    assert_eq!(t.category, "connection");
    assert_eq!(t.severity, "medium");
    assert_eq!(t.description, "Connexion non chiffrée (HTTP au lieu de HTTPS)");
    assert_eq!(t.matched_pattern.as_deref(), Some("http"));
    assert_eq!(r.content_hash, "2a1b402420ef46577471cdc7409b0fa2c6a204db316e59ade2d805435489a067");
    let s = a.get_stats();
    assert_eq!((s.total_analyzed, s.total_threats), (1, 1));
}

#[test]
fn known_domain_with_phishing_is_critical_and_clamped() {
    let mut a = SecurityAnalyzer::new();
    let r = a.analyze_url("http://malware-site.xyz/login", None);
    assert_eq!(categories(&r), vec!["connection", "blacklist", "phishing"]);
    assert_eq!(r.threats[1].description, "Domaine présent dans la liste noire : malware-site.xyz");
    assert_eq!(r.threats[1].matched_pattern.as_deref(), Some("malware-site.xyz"));
    assert_eq!(r.threats[2].matched_pattern.as_deref(), Some("login"));
    assert_eq!(r.risk_points, 100);
    assert_eq!(r.threat_level, "CRITICAL");
}

#[test]
fn invalid_url_is_low() {
    let mut a = SecurityAnalyzer::new();
    let r = a.analyze_url("not a url", None);
    assert_eq!(categories(&r), vec!["invalid_url"]);
    assert_eq!(r.threats[0].severity, "low");
    assert_eq!(r.threats[0].description, "L'URL n'a pas pu être parsée");
    assert_eq!(r.threats[0].matched_pattern, None);
    assert_eq!(r.risk_points, 10);
    assert_eq!(r.threat_level, "LOW");
    assert_eq!(r.content_hash, "d8b5bf9b9fd4760c61234d12614d80c96892c75fe92d8819c6320f1ca6b3533d");
}

#[test]
fn many_subdomains_are_suspicious() {
    let mut a = SecurityAnalyzer::new();
    let r = a.analyze_url("https://a.b.c.d.example.com/", None);
    assert_eq!(categories(&r), vec!["suspicious_domain"]);
    assert_eq!(r.threats[0].matched_pattern.as_deref(), Some("a.b.c.d.example.com"));
    assert_eq!(r.risk_points, 10);
    assert_eq!(r.threat_level, "LOW");
}

#[test]
fn url_shortener_is_medium() {
    let mut a = SecurityAnalyzer::new();
    let r = a.analyze_url("https://bit.ly/abc", None);
    assert_eq!(categories(&r), vec!["url_shortener"]);
    assert_eq!(r.threats[0].description, "Utilisation d'un service de raccourcissement d'URL");
    assert_eq!(r.risk_points, 25);
    assert_eq!(r.threat_level, "MEDIUM");
}

#[test]
fn ip_host_is_reported() {
    let mut a = SecurityAnalyzer::new();
    let r = a.analyze_url("http://192.168.1.1:8080/", Some("192.168.1.1".to_string()));
    assert_eq!(categories(&r), vec!["connection", "ip_address"]);
    assert_eq!(r.threats[1].description, "Accès direct à une adresse IP : 192.168.1.1");
    assert_eq!(r.threats[1].matched_pattern.as_deref(), Some("192.168.1.1"));
    assert_eq!(r.risk_points, 30);
    assert_eq!(r.threat_level, "MEDIUM");
}

#[test]
fn malware_download_url() {
    let mut a = SecurityAnalyzer::new();
    let r = a.analyze_url("https://example.com/download/setup.exe", None);
    assert_eq!(categories(&r), vec!["malware_url"]);
    assert_eq!(r.threats[0].matched_pattern.as_deref(), Some("download/setup.exe"));
    assert_eq!(r.risk_points, 50);
    assert_eq!(r.threat_level, "HIGH");
}

#[test]
fn configured_blocklist_ignores_ascii_case() {
    let mut a = SecurityAnalyzer::new();
    a.configure(config(true, true, true, false, &["Evil.COM"]));
    let r = a.analyze_url("https://evil.com/", None);
    assert_eq!(categories(&r), vec!["blacklist"]);
    assert_eq!(r.threats[0].severity, "critical");
    assert_eq!(r.threats[0].description, "Domaine ajouté à la liste noire : evil.com");
    assert_eq!(r.risk_points, 90);
    assert_eq!(r.threat_level, "CRITICAL");
}

#[test]
fn added_domain_is_blacklisted() {
    let mut a = SecurityAnalyzer::new();
    assert!(a.analyze_url("https://bad.example/", None).threats.is_empty());
    a.add_to_blocklist("bad.example");
    a.add_to_blocklist("bad.example");
    let r = a.analyze_url("https://bad.example/", None);
    assert_eq!(categories(&r), vec!["blacklist"]);
    assert_eq!(r.risk_points, 80);
    assert_eq!(r.threat_level, "CRITICAL");
}

#[test]
fn disabled_url_analysis_reports_nothing() {
    let mut a = SecurityAnalyzer::new();
    a.configure(config(false, true, true, false, &[]));
    let r = a.analyze_url("http://malware-site.xyz/login", None);
    assert!(r.threats.is_empty());
    assert_eq!(r.risk_points, 0);
    assert_eq!(r.threat_level, "SAFE");
    assert_eq!(r.content_hash, fingerprint_of("http://malware-site.xyz/login"));
    assert_eq!(a.get_stats().total_analyzed, 1);
}

#[test]
fn url_hook_fires() {
    let mut a = SecurityAnalyzer::new();
    assert!(a.register_hook("url", "tracking", "custom", "Critical", "Suivi détecté"));
    let r = a.analyze_url("https://example.com/tracking", None);
    assert_eq!(categories(&r), vec!["custom"]);
    assert_eq!(r.threats[0].severity, "Critical");
    assert_eq!(r.threats[0].description, "Suivi détecté");
    assert_eq!(r.threats[0].matched_pattern.as_deref(), Some("tracking"));
    assert_eq!(r.risk_points, 70);
    assert_eq!(r.threat_level, "CRITICAL");
}

#[test]
fn hook_registration_is_checked() {
    let mut a = SecurityAnalyzer::new();
    assert!(!a.register_hook("other", "x", "c", "low", "d"));
    assert!(!a.register_hook("content", "(", "c", "low", "d"));
    let r = a.analyze_content("x (");
    assert!(r.threats.is_empty());
}

#[test]
fn hook_severity_weights() {
    let mut a = SecurityAnalyzer::new();
    assert!(a.register_hook("content", "alpha", "c1", "HIGH", "d1"));
    assert!(a.register_hook("content", "alpha", "c2", "medium", "d2"));
    assert!(a.register_hook("content", "alpha", "c3", "low", "d3"));
    assert!(a.register_hook("content", "alpha", "c4", "other", "d4"));
    assert!(a.register_hook("url", "alpha", "c5", "critical", "d5"));
    let r = a.analyze_content("alpha");
    assert_eq!(categories(&r), vec!["c1", "c2", "c3", "c4"]);
    assert_eq!(r.risk_points, 75);
    assert_eq!(r.threat_level, "CRITICAL");
}

#[test]
fn clean_content_is_safe() {
    let mut a = SecurityAnalyzer::new();
    let r = a.analyze_content("<p>hello</p>");
    assert!(r.threats.is_empty());
    assert_eq!(r.threat_level, "SAFE");
    assert_eq!(r.content_hash, "a5652be1ca864d36d25cfb54a41f384e2de1b3acf7513a925d72ed7258fdc0ae");
}

#[test]
fn suspicious_script_is_found() {
    let mut a = SecurityAnalyzer::new();
    let r = a.analyze_content("<script>eval(typeof x)</script>");
    assert_eq!(categories(&r), vec!["suspicious_script"]);
    assert_eq!(r.threats[0].matched_pattern.as_deref(), Some("eval(typeof"));
    assert_eq!(r.risk_points, 35);
    assert_eq!(r.threat_level, "MEDIUM");
}

#[test]
fn script_detection_can_be_off() {
    let mut a = SecurityAnalyzer::new();
    a.configure(config(true, true, false, false, &[]));
    let r = a.analyze_content("<script>eval(typeof x)</script>");
    assert!(r.threats.is_empty());
}

#[test]
fn data_uris_are_counted() {
    let mut a = SecurityAnalyzer::new();
    let r = a.analyze_content("data: DATA: data: data: Data: data:");
    assert_eq!(categories(&r), vec!["data_uri_abuse"]);
    assert_eq!(r.threats[0].description, "Nombre anormal de data URIs (6)");
    assert_eq!(r.risk_points, 20);
    let r = a.analyze_content("data: data: data: data: data:");
    assert!(r.threats.is_empty());
}

#[test]
fn iframes_are_counted() {
    let mut a = SecurityAnalyzer::new();
    let r = a.analyze_content("<iframe><IFRAME><iframe><iframe>");
    assert_eq!(categories(&r), vec!["hidden_iframes"]);
    assert_eq!(r.threats[0].description, "Nombre anormal d'iframes (4)");
    assert_eq!(r.risk_points, 25);
    assert_eq!(r.threat_level, "MEDIUM");
}

#[test]
fn redirect_reported_once() {
    let mut a = SecurityAnalyzer::new();
    let r = a.analyze_content("window.location = 'a'; location.href = 'b';");
    assert_eq!(categories(&r), vec!["suspicious_script", "redirect"]);
    assert_eq!(r.threats[1].matched_pattern.as_deref(), Some(r"window\.location\s*="));
    assert_eq!(r.threats[1].description, "Redirection JavaScript détectée");
    assert_eq!(r.risk_points, 45);
    assert_eq!(r.threat_level, "HIGH");
}

#[test]
fn crypto_checks_when_enabled() {
    let mut a = SecurityAnalyzer::new();
    let r = a.analyze_content("connect your metamask wallet");
    assert!(r.threats.is_empty());
    a.configure(config(true, true, true, true, &[]));
    let r = a.analyze_content("connect your metamask wallet");
    assert_eq!(categories(&r), vec!["crypto_stealer", "crypto_stealer"]);
    assert_eq!(r.threats[0].matched_pattern.as_deref(), Some("metamask"));
    assert_eq!(r.threats[1].matched_pattern.as_deref(), Some("connect your metamask wallet"));
    assert_eq!(r.risk_points, 90);
    assert_eq!(r.threat_level, "CRITICAL");
}

#[test]
fn disabled_content_analysis_reports_nothing() {
    let mut a = SecurityAnalyzer::new();
    a.configure(config(true, false, true, true, &[]));
    let r = a.analyze_content("<iframe><iframe><iframe><iframe>");
    assert!(r.threats.is_empty());
    assert_eq!(r.threat_level, "SAFE");
}

#[test]
fn scan_event_dispatches_by_type() {
    let mut a = SecurityAnalyzer::new();
    let r = a.scan_event("url", "http://example.com/", None);
    assert_eq!(categories(&r), vec!["connection"]);
    let r = a.scan_event("content", "http://example.com/", None);
    assert!(r.threats.is_empty());
    let r = a.scan_event("other", "<iframe><iframe><iframe><iframe>", None);
    assert_eq!(categories(&r), vec!["hidden_iframes"]);
    let s = a.get_stats();
    assert_eq!((s.total_analyzed, s.total_threats), (3, 2));
}

#[test]
fn quick_scan_summaries() {
    let mut a = SecurityAnalyzer::new();
    assert_eq!(
        a.quick_scan("http://example.com/", true, None),
        "[LOW] Score: 0.15 | Menaces: 1 | Connexion non chiffrée (HTTP au lieu de HTTPS)"
    );
    assert_eq!(a.quick_scan("<p>hello</p>", false, None), "[SAFE] Score: 0.00 | Menaces: 0 | Aucune menace");
    assert_eq!(
        a.quick_scan("http://malware-site.xyz/login", true, None),
        "[CRITICAL] Score: 1.00 | Menaces: 3 | Connexion non chiffrée (HTTP au lieu de HTTPS)"
    );
    assert_eq!(a.get_stats().total_analyzed, 3);
}

#[test]
fn analyze_parsed_url_uses_given_parts() {
    let mut a = SecurityAnalyzer::new();
    let parts = ParsedUrl {
        scheme: "ftp".to_string(),
        host: Some("steal-info.gq".to_string()),
        path: "/".to_string(),
        query: Some("a=1".to_string()),
    };
    let r = a.analyze_parsed_url("anything", Some(&parts), None);
    assert_eq!(categories(&r), vec!["connection", "blacklist"]);
    assert_eq!(r.risk_points, 95);
    let r = a.analyze_parsed_url("anything", None, None);
    assert_eq!(categories(&r), vec!["invalid_url"]);
}

#[test]
fn url_parts_are_read() {
    let u = parse_url("https://Example.COM:8080/a?b=1#frag").unwrap();
    assert_eq!(u.scheme, "https");
    assert_eq!(u.host.as_deref(), Some("example.com"));
    assert_eq!(u.path, "/a");
    assert_eq!(u.query.as_deref(), Some("b=1"));
    assert!(parse_url("no scheme").is_none());
    assert_eq!(url_host("http://10.0.0.1/x").as_deref(), Some("10.0.0.1"));
    assert_eq!(url_host("mailto:a@b.c"), None);
}

#[test]
fn text_helpers() {
    assert_eq!(fingerprint_of("abc"), "ba7816bf8f01cfea414140de5dae2223b00361a396177a9cb410ff61f20015ad");
    assert_eq!(to_hex_lower(&[0x00, 0xab, 0x7f]), "00ab7f");
    let mut s = String::from("n=");
    push_decimal(&mut s, 1205);
    assert_eq!(s, "n=1205");
}

#[test]
fn hooks_on_login_and_cookies() {
    let mut a = SecurityAnalyzer::new();
    assert!(a.register_hook("url", "(?i)login|password", "custom_url", "high", "Page de connexion"));
    assert!(a.register_hook("content", r"document\.cookie", "custom_content", "medium", "Accès aux cookies"));
    let r = a.analyze_url("https://example.com/login", None);
    assert_eq!(categories(&r), vec!["phishing", "custom_url"]);
    assert_eq!(r.threats[1].matched_pattern.as_deref(), Some("(?i)login|password"));
    assert_eq!(r.risk_points, 80);
    assert_eq!(r.threat_level, "CRITICAL");
    let r = a.analyze_content("var c = document.cookie;");
    assert_eq!(categories(&r), vec!["custom_content"]);
    assert_eq!(r.risk_points, 20);
    assert_eq!(r.threat_level, "MEDIUM");
}

#[test]
fn level_rises_with_score() {
    let mut a = SecurityAnalyzer::new();
    assert!(a.register_hook("content", "a", "ca", "other", "da"));
    assert!(a.register_hook("content", "b", "cb", "medium", "db"));
    assert!(a.register_hook("content", "c", "cc", "high", "dc"));
    assert!(a.register_hook("content", "d", "cd", "critical", "dd"));
    let levels: Vec<(u64, String)> = ["x", "a", "ab", "abc", "abcd"]
        .iter()
        .map(|t| {
            let r = a.analyze_content(t);
            (r.risk_points, r.threat_level)
        })
        .collect();
    assert_eq!(
        levels,
        vec![
            (0, "SAFE".to_string()),
            (5, "LOW".to_string()),
            (25, "MEDIUM".to_string()),
            (65, "HIGH".to_string()),
            (100, "CRITICAL".to_string()),
        ]
    );
}
