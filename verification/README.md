# SecureWeb Analyzer engine

A library that analyses URLs and page content locally for signs of phishing,
malicious downloads, suspicious scripts, crypto-wallet theft, hidden iframes
and JavaScript redirections, with user-defined detection hooks and blocklists.
The library is written in Verus: its behaviour is stated in contracts over
the specifications in `src/rules.rs` and proved.

- `src/analyzer.rs`: the analyser, its state and the analyses.
- `src/rules.rs`: what an analysis finds, as specifications.
- `src/model.rs`: threats, results, configuration, hooks, the risk score.
- `src/report.rs`: accumulation of findings and of the clamped score.
- `src/laws.rs`: properties proved of every analysis.
- `src/patterns.rs`, `src/url_parts.rs`, `src/digest.rs`: the regular
  expressions, URL parsing and SHA-256 that the analysis relies on.
- `src/text.rs`: character-level helpers.
- `app/lib.rs`: the WebAssembly bindings (JavaScript values, timing, reading
  a host as an IP address).

The risk score is kept in hundredths (0 to 100); the bindings report it as a
fraction of one.
