//! Local analysis of URLs and page content for signs of phishing, malware,
//! suspicious scripts and crypto-wallet theft.

pub mod patterns;
pub mod text;
pub mod digest;
pub mod url_parts;
pub mod model;
pub mod report;
pub mod rules;
pub mod analyzer;
pub mod laws;

pub use analyzer::{AnalyzerStats, SecurityAnalyzer};
pub use model::{AnalysisResult, AnalyzerConfig, CustomHook, Threat};
