//! Template method: reading a configuration always follows the same steps;
//! only the content parsing differs per file format, so each manager
//! supplies that one step.

use vstd::prelude::*;
use vstd::string::StringExecFns;

verus! {

pub struct Configuration {
    pub endpoint: String,
    pub timeout: u32,
}

/// What `serde_json::from_str` yields for a configuration text: the
/// endpoint and timeout fields of the parsed document, or nothing when the
/// text does not parse to such a document.
pub uninterp spec fn json_config_of(s: Seq<char>) -> Option<(Seq<char>, u32)>;

/// Relies on `serde_json::from_str`: what a text parses to depends on the
/// text alone. The body reads the `endpoint` and `timeout` fields out of
/// the parsed document.
#[verifier::external_body]
fn parse_config_text(s: &str) -> (r: Option<(String, u32)>)
    ensures
        r is Some <==> json_config_of(s@) is Some,
        r matches Some(c) ==> json_config_of(s@) == Some((c.0@, c.1)),
{
    let v: serde_json::Value = serde_json::from_str(s).ok()?;
    let e = match v.get("endpoint") {
        Some(serde_json::Value::String(e)) => e.clone(),
        _ => return None,
    };
    let t = match v.get("timeout") {
        Some(serde_json::Value::Number(n)) => n.as_u64(),
        _ => return None,
    };
    match t.map(u32::try_from) {
        Some(Ok(t)) => Some((e, t)),
        _ => None,
    }
}

/// Whether the returned configuration carries exactly the parsed fields.
pub open spec fn config_matches(r: Option<Configuration>, m: Option<(Seq<char>, u32)>) -> bool {
    match (r, m) {
        (Some(c), Some(p)) => c.endpoint@ == p.0 && c.timeout == p.1,
        (None, None) => true,
        _ => false,
    }
}

/// The template: processing a file always parses the fixed file content;
/// only `parse_file_content` differs between managers.
pub trait ConfigurationManager: Sized {
    /// What this manager's parser yields for a given file content.
    spec fn parsed(&self, content: Seq<char>) -> Option<(Seq<char>, u32)>;

    fn parse_file_content(&self, content: &str) -> (r: Option<Configuration>)
        ensures
            config_matches(r, self.parsed(content@)),
    ;

    fn process_file(&self, path: Option<&str>) -> (r: Option<Configuration>)
        ensures
            config_matches(r, self.parsed("<insert_file_data_here>"@)),
    {
        self.parse_file_content("<insert_file_data_here>")
    }
}

pub struct JSONConfigurationManager;

impl ConfigurationManager for JSONConfigurationManager {
    /// The toy JSON manager parses a fixed document, whatever the content.
    open spec fn parsed(&self, content: Seq<char>) -> Option<(Seq<char>, u32)> {
        json_config_of("{ \"endpoint\": \"https://www.google.com\", \"timeout\": 5000 }"@)
    }

    fn parse_file_content(&self, _content: &str) -> (r: Option<Configuration>) {
        match parse_config_text("{ \"endpoint\": \"https://www.google.com\", \"timeout\": 5000 }") {
            Some(c) => Some(Configuration { endpoint: c.0, timeout: c.1 }),
            None => None,
        }
    }
}

pub struct YAMLConfigurationManager;

impl ConfigurationManager for YAMLConfigurationManager {
    /// The toy YAML manager always yields the same fixed configuration.
    open spec fn parsed(&self, content: Seq<char>) -> Option<(Seq<char>, u32)> {
        Some(("https://twitter.com"@, 10000u32))
    }

    fn parse_file_content(&self, _content: &str) -> (r: Option<Configuration>) {
        Some(Configuration { endpoint: String::from_str("https://twitter.com"), timeout: 10000 })
    }
}

/// Runs whichever manager the caller chose over the fixed file content.
pub fn parse_config<M: ConfigurationManager>(path: Option<&str>, manager: M) -> (r: Option<
    Configuration,
>)
    ensures
        config_matches(r, manager.parsed("<insert_file_data_here>"@)),
{
    manager.process_file(path)
}

} // verus!
