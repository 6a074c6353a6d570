//! The configuration holder: validates the raw configuration payload once at
//! startup and acts as the factory for per-transaction observers.

use vstd::prelude::*;
use crate::learner::DependencyLearner;

verus! {

/// The string value of the named top-level member of a JSON object, when the
/// bytes parse as one. `None` means the bytes are rejected: they are not a
/// well-formed JSON object, or the member is present but is neither a string
/// nor null. `Some(None)` means the object is accepted and the member is
/// absent (or null); `Some(Some(t))` means the member is the string `t`. The
/// outcome is a function of the bytes and the key alone.
pub uninterp spec fn json_str_member(bytes: Seq<u8>, key: Seq<char>) -> Option<Option<Seq<char>>>;

/// Relies on `serde_json::from_slice::<serde_json::Value>` and
/// `serde_json::Map::get`: the bytes are parsed as a JSON document and the
/// named top-level member is looked up, an outcome that depends on the bytes
/// and the key alone.
#[verifier::external_body]
fn json_parse_str_member(bytes: &[u8], key: &str) -> (r: Result<Option<String>, ()>)
    ensures
        r matches Ok(v) ==> json_str_member(bytes@, key@) == Some(v.deep_view()),
        r is Err ==> json_str_member(bytes@, key@) is None,
{
    match serde_json::from_slice::<serde_json::Value>(bytes) {
        Ok(serde_json::Value::Object(m)) => match m.get(key) {
            None => Ok(None),
            Some(serde_json::Value::Null) => Ok(None),
            Some(serde_json::Value::String(s)) => Ok(Some(s.clone())),
            Some(_) => Err(()),
        },
        _ => Err(()),
    }
}

/// The one fatal condition in the system: the configuration payload does not
/// parse against the recognized schema.
#[derive(Debug, PartialEq, Eq, Structural)]
pub enum ConfigError {
    Malformed,
}

/// Validated module configuration: the optional name of the response header
/// under which an inferred dependency edge is published. Absent means the
/// edge is computed but not published.
pub struct DependencyLearnerConfig {
    pub response_header: Option<String>,
}

impl DependencyLearnerConfig {
    /// The default configuration publishes no response header.
    pub fn new_default() -> (r: Self)
        ensures
            r.response_header is None,
    {
        DependencyLearnerConfig { response_header: None }
    }
}

impl Clone for DependencyLearnerConfig {
    fn clone(&self) -> (r: Self)
        ensures
            r == *self,
    {
        DependencyLearnerConfig {
            response_header: match &self.response_header {
                Some(h) => Some(h.clone()),
                None => None,
            },
        }
    }
}

/// The process-wide configuration holder, created once for the module's
/// lifetime. It owns the validated configuration and produces one observer
/// per HTTP transaction.
pub struct DependencyLearnerRoot {
    pub config: DependencyLearnerConfig,
}

impl DependencyLearnerRoot {
    /// A fresh holder carrying the default configuration.
    pub fn new() -> (r: Self)
        ensures
            r.config.response_header is None,
    {
        DependencyLearnerRoot { config: DependencyLearnerConfig::new_default() }
    }

    /// Applies a configuration payload. An absent payload keeps the current
    /// configuration; a payload that parses as a JSON object installs the
    /// value of its `response_header` member (absent member: no publication
    /// header); anything else is rejected as malformed, with no state change.
    pub fn on_configure(&mut self, raw: Option<Vec<u8>>) -> (r: Result<(), ConfigError>)
        ensures
            raw is None ==> r is Ok && final(self).config == old(self).config,
            raw matches Some(b) ==> match json_str_member(b@, "response_header"@) {
                Some(h) => r is Ok && final(self).config.response_header.deep_view() == h,
                None => (r matches Err(ConfigError::Malformed)) && final(self).config
                    == old(self).config,
            },
    {
        match raw {
            None => Ok(()),
            Some(b) => match json_parse_str_member(b.as_slice(), "response_header") {
                Ok(h) => {
                    self.config = DependencyLearnerConfig { response_header: h };
                    Ok(())
                },
                Err(()) => Err(ConfigError::Malformed),
            },
        }
    }

    /// Produces a fresh per-transaction observer holding a value-copy of the
    /// current configuration and all-empty observation state.
    pub fn create_http_context(&self) -> (r: DependencyLearner)
        ensures
            !r.notified,
            r.authority is None,
            r.path is None,
            r.upstream_cluster is None,
            r.downstream_peer_certificate is None,
            r.config == self.config,
    {
        DependencyLearner::new(self.config.clone())
    }
}

} // verus!
