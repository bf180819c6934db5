//! Client configuration.

use vstd::prelude::*;

verus! {

/// Settings of one client. They do not change once a client has been built
/// from them.
#[derive(Debug, Clone)]
pub struct UcpConfig {
    /// Base URL of the server, without a trailing slash.
    pub base_url: String,
    /// Credential that is sent as a bearer token, if any.
    pub api_key: Option<String>,
    /// Time allowed for one request, in seconds.
    pub timeout_secs: u64,
    /// Declared number of retries. No operation reads it.
    pub max_retries: u32,
}

/// Settings with their texts as sequences of characters.
pub struct UcpConfigView {
    pub base_url: Seq<char>,
    pub api_key: Option<Seq<char>>,
    pub timeout_secs: u64,
    pub max_retries: u32,
}

impl View for UcpConfig {
    type V = UcpConfigView;

    open spec fn view(&self) -> UcpConfigView {
        UcpConfigView {
            base_url: self.base_url@,
            api_key: match self.api_key {
                Some(key) => Some(key@),
                None => None,
            },
            timeout_secs: self.timeout_secs,
            max_retries: self.max_retries,
        }
    }
}

/// Base URL of a server that runs on the local machine.
pub open spec fn default_base_url() -> Seq<char> {
    "http://localhost:3001"@
}

impl Default for UcpConfig {
    fn default() -> (config: UcpConfig)
        ensures
            config@ == (UcpConfigView {
                base_url: default_base_url(),
                api_key: None,
                timeout_secs: 30,
                max_retries: 3,
            }),
    {
        UcpConfig {
            base_url: "http://localhost:3001".to_string(),
            api_key: None,
            timeout_secs: 30,
            max_retries: 3,
        }
    }
}

} // verus!
