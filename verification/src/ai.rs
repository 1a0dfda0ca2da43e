//! Status of the local AI engine: whether it is installed, and the OpenAI-compatible API
//! address it serves while running.
use vstd::prelude::*;
use crate::text::{concat, decimal, decimal_string};

verus! {

/// What is known of the local LLM engine: whether its binary is installed, and the port
/// it listens on while it is running.
#[derive(Debug, Clone, Copy)]
pub struct EngineState {
    pub installed: bool,
    pub running_port: Option<u16>,
}

/// AI engine status queries.
pub struct AiStatus;

/// The API base address of an engine listening on `port`.
pub open spec fn api_url_for(port: u16) -> Seq<char> {
    "http://127.0.0.1:"@ + decimal(port as nat) + "/v1"@
}

impl AiStatus {
    /// Whether the LLM engine binary is installed.
    pub fn is_installed(engine: &EngineState) -> (b: bool)
        ensures
            b == engine.installed,
    {
        engine.installed
    }

    /// The OpenAI-compatible API base address while the engine runs, e.g.
    /// `"http://127.0.0.1:1234/v1"`; `None` when it does not run.
    pub fn api_url(engine: &EngineState) -> (r: Option<String>)
        ensures
            match engine.running_port {
                Some(port) => r is Some && r->0@ == api_url_for(port),
                None => r is None,
            },
    {
        match engine.running_port {
            Some(port) => {
                let digits = decimal_string(port as u64);
                let a = concat("http://127.0.0.1:", digits.as_str());
                Some(concat(a.as_str(), "/v1"))
            },
            None => None,
        }
    }
}

/// Whether the LLM engine binary is installed.
pub fn is_ai_installed(engine: &EngineState) -> (b: bool)
    ensures
        b == engine.installed,
{
    AiStatus::is_installed(engine)
}

/// The engine's API base address while it runs.
pub fn ai_api_url(engine: &EngineState) -> (r: Option<String>)
    ensures
        match engine.running_port {
            Some(port) => r is Some && r->0@ == api_url_for(port),
            None => r is None,
        },
{
    AiStatus::api_url(engine)
}

} // verus!
