//! The run's configuration, derived from the loaded settings.

use vstd::prelude::*;

use crate::text::{decimal, decimal_string, last_segment, last_segment_of, opt_text};
use crate::types::Mode;

verus! {

/// The loopback port assumed for the local endpoint when none is configured.
pub const DEFAULT_LOCAL_PORT: u16 = 3000;

/// The settings read from the configuration file and the environment, all
/// of them optional.
#[derive(Debug, Clone)]
pub struct ConfigValues {
    pub openai_key: Option<String>,
    pub mode: Option<Mode>,
    pub model_url: Option<String>,
    pub cria_port: Option<u16>,
}

/// The configuration of one run.
#[derive(Debug, Clone)]
pub struct Config {
    pub openai_endpoint: String,
    pub mode: Mode,
    pub data_path: String,
    pub cria_port: Option<u16>,
    pub openai_key: Option<String>,
    pub model_url: Option<String>,
    pub model_path: Option<String>,
}

/// The hosted API's base URL.
pub open spec fn remote_endpoint() -> Seq<char> {
    "https://api.openai.com"@
}

/// The loopback base URL for a port.
pub open spec fn local_endpoint(port: u16) -> Seq<char> {
    "http://localhost:"@ + decimal(port as nat)
}

/// The base URL the model client talks to in a mode.
pub open spec fn endpoint_for(mode: Mode, port: Option<u16>) -> Seq<char> {
    match mode {
        Mode::OpenAi => remote_endpoint(),
        _ => local_endpoint(
            match port {
                Some(p) => p,
                None => DEFAULT_LOCAL_PORT,
            },
        ),
    }
}

/// Where the artifact downloaded from `url` is kept under `data_path`.
pub open spec fn artifact_path(data_path: Seq<char>, url: Seq<char>) -> Seq<char> {
    data_path + "/"@ + last_segment(url)
}

/// The local path derived from an optional artifact URL.
pub open spec fn model_path_for(data_path: Seq<char>, url: Option<Seq<char>>) -> Option<Seq<char>> {
    match url {
        Some(u) => Some(artifact_path(data_path, u)),
        None => None,
    }
}

impl Config {
    /// Well-formed: the model path is present exactly when the URL is, and
    /// derived from it; the endpoint follows from the mode and port.
    pub open spec fn wf(&self) -> bool {
        &&& opt_text(self.model_path) == model_path_for(self.data_path@, opt_text(self.model_url))
        &&& self.openai_endpoint@ == endpoint_for(self.mode, self.cria_port)
    }

    /// Builds the configuration from the data directory, the mode asked for
    /// on the command line and the loaded settings, whose mode wins.
    pub fn new(data_path: &str, mode: Mode, values: ConfigValues) -> (r: Config)
        ensures
            r.wf(),
            r.mode == (match values.mode {
                Some(m) => m,
                None => mode,
            }),
            r.data_path@ == data_path@,
            r.cria_port == values.cria_port,
            opt_text(r.openai_key) == opt_text(values.openai_key),
            opt_text(r.model_url) == opt_text(values.model_url),
    {
        let mode = match values.mode {
            Some(m) => m,
            None => mode,
        };
        let openai_endpoint = endpoint(mode, values.cria_port);
        let model_path = match &values.model_url {
            Some(url) => Some(join_artifact(data_path, url.as_str())),
            None => None,
        };
        Config {
            openai_endpoint,
            mode,
            data_path: String::from_str(data_path),
            cria_port: values.cria_port,
            openai_key: values.openai_key,
            model_url: values.model_url,
            model_path,
        }
    }
}

/// The base URL for a mode and an optional port.
pub fn endpoint(mode: Mode, port: Option<u16>) -> (r: String)
    ensures
        r@ == endpoint_for(mode, port),
{
    match mode {
        Mode::OpenAi => String::from_str("https://api.openai.com"),
        _ => {
            let p = match port {
                Some(p) => p,
                None => DEFAULT_LOCAL_PORT,
            };
            let base = String::from_str("http://localhost:");
            let digits = decimal_string(p as u64);
            base.concat(digits.as_str())
        },
    }
}

/// The artifact's local path: the URL's last segment under `data_path`.
pub fn join_artifact(data_path: &str, url: &str) -> (r: String)
    ensures
        r@ == artifact_path(data_path@, url@),
{
    let file = last_segment_of(url);
    String::from_str(data_path).concat("/").concat(file)
}

} // verus!
