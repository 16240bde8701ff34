//! The model client: the requests it sends to the resolved endpoint.

use vstd::prelude::*;

use crate::entity::{HasName, IsEnsurable};
use crate::error::{Error, ErrorModel};
use crate::plan::{Platform, Probe, ProbeModel};
use crate::text::{copy_text, opt_text};
use crate::types::Mode;

verus! {

#[verifier::external_type_specification]
#[verifier::external_body]
pub struct ExUrl(url::Url);

#[verifier::external_type_specification]
#[verifier::external_body]
pub struct ExParseError(url::ParseError);

/// Whether the text parses as an absolute URL.
pub uninterp spec fn parses_as_url(s: Seq<char>) -> bool;

/// Relies on `url::Url::parse`: whether a text parses depends on the text
/// alone.
#[verifier::external_body]
fn parse_url(s: &str) -> (r: Result<url::Url, url::ParseError>)
    ensures
        r is Ok <==> parses_as_url(s@),
{
    url::Url::parse(s)
}

/// How long the client waits for an answer, in seconds.
pub const REQUEST_TIMEOUT_SECS: u64 = 120;

/// The review instructions before the diff.
pub const REVIEW_HEAD: &'static str = "\nPlease perform a code review of the following diff (produced by `git diff` on my code), and provide suggestions for improvement:\n\n```\n";

/// The review instructions after the diff.
pub const REVIEW_TAIL: &'static str = "\n```\n\nPlease prioritize the response by impact to the code, and please split the suggestions into three categories:\n1. Suggestions that pertain to likely runtime bugs or errors.\n2. Suggestions that pertain to likely logic bugs or errors.\n3. Suggestions that pertain to likely style bugs or errors.\n\nIf possible, please also provide a suggested fix to the identified issue.  If you are unable to provide a suggested fix, please provide a reason why.\n\nThe format should look like:\n\n```\n1. Likely runtime bugs:\n- Some suggestion...\n- Another...\n\n2. Likely logic bugs:\n- Suggestion 1\n- Suggestion 2\n- Suggestion 3\n\n3. Likely style bugs:\n- Suggestion 1\n- Suggestion 2\n- Suggestion 3\n```\n\nFor each relevant code snippet, please provide context about where the suggestion is relevant (e.g., `path/file.rs:30`); in addition, if a code snippet would be helpful, please provide a code snippet showing the fix.\n";

/// The review prompt with the diff embedded.
pub open spec fn review_message(diff: Seq<char>) -> Seq<char> {
    REVIEW_HEAD@ + diff + REVIEW_TAIL@
}

/// The chat completions URL under a base URL.
pub open spec fn completions_url(base: Seq<char>) -> Seq<char> {
    base + "/v1/chat/completions"@
}

/// A completion request, ready to send.
#[derive(Debug)]
pub struct Request {
    pub api_url: url::Url,
    pub key: String,
    pub message: String,
    pub timeout_secs: u64,
}

/// The model client's settings.
#[derive(Debug, Clone)]
pub struct Gpt {
    pub url: String,
    pub key: Option<String>,
    pub mode: Mode,
}

/// The key a client sends: required in remote mode, empty in local modes.
pub open spec fn key_for(mode: Mode, key: Option<Seq<char>>) -> Result<Seq<char>, ErrorModel> {
    if mode == Mode::OpenAi {
        match key {
            Some(k) => Ok(k),
            None => Err(ErrorModel::AuthenticationMissing),
        }
    } else {
        Ok(Seq::empty())
    }
}

/// Builds the request from the parse of its URL: the parse error becomes an
/// invalid endpoint naming the text.
pub fn finish_request(url_text: &str, parsed: Result<url::Url, url::ParseError>, key: String, message: String) -> (r: Result<Request, Error>)
    ensures
        match parsed {
            Ok(u) => r is Ok && r->Ok_0.api_url == u && r->Ok_0.key@ == key@ && r->Ok_0.message@ == message@
                && r->Ok_0.timeout_secs == REQUEST_TIMEOUT_SECS,
            Err(_) => r is Err && r->Err_0@ == ErrorModel::InvalidEndpoint(url_text@),
        },
{
    match parsed {
        Ok(api_url) => Ok(Request { api_url, key, message, timeout_secs: REQUEST_TIMEOUT_SECS }),
        Err(_) => Err(Error::InvalidEndpoint(String::from_str(url_text))),
    }
}

impl Gpt {
    pub fn new(url: &str, key: &Option<String>, mode: Mode) -> (r: Gpt)
        ensures
            r.url@ == url@,
            opt_text(r.key) == opt_text(*key),
            r.mode == mode,
    {
        Gpt { url: String::from_str(url), key: copy_text(key), mode }
    }

    /// The key to send, or `AuthenticationMissing` in remote mode without one.
    pub fn resolve_key(&self) -> (r: Result<String, Error>)
        ensures
            match key_for(self.mode, opt_text(self.key)) {
                Ok(k) => r is Ok && r->Ok_0@ == k,
                Err(e) => r is Err && r->Err_0@ == e,
            },
    {
        if self.mode == Mode::OpenAi {
            match &self.key {
                Some(k) => Ok(k.clone()),
                None => Err(Error::AuthenticationMissing),
            }
        } else {
            Ok(String::new())
        }
    }

    /// A request carrying `message` to the completions URL.
    pub fn request(&self, message: String) -> (r: Result<Request, Error>)
        ensures
            match key_for(self.mode, opt_text(self.key)) {
                Err(e) => r is Err && r->Err_0@ == e,
                Ok(k) => if parses_as_url(completions_url(self.url@)) {
                    r is Ok && r->Ok_0.key@ == k && r->Ok_0.message@ == message@
                        && r->Ok_0.timeout_secs == REQUEST_TIMEOUT_SECS
                } else {
                    r is Err && r->Err_0@ == ErrorModel::InvalidEndpoint(completions_url(self.url@))
                },
            },
    {
        let key = match self.resolve_key() {
            Ok(k) => k,
            Err(e) => return Err(e),
        };
        let text = String::from_str(self.url.as_str()).concat("/v1/chat/completions");
        let parsed = parse_url(text.as_str());
        finish_request(text.as_str(), parsed, key, message)
    }

    /// The request for a review of `diff`.
    pub fn review_request(&self, diff: &str) -> (r: Result<Request, Error>)
        ensures
            match key_for(self.mode, opt_text(self.key)) {
                Err(e) => r is Err && r->Err_0@ == e,
                Ok(k) => if parses_as_url(completions_url(self.url@)) {
                    r is Ok && r->Ok_0.key@ == k && r->Ok_0.message@ == review_message(diff@)
                } else {
                    r is Err && r->Err_0@ == ErrorModel::InvalidEndpoint(completions_url(self.url@))
                },
            },
    {
        let message = String::from_str(REVIEW_HEAD).concat(diff).concat(REVIEW_TAIL);
        self.request(message)
    }

    /// The request for an answer to `prompt`.
    pub fn ask_request(&self, prompt: &str) -> (r: Result<Request, Error>)
        ensures
            match key_for(self.mode, opt_text(self.key)) {
                Err(e) => r is Err && r->Err_0@ == e,
                Ok(k) => if parses_as_url(completions_url(self.url@)) {
                    r is Ok && r->Ok_0.key@ == k && r->Ok_0.message@ == prompt@
                } else {
                    r is Err && r->Err_0@ == ErrorModel::InvalidEndpoint(completions_url(self.url@))
                },
            },
    {
        self.request(String::from_str(prompt))
    }
}

impl HasName for Gpt {
    open spec fn spec_name(&self) -> Seq<char> {
        "gpt"@
    }

    fn name(&self) -> (r: &'static str) {
        "gpt"
    }
}

impl IsEnsurable for Gpt {
    /// The client is part of the tool; there is nothing to install.
    open spec fn spec_installs_on(&self, host: Platform) -> bool {
        false
    }

    /// Present whenever the key it needs is there.
    open spec fn spec_probe(&self) -> Result<ProbeModel, ErrorModel> {
        match key_for(self.mode, opt_text(self.key)) {
            Ok(_) => Ok(ProbeModel::Always),
            Err(e) => Err(e),
        }
    }

    fn installs_on(&self, host: Platform) -> (r: bool) {
        false
    }

    fn probe(&self) -> (r: Result<Probe, Error>) {
        match self.resolve_key() {
            Ok(_) => Ok(Probe::Always),
            Err(e) => Err(e),
        }
    }
}

} // verus!
