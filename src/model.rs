//! The downloadable model artifact.

use vstd::prelude::*;

use crate::entity::{HasName, IsEnsurable};
use crate::error::{Error, ErrorModel};
use crate::plan::{Command, Platform, Probe, ProbeModel, Step, StepModel, push_step, steps_model, plan_model};

use crate::docker::run_model;
use crate::text::{copy_text, opt_text};

verus! {

/// The model artifact: where it comes from and where it is kept.
#[derive(Debug, Clone)]
pub struct Model {
    pub model_path: Option<String>,
    pub model_url: Option<String>,
}

/// Download the artifact from the URL to the path.
pub open spec fn model_install(url: Seq<char>, path: Seq<char>) -> Seq<StepModel> {
    seq![run_model("curl"@, seq!["--progress-bar"@, "-fSL"@, url, "-o"@, path], true, "Unable to curl the model."@)]
}

impl Model {
    pub fn new(model_path: &Option<String>, model_url: &Option<String>) -> (r: Model)
        ensures
            opt_text(r.model_path) == opt_text(*model_path),
            opt_text(r.model_url) == opt_text(*model_url),
    {
        Model { model_path: copy_text(model_path), model_url: copy_text(model_url) }
    }

    /// The configured URL, or the missing field.
    pub fn resolve_url(&self) -> (r: Result<&str, Error>)
        ensures
            match self.model_url {
                Some(u) => r is Ok && r->Ok_0@ == u@,
                None => r is Err && r->Err_0@ == ErrorModel::MissingConfiguration("model_url"@),
            },
    {
        match &self.model_url {
            Some(u) => Ok(u.as_str()),
            None => Err(Error::MissingConfiguration(String::from_str("model_url"))),
        }
    }

    /// The configured path, or the missing field.
    pub fn resolve_path(&self) -> (r: Result<&str, Error>)
        ensures
            match self.model_path {
                Some(p) => r is Ok && r->Ok_0@ == p@,
                None => r is Err && r->Err_0@ == ErrorModel::MissingConfiguration("model_path"@),
            },
    {
        match &self.model_path {
            Some(p) => Ok(p.as_str()),
            None => Err(Error::MissingConfiguration(String::from_str("model_path"))),
        }
    }

    /// The download; the path is checked before the URL.
    pub fn install_plan(&self) -> (r: Result<Vec<Step>, Error>)
        ensures
            plan_model(r) == (match (self.model_path, self.model_url) {
                (None, _) => Err(ErrorModel::MissingConfiguration("model_path"@)),
                (_, None) => Err(ErrorModel::MissingConfiguration("model_url"@)),
                (Some(p), Some(u)) => Ok(model_install(u@, p@)),
            }),
    {
        let path = match self.resolve_path() {
            Ok(p) => p,
            Err(e) => return Err(e),
        };
        let url = match self.resolve_url() {
            Ok(u) => u,
            Err(e) => return Err(e),
        };
        let mut c = Command::new("curl", true, "Unable to curl the model.");
        c.arg("--progress-bar");
        c.arg("-fSL");
        c.arg(url);
        c.arg("-o");
        c.arg(path);
        assert(c@.args =~= seq!["--progress-bar"@, "-fSL"@, url@, "-o"@, path@]);
        let mut steps: Vec<Step> = Vec::new();
        push_step(&mut steps, Step::Run(c));
        assert(steps_model(steps@) =~= model_install(url@, path@));
        Ok(steps)
    }
}

impl HasName for Model {
    open spec fn spec_name(&self) -> Seq<char> {
        "model"@
    }

    fn name(&self) -> (r: &'static str) {
        "model"
    }
}

impl IsEnsurable for Model {
    open spec fn spec_installs_on(&self, host: Platform) -> bool {
        true
    }

    /// Present when a file exists at the path; needs the path.
    open spec fn spec_probe(&self) -> Result<ProbeModel, ErrorModel> {
        match self.model_path {
            Some(p) => Ok(ProbeModel::File(p@)),
            None => Err(ErrorModel::MissingConfiguration("model_path"@)),
        }
    }

    fn installs_on(&self, host: Platform) -> (r: bool) {
        true
    }

    fn probe(&self) -> (r: Result<Probe, Error>) {
        match self.resolve_path() {
            Ok(p) => Ok(Probe::File(String::from_str(p))),
            Err(e) => Err(e),
        }
    }
}

} // verus!
