//! The version-control tool.

use vstd::prelude::*;

use crate::entity::{HasName, IsEnsurable};
use crate::error::{Error, ErrorModel};
use crate::plan::{Command, Platform, Probe, ProbeModel, Step, StepModel, push_step, steps_model};

use crate::docker::run_model;
use crate::plan::{with_arg, command_model};
use vstd::utf8::{decode_utf8, valid_utf8};

verus! {

/// The version-control tool; it needs no configuration.
#[derive(Debug, Clone, Copy, Default)]
pub struct Git {}

/// Refresh the package index, install the package, and check that the
/// binary is found.
pub open spec fn git_install() -> Seq<StepModel> {
    seq![
        run_model("apt-get"@, seq!["update"@], true, "Unable to update apt-get."@),
        run_model("apt-get"@, seq!["-y"@, "install"@, "git"@], true,
            "Unable to install git via apt-get.  You can install git manually, and try again."@),
        run_model("which"@, seq!["git"@], true, "Unable to verify git installation."@),
    ]
}

impl Git {
    pub fn install_plan(&self) -> (r: Vec<Step>)
        ensures
            steps_model(r@) == git_install(),
    {
        let mut steps: Vec<Step> = Vec::new();
        let mut c = Command::new("apt-get", true, "Unable to update apt-get.");
        c.arg("update");
        assert(c@.args =~= seq!["update"@]);
        push_step(&mut steps, Step::Run(c));
        let mut c = Command::new(
            "apt-get",
            true,
            "Unable to install git via apt-get.  You can install git manually, and try again.",
        );
        c.arg("-y");
        c.arg("install");
        c.arg("git");
        assert(c@.args =~= seq!["-y"@, "install"@, "git"@]);
        push_step(&mut steps, Step::Run(c));
        let mut c = Command::new("which", true, "Unable to verify git installation.");
        c.arg("git");
        assert(c@.args =~= seq!["git"@]);
        push_step(&mut steps, Step::Run(c));
        assert(steps_model(steps@) =~= git_install());
        steps
    }
}

/// Relies on `String::from_utf8`: it succeeds exactly on valid UTF-8, and
/// the text holds the characters the bytes encode.
#[verifier::external_body]
fn utf8_text(bytes: Vec<u8>) -> (r: Option<String>)
    ensures
        r is Some <==> valid_utf8(bytes@),
        r matches Some(s) ==> s@ == decode_utf8(bytes@),
{
    String::from_utf8(bytes).ok()
}

/// Reported when the diff command fails.
pub const DIFF_FAILED: &'static str = "The exit code of the `git diff` operation was not successful.";

impl Git {
    /// The command that prints the working tree's changes against its
    /// parent commit.
    pub fn diff_command() -> (r: Command)
        ensures
            r@ == with_arg(
                with_arg(command_model("git"@, true, "Unable to run `git diff`."@), "diff"@),
                "HEAD^"@,
            ),
    {
        let mut c = Command::new("git", true, "Unable to run `git diff`.");
        c.arg("diff");
        c.arg("HEAD^");
        c
    }

    /// The diff from the command's exit status and captured output.
    pub fn diff_text(success: bool, stdout: Vec<u8>) -> (r: Result<String, Error>)
        ensures
            !success ==> r is Err && r->Err_0@ == ErrorModel::CommandFailed(DIFF_FAILED@),
            success && !valid_utf8(stdout@) ==> r is Err && r->Err_0@ == ErrorModel::Encoding,
            success && valid_utf8(stdout@) ==> r is Ok && r->Ok_0@ == decode_utf8(stdout@),
    {
        if !success {
            return Err(Error::CommandFailed(String::from_str(DIFF_FAILED)));
        }
        match utf8_text(stdout) {
            Some(t) => Ok(t),
            None => Err(Error::Encoding),
        }
    }
}

impl HasName for Git {
    open spec fn spec_name(&self) -> Seq<char> {
        "git"@
    }

    fn name(&self) -> (r: &'static str) {
        "git"
    }
}

impl IsEnsurable for Git {
    /// Installed by hand on Windows.
    open spec fn spec_installs_on(&self, host: Platform) -> bool {
        host == Platform::Posix
    }

    open spec fn spec_probe(&self) -> Result<ProbeModel, ErrorModel> {
        Ok(ProbeModel::Binary("git"@))
    }

    fn installs_on(&self, host: Platform) -> (r: bool) {
        host == Platform::Posix
    }

    fn probe(&self) -> (r: Result<Probe, Error>) {
        Ok(Probe::Binary(String::from_str("git")))
    }
}

} // verus!
