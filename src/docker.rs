//! The container runtime.

use vstd::prelude::*;

use crate::entity::{HasName, IsEnsurable};
use crate::error::{Error, ErrorModel};
use crate::plan::{CommandModel, Command, Platform, Probe, ProbeModel, Step, StepModel, push_step, steps_model};

verus! {

/// The container runtime; it needs no configuration.
#[derive(Debug, Clone, Copy, Default)]
pub struct Docker {}

/// A command's model from its parts.
pub open spec fn run_model(program: Seq<char>, args: Seq<Seq<char>>, required: bool, context: Seq<char>) -> StepModel {
    StepModel::Run(CommandModel { program, args, required, context })
}

/// Fetch the vendor's install script, run it, add the user to the runtime's
/// group (best effort), and delete the script.
pub open spec fn docker_install() -> Seq<StepModel> {
    seq![
        run_model("curl"@, seq!["-fsSL"@, "https://get.docker.com"@, "-o"@, "get-docker.sh"@], true,
            "Unable to curl the docker convenience script."@),
        run_model("sh"@, seq!["get-docker.sh"@], true,
            "Unable to run the docker install script (might need sudo)."@),
        run_model("usermod"@, seq!["-aG"@, "docker"@, "$USER"@], false,
            "Unable to add the user to the docker group."@),
        run_model("rm"@, seq!["-f"@, "get-docker.sh"@], true,
            "Failed to delete the docker install script."@),
    ]
}

impl Docker {
    pub fn install_plan(&self) -> (r: Vec<Step>)
        ensures
            steps_model(r@) == docker_install(),
    {
        let mut steps: Vec<Step> = Vec::new();
        let mut c = Command::new("curl", true, "Unable to curl the docker convenience script.");
        c.arg("-fsSL");
        c.arg("https://get.docker.com");
        c.arg("-o");
        c.arg("get-docker.sh");
        assert(c@.args =~= seq!["-fsSL"@, "https://get.docker.com"@, "-o"@, "get-docker.sh"@]);
        push_step(&mut steps, Step::Run(c));
        let mut c = Command::new("sh", true, "Unable to run the docker install script (might need sudo).");
        c.arg("get-docker.sh");
        assert(c@.args =~= seq!["get-docker.sh"@]);
        push_step(&mut steps, Step::Run(c));
        let mut c = Command::new("usermod", false, "Unable to add the user to the docker group.");
        c.arg("-aG");
        c.arg("docker");
        c.arg("$USER");
        assert(c@.args =~= seq!["-aG"@, "docker"@, "$USER"@]);
        push_step(&mut steps, Step::Run(c));
        let mut c = Command::new("rm", true, "Failed to delete the docker install script.");
        c.arg("-f");
        c.arg("get-docker.sh");
        assert(c@.args =~= seq!["-f"@, "get-docker.sh"@]);
        push_step(&mut steps, Step::Run(c));
        assert(steps_model(steps@) =~= docker_install());
        steps
    }
}

impl HasName for Docker {
    open spec fn spec_name(&self) -> Seq<char> {
        "docker"@
    }

    fn name(&self) -> (r: &'static str) {
        "docker"
    }
}

impl IsEnsurable for Docker {
    /// Installed by hand on Windows.
    open spec fn spec_installs_on(&self, host: Platform) -> bool {
        host == Platform::Posix
    }

    open spec fn spec_probe(&self) -> Result<ProbeModel, ErrorModel> {
        Ok(ProbeModel::Binary("docker"@))
    }

    fn installs_on(&self, host: Platform) -> (r: bool) {
        host == Platform::Posix
    }

    fn probe(&self) -> (r: Result<Probe, Error>) {
        Ok(Probe::Binary(String::from_str("docker")))
    }
}

} // verus!
