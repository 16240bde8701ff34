//! The inference server: a containerized service described by the
//! deployment descriptor and reached on a local port.

use vstd::prelude::*;

use crate::descriptor::{descriptor, render_descriptor};
use crate::entity::{HasName, IsEnsurable, IsRemovable};
use crate::error::{Error, ErrorModel};
use crate::plan::{
    plan_model, push_step, with_arg, Command, CommandModel, Platform, Probe,
    ProbeModel, Step, StepModel, steps_model,
};
use crate::text::{copy_text, decimal, decimal_string, opt_text};
use crate::types::{ascii_lower, lower_char, Mode};

verus! {

/// The inference server's configuration.
#[derive(Debug, Clone)]
pub struct Cria {
    pub model_path: Option<String>,
    pub data_path: String,
    pub mode: Mode,
    pub port: Option<u16>,
}

/// `/` for a backslash; any other character is kept.
pub open spec fn forward_slash(c: char) -> char {
    if c == '\\' {
        '/'
    } else {
        c
    }
}

/// The POSIX-style mount source for a native absolute path such as
/// `\\?\C:\data\model.bin`: `//c/data/model.bin`.
pub open spec fn posix_mount(native: Seq<char>) -> Seq<char> {
    "//"@ + seq![ascii_lower(native[4])] + native.subrange(6, native.len() as int).map_values(
        |c: char| forward_slash(c),
    )
}

/// The health endpoint of the server on a port.
pub open spec fn health_url(port: u16) -> Seq<char> {
    "http://localhost:"@ + decimal(port as nat) + "/v1/models"@
}

/// Where the descriptor is written.
pub open spec fn descriptor_path(data_path: Seq<char>) -> Seq<char> {
    data_path + "/docker-compose.yml"@
}

/// `docker-compose -p cria -f <descriptor>` followed by `last`.
pub open spec fn compose_command(data_path: Seq<char>, required: bool, last: Seq<char>) -> CommandModel {
    CommandModel {
        program: "docker-compose"@,
        args: seq!["-p"@, "cria"@, "-f"@, descriptor_path(data_path), last],
        required,
        context: "Unable to run `docker-compose`."@,
    }
}

/// The install plan: write the descriptor, start the service, wait for it.
pub open spec fn cria_install(data_path: Seq<char>, gpu: bool, port: u16, mount: Seq<char>) -> Seq<StepModel> {
    seq![
        StepModel::WriteFile(descriptor_path(data_path), descriptor(gpu, port, mount)),
        StepModel::Run(with_arg(compose_command(data_path, true, "up"@), "-d"@)),
        StepModel::AwaitReady(ProbeModel::Http(health_url(port))),
    ]
}

/// Rewrites a native absolute path into the POSIX-style form the container
/// runtime's mount syntax requires.
pub fn posix_mount_path(native: &str) -> (r: String)
    requires
        native@.len() >= 6,
    ensures
        r@ == posix_mount(native@),
{
    let n = native.unicode_len();
    let mut out = String::from_str("//");
    let drive = native.get_char(4);
    let lower = lower_char(drive);
    if lower == drive {
        out.append(native.substring_char(4, 5));
    } else {
        let letters = "abcdefghijklmnopqrstuvwxyz";
        proof {
            reveal_strlit("abcdefghijklmnopqrstuvwxyz");
        }
        let k: usize = (drive as u32 - 'A' as u32) as usize;
        out.append(letters.substring_char(k, k + 1));
    }
    assert(out@ =~= "//"@ + seq![ascii_lower(native@[4])]);
    let mut i: usize = 6;
    while i < n
        invariant
            n == native@.len(),
            6 <= i <= n,
            out@ == "//"@ + seq![ascii_lower(native@[4])] + native@.subrange(6, i as int).map_values(
                |c: char| forward_slash(c),
            ),
        decreases n - i,
    {
        let c = native.get_char(i);
        let ghost before = out@;
        if c == '\\' {
            out.append("/");
            proof {
                reveal_strlit("/");
            }
        } else {
            out.append(native.substring_char(i, i + 1));
        }
        proof {
            assert(native@.subrange(6, i + 1).map_values(|c: char| forward_slash(c))
                =~= native@.subrange(6, i as int).map_values(|c: char| forward_slash(c)).push(
                forward_slash(c),
            ));
            assert(out@ =~= before.push(forward_slash(c)));
        }
        i = i + 1;
    }
    out
}

fn compose(data_path: &str, required: bool, last: &str) -> (r: Command)
    ensures
        r@ == compose_command(data_path@, required, last@),
{
    let path = String::from_str(data_path).concat("/docker-compose.yml");
    let mut c = Command::new("docker-compose", required, "Unable to run `docker-compose`.");
    c.arg("-p");
    c.arg("cria");
    c.arg("-f");
    c.arg(path.as_str());
    c.arg(last);
    assert(c@.args =~= seq!["-p"@, "cria"@, "-f"@, descriptor_path(data_path@), last@]);
    c
}

fn health(port: u16) -> (r: String)
    ensures
        r@ == health_url(port),
{
    let p = decimal_string(port as u64);
    String::from_str("http://localhost:").concat(p.as_str()).concat("/v1/models")
}

impl Cria {
    pub fn new(model_path: &Option<String>, data_path: &str, mode: Mode, port: Option<u16>) -> (r: Cria)
        ensures
            opt_text(r.model_path) == opt_text(*model_path),
            r.data_path@ == data_path@,
            r.mode == mode,
            r.port == port,
    {
        Cria { model_path: copy_text(model_path), data_path: String::from_str(data_path), mode, port }
    }

    /// The configured port, or the missing field.
    pub fn resolve_port(&self) -> (r: Result<u16, Error>)
        ensures
            match self.port {
                Some(p) => r == Ok::<u16, Error>(p),
                None => r is Err && r->Err_0@ == ErrorModel::MissingConfiguration("cria_port"@),
            },
    {
        match self.port {
            Some(p) => Ok(p),
            None => Err(Error::MissingConfiguration(String::from_str("cria_port"))),
        }
    }

    /// The configured artifact path, or the missing field.
    pub fn resolve_model_path(&self) -> (r: Result<&str, Error>)
        ensures
            match self.model_path {
                Some(p) => r is Ok && r->Ok_0@ == p@,
                None => r is Err && r->Err_0@ == ErrorModel::MissingConfiguration("model_path"@),
            },
    {
        match &self.model_path {
            Some(p) => Ok(p.as_str()),
            None => Err(Error::MissingConfiguration(String::from_str("model_path"))),
        }
    }

    /// The steps that start the server. `canonical` is the artifact's native
    /// absolute path where the host needs it rewritten for the mount; the
    /// configured path is mounted as it is otherwise.
    pub fn install_plan(&self, canonical: Option<&str>) -> (r: Result<Vec<Step>, Error>)
        requires
            canonical matches Some(c) ==> c@.len() >= 6,
        ensures
            plan_model(r) == (match (self.port, self.model_path) {
                (None, _) => Err(ErrorModel::MissingConfiguration("cria_port"@)),
                (_, None) => Err(ErrorModel::MissingConfiguration("model_path"@)),
                (Some(port), Some(path)) => Ok(
                    cria_install(
                        self.data_path@,
                        self.mode == Mode::LocalGpu,
                        port,
                        match canonical {
                            Some(c) => posix_mount(c@),
                            None => path@,
                        },
                    ),
                ),
            }),
    {
        let port = match self.resolve_port() {
            Ok(p) => p,
            Err(e) => return Err(e),
        };
        let path = match self.resolve_model_path() {
            Ok(p) => p,
            Err(e) => return Err(e),
        };
        let mount = match canonical {
            Some(c) => posix_mount_path(c),
            None => String::from_str(path),
        };
        let gpu = self.mode == Mode::LocalGpu;
        let text = render_descriptor(gpu, port, mount.as_str());
        let target = String::from_str(self.data_path.as_str()).concat("/docker-compose.yml");
        let mut up = compose(self.data_path.as_str(), true, "up");
        up.arg("-d");
        let mut steps: Vec<Step> = Vec::new();
        push_step(&mut steps, Step::WriteFile(target, text));
        push_step(&mut steps, Step::Run(up));
        push_step(&mut steps, Step::AwaitReady(Probe::Http(health(port))));
        assert(steps_model(steps@) =~= cria_install(self.data_path@, gpu, port, mount@));
        Ok(steps)
    }
}

impl HasName for Cria {
    open spec fn spec_name(&self) -> Seq<char> {
        "cria_server"@
    }

    fn name(&self) -> (r: &'static str) {
        "cria_server"
    }
}

impl IsEnsurable for Cria {
    open spec fn spec_installs_on(&self, host: Platform) -> bool {
        true
    }

    /// Present when the health endpoint answers; needs the port.
    open spec fn spec_probe(&self) -> Result<ProbeModel, ErrorModel> {
        match self.port {
            Some(p) => Ok(ProbeModel::Http(health_url(p))),
            None => Err(ErrorModel::MissingConfiguration("cria_port"@)),
        }
    }

    fn installs_on(&self, host: Platform) -> (r: bool) {
        true
    }

    fn probe(&self) -> (r: Result<Probe, Error>) {
        match self.resolve_port() {
            Ok(p) => Ok(Probe::Http(health(p))),
            Err(e) => Err(e),
        }
    }
}

impl IsRemovable for Cria {
    /// Stops and removes the service; a failure there is not fatal.
    open spec fn spec_uninstall_plan(&self) -> Seq<StepModel> {
        seq![StepModel::Run(compose_command(self.data_path@, false, "down"@))]
    }

    fn uninstall_plan(&self) -> (r: Vec<Step>) {
        let mut steps: Vec<Step> = Vec::new();
        push_step(&mut steps, Step::Run(compose(self.data_path.as_str(), false, "down")));
        assert(steps_model(steps@) =~= self.spec_uninstall_plan());
        steps
    }
}

} // verus!
