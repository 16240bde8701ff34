use augre::cria::Cria;
use augre::docker::Docker;
use augre::entity::{Action, EnsurableEntity, Event, IsEnsurable, RemovableEntity};
use augre::error::{DependencyFailure, Error};
use augre::git::Git;
use augre::gpt::Gpt;
use augre::model::Model;
use augre::plan::{Platform, Probe};
use augre::poller::{PollDecision, Poller, MAX_PROBES};
use augre::types::Mode;

fn failure(name: &str, error: Error) -> Action {
    Action::Finish(Err(DependencyFailure { dependency: name.to_string(), error }))
}

/// Drives one ensure against a fake dependency; returns the final action,
/// the confirmations asked and the installs made.
fn drive_ensure<T: EnsurableEntity>(
    dep: &T,
    confirm: bool,
    host: Platform,
    present: &mut bool,
    approve: bool,
    install_ok: bool,
) -> (Action, u32, u32) {
    let mut asked = 0;
    let mut installed = 0;
    let mut action = dep.ensure(confirm, host, Event::Begin);
    loop {
        action = match action {
            Action::Probe => dep.ensure(confirm, host, Event::Probed(Ok(*present))),
            Action::Confirm => {
                asked += 1;
                dep.ensure(confirm, host, Event::Answered(approve))
            }
            Action::Act => {
                installed += 1;
                let r = if install_ok {
                    *present = true;
                    Ok(())
                } else {
                    Err(Error::CommandFailed("boom".to_string()))
                };
                dep.ensure(confirm, host, Event::Acted(r))
            }
            done => return (done, asked, installed),
        };
    }
}

#[test]
fn ensure_twice_installs_once() {
    let docker = Docker {};
    let mut present = false;
    let (first, asked, made) = drive_ensure(&docker, true, Platform::Posix, &mut present, true, true);
    assert_eq!(first, Action::Finish(Ok(())));
    assert_eq!((asked, made), (1, 1));
    let (second, asked2, made2) = drive_ensure(&docker, true, Platform::Posix, &mut present, true, true);
    assert_eq!(second, Action::Finish(Ok(())));
    assert_eq!((asked2, made2), (0, 0));
}

#[test]
fn ensure_present_needs_nothing() {
    let git = Git {};
    assert_eq!(git.ensure(true, Platform::Posix, Event::Begin), Action::Probe);
    assert_eq!(git.ensure(true, Platform::Posix, Event::Probed(Ok(true))), Action::Finish(Ok(())));
}

#[test]
fn ensure_declined() {
    let docker = Docker {};
    assert_eq!(docker.ensure(true, Platform::Posix, Event::Probed(Ok(false))), Action::Confirm);
    assert_eq!(
        docker.ensure(true, Platform::Posix, Event::Answered(false)),
        failure("docker", Error::UserDeclined)
    );
}

#[test]
fn ensure_manual_only_on_windows() {
    let docker = Docker {};
    assert_eq!(
        docker.ensure(false, Platform::Windows, Event::Probed(Ok(false))),
        failure("docker", Error::UnsupportedPlatform)
    );
    let model = Model::new(&Some("m.bin".to_string()), &Some("http://x/m.bin".to_string()));
    assert_eq!(model.ensure(false, Platform::Windows, Event::Probed(Ok(false))), Action::Act);
}

#[test]
fn ensure_wraps_failures_with_name() {
    let cria = Cria::new(&None, ".augre", Mode::LocalCpu, Some(7000));
    assert_eq!(
        cria.ensure(false, Platform::Posix, Event::Acted(Err(Error::StartupTimeout))),
        failure("cria_server", Error::StartupTimeout)
    );
    assert_eq!(
        cria.ensure(false, Platform::Posix, Event::Probed(Err(Error::Process("curl".to_string())))),
        failure("cria_server", Error::Process("curl".to_string()))
    );
}

#[test]
fn remove_absent_is_noop() {
    let cria = Cria::new(&Some("m.bin".to_string()), ".augre", Mode::LocalCpu, Some(7000));
    assert_eq!(cria.remove(true, Event::Begin), Action::Probe);
    assert_eq!(cria.remove(true, Event::Probed(Ok(false))), Action::Finish(Ok(())));
    assert_eq!(cria.remove(false, Event::Probed(Ok(false))), Action::Finish(Ok(())));
}

#[test]
fn remove_present_steps() {
    let cria = Cria::new(&None, "/d", Mode::LocalCpu, Some(7000));
    assert_eq!(cria.remove(true, Event::Probed(Ok(true))), Action::Confirm);
    assert_eq!(cria.remove(true, Event::Answered(false)), Action::Finish(Ok(())));
    assert_eq!(cria.remove(false, Event::Probed(Ok(true))), Action::Act);
    assert_eq!(cria.remove(false, Event::Acted(Ok(()))), Action::Finish(Ok(())));
}

#[test]
fn poller_stops_at_third_probe() {
    let mut poller = Poller::new();
    let mut calls = 0;
    let outcome = loop {
        calls += 1;
        let decision = poller.record(Ok(calls == 3));
        if let Some(r) = decision.outcome() {
            break r;
        }
    };
    assert_eq!(outcome, Ok(()));
    assert_eq!(calls, 3);
    assert_eq!(poller.probes, 3);
}

#[test]
fn poller_times_out_after_ten() {
    let mut poller = Poller::new();
    let mut calls = 0;
    let outcome = loop {
        calls += 1;
        if let Some(r) = poller.record(Ok(false)).outcome() {
            break r;
        }
    };
    assert_eq!(outcome, Err(Error::StartupTimeout));
    assert_eq!(calls, 10);
    assert_eq!(MAX_PROBES, 10);
}

#[test]
fn poller_probe_failure() {
    let mut poller = Poller::new();
    let d = poller.record(Err(Error::Process("curl".to_string())));
    assert_eq!(d, PollDecision::Failed(Error::Process("curl".to_string())));
    let mut poller = Poller::new();
    assert_eq!(poller.record(Ok(false)), PollDecision::Retry);
}

#[test]
fn model_probe_without_path() {
    let model = Model::new(&None, &Some("http://x/m.bin".to_string()));
    assert_eq!(model.probe(), Err(Error::MissingConfiguration("model_path".to_string())));
    assert!(matches!(
        model.install_plan(),
        Err(Error::MissingConfiguration(f)) if f == "model_path"
    ));
    let model = Model::new(&Some("/d/m.bin".to_string()), &None);
    assert_eq!(model.probe(), Ok(Probe::File("/d/m.bin".to_string())));
    assert!(matches!(
        model.install_plan(),
        Err(Error::MissingConfiguration(f)) if f == "model_url"
    ));
}

#[test]
fn cria_missing_port_and_path() {
    let cria = Cria::new(&Some("m.bin".to_string()), "/d", Mode::LocalCpu, None);
    assert_eq!(cria.probe(), Err(Error::MissingConfiguration("cria_port".to_string())));
    assert_eq!(cria.install_plan(None), Err(Error::MissingConfiguration("cria_port".to_string())));
    let cria = Cria::new(&None, "/d", Mode::LocalCpu, Some(7000));
    assert_eq!(cria.install_plan(None), Err(Error::MissingConfiguration("model_path".to_string())));
}

#[test]
fn gpt_probe_needs_key_in_remote_mode() {
    let gpt = Gpt::new("https://api.openai.com", &None, Mode::OpenAi);
    assert_eq!(gpt.probe(), Err(Error::AuthenticationMissing));
    assert_eq!(gpt.ensure(true, Platform::Posix, Event::Probed(Err(Error::AuthenticationMissing))),
        failure("gpt", Error::AuthenticationMissing));
    let local = Gpt::new("http://localhost:3000", &None, Mode::LocalCpu);
    assert_eq!(local.probe(), Ok(Probe::Always));
    assert_eq!(local.resolve_key(), Ok(String::new()));
}
