use augre::config::{Config, ConfigValues};
use augre::cria::{posix_mount_path, Cria};
use augre::descriptor::render_descriptor;
use augre::docker::Docker;
use augre::entity::{Action, EnsurableEntity, Event, IsRemovable};
use augre::error::Error;
use augre::git::Git;
use augre::gpt::Gpt;
use augre::plan::{Command, MapStatus, Platform, Probe, Step};
use augre::poller::Poller;
use augre::resolve::{resolve, Dependency};
use augre::text::{decimal_string, last_segment_of};
use augre::types::Mode;

fn values(mode: Option<Mode>, url: Option<&str>, port: Option<u16>) -> ConfigValues {
    ConfigValues {
        openai_key: None,
        mode,
        model_url: url.map(|u| u.to_string()),
        cria_port: port,
    }
}

#[test]
fn mode_parse_ignores_case() {
    assert_eq!(Mode::parse("LocalCPU"), Ok(Mode::LocalCpu));
    assert_eq!(Mode::parse("localgpu"), Ok(Mode::LocalGpu));
    assert_eq!(Mode::parse("OpenAI"), Ok(Mode::OpenAi));
    assert_eq!(Mode::parse("local"), Err(Error::InvalidMode("local".to_string())));
    assert_eq!("openai".parse::<Mode>(), Ok(Mode::OpenAi));
    assert_eq!(Mode::default(), Mode::OpenAi);
}

#[test]
fn config_derives_model_path_and_endpoint() {
    let c = Config::new(".augre", Mode::OpenAi, values(Some(Mode::LocalCpu), Some("https://h/x/llama.bin"), Some(7000)));
    assert_eq!(c.mode, Mode::LocalCpu);
    assert_eq!(c.model_path, Some(".augre/llama.bin".to_string()));
    assert_eq!(c.openai_endpoint, "http://localhost:7000");
    let c = Config::new(".augre", Mode::OpenAi, values(None, None, None));
    assert_eq!(c.mode, Mode::OpenAi);
    assert_eq!(c.model_path, None);
    assert_eq!(c.openai_endpoint, "https://api.openai.com");
    let c = Config::new("d", Mode::LocalGpu, values(None, Some("plain"), None));
    assert_eq!(c.model_path, Some("d/plain".to_string()));
    assert_eq!(c.openai_endpoint, "http://localhost:3000");
}

#[test]
fn text_helpers() {
    assert_eq!(decimal_string(0), "0");
    assert_eq!(decimal_string(7000), "7000");
    assert_eq!(decimal_string(65535), "65535");
    assert_eq!(last_segment_of("a/b/c.bin"), "c.bin");
    assert_eq!(last_segment_of("a/"), "");
    assert_eq!(last_segment_of("plain"), "plain");
}

#[test]
fn remote_mode_needs_nothing() {
    let c = Config::new(".augre", Mode::OpenAi, values(None, Some("https://h/m.bin"), Some(7000)));
    let r = resolve(Mode::OpenAi, &c);
    assert!(r.required.is_empty());
    assert_eq!(r.endpoint, "https://api.openai.com");
}

#[test]
fn gpu_mode_needs_gpu_server() {
    let c = Config::new(".augre", Mode::LocalGpu, values(None, Some("https://h/m.bin"), Some(7000)));
    let r = resolve(Mode::LocalGpu, &c);
    assert_eq!(r.required.len(), 3);
    assert!(matches!(r.required[0], Dependency::ContainerRuntime(_)));
    assert!(matches!(r.required[1], Dependency::ModelArtifact(_)));
    match &r.required[2] {
        Dependency::InferenceServer(cria) => assert_eq!(cria.mode, Mode::LocalGpu),
        _ => panic!("expected the inference server"),
    }
}

#[test]
fn cpu_descriptor_contents() {
    let d = render_descriptor(false, 7000, "/data/model.bin");
    assert!(d.contains("7000:7000"));
    assert!(d.contains("/data/model.bin:/app/model.bin"));
    assert!(d.contains("CRIA_PORT=7000"));
    assert!(!d.contains("CRIA_USE_GPU"));
    assert!(!d.contains("CRIA_GPU_LAYERS"));
    assert!(!d.contains("reservations"));
}

#[test]
fn gpu_descriptor_contents() {
    let d = render_descriptor(true, 7000, "/data/model.bin");
    assert!(d.contains("7000:7000"));
    assert!(d.contains("/data/model.bin:/app/model.bin"));
    assert!(d.contains("CRIA_USE_GPU=true"));
    assert!(d.contains("CRIA_GPU_LAYERS=32"));
    assert!(d.contains("reservations:"));
    assert!(d.contains("capabilities: [ gpu ]"));
    assert_ne!(d, render_descriptor(false, 7000, "/data/model.bin"));
    assert_ne!(d, render_descriptor(true, 7001, "/data/model.bin"));
}

#[test]
fn mount_path_rewrite() {
    assert_eq!(posix_mount_path("\\\\?\\C:\\data\\model.bin"), "//c/data/model.bin");
    assert_eq!(posix_mount_path("\\\\?\\d:\\m.bin"), "//d/m.bin");
}

#[test]
fn docker_and_git_plans() {
    let plan = Docker {}.install_plan();
    assert_eq!(plan.len(), 4);
    match &plan[2] {
        Step::Run(c) => {
            assert_eq!(c.program, "usermod");
            assert!(!c.required);
        }
        _ => panic!("expected a command"),
    }
    let plan = Git {}.install_plan();
    assert_eq!(plan.len(), 3);
    match &plan[1] {
        Step::Run(c) => assert_eq!(c.args, vec!["-y".to_string(), "install".to_string(), "git".to_string()]),
        _ => panic!("expected a command"),
    }
}

#[test]
fn status_mapping() {
    assert_eq!(Ok::<bool, Error>(true).map_status(), Ok(()));
    assert!(matches!(Ok::<bool, Error>(false).map_status(), Err(Error::CommandFailed(_))));
    assert_eq!(Err::<bool, Error>(Error::Process("x".to_string())).map_status(), Err(Error::Process("x".to_string())));
    let mut c = Command::new("rm", true, "cannot delete");
    c.arg("-f");
    assert_eq!(c.outcome(Ok(false)), Err(Error::CommandFailed("cannot delete".to_string())));
    let best_effort = Command::new("usermod", false, "ignored");
    assert_eq!(best_effort.outcome(Ok(false)), Ok(()));
}

#[test]
fn probe_commands() {
    let c = Probe::Binary("git".to_string()).command(Platform::Posix).unwrap();
    assert_eq!(c.program, "which");
    assert_eq!(c.args, vec!["git".to_string()]);
    let c = Probe::Binary("git".to_string()).command(Platform::Windows).unwrap();
    assert_eq!(c.program, "where");
    assert!(Probe::File("x".to_string()).command(Platform::Posix).is_none());
}

#[test]
fn diff_text_checks() {
    assert_eq!(Git::diff_text(true, b"+ line".to_vec()), Ok("+ line".to_string()));
    assert_eq!(Git::diff_text(true, vec![0xff, 0xfe]), Err(Error::Encoding));
    assert!(matches!(Git::diff_text(false, vec![]), Err(Error::CommandFailed(_))));
    assert_eq!(Git::diff_command().args, vec!["diff".to_string(), "HEAD^".to_string()]);
}

#[test]
fn gpt_requests() {
    let gpt = Gpt::new("http://localhost:7000", &None, Mode::LocalCpu);
    let r = gpt.ask_request("hello").unwrap();
    assert_eq!(r.api_url.as_str(), "http://localhost:7000/v1/chat/completions");
    assert_eq!(r.message, "hello");
    assert_eq!(r.key, "");
    assert_eq!(r.timeout_secs, 120);
    let review = gpt.review_request("DIFF-BODY").unwrap();
    assert!(review.message.contains("```\nDIFF-BODY\n```"));
    assert!(review.message.starts_with("\nPlease perform a code review"));
    let remote = Gpt::new("https://api.openai.com", &Some("k".to_string()), Mode::OpenAi);
    assert_eq!(remote.ask_request("q").unwrap().key, "k");
    let missing = Gpt::new("https://api.openai.com", &None, Mode::OpenAi);
    assert!(matches!(missing.ask_request("q"), Err(Error::AuthenticationMissing)));
    let bad = Gpt::new("no scheme", &None, Mode::LocalCpu);
    assert!(matches!(bad.ask_request("q"), Err(Error::InvalidEndpoint(u)) if u == "no scheme/v1/chat/completions"));
}

#[test]
fn local_cpu_end_to_end() {
    let c = Config::new("/data", Mode::LocalCpu, values(None, Some("https://h/model.bin"), Some(7000)));
    let r = resolve(c.mode, &c);
    assert_eq!(r.endpoint, "http://localhost:7000");
    let confirm = false;
    let host = Platform::Posix;
    let mut installed = Vec::new();
    for dep in &r.required {
        let present = !matches!(dep, Dependency::InferenceServer(_));
        let act = |ev: Event| match dep {
            Dependency::ContainerRuntime(d) => d.ensure(confirm, host, ev),
            Dependency::ModelArtifact(m) => m.ensure(confirm, host, ev),
            Dependency::InferenceServer(s) => s.ensure(confirm, host, ev),
        };
        assert_eq!(act(Event::Begin), Action::Probe);
        match act(Event::Probed(Ok(present))) {
            Action::Finish(Ok(())) => {}
            Action::Act => {
                if let Dependency::InferenceServer(cria) = dep {
                    let plan = cria.install_plan(None).unwrap();
                    match &plan[0] {
                        Step::WriteFile(path, text) => {
                            assert_eq!(path, "/data/docker-compose.yml");
                            assert!(text.contains("/data/model.bin:/app/model.bin"));
                        }
                        _ => panic!("expected the descriptor first"),
                    }
                    assert_eq!(plan[2], Step::AwaitReady(Probe::Http("http://localhost:7000/v1/models".to_string())));
                    let mut poller = Poller::new();
                    let mut probes = 0;
                    let ready = loop {
                        probes += 1;
                        if let Some(r) = poller.record(Ok(probes == 2)).outcome() {
                            break r;
                        }
                    };
                    assert_eq!(ready, Ok(()));
                    installed.push(augre::entity::HasName::name(cria).to_string());
                    assert_eq!(act(Event::Acted(ready)), Action::Finish(Ok(())));
                }
            }
            other => panic!("unexpected {:?}", other),
        }
    }
    assert_eq!(installed, vec!["cria_server".to_string()]);
    let gpt = Gpt::new(&c.openai_endpoint, &c.openai_key, c.mode);
    let req = gpt.ask_request("hi").unwrap();
    assert_eq!(req.api_url.as_str(), "http://localhost:7000/v1/chat/completions");
    let down = cria_of(&r.required).uninstall_plan();
    assert_eq!(down.len(), 1);
}

fn cria_of(v: &[Dependency]) -> &Cria {
    match &v[2] {
        Dependency::InferenceServer(c) => c,
        _ => panic!("expected the inference server"),
    }
}

#[test]
fn mode_error_is_reported() {
    assert_eq!(Mode::parse(""), Err(Error::InvalidMode(String::new())));
    assert_eq!(Mode::parse("LOCALGPU "), Err(Error::InvalidMode("LOCALGPU ".to_string())));
}
