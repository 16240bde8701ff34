//! The mode resolver: the one place that maps a mode to the endpoint and
//! to the local dependencies a run needs, in install order.

use vstd::prelude::*;

use crate::config::{endpoint, endpoint_for, Config};
use crate::cria::Cria;
use crate::docker::Docker;
use crate::model::Model;
use crate::text::opt_text;
use crate::types::Mode;

verus! {

/// A local dependency of a run.
#[derive(Debug, Clone)]
pub enum Dependency {
    ContainerRuntime(Docker),
    ModelArtifact(Model),
    InferenceServer(Cria),
}

pub ghost enum DependencyModel {
    ContainerRuntime,
    /// The artifact's path and URL.
    ModelArtifact(Option<Seq<char>>, Option<Seq<char>>),
    /// The artifact's path, the data directory, the mode (its profile) and the port.
    InferenceServer(Option<Seq<char>>, Seq<char>, Mode, Option<u16>),
}

impl View for Dependency {
    type V = DependencyModel;

    open spec fn view(&self) -> DependencyModel {
        match self {
            Dependency::ContainerRuntime(_) => DependencyModel::ContainerRuntime,
            Dependency::ModelArtifact(m) => DependencyModel::ModelArtifact(opt_text(m.model_path), opt_text(m.model_url)),
            Dependency::InferenceServer(c) => DependencyModel::InferenceServer(
                opt_text(c.model_path),
                c.data_path@,
                c.mode,
                c.port,
            ),
        }
    }
}

/// The endpoint and the ordered dependencies of a run.
#[derive(Debug, Clone)]
pub struct Resolution {
    pub endpoint: String,
    pub required: Vec<Dependency>,
}

/// The dependencies a mode needs: none for the hosted API; for a local mode
/// the container runtime, the artifact and the server in the mode's profile.
pub open spec fn required_for(mode: Mode, config: Config) -> Seq<DependencyModel> {
    if mode == Mode::OpenAi {
        Seq::empty()
    } else {
        seq![
            DependencyModel::ContainerRuntime,
            DependencyModel::ModelArtifact(opt_text(config.model_path), opt_text(config.model_url)),
            DependencyModel::InferenceServer(opt_text(config.model_path), config.data_path@, mode, config.cria_port),
        ]
    }
}

/// The models of a sequence of dependencies.
pub open spec fn dependencies_model(v: Seq<Dependency>) -> Seq<DependencyModel> {
    v.map_values(|d: Dependency| d@)
}

/// Resolves a mode against the configuration.
pub fn resolve(mode: Mode, config: &Config) -> (r: Resolution)
    ensures
        r.endpoint@ == endpoint_for(mode, config.cria_port),
        dependencies_model(r.required@) == required_for(mode, *config),
{
    let mut required: Vec<Dependency> = Vec::new();
    if mode != Mode::OpenAi {
        required.push(Dependency::ContainerRuntime(Docker {}));
        required.push(Dependency::ModelArtifact(Model::new(&config.model_path, &config.model_url)));
        required.push(
            Dependency::InferenceServer(
                Cria::new(&config.model_path, config.data_path.as_str(), mode, config.cria_port),
            ),
        );
    }
    assert(dependencies_model(required@) =~= required_for(mode, *config));
    Resolution { endpoint: endpoint(mode, config.cria_port), required }
}

/// The hosted API needs no local dependency, whatever the configuration
/// says of the artifact or the port; the GPU mode always needs the server in
/// its GPU profile.
pub proof fn lemma_resolve_topology(config: Config)
    ensures
        required_for(Mode::OpenAi, config) == Seq::<DependencyModel>::empty(),
        exists|i: int|
            0 <= i < required_for(Mode::LocalGpu, config).len() && (#[trigger] required_for(
                Mode::LocalGpu,
                config,
            )[i]) is InferenceServer && required_for(Mode::LocalGpu, config)[i]->InferenceServer_2
                == Mode::LocalGpu,
{
    assert(required_for(Mode::LocalGpu, config)[2] is InferenceServer);
}

} // verus!
