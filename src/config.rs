use vstd::prelude::*;

verus! {

/// A directory of the host, relative to the worker's own directory, made
/// visible to the guest under `to`.
#[derive(Debug)]
pub struct Folder {
    pub from: String,
    pub to: String,
}

/// The outbound-network policy handed to the HTTP host functions.
#[derive(Debug)]
pub struct HttpRequestsConfig {
    pub allowed_hosts: Vec<String>,
    pub allowed_methods: Vec<String>,
    pub allow_http: bool,
}

/// The machine-learning backend kinds a worker may be granted.
#[derive(Debug, Clone, Copy, PartialEq, Eq, Structural)]
pub enum WasiNnBackend {
    Openvino,
}

/// A model that the host loads before the guest runs.
#[derive(Debug)]
pub struct WasiNnModel {
    pub backend: WasiNnBackend,
    /// Directory of the model files, relative to the worker's directory.
    pub path: String,
}

/// The machine-learning feature of a worker.
#[derive(Debug)]
pub struct WasiNnConfig {
    pub allowed_backends: Vec<WasiNnBackend>,
    pub preload_models: Vec<WasiNnModel>,
}

/// Optional features of a worker.
#[derive(Debug)]
pub struct Features {
    pub http_requests: HttpRequestsConfig,
    pub wasi_nn: WasiNnConfig,
}

/// The capability configuration of one worker.
#[derive(Debug)]
pub struct Config {
    pub folders: Option<Vec<Folder>>,
    pub features: Features,
}

/// The configuration that grants nothing: no mounts, no machine-learning
/// backends, no outbound hosts.
pub open spec fn is_default_config(c: Config) -> bool {
    &&& c.folders is None
    &&& c.features.http_requests.allowed_hosts@.len() == 0
    &&& c.features.http_requests.allowed_methods@.len() == 0
    &&& !c.features.http_requests.allow_http
    &&& c.features.wasi_nn.allowed_backends@.len() == 0
    &&& c.features.wasi_nn.preload_models@.len() == 0
}

impl Default for Config {
    fn default() -> (r: Config)
        ensures
            is_default_config(r),
    {
        Config {
            folders: None,
            features: Features {
                http_requests: HttpRequestsConfig {
                    allowed_hosts: Vec::new(),
                    allowed_methods: Vec::new(),
                    allow_http: false,
                },
                wasi_nn: WasiNnConfig { allowed_backends: Vec::new(), preload_models: Vec::new() },
            },
        }
    }
}

/// What became of the configuration file next to a worker.
pub enum LoadedConfig {
    /// There is no such file.
    Missing,
    /// The file is there but could not be read or parsed.
    Malformed,
    /// The file was parsed.
    Parsed(Config),
}

/// The configuration a worker runs with: the parsed one, else the defaults.
/// A missing or malformed file never fails worker creation.
pub fn resolve_config(loaded: LoadedConfig) -> (r: Config)
    ensures
        match loaded {
            LoadedConfig::Parsed(c) => r == c,
            _ => is_default_config(r),
        },
{
    match loaded {
        LoadedConfig::Parsed(c) => c,
        _ => Config::default(),
    }
}

} // verus!
