use vstd::prelude::*;
use crate::config::{is_default_config, resolve_config, Config, HttpRequestsConfig, LoadedConfig, WasiNnConfig};
use crate::errors::{RuntimeError, WorkerError};
use crate::identity::{is_lower_hex, worker_id, worker_id_of};
use crate::paths::{parent_of, parent_path};
use crate::wiring::{
    copy_http_policy, copy_pairs, folders_of, models_match, mounts_match, plan_mounts,
    plan_wasi_nn, same_http_policy, same_pairs, Mount, NnPlan,
};

verus! {

/// A deployed worker: its identifier, its capability configuration and the
/// path of its source. It holds no state of any single invocation.
pub struct Worker {
    /// Worker identifier
    pub id: String,
    /// Capability configuration
    pub config: Config,
    /// The worker's path, relative to the project root
    pub path: String,
}

/// Everything one invocation's sandbox is built from. Each invocation gets
/// its own.
pub struct SandboxPlan {
    /// Environment variables, exposed verbatim to the guest
    pub envs: Vec<(String, String)>,
    /// The input document, the only thing written to the guest's standard input
    pub stdin: String,
    /// Directories the guest may see, each under its declared name
    pub mounts: Vec<Mount>,
    /// The machine-learning capability
    pub nn: NnPlan,
    /// The outbound-network policy of the HTTP host functions
    pub http: HttpRequestsConfig,
}

/// The directory mounts and models are resolved against: the one that holds
/// the worker (empty when there is none; it is then never used).
pub open spec fn worker_dir_of(path: Seq<char>) -> Seq<char> {
    match parent_of(path) {
        Some(d) => d,
        None => Seq::empty(),
    }
}

/// The error, if any, that preparing an invocation of the worker at `path`
/// with configuration `c` ends in.
pub open spec fn run_error(c: Config, path: Seq<char>) -> Option<WorkerError> {
    if parent_of(path) is Some {
        None
    } else if folders_of(c.folders).len() > 0 {
        Some(WorkerError::FailedToInitialize)
    } else if c.features.wasi_nn.preload_models@.len() > 0 {
        Some(WorkerError::RuntimeError(RuntimeError::WasiContextError))
    } else {
        None
    }
}

/// The machine-learning capability that `cfg` asks for: preloading first,
/// then the allow-list, else none.
pub open spec fn nn_matches(nn: NnPlan, dir: Seq<char>, cfg: WasiNnConfig) -> bool {
    if cfg.preload_models@.len() > 0 {
        match nn {
            NnPlan::Preload(p) => models_match(p@, dir, cfg),
            _ => false,
        }
    } else if cfg.allowed_backends@.len() > 0 {
        match nn {
            NnPlan::AllowList(b) => b@ == cfg.allowed_backends@,
            _ => false,
        }
    } else {
        nn is Disabled
    }
}

/// `p` is the sandbox of one invocation of the worker at `path` with
/// configuration `c`, for the input document `input` and the variables `vars`.
pub open spec fn plan_matches(
    p: SandboxPlan,
    c: Config,
    path: Seq<char>,
    input: Seq<char>,
    vars: Seq<(String, String)>,
) -> bool {
    &&& p.stdin@ == input
    &&& same_pairs(p.envs@, vars)
    &&& mounts_match(p.mounts@, worker_dir_of(path), folders_of(c.folders))
    &&& nn_matches(p.nn, worker_dir_of(path), c.features.wasi_nn)
    &&& same_http_policy(p.http, c.features.http_requests)
}

impl Worker {
    /// Creates the worker at `path` under `project_root`, with the
    /// configuration file next to it as it was found.
    pub fn new(project_root: &str, path: &str, loaded: LoadedConfig) -> (r: Worker)
        ensures
            r.id@ == worker_id_of(project_root@, path@),
            r.id@.len() == 64,
            is_lower_hex(r.id@),
            r.path@ == path@,
            match loaded {
                LoadedConfig::Parsed(c) => r.config == c,
                _ => is_default_config(r.config),
            },
    {
        let id = worker_id(project_root, path);
        let config = resolve_config(loaded);
        Worker { id, config, path: String::from_str(path) }
    }

    /// Builds the sandbox of one invocation: the input document for the
    /// guest's standard input, the caller's variables, the declared mounts,
    /// the machine-learning capability and the network policy.
    pub fn prepare_run(&self, input: String, vars: &Vec<(String, String)>) -> (r: Result<
        SandboxPlan,
        WorkerError,
    >)
        ensures
            match r {
                Ok(p) => run_error(self.config, self.path@) is None && plan_matches(
                    p,
                    self.config,
                    self.path@,
                    input@,
                    vars@,
                ),
                Err(e) => run_error(self.config, self.path@) == Some(e),
            },
    {
        let dir = parent_path(self.path.as_str());
        let mounts = match plan_mounts(&dir, &self.config.folders) {
            Ok(m) => m,
            Err(e) => return Err(e),
        };
        let nn = match plan_wasi_nn(&self.config.features.wasi_nn, &dir) {
            Ok(n) => n,
            Err(e) => return Err(e),
        };
        let envs = copy_pairs(vars);
        let http = copy_http_policy(&self.config.features.http_requests);
        Ok(SandboxPlan { envs, stdin: input, mounts, nn, http })
    }
}

/// A worker whose configuration file is missing or malformed runs as if it
/// declared no mounts and no machine-learning features: preparing an
/// invocation succeeds, mounts nothing and attaches no backend.
pub proof fn lemma_default_config_grants_nothing(
    c: Config,
    path: Seq<char>,
    p: SandboxPlan,
    input: Seq<char>,
    vars: Seq<(String, String)>,
)
    requires
        is_default_config(c),
    ensures
        run_error(c, path) is None,
        plan_matches(p, c, path, input, vars) ==> p.mounts@.len() == 0 && p.nn is Disabled,
{
}

/// Two invocations of one worker share nothing they could observe of each
/// other: each sandbox holds its own input document and its own variables,
/// and both see the same declared mounts and network policy.
pub proof fn lemma_invocations_isolated(
    c: Config,
    path: Seq<char>,
    p1: SandboxPlan,
    input1: Seq<char>,
    vars1: Seq<(String, String)>,
    p2: SandboxPlan,
    input2: Seq<char>,
    vars2: Seq<(String, String)>,
)
    requires
        plan_matches(p1, c, path, input1, vars1),
        plan_matches(p2, c, path, input2, vars2),
    ensures
        p1.stdin@ == input1 && p2.stdin@ == input2,
        same_pairs(p1.envs@, vars1) && same_pairs(p2.envs@, vars2),
        input1 != input2 ==> p1.stdin@ != p2.stdin@,
        p1.mounts@.len() == p2.mounts@.len(),
        forall|i: int|
            0 <= i < p1.mounts@.len() ==> p1.mounts@[i].host@ == p2.mounts@[i].host@
                && p1.mounts@[i].guest@ == p2.mounts@[i].guest@,
{
}

/// When models are declared for preloading, the sandbox preloads exactly
/// those, whatever backend kinds are also allow-listed.
pub proof fn lemma_preload_precedence(
    p: SandboxPlan,
    c: Config,
    path: Seq<char>,
    input: Seq<char>,
    vars: Seq<(String, String)>,
)
    requires
        plan_matches(p, c, path, input, vars),
        c.features.wasi_nn.preload_models@.len() > 0,
    ensures
        match p.nn {
            NnPlan::Preload(m) => m@.len() == c.features.wasi_nn.preload_models@.len(),
            _ => false,
        },
{
}

} // verus!
