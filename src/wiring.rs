use vstd::prelude::*;
use crate::config::{Folder, HttpRequestsConfig, WasiNnBackend, WasiNnConfig};
use crate::errors::{RuntimeError, WorkerError};
use crate::paths::{join_path, joined};

verus! {

/// A host directory bound to a guest-visible name.
pub struct Mount {
    pub host: String,
    pub guest: String,
}

/// A model the host loads before the guest runs, with its files' directory.
pub struct ModelSource {
    pub backend: WasiNnBackend,
    pub dir: String,
}

/// The machine-learning capability of one invocation.
pub enum NnPlan {
    /// Load these models eagerly and register them before the guest runs.
    Preload(Vec<ModelSource>),
    /// Start these backends with an empty registry; the guest loads models.
    AllowList(Vec<WasiNnBackend>),
    /// No machine-learning capability.
    Disabled,
}

/// The mount declarations of an optional list, empty when there is none.
pub open spec fn folders_of(folders: Option<Vec<Folder>>) -> Seq<Folder> {
    match folders {
        Some(f) => f@,
        None => Seq::empty(),
    }
}

/// `m` binds exactly the declared folders, in order: the guest sees each
/// one only under its declared target, and no other host path.
pub open spec fn mounts_match(m: Seq<Mount>, dir: Seq<char>, fs: Seq<Folder>) -> bool {
    &&& m.len() == fs.len()
    &&& forall|i: int|
        0 <= i < m.len() ==> m[i].guest@ == fs[i].to@ && m[i].host@ == joined(dir, fs[i].from@)
}

/// Resolves the mount declarations against the worker's directory.
pub fn plan_mounts(worker_dir: &Option<String>, folders: &Option<Vec<Folder>>) -> (r: Result<
    Vec<Mount>,
    WorkerError,
>)
    ensures
        match r {
            Ok(m) => folders_of(*folders).len() == 0 && m@.len() == 0 || (match *worker_dir {
                Some(d) => mounts_match(m@, d@, folders_of(*folders)),
                None => false,
            }),
            Err(e) => e == WorkerError::FailedToInitialize && folders_of(*folders).len() > 0
                && worker_dir is None,
        },
        folders_of(*folders).len() == 0 || worker_dir is Some ==> r is Ok,
{
    let mut out: Vec<Mount> = Vec::new();
    match folders {
        None => Ok(out),
        Some(fs) => {
            if fs.len() == 0 {
                return Ok(out);
            }
            match worker_dir {
                None => Err(WorkerError::FailedToInitialize),
                Some(d) => {
                    let n = fs.len();
                    let mut i: usize = 0;
                    while i < n
                        invariant
                            n == fs@.len(),
                            i <= n,
                            mounts_match(out@, d@, fs@.subrange(0, i as int)),
                        decreases n - i,
                    {
                        let host = join_path(d.as_str(), fs[i].from.as_str());
                        let guest = fs[i].to.clone();
                        out.push(Mount { host, guest });
                        i = i + 1;
                    }
                    assert(fs@.subrange(0, n as int) =~= fs@);
                    Ok(out)
                },
            }
        },
    }
}

/// `p` lists the declared models, in order, with their directories resolved
/// against the worker's directory.
pub open spec fn models_match(p: Seq<ModelSource>, dir: Seq<char>, cfg: WasiNnConfig) -> bool {
    &&& p.len() == cfg.preload_models@.len()
    &&& forall|i: int|
        0 <= i < p.len() ==> p[i].backend == cfg.preload_models@[i].backend && p[i].dir@ == joined(
            dir,
            cfg.preload_models@[i].path@,
        )
}

/// Chooses the machine-learning capability. Preloading, when any model is
/// declared, takes precedence over the allow-list; with neither, there is
/// none.
pub fn plan_wasi_nn(cfg: &WasiNnConfig, worker_dir: &Option<String>) -> (r: Result<NnPlan, WorkerError>)
    ensures
        cfg.preload_models@.len() > 0 ==> match r {
            Ok(NnPlan::Preload(p)) => match *worker_dir {
                Some(d) => models_match(p@, d@, *cfg),
                None => false,
            },
            Err(e) => e == WorkerError::RuntimeError(RuntimeError::WasiContextError)
                && worker_dir is None,
            _ => false,
        },
        cfg.preload_models@.len() > 0 && worker_dir is Some ==> r is Ok,
        cfg.preload_models@.len() == 0 && cfg.allowed_backends@.len() > 0 ==> match r {
            Ok(NnPlan::AllowList(b)) => b@ == cfg.allowed_backends@,
            _ => false,
        },
        cfg.preload_models@.len() == 0 && cfg.allowed_backends@.len() == 0 ==> r == Ok::<
            NnPlan,
            WorkerError,
        >(NnPlan::Disabled),
{
    let nm = cfg.preload_models.len();
    if nm > 0 {
        match worker_dir {
            None => Err(WorkerError::RuntimeError(RuntimeError::WasiContextError)),
            Some(d) => {
                let mut out: Vec<ModelSource> = Vec::new();
                let mut i: usize = 0;
                while i < nm
                    invariant
                        nm == cfg.preload_models@.len(),
                        i <= nm,
                        out@.len() == i,
                        forall|j: int|
                            0 <= j < i ==> out@[j].backend == cfg.preload_models@[j].backend
                                && out@[j].dir@ == joined(d@, cfg.preload_models@[j].path@),
                    decreases nm - i,
                {
                    let m = &cfg.preload_models[i];
                    let dir = join_path(d.as_str(), m.path.as_str());
                    out.push(ModelSource { backend: m.backend, dir });
                    i = i + 1;
                }
                Ok(NnPlan::Preload(out))
            },
        }
    } else if cfg.allowed_backends.len() > 0 {
        let nb = cfg.allowed_backends.len();
        let mut out: Vec<WasiNnBackend> = Vec::new();
        let mut i: usize = 0;
        while i < nb
            invariant
                nb == cfg.allowed_backends@.len(),
                i <= nb,
                out@ == cfg.allowed_backends@.subrange(0, i as int),
            decreases nb - i,
        {
            out.push(cfg.allowed_backends[i]);
            assert(out@ =~= cfg.allowed_backends@.subrange(0, i + 1));
            i = i + 1;
        }
        assert(out@ =~= cfg.allowed_backends@);
        Ok(NnPlan::AllowList(out))
    } else {
        Ok(NnPlan::Disabled)
    }
}

/// `r` holds the same names and values as `v`, in the same order.
pub open spec fn same_pairs(r: Seq<(String, String)>, v: Seq<(String, String)>) -> bool {
    &&& r.len() == v.len()
    &&& forall|i: int| 0 <= i < r.len() ==> r[i].0@ == v[i].0@ && r[i].1@ == v[i].1@
}

/// `r` holds the same strings as `v`, in the same order.
pub open spec fn same_strings(r: Seq<String>, v: Seq<String>) -> bool {
    &&& r.len() == v.len()
    &&& forall|i: int| 0 <= i < r.len() ==> r[i]@ == v[i]@
}

/// A fresh copy of name/value pairs.
pub fn copy_pairs(v: &Vec<(String, String)>) -> (r: Vec<(String, String)>)
    ensures
        same_pairs(r@, v@),
{
    let mut out: Vec<(String, String)> = Vec::new();
    let n = v.len();
    let mut i: usize = 0;
    while i < n
        invariant
            n == v@.len(),
            i <= n,
            same_pairs(out@, v@.subrange(0, i as int)),
        decreases n - i,
    {
        out.push((v[i].0.clone(), v[i].1.clone()));
        i = i + 1;
    }
    assert(v@.subrange(0, n as int) =~= v@);
    out
}

/// A fresh copy of a list of strings.
pub fn copy_strings(v: &Vec<String>) -> (r: Vec<String>)
    ensures
        same_strings(r@, v@),
{
    let mut out: Vec<String> = Vec::new();
    let n = v.len();
    let mut i: usize = 0;
    while i < n
        invariant
            n == v@.len(),
            i <= n,
            same_strings(out@, v@.subrange(0, i as int)),
        decreases n - i,
    {
        out.push(v[i].clone());
        i = i + 1;
    }
    assert(v@.subrange(0, n as int) =~= v@);
    out
}

/// `r` states the same outbound-network policy as `c`.
pub open spec fn same_http_policy(r: HttpRequestsConfig, c: HttpRequestsConfig) -> bool {
    &&& same_strings(r.allowed_hosts@, c.allowed_hosts@)
    &&& same_strings(r.allowed_methods@, c.allowed_methods@)
    &&& r.allow_http == c.allow_http
}

/// A fresh copy of the outbound-network policy, for one invocation's host
/// functions.
pub fn copy_http_policy(c: &HttpRequestsConfig) -> (r: HttpRequestsConfig)
    ensures
        same_http_policy(r, *c),
{
    HttpRequestsConfig {
        allowed_hosts: copy_strings(&c.allowed_hosts),
        allowed_methods: copy_strings(&c.allowed_methods),
        allow_http: c.allow_http,
    }
}

/// The steps of one invocation that can fail.
pub enum Stage {
    LinkHttp,
    LinkWasi,
    Environment,
    OpenMount,
    PreopenMount,
    PreloadModels,
    LinkWasiNn,
    /// The runtime adapter's own contribution to the sandbox, with its error.
    AdapterPermissions(RuntimeError),
    Instantiate,
    EntryPoint,
    TypeCheck,
    Call,
    Output,
}

/// The error that a failure at `stage` is reported as.
pub open spec fn stage_error_of(stage: Stage) -> WorkerError {
    match stage {
        Stage::PreloadModels => WorkerError::RuntimeError(RuntimeError::WasiContextError),
        Stage::AdapterPermissions(e) => WorkerError::RuntimeError(e),
        _ => WorkerError::ConfigureRuntimeError,
    }
}

/// Reports a failure at `stage`. Host wiring, the registration of every
/// group of host functions, instantiation and the guest's own failure are
/// deliberately one error; preloading models and the adapter report a
/// runtime error.
pub fn stage_error(stage: Stage) -> (r: WorkerError)
    ensures
        r == stage_error_of(stage),
{
    match stage {
        Stage::PreloadModels => WorkerError::RuntimeError(RuntimeError::WasiContextError),
        Stage::AdapterPermissions(e) => WorkerError::RuntimeError(e),
        _ => WorkerError::ConfigureRuntimeError,
    }
}

/// Whether serde_json reads `b` as exactly one JSON value, within its own
/// limits on nesting depth and number range.
pub uninterp spec fn json_document(b: Seq<u8>) -> bool;

/// Relies on `serde_json::from_slice` into `serde_json::Value`: whether it
/// accepts `b` depends on the bytes alone, and empty input fails (end of
/// input while parsing a value).
#[verifier::external_body]
fn is_json_document(b: &[u8]) -> (r: bool)
    ensures
        r == json_document(b@),
        b@.len() == 0 ==> !r,
{
    serde_json::from_slice::<serde_json::Value>(b).is_ok()
}

/// Checks what the guest wrote to its standard output: bytes that serde_json
/// reads as one JSON value are returned unchanged, anything else is the
/// protocol error.
pub fn captured_output(bytes: Vec<u8>) -> (r: Result<Vec<u8>, WorkerError>)
    ensures
        json_document(bytes@) ==> r == Ok::<Vec<u8>, WorkerError>(bytes),
        !json_document(bytes@) ==> r == Err::<Vec<u8>, WorkerError>(
            WorkerError::ConfigureRuntimeError,
        ),
        bytes@.len() == 0 ==> r == Err::<Vec<u8>, WorkerError>(WorkerError::ConfigureRuntimeError),
{
    if is_json_document(bytes.as_slice()) {
        Ok(bytes)
    } else {
        Err(WorkerError::ConfigureRuntimeError)
    }
}

} // verus!
