use wws_worker::config::{
    Config, Features, Folder, HttpRequestsConfig, LoadedConfig, WasiNnBackend, WasiNnConfig,
    WasiNnModel,
};
use wws_worker::envelope::{entries_from_pairs, insert_entry, WasmInput, WasmOutput};
use wws_worker::errors::{RuntimeError, WorkerError};
use wws_worker::identity::worker_id;
use wws_worker::paths::{config_path, find_last, join_path, parent_path};
use wws_worker::wiring::{
    captured_output, plan_mounts, plan_wasi_nn, stage_error, NnPlan, Stage,
};
use wws_worker::worker::Worker;

fn s(x: &str) -> String {
    x.to_string()
}

fn pair(k: &str, v: &str) -> (String, String) {
    (s(k), s(v))
}

fn config(folders: Option<Vec<Folder>>, nn: WasiNnConfig) -> Config {
    Config {
        folders,
        features: Features {
            http_requests: HttpRequestsConfig {
                allowed_hosts: vec![s("example.com")],
                allowed_methods: vec![s("GET")],
                allow_http: true,
            },
            wasi_nn: nn,
        },
    }
}

fn no_nn() -> WasiNnConfig {
    WasiNnConfig { allowed_backends: vec![], preload_models: vec![] }
}

fn folder(from: &str, to: &str) -> Folder {
    Folder { from: s(from), to: s(to) }
}

#[test]
fn join_relative_and_absolute() {
    assert_eq!(join_path("/srv/project", "api/index.wasm"), "/srv/project/api/index.wasm");
    assert_eq!(join_path("/srv/project/", "api/index.wasm"), "/srv/project/api/index.wasm");
    assert_eq!(join_path("/srv/project", "/abs/w.wasm"), "/abs/w.wasm");
    assert_eq!(join_path("", "a"), "a");
}

#[test]
fn parent_of_paths() {
    assert_eq!(parent_path("api/index.wasm"), Some(s("api")));
    assert_eq!(parent_path("/index.wasm"), Some(s("/")));
    assert_eq!(parent_path("index.wasm"), Some(s("")));
    assert_eq!(parent_path("/"), None);
    assert_eq!(parent_path(""), None);
    assert_eq!(parent_path("a/b/"), Some(s("a")));
    assert_eq!(parent_path("a//b"), Some(s("a")));
    assert_eq!(parent_path("//"), None);
    assert_eq!(parent_path("//a"), Some(s("/")));
}

#[test]
fn config_file_next_to_worker() {
    assert_eq!(config_path("api/index.wasm"), "api/index.toml");
    assert_eq!(config_path("api/handler"), "api/handler.toml");
    assert_eq!(config_path("api/.hidden"), "api/.hidden.toml");
    assert_eq!(config_path("a.b/c.d.wasm"), "a.b/c.d.toml");
    assert_eq!(config_path("api/"), "api.toml");
    assert_eq!(config_path("a/b.wasm//"), "a/b.toml");
    assert_eq!(config_path("a/.."), "a/..");
    assert_eq!(config_path(".."), "..");
    assert_eq!(config_path("/"), "/");
    assert_eq!(config_path(""), "");
}

#[test]
fn find_last_char() {
    assert_eq!(find_last("a/b/c", '/'), Some(3));
    assert_eq!(find_last("abc", '/'), None);
    assert_eq!(find_last("ßé/x", '/'), Some(2));
}

#[test]
fn worker_id_is_digest_of_absolute_path() {
    assert_eq!(
        worker_id("/srv/project", "api/index.wasm"),
        "bd05ccb04ef5d8e696acaffef0afaba98f7998671b1c99caf9a661a05aaf1b75"
    );
    assert_eq!(
        worker_id("/srv/project", "/abs/w.wasm"),
        "a3bd5f41dd0b7253a9ad0375499f57e2bea07ee873d66f677d9fdff57ffc6b7d"
    );
}

#[test]
fn worker_id_is_deterministic() {
    let a = Worker::new("/srv/project", "api/index.wasm", LoadedConfig::Missing);
    let b = Worker::new("/srv/project", "api/index.wasm", LoadedConfig::Malformed);
    let c = Worker::new("/srv/project/", "api/index.wasm", LoadedConfig::Missing);
    assert_eq!(a.id, b.id);
    assert_eq!(a.id, c.id);
    assert_eq!(a.id.len(), 64);
    assert!(a.id.chars().all(|c| c.is_ascii_digit() || ('a'..='f').contains(&c)));
    let d = Worker::new("/srv/other", "api/index.wasm", LoadedConfig::Missing);
    assert_ne!(a.id, d.id);
}

#[test]
fn later_entry_replaces_earlier() {
    let e = entries_from_pairs(vec![pair("a", "1"), pair("b", "2"), pair("a", "3")]);
    assert_eq!(e, vec![pair("a", "3"), pair("b", "2")]);
    let mut m = vec![pair("x", "1")];
    insert_entry(&mut m, s("y"), s("2"));
    insert_entry(&mut m, s("x"), s("9"));
    assert_eq!(m, vec![pair("x", "9"), pair("y", "2")]);
}

#[test]
fn input_document_fields() {
    let i = WasmInput::new(
        s("GET"),
        s("/x"),
        vec![pair("accept", "a"), pair("accept", "b")],
        vec![],
        s(""),
        None,
    );
    assert_eq!(i.method, "GET");
    assert_eq!(i.path, "/x");
    assert_eq!(i.headers, vec![pair("accept", "b")]);
    assert!(i.query.is_empty());
    assert!(i.kv.is_none());
    let j = WasmInput::new(s("POST"), s("/"), vec![], vec![], s("b"), Some(vec![pair("k", "v")]));
    assert_eq!(j.kv, Some(vec![pair("k", "v")]));
}

#[test]
fn mounts_resolve_against_worker_dir() {
    let dir = Some(s("api"));
    let fs = Some(vec![folder("data", "/data"), folder("/etc/x", "/x")]);
    let m = plan_mounts(&dir, &fs).unwrap();
    assert_eq!(m.len(), 2);
    assert_eq!(m[0].host, "api/data");
    assert_eq!(m[0].guest, "/data");
    assert_eq!(m[1].host, "/etc/x");
    assert_eq!(m[1].guest, "/x");
}

#[test]
fn mounts_without_worker_dir() {
    let fs = Some(vec![folder("data", "/data")]);
    assert!(matches!(plan_mounts(&None, &fs), Err(WorkerError::FailedToInitialize)));
    assert_eq!(plan_mounts(&None, &None).unwrap().len(), 0);
    assert_eq!(plan_mounts(&None, &Some(vec![])).unwrap().len(), 0);
}

#[test]
fn preload_takes_precedence() {
    let cfg = WasiNnConfig {
        allowed_backends: vec![WasiNnBackend::Openvino],
        preload_models: vec![WasiNnModel { backend: WasiNnBackend::Openvino, path: s("model") }],
    };
    match plan_wasi_nn(&cfg, &Some(s("api"))) {
        Ok(NnPlan::Preload(m)) => {
            assert_eq!(m.len(), 1);
            assert_eq!(m[0].dir, "api/model");
            assert_eq!(m[0].backend, WasiNnBackend::Openvino);
        }
        _ => panic!("expected preload"),
    }
    assert!(matches!(
        plan_wasi_nn(&cfg, &None),
        Err(WorkerError::RuntimeError(RuntimeError::WasiContextError))
    ));
}

#[test]
fn allow_list_and_disabled() {
    let cfg = WasiNnConfig { allowed_backends: vec![WasiNnBackend::Openvino], preload_models: vec![] };
    match plan_wasi_nn(&cfg, &None) {
        Ok(NnPlan::AllowList(b)) => assert_eq!(b, vec![WasiNnBackend::Openvino]),
        _ => panic!("expected allow-list"),
    }
    assert!(matches!(plan_wasi_nn(&no_nn(), &None), Ok(NnPlan::Disabled)));
}

#[test]
fn stage_errors_are_coarse() {
    assert_eq!(stage_error(Stage::LinkHttp), WorkerError::ConfigureRuntimeError);
    assert_eq!(stage_error(Stage::OpenMount), WorkerError::ConfigureRuntimeError);
    assert_eq!(stage_error(Stage::Call), WorkerError::ConfigureRuntimeError);
    assert_eq!(stage_error(Stage::Output), WorkerError::ConfigureRuntimeError);
    assert_eq!(stage_error(Stage::LinkWasiNn), WorkerError::ConfigureRuntimeError);
    assert_eq!(
        stage_error(Stage::PreloadModels),
        WorkerError::RuntimeError(RuntimeError::WasiContextError)
    );
    assert_eq!(
        stage_error(Stage::AdapterPermissions(RuntimeError::CannotPrepare)),
        WorkerError::RuntimeError(RuntimeError::CannotPrepare)
    );
}

#[test]
fn empty_output_is_protocol_error() {
    assert_eq!(captured_output(vec![]), Err(WorkerError::ConfigureRuntimeError));
    assert_eq!(captured_output(b"{\"status\":".to_vec()), Err(WorkerError::ConfigureRuntimeError));
    assert_eq!(captured_output(b"{} {}".to_vec()), Err(WorkerError::ConfigureRuntimeError));
}

#[test]
fn echoed_output_is_kept_byte_for_byte() {
    let input = "{\"method\":\"GET\",\"path\":\"/x\",\"headers\":{},\"query\":{},\"body\":\"\",\"kv\":null}";
    let out = format!(
        "{{\"status\":200,\"headers\":{{}},\"body\":{}}}",
        serde_json::to_string(input).unwrap()
    );
    let bytes = out.clone().into_bytes();
    assert_eq!(captured_output(bytes.clone()), Ok(bytes));
}

#[test]
fn default_config_grants_nothing() {
    let w = Worker::new("/srv/project", "api/index.wasm", LoadedConfig::Malformed);
    assert!(w.config.folders.is_none());
    let p = w.prepare_run(s("{}"), &vec![]).unwrap();
    assert!(p.mounts.is_empty());
    assert!(matches!(p.nn, NnPlan::Disabled));
    assert!(p.http.allowed_hosts.is_empty());
    assert!(!p.http.allow_http);
}

#[test]
fn parsed_config_is_used() {
    let c = config(Some(vec![folder("static", "/static")]), no_nn());
    let w = Worker::new("/srv/project", "api/index.wasm", LoadedConfig::Parsed(c));
    let p = w.prepare_run(s("in"), &vec![pair("K", "V")]).unwrap();
    assert_eq!(p.stdin, "in");
    assert_eq!(p.envs, vec![pair("K", "V")]);
    assert_eq!(p.mounts.len(), 1);
    assert_eq!(p.mounts[0].host, "api/static");
    assert_eq!(p.mounts[0].guest, "/static");
    assert_eq!(p.http.allowed_hosts, vec![s("example.com")]);
    assert_eq!(p.http.allowed_methods, vec![s("GET")]);
    assert!(p.http.allow_http);
}

#[test]
fn invocations_do_not_share_inputs() {
    let c = config(Some(vec![folder("static", "/static")]), no_nn());
    let w = Worker::new("/srv/project", "api/index.wasm", LoadedConfig::Parsed(c));
    let p1 = w.prepare_run(s("one"), &vec![pair("A", "1")]).unwrap();
    let p2 = w.prepare_run(s("two"), &vec![pair("B", "2")]).unwrap();
    assert_eq!(p1.stdin, "one");
    assert_eq!(p2.stdin, "two");
    assert_eq!(p1.envs, vec![pair("A", "1")]);
    assert_eq!(p2.envs, vec![pair("B", "2")]);
    assert_eq!(p1.mounts[0].host, p2.mounts[0].host);
    let p3 = w.prepare_run(s("three"), &vec![]).unwrap();
    assert!(p3.envs.is_empty());
}

#[test]
fn run_without_worker_dir() {
    let c = config(Some(vec![folder("static", "/static")]), no_nn());
    let w = Worker::new("/srv/project", "", LoadedConfig::Parsed(c));
    assert!(matches!(w.prepare_run(s("x"), &vec![]), Err(WorkerError::FailedToInitialize)));
    let nn = WasiNnConfig {
        allowed_backends: vec![],
        preload_models: vec![WasiNnModel { backend: WasiNnBackend::Openvino, path: s("m") }],
    };
    let w2 = Worker::new("/srv/project", "", LoadedConfig::Parsed(config(None, nn)));
    assert!(matches!(
        w2.prepare_run(s("x"), &vec![]),
        Err(WorkerError::RuntimeError(RuntimeError::WasiContextError))
    ));
}

#[test]
fn output_document_headers_unique() {
    let o = WasmOutput::new(200, vec![pair("a", "1"), pair("a", "2")], s("ok"));
    assert_eq!(o.status, 200);
    assert_eq!(o.headers, vec![pair("a", "2")]);
    assert_eq!(o.body, "ok");
}
