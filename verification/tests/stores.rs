//! Templates, contexts and the building of stores.
use std::sync::Arc;

use linked_call::ctx::{build_ctx_from_template, HostEnv};
use linked_call::ephemeral::{
    load_templates, mount_component_ids, new_ephemeral_store, EphemeralAction, EphemeralBuild,
    EphemeralEvent, EphemeralLinkedCall,
};
use linked_call::error::LinkError;
use linked_call::sockets::SocketAddrUse;
use linked_call::store::{
    new_store_from_templates, plan_store, StepOutcome, StoreAction, StoreBuild, StorePlan,
};
use linked_call::str_map::StrMap;
use linked_call::template::{
    component_ctx_template_from_metadata, component_ctx_template_from_metadata_with_tls,
    ComponentCtxTemplate, DirPerms, FilePerms, LocalResources, ResolvedVolumeMount,
    WorkloadComponent, WorkloadMetadata,
};

type Metadata = WorkloadMetadata<str, str>;
type Template = ComponentCtxTemplate<str, str, str>;
type Plan = StorePlan<str, str, str, str>;
type Build = StoreBuild<str, str, str, str>;

fn name(s: &str) -> Arc<str> {
    Arc::from(s)
}

fn texts(pairs: &[(&str, &str)]) -> StrMap<Arc<str>> {
    let mut m = StrMap::new();
    for (k, v) in pairs {
        m.insert(name(k), name(v));
    }
    m
}

fn mount(path: &str) -> ResolvedVolumeMount {
    ResolvedVolumeMount {
        host_path: name(&format!("/host{path}")),
        mount_path: name(path),
        dir_perms: DirPerms { read: true, mutate: false },
        file_perms: FilePerms { read: true, write: false },
    }
}

fn metadata(id: &str, memory_limit_mb: i32, config: &[(&str, &str)]) -> Metadata {
    WorkloadMetadata {
        id: name(id),
        workload_id: name("workload"),
        local_resources: LocalResources {
            memory_limit_mb,
            config: texts(config),
            environment: texts(&[("WHO", id)]),
            allowed_hosts: vec![name("example.com")],
        },
        resolved_volume_mounts: vec![mount(&format!("/{id}"))],
        plugins: None,
        loopback: name("loopback"),
    }
}

fn template(id: &str, config: &[(&str, &str)]) -> Template {
    component_ctx_template_from_metadata(&metadata(id, 0, config))
}

fn no_env() -> HostEnv {
    HostEnv {
        allow_raw_sockets: None,
        epoch_deadline_ticks: None,
        memory_limit_mb: None,
        memory_ceiling_mb: None,
    }
}

fn ids(list: &[&str]) -> Vec<Arc<str>> {
    list.iter().map(|s| name(s)).collect()
}

fn plan(active: &Template, linked: &Vec<Template>, instances: &[&str], env: &HostEnv) -> Plan {
    plan_store("store".to_string(), &name("http"), active, linked, &ids(instances), true, env)
}

/// Runs a build; `fails` says with what an action fails, if it does.
fn drive(
    mut build: Build,
    fails: impl Fn(&str) -> Option<String>,
) -> (Vec<String>, Result<(), LinkError>) {
    let mut log = Vec::new();
    loop {
        let action = match build.action() {
            StoreAction::Stop => return (log, build.result().unwrap()),
            StoreAction::BuildActiveCtx => "ctx active".to_string(),
            StoreAction::BuildLinkedCtx(i) => format!("ctx linked {i}"),
            StoreAction::Open => "open".to_string(),
            StoreAction::SetActive(id) => format!("enter {id}"),
            StoreAction::Instantiate(i) => format!("instantiate {i}"),
            StoreAction::Register(i) => format!("register {i}"),
        };
        let outcome = match fails(&action) {
            Some(cause) => StepOutcome::Failed(cause),
            None => StepOutcome::Done,
        };
        log.push(action);
        build = build.advance(outcome);
    }
}

#[test]
fn template_takes_everything_from_the_metadata() {
    let mut m = metadata("a", 7, &[("k", "v")]);
    let mut plugins = StrMap::new();
    plugins.insert(name("logging"), name("plugin"));
    m.plugins = Some(plugins);
    let t: Template = component_ctx_template_from_metadata(&m);
    assert_eq!(&*t.component_id, "a");
    assert_eq!(&*t.workload_id, "workload");
    assert_eq!(t.local_resources.memory_limit_mb, 7);
    assert_eq!(t.local_resources.config_value("k"), Some("v"));
    assert_eq!(t.local_resources.config_value("x"), None);
    assert_eq!(&**t.local_resources.environment.get("WHO").unwrap(), "a");
    assert_eq!(&*t.local_resources.allowed_hosts[0], "example.com");
    assert_eq!(t.volume_mounts.len(), 1);
    assert_eq!(&*t.volume_mounts[0].host_path, "/host/a");
    assert_eq!(t.volume_mounts[0].dir_perms, DirPerms { read: true, mutate: false });
    assert_eq!(t.volume_mounts[0].file_perms, FilePerms { read: true, write: false });
    assert_eq!(&**t.plugins.as_ref().unwrap().get("logging").unwrap(), "plugin");
    assert!(Arc::ptr_eq(&t.loopback, &m.loopback));
    assert!(t.tls_provider.is_none());
    assert_eq!(&*Template::from_metadata(&m).component_id, "a");
}

#[test]
fn template_with_tls_differs_by_the_provider_only() {
    let m = metadata("a", 0, &[]);
    let tls = name("tls");
    let t = component_ctx_template_from_metadata_with_tls(&m, Some(tls.clone()));
    assert!(Arc::ptr_eq(t.tls_provider.as_ref().unwrap(), &tls));
    assert_eq!(&*t.component_id, "a");
    assert!(t.plugins.is_none());
}

#[test]
fn context_follows_its_template() {
    let m = metadata("a", 0, &[("wamn.allow-raw-sockets", "true")]);
    let t = component_ctx_template_from_metadata_with_tls(&m, Some(name("tls")));
    let mut env = no_env();
    env.allow_raw_sockets = Some(name("false"));
    let ctx = build_ctx_from_template(
        &t,
        &name("http"),
        &vec![mount("/x"), mount("/y")],
        &"store-1".to_string(),
        true,
        &env,
    );
    assert_eq!(&*ctx.component_id, "a");
    assert_eq!(&*ctx.workload_id, "workload");
    assert_eq!(ctx.store_id, "store-1");
    assert_eq!(&*ctx.http_handler, "http");
    assert_eq!(&**ctx.environment.get("WHO").unwrap(), "a");
    assert_eq!(ctx.preopens.len(), 2);
    assert_eq!(&*ctx.preopens[1].mount_path, "/y");
    assert_eq!(&*ctx.allowed_hosts[0], "example.com");
    assert_eq!(&**ctx.tls_provider.as_ref().unwrap(), "tls");
    assert!(ctx.sockets.allow_raw_sockets);
    assert!(ctx.sockets.is_service);
    assert!(!ctx.sockets.denial_logged);
    assert_eq!(&*ctx.sockets.component_id, "a");
}

#[test]
fn context_goes_by_the_environment_where_the_configuration_is_silent() {
    let t = template("a", &[]);
    let http = name("http");
    let mut env = no_env();
    let ctx = build_ctx_from_template(&t, &http, &vec![], &"s".to_string(), false, &env);
    assert!(!ctx.sockets.allow_raw_sockets);
    env.allow_raw_sockets = Some(name("true"));
    let ctx = build_ctx_from_template(&t, &http, &vec![], &"s".to_string(), false, &env);
    assert!(ctx.sockets.allow_raw_sockets);
    assert!(!ctx.sockets.is_service);
}

#[test]
fn plan_gives_every_context_all_mounts() {
    let p = plan(&template("a", &[]), &vec![template("b", &[]), template("c", &[])], &[], &no_env());
    let paths = |mounts: &Vec<ResolvedVolumeMount>| {
        mounts.iter().map(|m| m.mount_path.to_string()).collect::<Vec<_>>()
    };
    assert_eq!(paths(&p.active.preopens), ["/a", "/b", "/c"]);
    assert_eq!(p.linked.len(), 2);
    assert_eq!(paths(&p.linked[0].preopens), ["/a", "/b", "/c"]);
    assert_eq!(paths(&p.linked[1].preopens), ["/a", "/b", "/c"]);
    assert_eq!(p.store_id, "store");
    assert_eq!(p.active.store_id, "store");
    assert_eq!(p.linked[1].store_id, "store");
    assert_eq!(&*p.active.http_handler, "http");
    assert_eq!(&*p.linked[1].http_handler, "http");
}

#[test]
fn linked_components_are_no_services() {
    let mut p = plan(&template("a", &[]), &vec![template("b", &[])], &[], &no_env());
    assert!(p.active.sockets.check(SocketAddrUse::TcpBind, true).permitted);
    assert!(!p.linked[0].sockets.check(SocketAddrUse::TcpBind, true).permitted);
}

#[test]
fn opt_in_is_per_component() {
    let linked = vec![template("b", &[("wamn.allow-raw-sockets", "true")])];
    let p = plan(&template("a", &[]), &linked, &[], &no_env());
    assert!(!p.active.sockets.allow_raw_sockets);
    assert!(p.linked[0].sockets.allow_raw_sockets);
}

#[test]
fn active_component_sets_the_limits() {
    let active = template("a", &[("wamn.epoch-deadline-ticks", "5"), ("wamn.memory-limit-mb", "2")]);
    let linked = vec![template("b", &[("wamn.epoch-deadline-ticks", "9")])];
    let p = plan(&active, &linked, &[], &no_env());
    assert_eq!(p.epoch_deadline_ticks, 5);
    let limit = p.memory_limit.unwrap().unwrap();
    assert_eq!(limit.bytes, 2 << 20);
    assert_eq!(&*limit.component_id, "a");
    let p = plan(&template("a", &[]), &linked, &[], &no_env());
    assert_eq!(p.epoch_deadline_ticks, u64::MAX / 2);
    assert!(p.memory_limit.unwrap().is_none());
}

#[test]
fn new_stores_have_random_names() {
    let http = name("http");
    let make = || {
        new_store_from_templates(&http, &template("a", &[]), &vec![], &vec![], false, &no_env())
    };
    let (a, b) = (make(), make());
    let id = a.plan_ref().store_id.clone();
    assert_ne!(id, b.plan_ref().store_id);
    assert_eq!(id.len(), 36);
    for (i, c) in id.chars().enumerate() {
        if [8, 13, 18, 23].contains(&i) {
            assert_eq!(c, '-');
        } else {
            assert!(c.is_ascii_digit() || ('a'..='f').contains(&c), "{id}");
        }
    }
    assert_eq!(&id[14..15], "4");
    assert!("89ab".contains(&id[19..20]));
}

#[test]
fn smooth_build_takes_its_steps_in_order() {
    let linked = vec![template("b", &[]), template("c", &[])];
    let p = plan(&template("a", &[]), &linked, &["b", "c"], &no_env());
    let (log, result) = drive(StoreBuild::new(p), |_| None);
    assert!(result.is_ok());
    assert_eq!(
        log,
        [
            "ctx active",
            "ctx linked 0",
            "ctx linked 1",
            "open",
            "enter b",
            "instantiate 0",
            "enter a",
            "register 0",
            "enter c",
            "instantiate 1",
            "enter a",
            "register 1",
        ]
    );
    assert_eq!(log.len(), 2 + 2 + 4 * 2);
}

#[test]
fn failed_instantiation_brings_the_context_back() {
    let linked = vec![template("b", &[]), template("c", &[])];
    let p = plan(&template("a", &[]), &linked, &["b", "c"], &no_env());
    let (log, result) = drive(StoreBuild::new(p), |action| {
        (action == "instantiate 0").then_some("no memory".to_string())
    });
    assert_eq!(log.last().unwrap(), "enter a");
    assert_eq!(
        result.unwrap_err().message(),
        "failed to instantiate linked component 'b' in ephemeral store: no memory"
    );
}

#[test]
fn failed_step_ends_the_build() {
    for step in ["ctx active", "ctx linked 0", "open", "enter b", "enter a", "register 0"] {
        let p = plan(&template("a", &[]), &vec![template("b", &[])], &["b"], &no_env());
        let (log, result) =
            drive(StoreBuild::new(p), |action| (action == step).then_some("boom".to_string()));
        assert_eq!(log.last().unwrap(), step);
        assert_eq!(result.unwrap_err().message(), "boom");
    }
}

#[test]
fn failed_change_back_hides_the_failed_instantiation() {
    let p = plan(&template("a", &[]), &vec![template("b", &[])], &["b"], &no_env());
    let (_, result) = drive(StoreBuild::new(p), |action| match action {
        "instantiate 0" => Some("no memory".to_string()),
        "enter a" => Some("no context".to_string()),
        _ => None,
    });
    assert_eq!(result.unwrap_err().message(), "no context");
}

#[test]
fn budget_above_the_ceiling_opens_no_store() {
    let mut env = no_env();
    env.memory_limit_mb = Some(name("65"));
    env.memory_ceiling_mb = Some(name("64"));
    let p = plan(&template("a", &[]), &vec![template("b", &[])], &["b"], &env);
    let (log, result) = drive(StoreBuild::new(p), |_| None);
    assert_eq!(log, ["ctx active", "ctx linked 0"]);
    assert!(matches!(
        result.unwrap_err(),
        LinkError::BudgetExceedsCeiling { budget_mb: 65, ceiling_mb: 64, .. }
    ));
}

#[test]
fn build_has_no_result_while_steps_are_left() {
    let p = plan(&template("a", &[]), &vec![], &[], &no_env());
    assert!(StoreBuild::new(p).result().is_none());
}

// --- stores of single calls ---

fn call(linked: &[&str]) -> EphemeralLinkedCall<str, str> {
    EphemeralLinkedCall {
        http_handler: name("http"),
        active_component_id: name("callee"),
        linked_component_ids: ids(linked),
        tls_provider: Some(name("tls")),
    }
}

type Components = StrMap<WorkloadComponent<str, str, ()>>;
type Event<'a> = EphemeralEvent<'a, str, str, ()>;
type Ephemeral = EphemeralBuild<str, str, str, str>;

fn components(list: &[&str]) -> Components {
    let mut m = StrMap::new();
    for id in list {
        m.insert(name(id), WorkloadComponent { metadata: metadata(id, 0, &[]), component: () });
    }
    m
}

#[test]
fn mounts_are_resolved_once_per_component() {
    let list = |active: &str, linked: &[&str]| {
        mount_component_ids(&name(active), &ids(linked))
            .iter()
            .map(|id| id.to_string())
            .collect::<Vec<_>>()
    };
    assert_eq!(list("m", &["z", "a", "m", "z", "b"]), ["a", "b", "m", "z"]);
    assert_eq!(list("m", &[]), ["m"]);
}

#[test]
fn templates_are_loaded_for_all_components() {
    let t = load_templates(&call(&["b", "a"]), &components(&["a", "b", "callee"])).ok().unwrap();
    assert_eq!(&*t.active.component_id, "callee");
    assert_eq!(t.linked.len(), 2);
    assert_eq!(&*t.linked[0].component_id, "b");
    assert_eq!(&*t.linked[1].component_id, "a");
    assert_eq!(&**t.active.tls_provider.as_ref().unwrap(), "tls");
    assert_eq!(&**t.linked[1].tls_provider.as_ref().unwrap(), "tls");
}

#[test]
fn missing_components_are_reported() {
    let message = |have: &[&str]| {
        load_templates(&call(&["b", "c"]), &components(have)).err().unwrap().message()
    };
    assert_eq!(message(&[]), "ephemeral linked component 'callee' not found");
    assert_eq!(message(&["b", "c"]), "ephemeral linked component 'callee' not found");
    assert_eq!(message(&["callee"]), "linked component 'b' not found");
    assert_eq!(message(&["callee", "b"]), "linked component 'c' not found");
}

fn start(linked: &[&str]) -> Ephemeral {
    new_ephemeral_store(&call(linked))
}

fn feed(build: Ephemeral, event: Event<'_>) -> Ephemeral {
    build.advance(event)
}

#[test]
fn ephemeral_store_is_prepared_step_by_step() {
    let all = components(&["b", "callee"]);
    let b = start(&["b"]);
    match b.action() {
        EphemeralAction::ResolveMounts(ids) => {
            assert_eq!(ids.iter().map(|i| &**i).collect::<Vec<_>>(), ["b", "callee"]);
        }
        other => panic!("{other:?}"),
    }
    let b = feed(b, EphemeralEvent::Done);
    assert!(matches!(b.action(), EphemeralAction::ReadComponents));
    let b = feed(b, EphemeralEvent::Components(&all));
    assert!(matches!(b.action(), EphemeralAction::PreInstantiate(id) if &*id == "b"));
    let b = feed(b, EphemeralEvent::Done);
    assert!(matches!(b.action(), EphemeralAction::BuildStore));
    let build = b.store(&no_env()).unwrap().ok().unwrap();
    let p = build.plan_ref();
    assert_eq!(&*p.active.component_id, "callee");
    assert!(!p.active.sockets.is_service);
    assert_eq!(p.instances.iter().map(|i| &**i).collect::<Vec<_>>(), ["b"]);
    assert_eq!(&**p.active.tls_provider.as_ref().unwrap(), "tls");
    assert_eq!(&*p.active.http_handler, "http");
    assert_eq!(p.store_id.len(), 36);
}

#[test]
fn ephemeral_store_without_linked_components() {
    let all = components(&["callee"]);
    let b = feed(start(&[]), EphemeralEvent::Done);
    let b = feed(b, EphemeralEvent::Components(&all));
    assert!(matches!(b.action(), EphemeralAction::BuildStore));
}

#[test]
fn ephemeral_store_reports_what_went_wrong() {
    let error = |b: Ephemeral| {
        assert!(matches!(b.action(), EphemeralAction::Stop));
        b.store(&no_env()).unwrap().err().unwrap().message()
    };
    let b = feed(start(&["b"]), EphemeralEvent::Failed("no such mount".to_string()));
    assert_eq!(error(b), "no such mount");

    let none = components(&[]);
    let b = feed(start(&["b"]), EphemeralEvent::Done);
    let b = feed(b, EphemeralEvent::Components(&none));
    assert_eq!(error(b), "ephemeral linked component 'callee' not found");

    let all = components(&["b", "callee"]);
    let ready = || {
        let b = feed(start(&["b"]), EphemeralEvent::Done);
        feed(b, EphemeralEvent::Components(&all))
    };
    assert_eq!(
        error(feed(ready(), EphemeralEvent::Missing)),
        "failed to pre-instantiate linked components for ephemeral call: \
         linked component 'b' not found"
    );
    assert_eq!(
        error(feed(ready(), EphemeralEvent::Failed("bad import".to_string()))),
        "failed to pre-instantiate linked components for ephemeral call: bad import"
    );
}

#[test]
fn ephemeral_store_waits_for_the_right_answer() {
    let b = feed(start(&["b"]), EphemeralEvent::Missing);
    assert!(matches!(b.action(), EphemeralAction::ResolveMounts(_)));
    assert!(b.store(&no_env()).is_none());
}
