//! The context that a component runs in, as a recipe of plain values.
use std::sync::Arc;
use vstd::prelude::*;

use crate::sockets::{
    raw_sockets_allowed, resolve_allow_raw_sockets, SocketGuard, ALLOW_RAW_SOCKETS_KEY,
};
use crate::str_map::StrMap;
use crate::template::{
    append_mounts, config_text, opt_text, plugins_view, share_names, share_opt, share_plugins,
    ComponentCtxTemplate, ResolvedVolumeMount, TemplateView,
};

verus! {

/// The host's environment variables that bear on stores and contexts, each as it
/// was read, if it was set.
pub struct HostEnv {
    pub allow_raw_sockets: Option<Arc<str>>,
    pub epoch_deadline_ticks: Option<Arc<str>>,
    pub memory_limit_mb: Option<Arc<str>>,
    pub memory_ceiling_mb: Option<Arc<str>>,
}

/// The text of a variable.
pub open spec fn var_text(var: Option<Arc<str>>) -> Option<Seq<char>> {
    match var {
        Some(v) => Some(v@),
        None => None,
    }
}

/// The value of a variable.
pub fn var_value(var: &Option<Arc<str>>) -> (r: Option<&str>)
    ensures
        opt_text(r) == var_text(*var),
{
    match var {
        Some(v) => Some(&**v),
        None => None,
    }
}

/// Everything that a component's context is built from; `H` handles its outgoing
/// HTTP requests.
pub struct CtxRecipe<P: ?Sized, L: ?Sized, T: ?Sized, H: ?Sized> {
    pub workload_id: Arc<str>,
    pub component_id: Arc<str>,
    /// The store that the context is for.
    pub store_id: String,
    pub http_handler: Arc<H>,
    pub environment: StrMap<Arc<str>>,
    /// The host directories to open, in this order.
    pub preopens: Vec<ResolvedVolumeMount>,
    pub sockets: SocketGuard,
    pub loopback: Arc<L>,
    pub allowed_hosts: Vec<Arc<str>>,
    pub plugins: Option<StrMap<Arc<P>>>,
    pub tls_provider: Option<Arc<T>>,
}

/// The contents of a [`CtxRecipe`].
#[verifier::ext_equal]
#[verifier::reject_recursive_types(P)]
#[verifier::reject_recursive_types(L)]
#[verifier::reject_recursive_types(T)]
#[verifier::reject_recursive_types(H)]
pub struct CtxView<P: ?Sized, L: ?Sized, T: ?Sized, H: ?Sized> {
    pub workload_id: Arc<str>,
    pub component_id: Arc<str>,
    pub store_id: Seq<char>,
    pub http_handler: Arc<H>,
    pub environment: Map<Seq<char>, Arc<str>>,
    pub preopens: Seq<ResolvedVolumeMount>,
    pub sockets: SocketGuard,
    pub loopback: Arc<L>,
    pub allowed_hosts: Seq<Arc<str>>,
    pub plugins: Option<Map<Seq<char>, Arc<P>>>,
    pub tls_provider: Option<Arc<T>>,
}

impl<P: ?Sized, L: ?Sized, T: ?Sized, H: ?Sized> View for CtxRecipe<P, L, T, H> {
    type V = CtxView<P, L, T, H>;

    open spec fn view(&self) -> CtxView<P, L, T, H> {
        CtxView {
            workload_id: self.workload_id,
            component_id: self.component_id,
            store_id: self.store_id@,
            http_handler: self.http_handler,
            environment: self.environment@,
            preopens: self.preopens@,
            sockets: self.sockets,
            loopback: self.loopback,
            allowed_hosts: self.allowed_hosts@,
            plugins: plugins_view(self.plugins),
            tls_provider: self.tls_provider,
        }
    }
}

/// The context that a template calls for: its own identity, environment, hosts,
/// plugins and network, the given HTTP handler, mounts and store, and a fresh socket guard under
/// the opt-in that its configuration or the host's environment gives.
pub open spec fn ctx_of<P: ?Sized, L: ?Sized, T: ?Sized, H: ?Sized>(
    template: TemplateView<P, L, T>,
    http_handler: Arc<H>,
    mounts: Seq<ResolvedVolumeMount>,
    store_id: Seq<char>,
    is_service: bool,
    raw_sockets_var: Option<Seq<char>>,
) -> CtxView<P, L, T, H> {
    CtxView {
        workload_id: template.workload_id,
        component_id: template.component_id,
        store_id,
        http_handler,
        environment: template.local_resources.environment,
        preopens: mounts,
        sockets: SocketGuard {
            component_id: template.component_id,
            is_service,
            allow_raw_sockets: raw_sockets_allowed(
                config_text(template.local_resources, ALLOW_RAW_SOCKETS_KEY@),
                raw_sockets_var,
            ),
            denial_logged: false,
        },
        loopback: template.loopback,
        allowed_hosts: template.local_resources.allowed_hosts,
        plugins: template.plugins,
        tls_provider: template.tls_provider,
    }
}

/// Makes the recipe of a component's context in the store `store_id`.
pub fn build_ctx_from_template<P: ?Sized, L: ?Sized, T: ?Sized, H: ?Sized>(
    template: &ComponentCtxTemplate<P, L, T>,
    http_handler: &Arc<H>,
    all_volume_mounts: &Vec<ResolvedVolumeMount>,
    store_id: &String,
    is_service: bool,
    env: &HostEnv,
) -> (r: CtxRecipe<P, L, T, H>)
    ensures
        r@ == ctx_of(
            template@,
            *http_handler,
            all_volume_mounts@,
            store_id@,
            is_service,
            var_text(env.allow_raw_sockets),
        ),
        r.workload_id == template.workload_id,
        r.component_id == template.component_id,
        r.environment@ == template.local_resources.environment@,
        r.allowed_hosts@ == template.local_resources.allowed_hosts@,
        r.preopens@ == all_volume_mounts@,
        r.store_id@ == store_id@,
        r.http_handler == *http_handler,
        r.loopback == template.loopback,
        plugins_view(r.plugins) == plugins_view(template.plugins),
        r.tls_provider == template.tls_provider,
        r.sockets.component_id == template.component_id,
        r.sockets.is_service == is_service,
        !r.sockets.denial_logged,
{
    let allow_raw_sockets = resolve_allow_raw_sockets(
        template.local_resources.config_value(ALLOW_RAW_SOCKETS_KEY),
        var_value(&env.allow_raw_sockets),
    );
    let mut preopens: Vec<ResolvedVolumeMount> = Vec::new();
    append_mounts(&mut preopens, all_volume_mounts);
    assert(preopens@ =~= all_volume_mounts@);
    CtxRecipe {
        workload_id: template.workload_id.clone(),
        component_id: template.component_id.clone(),
        store_id: store_id.clone(),
        http_handler: http_handler.clone(),
        environment: template.local_resources.environment.share(),
        preopens,
        sockets: SocketGuard::new(template.component_id.clone(), is_service, allow_raw_sockets),
        loopback: template.loopback.clone(),
        allowed_hosts: share_names(&template.local_resources.allowed_hosts),
        plugins: share_plugins(&template.plugins),
        tls_provider: share_opt(&template.tls_provider),
    }
}

/// A context has everything of its template, whoever it is for: the environment and
/// the allowed hosts as they stand, both names, the plugins, the network and the TLS
/// provider; and it has the store, the HTTP handler and the directories that it is
/// made with. None of that depends on whether the component is a service.
pub proof fn law_context_takes_over_the_template<P: ?Sized, L: ?Sized, T: ?Sized, H: ?Sized>(
    template: TemplateView<P, L, T>,
    http_handler: Arc<H>,
    mounts: Seq<ResolvedVolumeMount>,
    store_id: Seq<char>,
    is_service: bool,
    raw_sockets_var: Option<Seq<char>>,
)
    ensures
        ({
            let ctx = ctx_of(
                template,
                http_handler,
                mounts,
                store_id,
                is_service,
                raw_sockets_var,
            );
            &&& ctx.workload_id == template.workload_id
            &&& ctx.component_id == template.component_id
            &&& ctx.environment == template.local_resources.environment
            &&& ctx.allowed_hosts == template.local_resources.allowed_hosts
            &&& ctx.plugins == template.plugins
            &&& ctx.loopback == template.loopback
            &&& ctx.tls_provider == template.tls_provider
            &&& ctx.store_id == store_id
            &&& ctx.http_handler == http_handler
            &&& ctx.preopens == mounts
        }),
{
}

/// The socket guard of a context is that of its own component: it has refused nothing
/// yet, it takes the component for a service exactly where it is one, and it has the
/// opt-in exactly where the component's configuration, or the host's environment where
/// the configuration says nothing, spells `true`.
pub proof fn law_context_has_its_own_guard<P: ?Sized, L: ?Sized, T: ?Sized, H: ?Sized>(
    template: TemplateView<P, L, T>,
    http_handler: Arc<H>,
    mounts: Seq<ResolvedVolumeMount>,
    store_id: Seq<char>,
    is_service: bool,
    raw_sockets_var: Option<Seq<char>>,
)
    ensures
        ({
            let guard = ctx_of(
                template,
                http_handler,
                mounts,
                store_id,
                is_service,
                raw_sockets_var,
            ).sockets;
            let config = template.local_resources.config;
            let key = "wamn.allow-raw-sockets"@;
            &&& guard.component_id == template.component_id
            &&& guard.is_service == is_service
            &&& !guard.denial_logged
            &&& config.contains_key(key) ==> (guard.allow_raw_sockets <==> config[key]@ == "true"@)
            &&& !config.contains_key(key) ==> (guard.allow_raw_sockets <==> raw_sockets_var == Some(
                "true"@,
            ))
        }),
{
}

/// Contexts of one template that are made for a service and for another component
/// differ in what the guard takes the component for, and in nothing else.
pub proof fn law_service_flag_bears_on_the_guard_only<P: ?Sized, L: ?Sized, T: ?Sized, H: ?Sized>(
    template: TemplateView<P, L, T>,
    http_handler: Arc<H>,
    mounts: Seq<ResolvedVolumeMount>,
    store_id: Seq<char>,
    raw_sockets_var: Option<Seq<char>>,
)
    ensures
        ({
            let service = ctx_of(template, http_handler, mounts, store_id, true, raw_sockets_var);
            let other = ctx_of(template, http_handler, mounts, store_id, false, raw_sockets_var);
            service == (CtxView {
                sockets: SocketGuard { is_service: true, ..other.sockets },
                ..other
            })
        }),
{
}

/// The contents of a recipe are those of its fields, and the text of a variable is the
/// variable as it was read.
pub proof fn law_recipe_contents<P: ?Sized, L: ?Sized, T: ?Sized, H: ?Sized>(
    recipe: CtxRecipe<P, L, T, H>,
    var: Arc<str>,
)
    ensures
        recipe@.workload_id == recipe.workload_id,
        recipe@.component_id == recipe.component_id,
        recipe@.store_id == recipe.store_id@,
        recipe@.http_handler == recipe.http_handler,
        recipe@.environment == recipe.environment@,
        recipe@.preopens == recipe.preopens@,
        recipe@.sockets == recipe.sockets,
        recipe@.loopback == recipe.loopback,
        recipe@.allowed_hosts == recipe.allowed_hosts@,
        recipe@.plugins is Some <==> recipe.plugins is Some,
        recipe.plugins matches Some(plugins) ==> recipe@.plugins == Some(plugins@),
        recipe@.tls_provider == recipe.tls_provider,
        var_text(Some(var)) == Some(var@),
        var_text(None) is None,
{
}

} // verus!
