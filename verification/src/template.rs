//! What a component's context is made from.
use std::sync::Arc;
use vstd::prelude::*;

use crate::str_map::StrMap;

verus! {

/// What a guest may do with the directories under a mount.
#[derive(Clone, Copy, Debug, PartialEq, Eq, Structural)]
pub struct DirPerms {
    pub read: bool,
    pub mutate: bool,
}

/// What a guest may do with the files under a mount.
#[derive(Clone, Copy, Debug, PartialEq, Eq, Structural)]
pub struct FilePerms {
    pub read: bool,
    pub write: bool,
}

/// A host directory and the path under which a guest sees it.
pub struct ResolvedVolumeMount {
    pub host_path: Arc<str>,
    pub mount_path: Arc<str>,
    pub dir_perms: DirPerms,
    pub file_perms: FilePerms,
}

impl ResolvedVolumeMount {
    /// A second copy of the mount.
    pub fn share(&self) -> (r: Self)
        ensures
            r == *self,
    {
        ResolvedVolumeMount {
            host_path: self.host_path.clone(),
            mount_path: self.mount_path.clone(),
            dir_perms: self.dir_perms,
            file_perms: self.file_perms,
        }
    }
}

/// Appends copies of `mounts` to `out`, in order.
pub fn append_mounts(out: &mut Vec<ResolvedVolumeMount>, mounts: &Vec<ResolvedVolumeMount>)
    ensures
        final(out)@ == old(out)@ + mounts@,
{
    let mut i: usize = 0;
    while i < mounts.len()
        invariant
            i <= mounts@.len(),
            out@ == old(out)@ + mounts@.take(i as int),
        decreases mounts.len() - i,
    {
        out.push(mounts[i].share());
        assert(out@ =~= old(out)@ + mounts@.take(i + 1));
        i = i + 1;
    }
    assert(mounts@.take(i as int) =~= mounts@);
}

/// A second list with the same names.
pub fn share_names(names: &Vec<Arc<str>>) -> (r: Vec<Arc<str>>)
    ensures
        r@ == names@,
{
    let mut r: Vec<Arc<str>> = Vec::new();
    let mut i: usize = 0;
    while i < names.len()
        invariant
            i <= names@.len(),
            r@ == names@.take(i as int),
        decreases names.len() - i,
    {
        r.push(names[i].clone());
        assert(r@ =~= names@.take(i + 1));
        i = i + 1;
    }
    assert(r@ =~= names@);
    r
}

/// The resources that a workload gives to one component.
pub struct LocalResources {
    /// Memory budget in MiB; zero or less means that none is set.
    pub memory_limit_mb: i32,
    pub config: StrMap<Arc<str>>,
    pub environment: StrMap<Arc<str>>,
    /// Egress allowlist of outgoing HTTP.
    pub allowed_hosts: Vec<Arc<str>>,
}

/// The contents of [`LocalResources`].
#[verifier::ext_equal]
pub struct LocalResourcesView {
    pub memory_limit_mb: i32,
    pub config: Map<Seq<char>, Arc<str>>,
    pub environment: Map<Seq<char>, Arc<str>>,
    pub allowed_hosts: Seq<Arc<str>>,
}

impl View for LocalResources {
    type V = LocalResourcesView;

    open spec fn view(&self) -> LocalResourcesView {
        LocalResourcesView {
            memory_limit_mb: self.memory_limit_mb,
            config: self.config@,
            environment: self.environment@,
            allowed_hosts: self.allowed_hosts@,
        }
    }
}

impl LocalResources {
    /// A second copy of the resources.
    pub fn share(&self) -> (r: Self)
        ensures
            r@ == self@,
    {
        LocalResources {
            memory_limit_mb: self.memory_limit_mb,
            config: self.config.share(),
            environment: self.environment.share(),
            allowed_hosts: share_names(&self.allowed_hosts),
        }
    }

    /// The configuration value under `key`.
    pub fn config_value(&self, key: &str) -> (r: Option<&str>)
        ensures
            opt_text(r) == config_text(self@, key@),
    {
        match self.config.get(key) {
            Some(v) => Some(&**v),
            None => None,
        }
    }
}

/// The text of an optional string.
pub open spec fn opt_text(s: Option<&str>) -> Option<Seq<char>> {
    match s {
        Some(s) => Some(s@),
        None => None,
    }
}

/// The configuration value under `key`.
pub open spec fn config_text(resources: LocalResourcesView, key: Seq<char>) -> Option<Seq<char>> {
    if resources.config.contains_key(key) {
        Some(resources.config[key]@)
    } else {
        None
    }
}

/// The plugins of a component, by name.
pub open spec fn plugins_view<P: ?Sized>(plugins: Option<StrMap<Arc<P>>>) -> Option<
    Map<Seq<char>, Arc<P>>,
> {
    match plugins {
        Some(m) => Some(m@),
        None => None,
    }
}

/// A second copy of the plugin table, with the same plugins.
pub fn share_plugins<P: ?Sized>(plugins: &Option<StrMap<Arc<P>>>) -> (r: Option<StrMap<Arc<P>>>)
    ensures
        plugins_view(r) == plugins_view(*plugins),
{
    match plugins {
        Some(m) => Some(m.share()),
        None => None,
    }
}

/// A second handle to an optional shared value.
pub fn share_opt<T: ?Sized>(handle: &Option<Arc<T>>) -> (r: Option<Arc<T>>)
    ensures
        r == *handle,
{
    match handle {
        Some(h) => Some(h.clone()),
        None => None,
    }
}

/// What a workload knows of one of its components: `P` is a host plugin and `L`
/// the loopback network that the components of the workload share.
pub struct WorkloadMetadata<P: ?Sized, L: ?Sized> {
    pub id: Arc<str>,
    pub workload_id: Arc<str>,
    pub local_resources: LocalResources,
    pub resolved_volume_mounts: Vec<ResolvedVolumeMount>,
    pub plugins: Option<StrMap<Arc<P>>>,
    pub loopback: Arc<L>,
}

/// A component of a workload: its metadata, and `C`, the compiled component.
pub struct WorkloadComponent<P: ?Sized, L: ?Sized, C> {
    pub metadata: WorkloadMetadata<P, L>,
    pub component: C,
}

/// A cheap recipe for a component's context.
///
/// One store may need a context for the active component and for each component
/// linked into it. The inputs are taken from the metadata once, here; `T` is the
/// provider of TLS connections.
pub struct ComponentCtxTemplate<P: ?Sized, L: ?Sized, T: ?Sized> {
    pub component_id: Arc<str>,
    pub workload_id: Arc<str>,
    pub local_resources: LocalResources,
    pub volume_mounts: Vec<ResolvedVolumeMount>,
    pub plugins: Option<StrMap<Arc<P>>>,
    pub loopback: Arc<L>,
    pub tls_provider: Option<Arc<T>>,
}

/// The contents of a [`ComponentCtxTemplate`].
#[verifier::ext_equal]
#[verifier::reject_recursive_types(P)]
#[verifier::reject_recursive_types(L)]
#[verifier::reject_recursive_types(T)]
pub struct TemplateView<P: ?Sized, L: ?Sized, T: ?Sized> {
    pub component_id: Arc<str>,
    pub workload_id: Arc<str>,
    pub local_resources: LocalResourcesView,
    pub volume_mounts: Seq<ResolvedVolumeMount>,
    pub plugins: Option<Map<Seq<char>, Arc<P>>>,
    pub loopback: Arc<L>,
    pub tls_provider: Option<Arc<T>>,
}

impl<P: ?Sized, L: ?Sized, T: ?Sized> View for ComponentCtxTemplate<P, L, T> {
    type V = TemplateView<P, L, T>;

    open spec fn view(&self) -> TemplateView<P, L, T> {
        TemplateView {
            component_id: self.component_id,
            workload_id: self.workload_id,
            local_resources: self.local_resources@,
            volume_mounts: self.volume_mounts@,
            plugins: plugins_view(self.plugins),
            loopback: self.loopback,
            tls_provider: self.tls_provider,
        }
    }
}

/// The template that `metadata` calls for, with the given TLS provider.
pub open spec fn template_of<P: ?Sized, L: ?Sized, T: ?Sized>(
    metadata: WorkloadMetadata<P, L>,
    tls_provider: Option<Arc<T>>,
) -> TemplateView<P, L, T> {
    TemplateView {
        component_id: metadata.id,
        workload_id: metadata.workload_id,
        local_resources: metadata.local_resources@,
        volume_mounts: metadata.resolved_volume_mounts@,
        plugins: plugins_view(metadata.plugins),
        loopback: metadata.loopback,
        tls_provider,
    }
}

impl<P: ?Sized, L: ?Sized, T: ?Sized> ComponentCtxTemplate<P, L, T> {
    /// The template of a component, without TLS.
    pub fn from_metadata(metadata: &WorkloadMetadata<P, L>) -> (r: Self)
        ensures
            r@ == template_of::<P, L, T>(*metadata, None),
            r.component_id == metadata.id,
            r.workload_id == metadata.workload_id,
            r.local_resources@ == metadata.local_resources@,
            r.volume_mounts@ == metadata.resolved_volume_mounts@,
            plugins_view(r.plugins) == plugins_view(metadata.plugins),
            r.loopback == metadata.loopback,
            r.tls_provider is None,
    {
        let mut volume_mounts: Vec<ResolvedVolumeMount> = Vec::new();
        append_mounts(&mut volume_mounts, &metadata.resolved_volume_mounts);
        assert(volume_mounts@ =~= metadata.resolved_volume_mounts@);
        ComponentCtxTemplate {
            component_id: metadata.id.clone(),
            workload_id: metadata.workload_id.clone(),
            local_resources: metadata.local_resources.share(),
            volume_mounts,
            plugins: share_plugins(&metadata.plugins),
            loopback: metadata.loopback.clone(),
            tls_provider: None,
        }
    }
}

/// The template of a component in a host without TLS.
pub fn component_ctx_template_from_metadata<P: ?Sized, L: ?Sized, T: ?Sized>(
    metadata: &WorkloadMetadata<P, L>,
) -> (r: ComponentCtxTemplate<P, L, T>)
    ensures
        r@ == template_of::<P, L, T>(*metadata, None),
        r.component_id == metadata.id,
        r.workload_id == metadata.workload_id,
        r.local_resources@ == metadata.local_resources@,
        r.volume_mounts@ == metadata.resolved_volume_mounts@,
        plugins_view(r.plugins) == plugins_view(metadata.plugins),
        r.loopback == metadata.loopback,
        r.tls_provider is None,
{
    ComponentCtxTemplate::from_metadata(metadata)
}

/// The template of a component in a host that offers TLS through `tls_provider`.
pub fn component_ctx_template_from_metadata_with_tls<P: ?Sized, L: ?Sized, T: ?Sized>(
    metadata: &WorkloadMetadata<P, L>,
    tls_provider: Option<Arc<T>>,
) -> (r: ComponentCtxTemplate<P, L, T>)
    ensures
        r@ == template_of(*metadata, tls_provider),
        r.component_id == metadata.id,
        r.workload_id == metadata.workload_id,
        r.local_resources@ == metadata.local_resources@,
        r.volume_mounts@ == metadata.resolved_volume_mounts@,
        plugins_view(r.plugins) == plugins_view(metadata.plugins),
        r.loopback == metadata.loopback,
        r.tls_provider == tls_provider,
{
    let mut template = ComponentCtxTemplate::from_metadata(metadata);
    template.tls_provider = tls_provider;
    template
}

/// A template is the metadata of its component, field by field, and the given TLS
/// provider: the same identity, resources, plugins and network, and the same mounts
/// in the same order, whether there is a provider or not.
pub proof fn law_template_takes_over_the_metadata<P: ?Sized, L: ?Sized, T: ?Sized>(
    metadata: WorkloadMetadata<P, L>,
    tls_provider: Option<Arc<T>>,
)
    ensures
        ({
            let template = template_of(metadata, tls_provider);
            &&& template.component_id == metadata.id
            &&& template.workload_id == metadata.workload_id
            &&& template.local_resources.memory_limit_mb == metadata.local_resources.memory_limit_mb
            &&& template.local_resources.config == metadata.local_resources.config@
            &&& template.local_resources.environment == metadata.local_resources.environment@
            &&& template.local_resources.allowed_hosts == metadata.local_resources.allowed_hosts@
            &&& template.volume_mounts == metadata.resolved_volume_mounts@
            &&& template.plugins is Some <==> metadata.plugins is Some
            &&& metadata.plugins matches Some(plugins) ==> template.plugins == Some(plugins@)
            &&& template.loopback == metadata.loopback
            &&& template.tls_provider == tls_provider
        }),
{
}

/// Templates of one component that were made with different TLS providers, or with
/// one and without, differ in the provider and in nothing else.
pub proof fn law_tls_provider_changes_nothing_else<P: ?Sized, L: ?Sized, T: ?Sized>(
    metadata: WorkloadMetadata<P, L>,
    one: Option<Arc<T>>,
    other: Option<Arc<T>>,
)
    ensures
        template_of(metadata, one) == (TemplateView {
            tls_provider: one,
            ..template_of(metadata, other)
        }),
        template_of(metadata, one).volume_mounts == template_of(metadata, other).volume_mounts,
        template_of(metadata, one).local_resources == template_of(metadata, other).local_resources,
        template_of(metadata, one).plugins == template_of(metadata, other).plugins,
        template_of(metadata, one).loopback == template_of(metadata, other).loopback,
        template_of(metadata, one).component_id == template_of(metadata, other).component_id,
        template_of(metadata, one).workload_id == template_of(metadata, other).workload_id,
{
}

/// The contents of a template are those of its fields.
pub proof fn law_template_contents<P: ?Sized, L: ?Sized, T: ?Sized>(
    template: ComponentCtxTemplate<P, L, T>,
)
    ensures
        template@.component_id == template.component_id,
        template@.workload_id == template.workload_id,
        template@.local_resources.memory_limit_mb == template.local_resources.memory_limit_mb,
        template@.local_resources.config == template.local_resources.config@,
        template@.local_resources.environment == template.local_resources.environment@,
        template@.local_resources.allowed_hosts == template.local_resources.allowed_hosts@,
        template@.volume_mounts == template.volume_mounts@,
        template@.plugins is Some <==> template.plugins is Some,
        template.plugins matches Some(plugins) ==> template@.plugins == Some(plugins@),
        template@.loopback == template.loopback,
        template@.tls_provider == template.tls_provider,
{
}

/// A configuration value is the one under exactly its key, as it stands; a key that is
/// not there has none. A text is itself, the empty one too.
pub proof fn law_config_value_is_the_entry(
    resources: LocalResources,
    key: Seq<char>,
    text: &str,
)
    ensures
        config_text(resources@, key) is Some <==> resources.config@.contains_key(key),
        resources.config@.contains_key(key) ==> config_text(resources@, key) == Some(
            resources.config@[key]@,
        ),
        opt_text(Some(text)) == Some(text@),
        opt_text(None) is None,
{
}

} // verus!
