//! The store of a single call.
//!
//! A call that carries plain values only runs in a store that is made for it and
//! dropped after it. The store is put together from the metadata that the workload
//! has at that moment.
use std::sync::Arc;
use vstd::prelude::*;

use crate::ctx::HostEnv;
use crate::error::LinkError;
use crate::store::{
    is_random_uuid, new_store_from_templates, template_views, StoreBuild, StoreStage,
};
use crate::str_map::StrMap;
use crate::template::{
    component_ctx_template_from_metadata_with_tls, share_names, share_opt, template_of,
    ComponentCtxTemplate, TemplateView, WorkloadComponent,
};
use crate::text::{lemma_text_less_transitive, text_before, text_eq, text_less};

verus! {

/// What a call in a store of its own needs to know, captured when the import is
/// linked.
pub struct EphemeralLinkedCall<T: ?Sized, H: ?Sized> {
    pub http_handler: Arc<H>,
    /// The component that is called.
    pub active_component_id: Arc<str>,
    /// The components that it links in turn.
    pub linked_component_ids: Vec<Arc<str>>,
    pub tls_provider: Option<Arc<T>>,
}

impl<T: ?Sized, H: ?Sized> EphemeralLinkedCall<T, H> {
    /// A second copy of the call.
    pub fn share(&self) -> (r: Self)
        ensures
            r@ == self@,
    {
        EphemeralLinkedCall {
            http_handler: self.http_handler.clone(),
            active_component_id: self.active_component_id.clone(),
            linked_component_ids: share_names(&self.linked_component_ids),
            tls_provider: share_opt(&self.tls_provider),
        }
    }
}

impl<T: ?Sized, H: ?Sized> View for EphemeralLinkedCall<T, H> {
    type V = CallView<T, H>;

    open spec fn view(&self) -> CallView<T, H> {
        CallView {
            http_handler: self.http_handler,
            active: self.active_component_id,
            linked: self.linked_component_ids@,
            tls_provider: self.tls_provider,
        }
    }
}

/// The contents of an [`EphemeralLinkedCall`].
#[verifier::ext_equal]
#[verifier::reject_recursive_types(T)]
#[verifier::reject_recursive_types(H)]
pub struct CallView<T: ?Sized, H: ?Sized> {
    pub http_handler: Arc<H>,
    pub active: Arc<str>,
    pub linked: Seq<Arc<str>>,
    pub tls_provider: Option<Arc<T>>,
}

/// A name is in a list.
pub open spec fn lists(ids: Seq<Arc<str>>, name: Seq<char>) -> bool {
    exists|i: int| 0 <= i < ids.len() && (#[trigger] ids[i])@ == name
}

/// The names rise strictly, so that none occurs twice.
pub open spec fn ascending(ids: Seq<Arc<str>>) -> bool {
    forall|i: int, j: int|
        0 <= i < j < ids.len() ==> text_less((#[trigger] ids[i])@, (#[trigger] ids[j])@)
}

/// Puts a name into an ascending list, unless it is there.
fn insert_name(ids: &mut Vec<Arc<str>>, id: &Arc<str>)
    requires
        ascending(old(ids)@),
    ensures
        ascending(final(ids)@),
        forall|name: Seq<char>| #[trigger]
            lists(final(ids)@, name) <==> lists(old(ids)@, name) || name == id@,
{
    let ghost before = ids@;
    let mut at: usize = 0;
    while at < ids.len() && text_before(&ids[at], id)
        invariant
            at <= ids@.len(),
            ids@ == before,
            forall|j: int| 0 <= j < at ==> text_less((#[trigger] ids@[j])@, id@),
        decreases ids.len() - at,
    {
        at = at + 1;
    }
    if at < ids.len() && text_eq(&ids[at], id) {
        assert(lists(before, id@));
        return;
    }
    ids.insert(at, id.clone());
    proof {
        assert forall|i: int, j: int| 0 <= i < j < ids@.len() implies text_less(
            (#[trigger] ids@[i])@,
            (#[trigger] ids@[j])@,
        ) by {
            let old_i = if i < at { i } else { i - 1 };
            let old_j = if j < at { j } else { j - 1 };
            if i != at && j != at {
                assert(ids@[i] == before[old_i] && ids@[j] == before[old_j]);
            } else if i == at {
                assert(ids@[j] == before[old_j]);
                assert(text_less(id@, before[at as int]@));
                if old_j > at {
                    lemma_text_less_transitive(id@, before[at as int]@, before[old_j]@);
                }
            } else {
                assert(ids@[i] == before[old_i]);
            }
        }
        assert forall|name: Seq<char>| #[trigger]
            lists(ids@, name) <==> lists(before, name) || name == id@ by {
            if lists(ids@, name) {
                let i = choose|i: int| 0 <= i < ids@.len() && (#[trigger] ids@[i])@ == name;
                if i < at {
                    assert(before[i]@ == name);
                } else if i > at {
                    assert(before[i - 1]@ == name);
                }
            }
            if lists(before, name) {
                let i = choose|i: int| 0 <= i < before.len() && (#[trigger] before[i])@ == name;
                if i < at {
                    assert(ids@[i]@ == name);
                } else {
                    assert(ids@[i + 1]@ == name);
                }
            }
            if name == id@ {
                assert(ids@[at as int]@ == name);
            }
        }
    }
}

/// The components whose mounts a call needs: the one that is called and those that
/// it links, each once, in ascending order.
pub fn mount_component_ids(active: &Arc<str>, linked: &Vec<Arc<str>>) -> (r: Vec<Arc<str>>)
    ensures
        ascending(r@),
        forall|name: Seq<char>| #[trigger]
            lists(r@, name) <==> lists(linked@, name) || name == active@,
{
    let mut r: Vec<Arc<str>> = Vec::new();
    insert_name(&mut r, active);
    let mut i: usize = 0;
    while i < linked.len()
        invariant
            i <= linked@.len(),
            ascending(r@),
            forall|name: Seq<char>| #[trigger]
                lists(r@, name) <==> lists(linked@.take(i as int), name) || name == active@,
        decreases linked.len() - i,
    {
        insert_name(&mut r, &linked[i]);
        proof {
            let front = linked@.take(i as int);
            let longer = linked@.take(i + 1);
            assert forall|name: Seq<char>| #[trigger]
                lists(longer, name) <==> lists(front, name) || name == linked@[i as int]@ by {
                if lists(front, name) {
                    let k = choose|k: int| 0 <= k < front.len() && (#[trigger] front[k])@ == name;
                    assert(longer[k]@ == name);
                }
                if lists(longer, name) {
                    let k = choose|k: int| 0 <= k < longer.len() && (#[trigger] longer[k])@ == name;
                    if k < i {
                        assert(front[k]@ == name);
                    }
                }
                if name == linked@[i as int]@ {
                    assert(longer[i as int]@ == name);
                }
            }
        }
        i = i + 1;
    }
    assert(linked@.take(i as int) =~= linked@);
    r
}

/// The templates of a call: that of the component that is called, and those of the
/// components that it links.
pub struct LinkTemplates<P: ?Sized, L: ?Sized, T: ?Sized> {
    pub active: ComponentCtxTemplate<P, L, T>,
    pub linked: Vec<ComponentCtxTemplate<P, L, T>>,
}

/// The contents of [`LinkTemplates`].
#[verifier::ext_equal]
#[verifier::reject_recursive_types(P)]
#[verifier::reject_recursive_types(L)]
#[verifier::reject_recursive_types(T)]
pub struct TemplatesView<P: ?Sized, L: ?Sized, T: ?Sized> {
    pub active: TemplateView<P, L, T>,
    pub linked: Seq<TemplateView<P, L, T>>,
}

impl<P: ?Sized, L: ?Sized, T: ?Sized> View for LinkTemplates<P, L, T> {
    type V = TemplatesView<P, L, T>;

    open spec fn view(&self) -> TemplatesView<P, L, T> {
        TemplatesView { active: self.active@, linked: template_views(self.linked@) }
    }
}

/// `i` is the first name of `ids` that is not among `known`.
pub open spec fn first_unknown(ids: Seq<Arc<str>>, known: Set<Seq<char>>, i: int) -> bool {
    &&& 0 <= i < ids.len()
    &&& !known.contains(ids[i]@)
    &&& forall|j: int| 0 <= j < i ==> known.contains((#[trigger] ids[j])@)
}

/// What loading the templates of a call from the components of a workload gives:
/// the component that is called is looked up first, then the linked ones in order,
/// and the first that is missing is the error. All templates get the call's TLS
/// provider.
pub open spec fn loaded<P: ?Sized, L: ?Sized, T: ?Sized, H: ?Sized, C>(
    call: CallView<T, H>,
    components: Map<Seq<char>, WorkloadComponent<P, L, C>>,
) -> Result<TemplatesView<P, L, T>, LinkError> {
    if !components.contains_key(call.active@) {
        Err(LinkError::ActiveNotFound { component_id: call.active })
    } else if exists|i: int| first_unknown(call.linked, components.dom(), i) {
        let i = choose|i: int| first_unknown(call.linked, components.dom(), i);
        Err(LinkError::LinkedNotFound { component_id: call.linked[i] })
    } else {
        Ok(
            TemplatesView {
                active: template_of(components[call.active@].metadata, call.tls_provider),
                linked: Seq::new(
                    call.linked.len(),
                    |i: int| template_of(components[call.linked[i]@].metadata, call.tls_provider),
                ),
            },
        )
    }
}

/// The contents of a result of [`load_templates`].
pub open spec fn templates_view<P: ?Sized, L: ?Sized, T: ?Sized>(
    r: Result<LinkTemplates<P, L, T>, LinkError>,
) -> Result<TemplatesView<P, L, T>, LinkError> {
    match r {
        Ok(t) => Ok(t@),
        Err(e) => Err(e),
    }
}

/// Loads the templates of a call from the components of its workload.
pub fn load_templates<P: ?Sized, L: ?Sized, T: ?Sized, H: ?Sized, C>(
    call: &EphemeralLinkedCall<T, H>,
    components: &StrMap<WorkloadComponent<P, L, C>>,
) -> (r: Result<LinkTemplates<P, L, T>, LinkError>)
    ensures
        templates_view(r) == loaded(call@, components@),
{
    let active = match components.get(&call.active_component_id) {
        Some(c) => component_ctx_template_from_metadata_with_tls(
            &c.metadata,
            share_opt(&call.tls_provider),
        ),
        None => {
            return Err(
                LinkError::ActiveNotFound { component_id: call.active_component_id.clone() },
            );
        },
    };
    let mut linked: Vec<ComponentCtxTemplate<P, L, T>> = Vec::new();
    let mut i: usize = 0;
    while i < call.linked_component_ids.len()
        invariant
            i <= call.linked_component_ids@.len(),
            components@.contains_key(call.active_component_id@),
            linked@.len() == i,
            forall|j: int|
                0 <= j < i ==> components@.contains_key(
                    (#[trigger] call.linked_component_ids@[j])@,
                ),
            forall|j: int|
                0 <= j < i ==> (#[trigger] linked@[j])@ == template_of(
                    components@[call.linked_component_ids@[j]@].metadata,
                    call.tls_provider,
                ),
        decreases call.linked_component_ids.len() - i,
    {
        match components.get(&call.linked_component_ids[i]) {
            Some(c) => {
                linked.push(
                    component_ctx_template_from_metadata_with_tls(
                        &c.metadata,
                        share_opt(&call.tls_provider),
                    ),
                );
            },
            None => {
                proof {
                    let k = choose|k: int| first_unknown(call@.linked, components@.dom(), k);
                    assert(first_unknown(call@.linked, components@.dom(), i as int));
                    assert(k == i);
                }
                return Err(
                    LinkError::LinkedNotFound {
                        component_id: call.linked_component_ids[i].clone(),
                    },
                );
            },
        }
        i = i + 1;
    }
    let r = LinkTemplates { active, linked };
    assert(r@.linked =~= Seq::new(
        call@.linked.len(),
        |i: int| template_of(components@[call@.linked[i]@].metadata, call.tls_provider),
    ));
    Ok(r)
}

/// What the host tells of the last action.
pub enum EphemeralEvent<'a, P: ?Sized, L: ?Sized, C> {
    Done,
    Failed(String),
    /// The component to prepare is not in the workload.
    Missing,
    /// The components of the workload, as they stand now.
    Components(&'a StrMap<WorkloadComponent<P, L, C>>),
}

enum Stage<P: ?Sized, L: ?Sized, T: ?Sized> {
    ResolveMounts,
    ReadComponents,
    PreInstantiate(usize, LinkTemplates<P, L, T>),
    BuildStore(LinkTemplates<P, L, T>),
    Refused(LinkError),
}

/// Where the making of a call's store stands.
#[verifier::reject_recursive_types(P)]
#[verifier::reject_recursive_types(L)]
#[verifier::reject_recursive_types(T)]
pub enum EphemeralStage<P: ?Sized, L: ?Sized, T: ?Sized> {
    /// The mounts of all components are to be resolved.
    ResolveMounts,
    /// The metadata of the components is to be read.
    ReadComponents,
    /// A linked component is to be prepared.
    PreInstantiate(nat, TemplatesView<P, L, T>),
    /// The store is to be built.
    BuildStore(TemplatesView<P, L, T>),
    Refused(LinkError),
}

/// What the host does next.
#[derive(Debug)]
pub enum EphemeralAction {
    /// Resolve the mounts of these components.
    ResolveMounts(Vec<Arc<str>>),
    /// Read the components of the workload.
    ReadComponents,
    /// Prepare this component for instantiation.
    PreInstantiate(Arc<str>),
    BuildStore,
    Stop,
}

/// The stage that prepares linked component `i`.
pub open spec fn prepare<P: ?Sized, L: ?Sized, T: ?Sized, H: ?Sized>(
    call: CallView<T, H>,
    templates: TemplatesView<P, L, T>,
    i: nat,
) -> EphemeralStage<P, L, T> {
    if i < call.linked.len() {
        EphemeralStage::PreInstantiate(i, templates)
    } else {
        EphemeralStage::BuildStore(templates)
    }
}

/// The stage after an event. An event that answers another action changes nothing.
pub open spec fn next_stage<P: ?Sized, L: ?Sized, T: ?Sized, H: ?Sized, C>(
    call: CallView<T, H>,
    stage: EphemeralStage<P, L, T>,
    event: EphemeralEvent<'_, P, L, C>,
) -> EphemeralStage<P, L, T> {
    match (stage, event) {
        (EphemeralStage::ResolveMounts, EphemeralEvent::Done) => EphemeralStage::ReadComponents,
        (EphemeralStage::ResolveMounts, EphemeralEvent::Failed(cause)) => EphemeralStage::Refused(
            LinkError::Other { cause },
        ),
        (EphemeralStage::ReadComponents, EphemeralEvent::Components(components)) => match loaded(
            call,
            components@,
        ) {
            Ok(t) => prepare(call, t, 0),
            Err(e) => EphemeralStage::Refused(e),
        },
        (EphemeralStage::PreInstantiate(i, t), EphemeralEvent::Done) => prepare(call, t, i + 1),
        (EphemeralStage::PreInstantiate(i, t), EphemeralEvent::Missing) => EphemeralStage::Refused(
            LinkError::PreInstantiateNotFound { component_id: call.linked[i as int] },
        ),
        (EphemeralStage::PreInstantiate(i, t), EphemeralEvent::Failed(cause)) =>
            EphemeralStage::Refused(LinkError::PreInstantiate { cause }),
        _ => stage,
    }
}

/// The making of a call's store, one step at a time.
pub struct EphemeralBuild<P: ?Sized, L: ?Sized, T: ?Sized, H: ?Sized> {
    call: EphemeralLinkedCall<T, H>,
    stage: Stage<P, L, T>,
}

impl<P: ?Sized, L: ?Sized, T: ?Sized, H: ?Sized> EphemeralBuild<P, L, T, H> {
    pub closed spec fn call(self) -> CallView<T, H> {
        self.call@
    }

    pub closed spec fn stage(self) -> EphemeralStage<P, L, T> {
        match self.stage {
            Stage::ResolveMounts => EphemeralStage::ResolveMounts,
            Stage::ReadComponents => EphemeralStage::ReadComponents,
            Stage::PreInstantiate(i, t) => EphemeralStage::PreInstantiate(i as nat, t@),
            Stage::BuildStore(t) => EphemeralStage::BuildStore(t@),
            Stage::Refused(e) => EphemeralStage::Refused(e),
        }
    }

    #[verifier::type_invariant]
    spec fn index_in_range(self) -> bool {
        self.stage matches Stage::PreInstantiate(i, _) ==> i < self.call.linked_component_ids@.len()
    }

    /// What the host has to do next.
    pub fn action(&self) -> (r: EphemeralAction)
        ensures
            match self.stage() {
                EphemeralStage::ResolveMounts => r matches EphemeralAction::ResolveMounts(ids) && {
                    &&& ascending(ids@)
                    &&& forall|name: Seq<char>| #[trigger]
                        lists(ids@, name) <==> lists(self.call().linked, name) || name
                            == self.call().active@
                },
                EphemeralStage::ReadComponents => r is ReadComponents,
                EphemeralStage::PreInstantiate(i, _) => r == EphemeralAction::PreInstantiate(
                    self.call().linked[i as int],
                ),
                EphemeralStage::BuildStore(_) => r is BuildStore,
                EphemeralStage::Refused(_) => r is Stop,
            },
    {
        proof {
            use_type_invariant(self);
        }
        match &self.stage {
            Stage::ResolveMounts => EphemeralAction::ResolveMounts(
                mount_component_ids(
                    &self.call.active_component_id,
                    &self.call.linked_component_ids,
                ),
            ),
            Stage::ReadComponents => EphemeralAction::ReadComponents,
            Stage::PreInstantiate(i, _) => EphemeralAction::PreInstantiate(
                self.call.linked_component_ids[*i].clone(),
            ),
            Stage::BuildStore(_) => EphemeralAction::BuildStore,
            Stage::Refused(_) => EphemeralAction::Stop,
        }
    }

    /// Takes in what the host tells of the last action.
    pub fn advance<C>(self, event: EphemeralEvent<'_, P, L, C>) -> (r: Self)
        ensures
            r.call() == self.call(),
            r.stage() == next_stage(self.call(), self.stage(), event),
    {
        proof {
            use_type_invariant(&self);
        }
        let EphemeralBuild { call, stage } = self;
        let count = call.linked_component_ids.len();
        let stage = match (stage, event) {
            (Stage::ResolveMounts, EphemeralEvent::Done) => Stage::ReadComponents,
            (Stage::ResolveMounts, EphemeralEvent::Failed(cause)) => Stage::Refused(
                LinkError::Other { cause },
            ),
            (Stage::ReadComponents, EphemeralEvent::Components(components)) => {
                match load_templates(&call, components) {
                    Ok(t) => if count > 0 {
                        Stage::PreInstantiate(0, t)
                    } else {
                        Stage::BuildStore(t)
                    },
                    Err(e) => Stage::Refused(e),
                }
            },
            (Stage::PreInstantiate(i, t), EphemeralEvent::Done) => if i + 1 < count {
                Stage::PreInstantiate(i + 1, t)
            } else {
                Stage::BuildStore(t)
            },
            (Stage::PreInstantiate(i, _), EphemeralEvent::Missing) => Stage::Refused(
                LinkError::PreInstantiateNotFound {
                    component_id: call.linked_component_ids[i].clone(),
                },
            ),
            (Stage::PreInstantiate(_, _), EphemeralEvent::Failed(cause)) => Stage::Refused(
                LinkError::PreInstantiate { cause },
            ),
            (stage, _) => stage,
        };
        EphemeralBuild { call, stage }
    }

    /// Starts to build the store once all is prepared; else tells why it is refused,
    /// or nothing while steps are left. The store is never that of a service.
    pub fn store(self, env: &HostEnv) -> (r: Option<Result<StoreBuild<P, L, T, H>, LinkError>>)
        ensures
            match self.stage() {
                EphemeralStage::BuildStore(t) => r matches Some(Ok(build)) && {
                    &&& is_random_uuid(build.plan().store_id@)
                    &&& build.plan().made_for(
                        build.plan().store_id@,
                        self.call().http_handler,
                        t.active,
                        t.linked,
                        self.call().linked,
                        false,
                        *env,
                    )
                    &&& build.stage() == StoreStage::BuildCtx(0)
                },
                EphemeralStage::Refused(e) => r == Some(
                    Err::<StoreBuild<P, L, T, H>, LinkError>(e),
                ),
                _ => r is None,
            },
    {
        match self.stage {
            Stage::BuildStore(t) => Some(
                Ok(
                    new_store_from_templates(
                        &self.call.http_handler,
                        &t.active,
                        &t.linked,
                        &self.call.linked_component_ids,
                        false,
                        env,
                    ),
                ),
            ),
            Stage::Refused(e) => Some(Err(e)),
            _ => None,
        }
    }
}

/// Starts to make the store of a call.
pub fn new_ephemeral_store<P: ?Sized, L: ?Sized, T: ?Sized, H: ?Sized>(
    call: &EphemeralLinkedCall<T, H>,
) -> (r: EphemeralBuild<P, L, T, H>)
    ensures
        r.call() == call@,
        r.stage() == EphemeralStage::<P, L, T>::ResolveMounts,
{
    EphemeralBuild { call: call.share(), stage: Stage::ResolveMounts }
}

} // verus!
