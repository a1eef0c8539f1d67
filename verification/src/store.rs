//! How a store is put together: the contexts of the active component and of the
//! components linked into it, the limits of the store, and an instance of each
//! linked component.
use std::sync::Arc;
use vstd::prelude::*;

use crate::ctx::{build_ctx_from_template, ctx_of, var_text, var_value, CtxRecipe, HostEnv};
use crate::error::LinkError;
use crate::limits::{
    epoch_deadline, memory_budget, memory_limit, resolve_epoch_deadline, resolve_memory_budget,
    resolve_memory_limit, MemoryLimit, EPOCH_DEADLINE_KEY, MEMORY_LIMIT_KEY,
};
use crate::template::{
    append_mounts, config_text, share_names, ComponentCtxTemplate, ResolvedVolumeMount,
    TemplateView,
};

verus! {

/// A lower-case hexadecimal digit.
pub open spec fn is_hex(c: char) -> bool {
    '0' <= c <= '9' || 'a' <= c <= 'f'
}

/// The hyphenated form of a random UUID: five groups of lower-case hexadecimal
/// digits, with the version digit `4` and a variant digit from `8` to `b`.
pub open spec fn is_random_uuid(s: Seq<char>) -> bool {
    &&& s.len() == 36
    &&& forall|i: int|
        0 <= i < 36 ==> if i == 8 || i == 13 || i == 18 || i == 23 {
            #[trigger] s[i] == '-'
        } else {
            is_hex(s[i])
        }
    &&& s[14] == '4'
    &&& s[19] == '8' || s[19] == '9' || s[19] == 'a' || s[19] == 'b'
}

/// A fresh name for a store: `uuid::Uuid::new_v4`, which draws 122 random bits from
/// the operating system, written out by its `Display`. The contract claims the
/// form of the text and nothing of the digits, which are random. The call panics
/// where the system gives no random bytes.
#[verifier::external_body]
fn new_store_id() -> (r: String)
    ensures
        is_random_uuid(r@),
{
    uuid::Uuid::new_v4().to_string()
}

/// What a store is put together from.
pub struct StorePlan<P: ?Sized, L: ?Sized, T: ?Sized, H: ?Sized> {
    pub store_id: String,
    /// The context of the active component.
    pub active: CtxRecipe<P, L, T, H>,
    /// The contexts of the linked components.
    pub linked: Vec<CtxRecipe<P, L, T, H>>,
    pub epoch_deadline_ticks: u64,
    /// The memory limit, if there is one; or why the store is refused.
    pub memory_limit: Result<Option<MemoryLimit>, LinkError>,
    /// The components to instantiate, in this order.
    pub instances: Vec<Arc<str>>,
}

/// The contents of a row of templates.
pub open spec fn template_views<P: ?Sized, L: ?Sized, T: ?Sized>(
    templates: Seq<ComponentCtxTemplate<P, L, T>>,
) -> Seq<TemplateView<P, L, T>> {
    Seq::new(templates.len(), |i: int| templates[i]@)
}

/// The mounts of a row of templates, one template after the other.
pub open spec fn mounts_of<P: ?Sized, L: ?Sized, T: ?Sized>(
    templates: Seq<TemplateView<P, L, T>>,
) -> Seq<ResolvedVolumeMount>
    decreases templates.len(),
{
    if templates.len() == 0 {
        Seq::empty()
    } else {
        mounts_of(templates.drop_last()) + templates.last().volume_mounts
    }
}

/// The memory limit of a store whose active component has the given template.
pub open spec fn limit_of<P: ?Sized, L: ?Sized, T: ?Sized>(
    active: TemplateView<P, L, T>,
    env: HostEnv,
) -> Result<Option<MemoryLimit>, LinkError> {
    memory_limit(
        active.component_id,
        memory_budget(
            active.local_resources.memory_limit_mb,
            config_text(active.local_resources, MEMORY_LIMIT_KEY@),
            var_text(env.memory_limit_mb),
        ),
        var_text(env.memory_ceiling_mb),
    )
}

impl<P: ?Sized, L: ?Sized, T: ?Sized, H: ?Sized> StorePlan<P, L, T, H> {
    /// The plan is the one for these templates and instances, under the name
    /// `store_id`. Every context has the HTTP handler and the mounts of all components; only the active
    /// one can be that of a service; the active component sets the limits.
    pub open spec fn made_for(
        self,
        store_id: Seq<char>,
        http_handler: Arc<H>,
        active: TemplateView<P, L, T>,
        linked: Seq<TemplateView<P, L, T>>,
        instances: Seq<Arc<str>>,
        is_service: bool,
        env: HostEnv,
    ) -> bool {
        let mounts = active.volume_mounts + mounts_of(linked);
        let sockets_var = var_text(env.allow_raw_sockets);
        &&& self.store_id@ == store_id
        &&& self.active@ == ctx_of(active, http_handler, mounts, store_id, is_service, sockets_var)
        &&& self.linked@.len() == linked.len()
        &&& forall|i: int|
            0 <= i < linked.len() ==> (#[trigger] self.linked@[i])@ == ctx_of(
                linked[i],
                http_handler,
                mounts,
                store_id,
                false,
                sockets_var,
            )
        &&& self.epoch_deadline_ticks == epoch_deadline(
            config_text(active.local_resources, EPOCH_DEADLINE_KEY@),
            var_text(env.epoch_deadline_ticks),
        )
        &&& self.memory_limit == limit_of(active, env)
        &&& self.instances@ == instances
    }

    /// What the steps of the build depend on.
    pub open spec fn shape(self) -> StoreShape {
        StoreShape {
            linked: self.linked@.len(),
            refusal: match self.memory_limit {
                Ok(_) => None,
                Err(e) => Some(e),
            },
            active_id: self.active.component_id,
            instances: self.instances@,
        }
    }
}

/// Makes the plan of a store under the name `store_id`.
pub fn plan_store<P: ?Sized, L: ?Sized, T: ?Sized, H: ?Sized>(
    store_id: String,
    http_handler: &Arc<H>,
    active: &ComponentCtxTemplate<P, L, T>,
    linked: &Vec<ComponentCtxTemplate<P, L, T>>,
    instances: &Vec<Arc<str>>,
    is_service: bool,
    env: &HostEnv,
) -> (r: StorePlan<P, L, T, H>)
    ensures
        r.made_for(
            store_id@,
            *http_handler,
            active@,
            template_views(linked@),
            instances@,
            is_service,
            *env,
        ),
{
    let mut mounts: Vec<ResolvedVolumeMount> = Vec::new();
    append_mounts(&mut mounts, &active.volume_mounts);
    let mut i: usize = 0;
    let ghost views = template_views(linked@);
    assert(mounts@ =~= active.volume_mounts@ + mounts_of(views.take(0)));
    while i < linked.len()
        invariant
            i <= linked@.len(),
            views == template_views(linked@),
            mounts@ == active.volume_mounts@ + mounts_of(views.take(i as int)),
        decreases linked.len() - i,
    {
        append_mounts(&mut mounts, &linked[i].volume_mounts);
        proof {
            assert(views.take(i + 1).drop_last() =~= views.take(i as int));
            assert(mounts@ =~= active.volume_mounts@ + mounts_of(views.take(i + 1)));
        }
        i = i + 1;
    }
    assert(views.take(i as int) =~= views);
    let active_ctx = build_ctx_from_template(
        active,
        http_handler,
        &mounts,
        &store_id,
        is_service,
        env,
    );
    let mut linked_ctxs: Vec<CtxRecipe<P, L, T, H>> = Vec::new();
    let mut i: usize = 0;
    while i < linked.len()
        invariant
            i <= linked@.len(),
            linked_ctxs@.len() == i,
            forall|j: int|
                0 <= j < i ==> (#[trigger] linked_ctxs@[j])@ == ctx_of(
                    linked@[j]@,
                    *http_handler,
                    mounts@,
                    store_id@,
                    false,
                    var_text(env.allow_raw_sockets),
                ),
        decreases linked.len() - i,
    {
        linked_ctxs.push(
            build_ctx_from_template(&linked[i], http_handler, &mounts, &store_id, false, env),
        );
        i = i + 1;
    }
    let epoch_deadline_ticks = resolve_epoch_deadline(
        active.local_resources.config_value(EPOCH_DEADLINE_KEY),
        var_value(&env.epoch_deadline_ticks),
    );
    let budget_mb = resolve_memory_budget(
        active.local_resources.memory_limit_mb,
        active.local_resources.config_value(MEMORY_LIMIT_KEY),
        var_value(&env.memory_limit_mb),
    );
    let memory_limit = resolve_memory_limit(
        &active.component_id,
        budget_mb,
        var_value(&env.memory_ceiling_mb),
    );
    StorePlan {
        store_id,
        active: active_ctx,
        linked: linked_ctxs,
        epoch_deadline_ticks,
        memory_limit,
        instances: share_names(instances),
    }
}

/// How a step went.
#[derive(Debug)]
pub enum StepOutcome {
    Done,
    Failed(String),
}

/// Where a build stands.
#[derive(Debug)]
pub enum StoreStage {
    /// The next context to build: that of the active component first, then those of
    /// the linked ones.
    BuildCtx(usize),
    /// The contexts stand; the store comes next.
    Open,
    /// The context of a linked component is to become the active one.
    Enter(usize),
    Instantiate(usize),
    /// The active component's context is to come back; what the instantiation failed
    /// with, if it did.
    Leave(usize, Option<String>),
    /// The new instance is to be entered under its component.
    Register(usize),
    Ready,
    Refused(LinkError),
}

/// What the host does next.
#[derive(Debug)]
pub enum StoreAction {
    BuildActiveCtx,
    BuildLinkedCtx(usize),
    /// Create the store and set its limits.
    Open,
    SetActive(Arc<str>),
    Instantiate(usize),
    Register(usize),
    /// Nothing is left to do.
    Stop,
}

/// The part of a plan that the steps depend on.
#[verifier::ext_equal]
pub struct StoreShape {
    /// The number of linked contexts.
    pub linked: nat,
    /// Why the store is refused, if it is.
    pub refusal: Option<LinkError>,
    pub active_id: Arc<str>,
    pub instances: Seq<Arc<str>>,
}

impl StoreShape {
    /// The stage that takes up instance `i`.
    pub open spec fn enter(self, i: int) -> StoreStage {
        if i < self.instances.len() {
            StoreStage::Enter(i as usize)
        } else {
            StoreStage::Ready
        }
    }

    /// The stage after a step.
    pub open spec fn next(self, stage: StoreStage, outcome: StepOutcome) -> StoreStage {
        match outcome {
            StepOutcome::Done => match stage {
                StoreStage::BuildCtx(i) => if i < self.linked {
                    StoreStage::BuildCtx((i + 1) as usize)
                } else {
                    match self.refusal {
                        Some(e) => StoreStage::Refused(e),
                        None => StoreStage::Open,
                    }
                },
                StoreStage::Open => self.enter(0),
                StoreStage::Enter(i) => StoreStage::Instantiate(i),
                StoreStage::Instantiate(i) => StoreStage::Leave(i, None),
                StoreStage::Leave(i, None) => StoreStage::Register(i),
                StoreStage::Leave(i, Some(cause)) => StoreStage::Refused(
                    LinkError::Instantiate { component_id: self.instances[i as int], cause },
                ),
                StoreStage::Register(i) => self.enter(i + 1),
                _ => stage,
            },
            StepOutcome::Failed(cause) => match stage {
                StoreStage::Instantiate(i) => StoreStage::Leave(i, Some(cause)),
                StoreStage::Ready | StoreStage::Refused(_) => stage,
                _ => StoreStage::Refused(LinkError::Other { cause }),
            },
        }
    }

    /// What a stage has the host do.
    pub open spec fn action(self, stage: StoreStage) -> StoreAction {
        match stage {
            StoreStage::BuildCtx(i) => if i == 0 {
                StoreAction::BuildActiveCtx
            } else {
                StoreAction::BuildLinkedCtx((i - 1) as usize)
            },
            StoreStage::Open => StoreAction::Open,
            StoreStage::Enter(i) => StoreAction::SetActive(self.instances[i as int]),
            StoreStage::Instantiate(i) => StoreAction::Instantiate(i),
            StoreStage::Leave(..) => StoreAction::SetActive(self.active_id),
            StoreStage::Register(i) => StoreAction::Register(i),
            StoreStage::Ready | StoreStage::Refused(_) => StoreAction::Stop,
        }
    }

    /// The stage names contexts and instances that there are.
    pub open spec fn in_range(self, stage: StoreStage) -> bool {
        match stage {
            StoreStage::BuildCtx(i) => i <= self.linked,
            StoreStage::Open => self.refusal is None,
            StoreStage::Enter(i)
            | StoreStage::Instantiate(i)
            | StoreStage::Leave(i, _)
            | StoreStage::Register(i) => i < self.instances.len() && self.refusal is None,
            StoreStage::Ready => self.refusal is None,
            StoreStage::Refused(_) => true,
        }
    }
}

/// The build of a store, one step at a time: the host performs the action and
/// hands back how it went.
pub struct StoreBuild<P: ?Sized, L: ?Sized, T: ?Sized, H: ?Sized> {
    plan: StorePlan<P, L, T, H>,
    stage: StoreStage,
}

impl<P: ?Sized, L: ?Sized, T: ?Sized, H: ?Sized> StoreBuild<P, L, T, H> {
    pub closed spec fn plan(self) -> StorePlan<P, L, T, H> {
        self.plan
    }

    pub closed spec fn stage(self) -> StoreStage {
        self.stage
    }

    #[verifier::type_invariant]
    spec fn stage_in_range(self) -> bool {
        self.plan.shape().in_range(self.stage)
    }

    /// Starts to build the store of a plan.
    pub fn new(plan: StorePlan<P, L, T, H>) -> (r: Self)
        ensures
            r.plan() == plan,
            r.stage() == StoreStage::BuildCtx(0),
    {
        StoreBuild { plan, stage: StoreStage::BuildCtx(0) }
    }

    /// The plan of the store.
    pub fn plan_ref(&self) -> (r: &StorePlan<P, L, T, H>)
        ensures
            *r == self.plan(),
    {
        &self.plan
    }

    /// What the host has to do next.
    pub fn action(&self) -> (r: StoreAction)
        ensures
            r == self.plan().shape().action(self.stage()),
    {
        proof {
            use_type_invariant(self);
        }
        match &self.stage {
            StoreStage::BuildCtx(i) => if *i == 0 {
                StoreAction::BuildActiveCtx
            } else {
                StoreAction::BuildLinkedCtx(*i - 1)
            },
            StoreStage::Open => StoreAction::Open,
            StoreStage::Enter(i) => StoreAction::SetActive(self.plan.instances[*i].clone()),
            StoreStage::Instantiate(i) => StoreAction::Instantiate(*i),
            StoreStage::Leave(_, _) => StoreAction::SetActive(self.plan.active.component_id.clone()),
            StoreStage::Register(i) => StoreAction::Register(*i),
            StoreStage::Ready | StoreStage::Refused(_) => StoreAction::Stop,
        }
    }

    fn enter(plan: &StorePlan<P, L, T, H>, i: usize) -> (r: StoreStage)
        ensures
            r == plan.shape().enter(i as int),
    {
        if i < plan.instances.len() {
            StoreStage::Enter(i)
        } else {
            StoreStage::Ready
        }
    }

    /// Takes in how the last action went.
    pub fn advance(self, outcome: StepOutcome) -> (r: Self)
        ensures
            r.plan() == self.plan(),
            r.stage() == self.plan().shape().next(self.stage(), outcome),
    {
        proof {
            use_type_invariant(&self);
        }
        let StoreBuild { plan, stage } = self;
        assert(plan.instances.len() == plan.instances@.len());
        let stage = match outcome {
            StepOutcome::Done => match stage {
                StoreStage::BuildCtx(i) => if i < plan.linked.len() {
                    StoreStage::BuildCtx(i + 1)
                } else {
                    match &plan.memory_limit {
                        Err(e) => StoreStage::Refused(e.share()),
                        Ok(_) => StoreStage::Open,
                    }
                },
                StoreStage::Open => Self::enter(&plan, 0),
                StoreStage::Enter(i) => StoreStage::Instantiate(i),
                StoreStage::Instantiate(i) => StoreStage::Leave(i, None),
                StoreStage::Leave(i, None) => StoreStage::Register(i),
                StoreStage::Leave(i, Some(cause)) => StoreStage::Refused(
                    LinkError::Instantiate { component_id: plan.instances[i].clone(), cause },
                ),
                StoreStage::Register(i) => Self::enter(&plan, i + 1),
                StoreStage::Ready => StoreStage::Ready,
                StoreStage::Refused(e) => StoreStage::Refused(e),
            },
            StepOutcome::Failed(cause) => match stage {
                StoreStage::Instantiate(i) => StoreStage::Leave(i, Some(cause)),
                StoreStage::Ready => StoreStage::Ready,
                StoreStage::Refused(e) => StoreStage::Refused(e),
                _ => StoreStage::Refused(LinkError::Other { cause }),
            },
        };
        StoreBuild { plan, stage }
    }

    /// How the build came out: nothing while steps are left.
    pub fn result(self) -> (r: Option<Result<(), LinkError>>)
        ensures
            r == match self.stage() {
                StoreStage::Ready => Some(Ok(())),
                StoreStage::Refused(e) => Some(Err(e)),
                _ => None,
            },
    {
        match self.stage {
            StoreStage::Ready => Some(Ok(())),
            StoreStage::Refused(e) => Some(Err(e)),
            _ => None,
        }
    }
}

/// Starts a new store for an active component and the components linked into it.
/// `instances` are the linked components that get an instance in the store.
pub fn new_store_from_templates<P: ?Sized, L: ?Sized, T: ?Sized, H: ?Sized>(
    http_handler: &Arc<H>,
    active: &ComponentCtxTemplate<P, L, T>,
    linked: &Vec<ComponentCtxTemplate<P, L, T>>,
    instances: &Vec<Arc<str>>,
    is_service: bool,
    env: &HostEnv,
) -> (r: StoreBuild<P, L, T, H>)
    ensures
        is_random_uuid(r.plan().store_id@),
        r.plan().made_for(
            r.plan().store_id@,
            *http_handler,
            active@,
            template_views(linked@),
            instances@,
            is_service,
            *env,
        ),
        r.stage() == StoreStage::BuildCtx(0),
{
    let store_id = new_store_id();
    StoreBuild::new(plan_store(store_id, http_handler, active, linked, instances, is_service, env))
}

} // verus!
