//! Calls from one component of a workload to another.
//!
//! A call takes one of two paths, by its signature. In the shared-store path the
//! callee has an instance in the caller's store, and handles cross by identity. In
//! the ephemeral path a call of plain values runs in a store of its own.
use std::sync::Arc;
use vstd::prelude::*;
use wasmtime::component::types::ComponentFunc;

use crate::component_types::{func_params, func_results, read_func};
use crate::ephemeral::{CallView, EphemeralLinkedCall};
use crate::error::LinkError;
use crate::signature::{all_plain, trees, FuncType};

verus! {

/// How long a call in a store of its own may take, in seconds.
pub const EPHEMERAL_CALL_TIMEOUT_SECS: u64 = 600;

/// How long a synchronous call may take, in seconds.
pub const SYNC_CALL_TIMEOUT_SECS: u64 = 30;

/// An import that is linked to another component's export.
pub struct LinkedExportInvocation<T: ?Sized, H: ?Sized> {
    pub import_name: Arc<str>,
    pub export_name: Arc<str>,
    /// The component that exports the function.
    pub plugin_component_id: Arc<str>,
    /// What a call in a store of its own needs, where the signature lets it run in one.
    pub ephemeral_call: Option<Arc<EphemeralLinkedCall<T, H>>>,
}

impl<T: ?Sized, H: ?Sized> LinkedExportInvocation<T, H> {
    /// The import is linked under these names.
    pub open spec fn named(
        self,
        import_name: Arc<str>,
        export_name: Arc<str>,
        plugin_component_id: Arc<str>,
    ) -> bool {
        &&& self.import_name == import_name
        &&& self.export_name == export_name
        &&& self.plugin_component_id == plugin_component_id
    }

    /// The ephemeral path that is open to the import, if it is.
    pub open spec fn ephemeral_path(self) -> Option<CallView<T, H>> {
        match self.ephemeral_call {
            Some(call) => Some((*call)@),
            None => None,
        }
    }

    /// Links an import to a function of the signature `func`: the ephemeral path is
    /// open to it exactly when the signature carries plain values only.
    pub fn link_signature(
        import_name: Arc<str>,
        export_name: Arc<str>,
        plugin_component_id: Arc<str>,
        func: &FuncType,
        call: EphemeralLinkedCall<T, H>,
    ) -> (r: Self)
        ensures
            r.named(import_name, export_name, plugin_component_id),
            r.import_name == import_name,
            r.export_name == export_name,
            r.plugin_component_id == plugin_component_id,
            r.ephemeral_path() == if all_plain(trees(func.params@), trees(func.results@)) {
                Some(call@)
            } else {
                None
            },
    {
        let ephemeral_call = if func.is_all_plain() {
            Some(Arc::new(call))
        } else {
            None
        };
        LinkedExportInvocation { import_name, export_name, plugin_component_id, ephemeral_call }
    }

    /// Links an import to a component function.
    pub fn link(
        import_name: Arc<str>,
        export_name: Arc<str>,
        plugin_component_id: Arc<str>,
        func_ty: &ComponentFunc,
        call: EphemeralLinkedCall<T, H>,
    ) -> (r: Self)
        ensures
            r.named(import_name, export_name, plugin_component_id),
            r.import_name == import_name,
            r.export_name == export_name,
            r.plugin_component_id == plugin_component_id,
            r.ephemeral_path() == if all_plain(func_params(*func_ty), func_results(*func_ty)) {
                Some(call@)
            } else {
                None
            },
    {
        Self::link_signature(
            import_name,
            export_name,
            plugin_component_id,
            &read_func(func_ty),
            call,
        )
    }
}

/// Writes the values of a call into the slots of its results, from the first on.
/// Values beyond the last slot are an error; the slots are filled all the same.
pub fn store_results<V>(results: &mut [V], values: Vec<V>) -> (r: Result<(), LinkError>)
    ensures
        final(results)@ == filled(old(results)@, values@),
        r == if values@.len() <= old(results)@.len() {
            Ok::<(), LinkError>(())
        } else {
            Err::<(), LinkError>(LinkError::ResultIndexOutOfBounds)
        },
{
    let fits = values.len() <= results.len();
    let mut rest = values;
    while rest.len() > 0
        invariant
            rest@.len() <= values@.len(),
            rest@ == values@.take(rest@.len() as int),
            results@.len() == old(results)@.len(),
            forall|i: int|
                0 <= i < results@.len() ==> #[trigger] results@[i] == if rest@.len() <= i
                    < values@.len() {
                    values@[i]
                } else {
                    old(results)@[i]
                },
        decreases rest@.len(),
    {
        let i = rest.len() - 1;
        match rest.pop() {
            Some(v) => {
                if i < results.len() {
                    results[i] = v;
                }
            },
            None => {},
        }
        assert(rest@ =~= values@.take(i as int));
    }
    assert(results@ =~= filled(old(results)@, values@));
    if fits {
        Ok(())
    } else {
        Err(LinkError::ResultIndexOutOfBounds)
    }
}

/// The slots with the values written over their front.
pub open spec fn filled<V>(slots: Seq<V>, values: Seq<V>) -> Seq<V> {
    Seq::new(
        slots.len(),
        |i: int|
            if i < values.len() {
                values[i]
            } else {
                slots[i]
            },
    )
}

/// What the host tells of the last action of a call in a shared store.
#[derive(Debug)]
pub enum CallEvent {
    Done,
    /// There is no such instance, or no such function in it.
    Missing,
    Failed(String),
    TimedOut(String),
}

/// Where a call in a shared store stands.
#[derive(Debug)]
pub enum SharedStage {
    /// The callee's context is to become the active one.
    EnterCtx,
    FindInstance,
    FindFunc,
    /// The parameters are to be brought over to the callee.
    LowerParams,
    Call,
    /// The results are to be brought back to the caller.
    LiftResults,
    /// The caller's context is to come back; what the call failed with, if it did.
    LeaveCtx(Option<LinkError>),
    Finished(Option<LinkError>),
}

/// What the host does next in a call in a shared store.
#[derive(Debug)]
pub enum SharedAction {
    EnterCtx(Arc<str>),
    FindInstance(Arc<str>),
    FindFunc,
    LowerParams,
    /// Make the call, within so many seconds where there is a limit.
    Call(Option<u64>),
    LiftResults,
    LeaveCtx,
    Stop,
}

/// What the stages of a call in a shared store depend on.
pub struct SharedShape {
    pub component_id: Arc<str>,
    pub timeout_secs: Option<u64>,
}

impl SharedShape {
    /// What a stage has the host do.
    pub open spec fn action(self, stage: SharedStage) -> SharedAction {
        match stage {
            SharedStage::EnterCtx => SharedAction::EnterCtx(self.component_id),
            SharedStage::FindInstance => SharedAction::FindInstance(self.component_id),
            SharedStage::FindFunc => SharedAction::FindFunc,
            SharedStage::LowerParams => SharedAction::LowerParams,
            SharedStage::Call => SharedAction::Call(self.timeout_secs),
            SharedStage::LiftResults => SharedAction::LiftResults,
            SharedStage::LeaveCtx(_) => SharedAction::LeaveCtx,
            SharedStage::Finished(_) => SharedAction::Stop,
        }
    }

    /// The error that an event is at a stage, if it is one: an instance and a
    /// function can be missing, a call with a limit can time out, and every step up
    /// to the last can fail.
    pub open spec fn error(self, stage: SharedStage, event: CallEvent) -> Option<LinkError> {
        match (stage, event) {
            (SharedStage::LeaveCtx(_), _) | (SharedStage::Finished(_), _) => None,
            (_, CallEvent::Failed(cause)) => Some(LinkError::Other { cause }),
            (SharedStage::FindInstance, CallEvent::Missing) => Some(
                LinkError::NotPreInstantiated { component_id: self.component_id },
            ),
            (SharedStage::FindFunc, CallEvent::Missing) => Some(LinkError::FuncNotFound),
            (SharedStage::Call, CallEvent::TimedOut(cause)) => match self.timeout_secs {
                Some(secs) => Some(LinkError::TimedOut { secs, cause }),
                None => None,
            },
            _ => None,
        }
    }

    /// The stage after an event. An error ends the call, by way of the caller's
    /// context once that was left; an event that answers another action changes
    /// nothing.
    pub open spec fn next(self, stage: SharedStage, event: CallEvent) -> SharedStage {
        match self.error(stage, event) {
            Some(e) => if stage is EnterCtx {
                SharedStage::Finished(Some(e))
            } else {
                SharedStage::LeaveCtx(Some(e))
            },
            None => match (stage, event) {
                (SharedStage::LeaveCtx(e), _) => SharedStage::Finished(e),
                (SharedStage::EnterCtx, CallEvent::Done) => SharedStage::FindInstance,
                (SharedStage::FindInstance, CallEvent::Done) => SharedStage::FindFunc,
                (SharedStage::FindFunc, CallEvent::Done) => SharedStage::LowerParams,
                (SharedStage::LowerParams, CallEvent::Done) => SharedStage::Call,
                (SharedStage::Call, CallEvent::Done) => SharedStage::LiftResults,
                (SharedStage::LiftResults, CallEvent::Done) => SharedStage::LeaveCtx(None),
                _ => stage,
            },
        }
    }
}

/// A call of a function whose component has an instance in the caller's store, one
/// step at a time: the host performs the action and hands back how it went.
pub struct SharedCall {
    pub component_id: Arc<str>,
    pub timeout_secs: Option<u64>,
    pub stage: SharedStage,
}

impl SharedCall {
    pub open spec fn shape(self) -> SharedShape {
        SharedShape { component_id: self.component_id, timeout_secs: self.timeout_secs }
    }

    /// What the host has to do next.
    pub fn action(&self) -> (r: SharedAction)
        ensures
            r == self.shape().action(self.stage),
    {
        match &self.stage {
            SharedStage::EnterCtx => SharedAction::EnterCtx(self.component_id.clone()),
            SharedStage::FindInstance => SharedAction::FindInstance(self.component_id.clone()),
            SharedStage::FindFunc => SharedAction::FindFunc,
            SharedStage::LowerParams => SharedAction::LowerParams,
            SharedStage::Call => SharedAction::Call(self.timeout_secs),
            SharedStage::LiftResults => SharedAction::LiftResults,
            SharedStage::LeaveCtx(_) => SharedAction::LeaveCtx,
            SharedStage::Finished(_) => SharedAction::Stop,
        }
    }

    /// Takes in how the last action went.
    pub fn advance(self, event: CallEvent) -> (r: Self)
        ensures
            r.shape() == self.shape(),
            r.stage == self.shape().next(self.stage, event),
    {
        let SharedCall { component_id, timeout_secs, stage } = self;
        let stage = match (stage, event) {
            (SharedStage::LeaveCtx(e), _) => SharedStage::Finished(e),
            (SharedStage::Finished(e), _) => SharedStage::Finished(e),
            (SharedStage::EnterCtx, CallEvent::Failed(cause)) => SharedStage::Finished(
                Some(LinkError::Other { cause }),
            ),
            (_, CallEvent::Failed(cause)) => SharedStage::LeaveCtx(
                Some(LinkError::Other { cause }),
            ),
            (SharedStage::FindInstance, CallEvent::Missing) => SharedStage::LeaveCtx(
                Some(LinkError::NotPreInstantiated { component_id: component_id.clone() }),
            ),
            (SharedStage::FindFunc, CallEvent::Missing) => SharedStage::LeaveCtx(
                Some(LinkError::FuncNotFound),
            ),
            (SharedStage::Call, CallEvent::TimedOut(cause)) => match timeout_secs {
                Some(secs) => SharedStage::LeaveCtx(Some(LinkError::TimedOut { secs, cause })),
                None => SharedStage::Call,
            },
            (SharedStage::EnterCtx, CallEvent::Done) => SharedStage::FindInstance,
            (SharedStage::FindInstance, CallEvent::Done) => SharedStage::FindFunc,
            (SharedStage::FindFunc, CallEvent::Done) => SharedStage::LowerParams,
            (SharedStage::LowerParams, CallEvent::Done) => SharedStage::Call,
            (SharedStage::Call, CallEvent::Done) => SharedStage::LiftResults,
            (SharedStage::LiftResults, CallEvent::Done) => SharedStage::LeaveCtx(None),
            (stage, _) => stage,
        };
        SharedCall { component_id, timeout_secs, stage }
    }

    /// How the call came out: nothing while steps are left.
    pub fn result(self) -> (r: Option<Result<(), LinkError>>)
        ensures
            r == match self.stage {
                SharedStage::Finished(None) => Some(Ok(())),
                SharedStage::Finished(Some(e)) => Some(Err(e)),
                _ => None,
            },
    {
        match self.stage {
            SharedStage::Finished(None) => Some(Ok(())),
            SharedStage::Finished(Some(e)) => Some(Err(e)),
            _ => None,
        }
    }
}

/// What the host tells of the last action of a call in a store of its own.
#[derive(Debug)]
pub enum EphemeralCallEvent<V> {
    Done,
    /// The store could not be had.
    Refused(LinkError),
    /// There is no such function in the instance.
    Missing,
    /// The call returned these values.
    Returned(Vec<V>),
    Failed(String),
    TimedOut(String),
    /// The task that the call ran in did not come back.
    TaskFailed(String),
}

/// Where a call in a store of its own stands.
#[derive(Debug)]
pub enum EphemeralCallStage<V> {
    OpenStore,
    /// The callee is to be instantiated in the new store.
    Instantiate,
    FindFunc,
    Call,
    /// The call is over, and these are its values.
    Returned(Vec<V>),
    Failed(LinkError),
}

/// What the host does next in a call in a store of its own.
pub enum EphemeralCallAction<T: ?Sized, H: ?Sized> {
    /// Make the store of this call.
    OpenStore(Arc<EphemeralLinkedCall<T, H>>),
    Instantiate,
    FindFunc,
    /// Make the call, within so many seconds.
    Call(u64),
    Stop,
}

/// What the stages of a call in a store of its own depend on.
pub struct EphemeralCallShape {
    pub import_name: Arc<str>,
    pub export_name: Arc<str>,
}

impl EphemeralCallShape {
    /// The stage after an event. The first error ends the call; the task can fail at
    /// every stage that runs in it; an event that answers another action changes
    /// nothing.
    pub open spec fn next<V>(
        self,
        stage: EphemeralCallStage<V>,
        event: EphemeralCallEvent<V>,
    ) -> EphemeralCallStage<V> {
        match (stage, event) {
            (EphemeralCallStage::Returned(_), _) | (EphemeralCallStage::Failed(_), _) => stage,
            (EphemeralCallStage::OpenStore, EphemeralCallEvent::Done) =>
                EphemeralCallStage::Instantiate,
            (EphemeralCallStage::OpenStore, EphemeralCallEvent::Refused(e)) =>
                EphemeralCallStage::Failed(e),
            (EphemeralCallStage::OpenStore, _) => stage,
            (_, EphemeralCallEvent::TaskFailed(cause)) => EphemeralCallStage::Failed(
                LinkError::TaskFailed { cause },
            ),
            (_, EphemeralCallEvent::Failed(cause)) => EphemeralCallStage::Failed(
                LinkError::Other { cause },
            ),
            (EphemeralCallStage::Instantiate, EphemeralCallEvent::Done) =>
                EphemeralCallStage::FindFunc,
            (EphemeralCallStage::FindFunc, EphemeralCallEvent::Done) => EphemeralCallStage::Call,
            (EphemeralCallStage::FindFunc, EphemeralCallEvent::Missing) =>
                EphemeralCallStage::Failed(
                LinkError::ImportFuncNotFound {
                    import_name: self.import_name,
                    export_name: self.export_name,
                },
            ),
            (EphemeralCallStage::Call, EphemeralCallEvent::Returned(values)) =>
                EphemeralCallStage::Returned(values),
            (EphemeralCallStage::Call, EphemeralCallEvent::TimedOut(cause)) =>
                EphemeralCallStage::Failed(
                LinkError::TimedOut { secs: EPHEMERAL_CALL_TIMEOUT_SECS, cause },
            ),
            _ => stage,
        }
    }
}

/// A call in a store of its own, one step at a time. `V` is a component value.
pub struct EphemeralCall<T: ?Sized, H: ?Sized, V> {
    pub import_name: Arc<str>,
    pub export_name: Arc<str>,
    pub call: Arc<EphemeralLinkedCall<T, H>>,
    pub stage: EphemeralCallStage<V>,
}

impl<T: ?Sized, H: ?Sized, V> EphemeralCall<T, H, V> {
    pub open spec fn shape(self) -> EphemeralCallShape {
        EphemeralCallShape { import_name: self.import_name, export_name: self.export_name }
    }

    /// What the host has to do next.
    pub fn action(&self) -> (r: EphemeralCallAction<T, H>)
        ensures
            r == match self.stage {
                EphemeralCallStage::OpenStore => EphemeralCallAction::OpenStore(self.call),
                EphemeralCallStage::Instantiate => EphemeralCallAction::Instantiate,
                EphemeralCallStage::FindFunc => EphemeralCallAction::FindFunc,
                EphemeralCallStage::Call => EphemeralCallAction::Call(EPHEMERAL_CALL_TIMEOUT_SECS),
                EphemeralCallStage::Returned(_)
                | EphemeralCallStage::Failed(_) => EphemeralCallAction::Stop,
            },
    {
        match &self.stage {
            EphemeralCallStage::OpenStore => EphemeralCallAction::OpenStore(self.call.clone()),
            EphemeralCallStage::Instantiate => EphemeralCallAction::Instantiate,
            EphemeralCallStage::FindFunc => EphemeralCallAction::FindFunc,
            EphemeralCallStage::Call => EphemeralCallAction::Call(EPHEMERAL_CALL_TIMEOUT_SECS),
            EphemeralCallStage::Returned(_)
            | EphemeralCallStage::Failed(_) => EphemeralCallAction::Stop,
        }
    }

    /// Takes in how the last action went.
    pub fn advance(self, event: EphemeralCallEvent<V>) -> (r: Self)
        ensures
            r.shape() == self.shape(),
            r.call == self.call,
            r.stage == self.shape().next(self.stage, event),
    {
        let EphemeralCall { import_name, export_name, call, stage } = self;
        let stage = match (stage, event) {
            (EphemeralCallStage::Returned(values), _) => EphemeralCallStage::Returned(values),
            (EphemeralCallStage::Failed(e), _) => EphemeralCallStage::Failed(e),
            (EphemeralCallStage::OpenStore, EphemeralCallEvent::Done) =>
                EphemeralCallStage::Instantiate,
            (EphemeralCallStage::OpenStore, EphemeralCallEvent::Refused(e)) =>
                EphemeralCallStage::Failed(e),
            (EphemeralCallStage::OpenStore, _) => EphemeralCallStage::OpenStore,
            (_, EphemeralCallEvent::TaskFailed(cause)) => EphemeralCallStage::Failed(
                LinkError::TaskFailed { cause },
            ),
            (_, EphemeralCallEvent::Failed(cause)) => EphemeralCallStage::Failed(
                LinkError::Other { cause },
            ),
            (EphemeralCallStage::Instantiate, EphemeralCallEvent::Done) =>
                EphemeralCallStage::FindFunc,
            (EphemeralCallStage::FindFunc, EphemeralCallEvent::Done) => EphemeralCallStage::Call,
            (EphemeralCallStage::FindFunc, EphemeralCallEvent::Missing) =>
                EphemeralCallStage::Failed(
                LinkError::ImportFuncNotFound {
                    import_name: import_name.clone(),
                    export_name: export_name.clone(),
                },
            ),
            (EphemeralCallStage::Call, EphemeralCallEvent::Returned(values)) =>
                EphemeralCallStage::Returned(values),
            (EphemeralCallStage::Call, EphemeralCallEvent::TimedOut(cause)) =>
                EphemeralCallStage::Failed(
                LinkError::TimedOut { secs: EPHEMERAL_CALL_TIMEOUT_SECS, cause },
            ),
            (stage, _) => stage,
        };
        EphemeralCall { import_name, export_name, call, stage }
    }

    /// Writes the values of the call into the slots of its results and tells how the
    /// call came out: nothing while steps are left. A call that failed leaves the
    /// slots as they are.
    pub fn finish(self, results: &mut [V]) -> (r: Option<Result<(), LinkError>>)
        ensures
            match self.stage {
                EphemeralCallStage::Returned(values) => {
                    &&& final(results)@ == filled(old(results)@, values@)
                    &&& r == Some(
                        if values@.len() <= old(results)@.len() {
                            Ok::<(), LinkError>(())
                        } else {
                            Err::<(), LinkError>(LinkError::ResultIndexOutOfBounds)
                        },
                    )
                },
                EphemeralCallStage::Failed(e) => {
                    &&& final(results)@ == old(results)@
                    &&& r == Some(Err::<(), LinkError>(e))
                },
                _ => final(results)@ == old(results)@ && r is None,
            },
    {
        match self.stage {
            EphemeralCallStage::Returned(values) => Some(store_results(results, values)),
            EphemeralCallStage::Failed(e) => Some(Err(e)),
            _ => None,
        }
    }
}

/// A call, on the path that its import is linked for.
pub enum LinkedCall<T: ?Sized, H: ?Sized, V> {
    Ephemeral(EphemeralCall<T, H, V>),
    Shared(SharedCall),
}

/// Starts a call in a store of its own.
pub fn invoke_ephemeral_linked_export<T: ?Sized, H: ?Sized, V>(
    inv: &LinkedExportInvocation<T, H>,
    ephemeral_call: &Arc<EphemeralLinkedCall<T, H>>,
) -> (r: EphemeralCall<T, H, V>)
    ensures
        r.import_name == inv.import_name,
        r.export_name == inv.export_name,
        r.call == *ephemeral_call,
        r.stage == EphemeralCallStage::<V>::OpenStore,
{
    EphemeralCall {
        import_name: inv.import_name.clone(),
        export_name: inv.export_name.clone(),
        call: ephemeral_call.clone(),
        stage: EphemeralCallStage::OpenStore,
    }
}

/// Starts an asynchronous call in the caller's store, which has no time limit.
pub fn invoke_shared_store_linked_export<T: ?Sized, H: ?Sized>(
    inv: &LinkedExportInvocation<T, H>,
) -> (r: SharedCall)
    ensures
        r.component_id == inv.plugin_component_id,
        r.timeout_secs == None::<u64>,
        r.stage == SharedStage::EnterCtx,
{
    SharedCall {
        component_id: inv.plugin_component_id.clone(),
        timeout_secs: None,
        stage: SharedStage::EnterCtx,
    }
}

/// Starts a synchronous call, which always runs in the caller's store and within
/// [`SYNC_CALL_TIMEOUT_SECS`].
pub fn invoke_linked_sync_export<T: ?Sized, H: ?Sized>(inv: &LinkedExportInvocation<T, H>) -> (r: SharedCall)
    ensures
        r.component_id == inv.plugin_component_id,
        r.timeout_secs == Some(SYNC_CALL_TIMEOUT_SECS),
        r.stage == SharedStage::EnterCtx,
{
    SharedCall {
        component_id: inv.plugin_component_id.clone(),
        timeout_secs: Some(SYNC_CALL_TIMEOUT_SECS),
        stage: SharedStage::EnterCtx,
    }
}

/// The call that an asynchronous import starts: in a store of its own where the
/// import is linked for that, else in the caller's store.
pub open spec fn async_call<T: ?Sized, H: ?Sized, V>(
    inv: LinkedExportInvocation<T, H>,
) -> LinkedCall<T, H, V> {
    match inv.ephemeral_call {
        Some(call) => LinkedCall::Ephemeral(
            EphemeralCall {
                import_name: inv.import_name,
                export_name: inv.export_name,
                call,
                stage: EphemeralCallStage::OpenStore,
            },
        ),
        None => LinkedCall::Shared(
            SharedCall {
                component_id: inv.plugin_component_id,
                timeout_secs: None,
                stage: SharedStage::EnterCtx,
            },
        ),
    }
}

/// Starts an asynchronous call on the path that the import is linked for.
pub fn invoke_linked_async_export<T: ?Sized, H: ?Sized, V>(
    inv: &LinkedExportInvocation<T, H>,
) -> (r: LinkedCall<T, H, V>)
    ensures
        r == async_call::<T, H, V>(*inv),
{
    match &inv.ephemeral_call {
        Some(call) => LinkedCall::Ephemeral(invoke_ephemeral_linked_export(inv, call)),
        None => LinkedCall::Shared(invoke_shared_store_linked_export(inv)),
    }
}

} // verus!
