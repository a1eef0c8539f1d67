//! What can go wrong in a linked call, and how it reads.
use std::sync::Arc;
use vstd::prelude::*;
use vstd::string::*;

use crate::text::{append_decimal, decimal};

verus! {

/// Why a store or a call could not be had.
#[derive(Debug)]
pub enum LinkError {
    /// A memory budget above what the host can give. Sizes are in MiB.
    BudgetExceedsCeiling { component_id: Arc<str>, budget_mb: u64, ceiling_mb: u64 },
    /// The component that an ephemeral call is for is not in the workload.
    ActiveNotFound { component_id: Arc<str> },
    /// A component that the call links is not in the workload.
    LinkedNotFound { component_id: Arc<str> },
    /// The linked components of an ephemeral call could not be prepared.
    PreInstantiate { cause: String },
    /// A linked component was gone when it was to be prepared.
    PreInstantiateNotFound { component_id: Arc<str> },
    /// A linked component could not be instantiated in the new store.
    Instantiate { component_id: Arc<str>, cause: String },
    /// The store holds no instance of the component that is called.
    NotPreInstantiated { component_id: Arc<str> },
    /// The instance does not have the function.
    FuncNotFound,
    /// The instance of an ephemeral call does not have the function.
    ImportFuncNotFound { import_name: Arc<str>, export_name: Arc<str> },
    /// The call ran out of time.
    TimedOut { secs: u64, cause: String },
    /// The task of an ephemeral call did not come back.
    TaskFailed { cause: String },
    /// A call gave more results than there is room for.
    ResultIndexOutOfBounds,
    /// What the host or the engine reports, as it stands.
    Other { cause: String },
}

impl LinkError {
    /// The message of the error.
    pub open spec fn text(self) -> Seq<char> {
        match self {
            LinkError::BudgetExceedsCeiling { component_id, budget_mb, ceiling_mb } => "component '"@
                + component_id@ + "': wamn memory budget "@ + decimal(budget_mb as nat)
                + " MiB exceeds the host ceiling "@ + decimal(ceiling_mb as nat)
                + " MiB (pooling max_memory_size); lower the budget or raise the ceiling"@,
            LinkError::ActiveNotFound { component_id } => "ephemeral linked component '"@
                + component_id@ + "' not found"@,
            LinkError::LinkedNotFound { component_id } => "linked component '"@ + component_id@
                + "' not found"@,
            LinkError::PreInstantiate { cause } =>
                "failed to pre-instantiate linked components for ephemeral call: "@ + cause@,
            LinkError::PreInstantiateNotFound { component_id } =>
                "failed to pre-instantiate linked components for ephemeral call: "@
                + "linked component '"@ + component_id@ + "' not found"@,
            LinkError::Instantiate { component_id, cause } =>
                "failed to instantiate linked component '"@ + component_id@
                + "' in ephemeral store: "@ + cause@,
            LinkError::NotPreInstantiated { component_id } => "linked component '"@ + component_id@
                + "' was not pre-instantiated in this store"@,
            LinkError::FuncNotFound => "function not found"@,
            LinkError::ImportFuncNotFound { import_name, export_name } =>
                "function not found for linked import "@ + import_name@ + "."@ + export_name@,
            LinkError::TimedOut { secs, cause } => "function call timed out after "@ + decimal(
                secs as nat,
            ) + " seconds: "@ + cause@,
            LinkError::TaskFailed { cause } => "ephemeral linked call task failed: "@ + cause@,
            LinkError::ResultIndexOutOfBounds => "result index out of bounds"@,
            LinkError::Other { cause } => cause@,
        }
    }

    /// A second copy of the error.
    pub fn share(&self) -> (r: Self)
        ensures
            r == *self,
    {
        match self {
            LinkError::BudgetExceedsCeiling { component_id, budget_mb, ceiling_mb } =>
                LinkError::BudgetExceedsCeiling {
                component_id: component_id.clone(),
                budget_mb: *budget_mb,
                ceiling_mb: *ceiling_mb,
            },
            LinkError::ActiveNotFound { component_id } => LinkError::ActiveNotFound {
                component_id: component_id.clone(),
            },
            LinkError::LinkedNotFound { component_id } => LinkError::LinkedNotFound {
                component_id: component_id.clone(),
            },
            LinkError::PreInstantiate { cause } => LinkError::PreInstantiate {
                cause: cause.clone(),
            },
            LinkError::PreInstantiateNotFound { component_id } =>
                LinkError::PreInstantiateNotFound { component_id: component_id.clone() },
            LinkError::Instantiate { component_id, cause } => LinkError::Instantiate {
                component_id: component_id.clone(),
                cause: cause.clone(),
            },
            LinkError::NotPreInstantiated { component_id } => LinkError::NotPreInstantiated {
                component_id: component_id.clone(),
            },
            LinkError::FuncNotFound => LinkError::FuncNotFound,
            LinkError::ImportFuncNotFound { import_name, export_name } =>
                LinkError::ImportFuncNotFound {
                import_name: import_name.clone(),
                export_name: export_name.clone(),
            },
            LinkError::TimedOut { secs, cause } => LinkError::TimedOut {
                secs: *secs,
                cause: cause.clone(),
            },
            LinkError::TaskFailed { cause } => LinkError::TaskFailed { cause: cause.clone() },
            LinkError::ResultIndexOutOfBounds => LinkError::ResultIndexOutOfBounds,
            LinkError::Other { cause } => LinkError::Other { cause: cause.clone() },
        }
    }

    /// Writes the message of the error.
    pub fn message(&self) -> (r: String)
        ensures
            r@ == self.text(),
    {
        let mut out = String::new();
        match self {
            LinkError::BudgetExceedsCeiling { component_id, budget_mb, ceiling_mb } => {
                out.append("component '");
                out.append(component_id);
                out.append("': wamn memory budget ");
                append_decimal(&mut out, *budget_mb);
                out.append(" MiB exceeds the host ceiling ");
                append_decimal(&mut out, *ceiling_mb);
                out.append(
                    " MiB (pooling max_memory_size); lower the budget or raise the ceiling",
                );
            },
            LinkError::ActiveNotFound { component_id } => {
                out.append("ephemeral linked component '");
                out.append(component_id);
                out.append("' not found");
            },
            LinkError::LinkedNotFound { component_id } => {
                out.append("linked component '");
                out.append(component_id);
                out.append("' not found");
            },
            LinkError::PreInstantiate { cause } => {
                out.append("failed to pre-instantiate linked components for ephemeral call: ");
                out.append(cause.as_str());
            },
            LinkError::PreInstantiateNotFound { component_id } => {
                out.append("failed to pre-instantiate linked components for ephemeral call: ");
                out.append("linked component '");
                out.append(component_id);
                out.append("' not found");
            },
            LinkError::Instantiate { component_id, cause } => {
                out.append("failed to instantiate linked component '");
                out.append(component_id);
                out.append("' in ephemeral store: ");
                out.append(cause.as_str());
            },
            LinkError::NotPreInstantiated { component_id } => {
                out.append("linked component '");
                out.append(component_id);
                out.append("' was not pre-instantiated in this store");
            },
            LinkError::FuncNotFound => {
                out.append("function not found");
            },
            LinkError::ImportFuncNotFound { import_name, export_name } => {
                out.append("function not found for linked import ");
                out.append(import_name);
                out.append(".");
                out.append(export_name);
            },
            LinkError::TimedOut { secs, cause } => {
                out.append("function call timed out after ");
                append_decimal(&mut out, *secs);
                out.append(" seconds: ");
                out.append(cause.as_str());
            },
            LinkError::TaskFailed { cause } => {
                out.append("ephemeral linked call task failed: ");
                out.append(cause.as_str());
            },
            LinkError::ResultIndexOutOfBounds => {
                out.append("result index out of bounds");
            },
            LinkError::Other { cause } => {
                out.append(cause.as_str());
            },
        }
        assert(out@ =~= self.text());
        out
    }
}

/// What an error reads as: a component that is missing, gone or refused is named
/// between quotes, a function by its import and its export, sizes and times are in
/// decimal, and what the host or the engine reported stands at the end as it was.
pub proof fn law_messages_name_what_went_wrong(
    id: Arc<str>,
    other: Arc<str>,
    cause: String,
    n: u64,
    m: u64,
)
    ensures
        (LinkError::BudgetExceedsCeiling { component_id: id, budget_mb: n, ceiling_mb: m }).text()
            == "component '"@ + id@ + "': wamn memory budget "@ + decimal(n as nat)
            + " MiB exceeds the host ceiling "@ + decimal(m as nat)
            + " MiB (pooling max_memory_size); lower the budget or raise the ceiling"@,
        (LinkError::ActiveNotFound { component_id: id }).text() == "ephemeral linked component '"@
            + id@ + "' not found"@,
        (LinkError::LinkedNotFound { component_id: id }).text() == "linked component '"@ + id@
            + "' not found"@,
        (LinkError::PreInstantiate { cause }).text()
            == "failed to pre-instantiate linked components for ephemeral call: "@ + cause@,
        (LinkError::PreInstantiateNotFound { component_id: id }).text()
            == "failed to pre-instantiate linked components for ephemeral call: "@ + (
        LinkError::LinkedNotFound { component_id: id }).text(),
        (LinkError::Instantiate { component_id: id, cause }).text()
            == "failed to instantiate linked component '"@ + id@ + "' in ephemeral store: "@
            + cause@,
        (LinkError::NotPreInstantiated { component_id: id }).text() == "linked component '"@ + id@
            + "' was not pre-instantiated in this store"@,
        LinkError::FuncNotFound.text() == "function not found"@,
        (LinkError::ImportFuncNotFound { import_name: id, export_name: other }).text()
            == "function not found for linked import "@ + id@ + "."@ + other@,
        (LinkError::TimedOut { secs: n, cause }).text() == "function call timed out after "@
            + decimal(n as nat) + " seconds: "@ + cause@,
        (LinkError::TaskFailed { cause }).text() == "ephemeral linked call task failed: "@ + cause@,
        LinkError::ResultIndexOutOfBounds.text() == "result index out of bounds"@,
        (LinkError::Other { cause }).text() == cause@,
{
    assert((LinkError::PreInstantiateNotFound { component_id: id }).text()
        =~= "failed to pre-instantiate linked components for ephemeral call: "@ + (
    LinkError::LinkedNotFound { component_id: id }).text());
}

} // verus!
