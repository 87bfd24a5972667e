//! The reconciler: per watch event, decide the minimal mutation that keeps
//! every observed resource carrying the desired label pair.

use vstd::prelude::*;

use crate::labels::LabelMap;
use crate::resource::Event;
use crate::resource::Resource;

verus! {

/// The label key every watched resource must carry.
pub open spec fn desired_key() -> Seq<char> {
    "learning"@
}

/// The value the desired key must be bound to.
pub open spec fn desired_value() -> Seq<char> {
    "rust"@
}

/// The field-manager identity recorded with every patch this controller
/// issues, so repeated patches stay attributable to one owner.
pub open spec fn manager_identity() -> Seq<char> {
    "my_controller"@
}

/// Whether the resource already carries the desired label pair.
pub open spec fn has_desired_label(r: Resource) -> bool {
    r.label_view().contains_key(desired_key()) && r.label_view()[desired_key()]
        == desired_value()
}

/// One merge patch to issue: replace the labels of (namespace, name) with
/// `labels`, attributed to `field_manager`.
pub struct PatchRequest {
    /// The namespace the patched resource lives in.
    pub namespace: String,
    /// The name of the patched resource.
    pub name: String,
    /// The identity the patch is attributed to.
    pub field_manager: String,
    /// The full label mapping the patch writes.
    pub labels: LabelMap,
}

/// The patch owed to resource `r`: the desired pair inserted into its labels
/// with every other binding kept, addressed to the resource's name and
/// effective namespace, attributed to this controller.
pub open spec fn patch_for(p: PatchRequest, r: Resource) -> bool {
    &&& p.namespace@ == r.effective_namespace()
    &&& (r.name matches Some(n) && p.name@ == n@)
    &&& p.field_manager@ == manager_identity()
    &&& p.labels@ == r.label_view().insert(desired_key(), desired_value())
}

/// What `reconcile_apply` decided for one applied-resource event.
pub enum ApplyDecision {
    /// The desired pair is already present; nothing is mutated.
    AlreadyLabeled,
    /// The resource has no name, so no patch can be addressed to it; it is
    /// skipped rather than patched under a placeholder identity.
    SkippedUnnamed,
    /// Issue this patch.
    IssuePatch(PatchRequest),
}

/// Decide what an applied (created or updated) resource needs: nothing when
/// the desired pair is present, a skip when the resource cannot be addressed,
/// and otherwise exactly one patch that adds the pair and keeps every other
/// label.
pub fn reconcile_apply(resource: Resource) -> (d: ApplyDecision)
    ensures
        has_desired_label(resource) <==> d is AlreadyLabeled,
        (!has_desired_label(resource) && resource.name is None) <==> d is SkippedUnnamed,
        (!has_desired_label(resource) && resource.name is Some) <==> d is IssuePatch,
        d matches ApplyDecision::IssuePatch(p) ==> patch_for(p, resource),
{
    let Resource { namespace, name, labels } = resource;
    let mut label_map = match labels {
        Some(m) => m,
        None => LabelMap::new(),
    };
    if label_map.contains_pair("learning", "rust") {
        ApplyDecision::AlreadyLabeled
    } else {
        match name {
            None => ApplyDecision::SkippedUnnamed,
            Some(n) => {
                label_map.insert("learning".to_owned(), "rust".to_owned());
                let ns = match namespace {
                    Some(ns) => ns,
                    None => "default".to_owned(),
                };
                ApplyDecision::IssuePatch(
                    PatchRequest {
                        namespace: ns,
                        name: n,
                        field_manager: "my_controller".to_owned(),
                        labels: label_map,
                    },
                )
            },
        }
    }
}

/// What one event leaves in the log.
pub enum Observation {
    /// The desired label pair was applied to (namespace, name).
    Labeled { namespace: String, name: String },
    /// The resource already carried the desired pair; nothing was mutated.
    AlreadyLabeled,
    /// The resource had no name; nothing was patched.
    SkippedUnnamed,
    /// The named resource was removed ("unknown" when no name is present).
    Removed { name: String },
}

/// Record that a resource was removed. Pure observability: no mutation is
/// decided and none can be, as the result carries no patch.
pub fn reconcile_removed(resource: Resource) -> (o: Observation)
    ensures
        o matches Observation::Removed { name } && name@ == resource.display_name(),
{
    match resource.name {
        Some(n) => Observation::Removed { name: n },
        None => Observation::Removed { name: "unknown".to_owned() },
    }
}

/// Why a patch call failed.
#[derive(Clone, Copy, Debug, PartialEq, Eq, Structural)]
pub enum PatchError {
    /// The resource no longer exists.
    NotFound,
    /// Field-manager ownership conflict.
    Conflict,
    /// Network, authentication or other API failure.
    Transport,
}

/// What the driving loop must do for one event.
pub enum StepPlan {
    /// Issue this patch; on success, record that the resource was labeled.
    DoPatch(PatchRequest),
    /// Record this observation; no call leaves the process.
    Note(Observation),
    /// Nothing at all: the event variant carries no work.
    Skip,
}

/// The plan owed to one event: an applied resource is left alone when it
/// carries the desired pair, skipped when unnamed, and otherwise patched;
/// a removed resource is only recorded; any other variant is no work at all.
pub open spec fn plan_for(event: Event, plan: StepPlan) -> bool {
    match event {
        Event::Applied(r) => {
            &&& has_desired_label(r) ==> (plan matches StepPlan::Note(o)
                && o is AlreadyLabeled)
            &&& (!has_desired_label(r) && r.name is None) ==> (plan matches StepPlan::Note(o)
                && o is SkippedUnnamed)
            &&& (!has_desired_label(r) && r.name is Some) ==> (plan matches StepPlan::DoPatch(p)
                && patch_for(p, r))
        },
        Event::Removed(r) => plan matches StepPlan::Note(o) && (o matches Observation::Removed {
            name,
        } && name@ == r.display_name()),
        Event::Other => plan is Skip,
    }
}

/// Dispatch one watch event: applied resources go through `reconcile_apply`,
/// removed resources are only recorded, and every other variant is consumed
/// with no work at all.
pub fn reconcile_event(event: Event) -> (plan: StepPlan)
    ensures
        plan_for(event, plan),
{
    match event {
        Event::Applied(r) => match reconcile_apply(r) {
            ApplyDecision::AlreadyLabeled => StepPlan::Note(Observation::AlreadyLabeled),
            ApplyDecision::SkippedUnnamed => StepPlan::Note(Observation::SkippedUnnamed),
            ApplyDecision::IssuePatch(p) => StepPlan::DoPatch(p),
        },
        Event::Removed(r) => StepPlan::Note(reconcile_removed(r)),
        Event::Other => StepPlan::Skip,
    }
}

/// Idempotence: for a resource that already carries the desired label pair,
/// the plan for its applied event issues no patch.
pub proof fn lemma_labeled_resource_never_patched(event: Event, plan: StepPlan)
    requires
        event matches Event::Applied(r) && has_desired_label(r),
        plan_for(event, plan),
    ensures
        !(plan is DoPatch),
{
}

/// Convergence: a patch issued for a resource binds the desired key to the
/// desired value and keeps every other key bound exactly as it was.
pub proof fn lemma_patch_adds_pair_and_keeps_other_labels(p: PatchRequest, r: Resource)
    requires
        patch_for(p, r),
    ensures
        p.labels@.contains_key(desired_key()),
        p.labels@[desired_key()] == desired_value(),
        forall|k: Seq<char>|
            k != desired_key() ==> p.labels@.contains_key(k) == r.label_view().contains_key(k),
        forall|k: Seq<char>|
            k != desired_key() && r.label_view().contains_key(k) ==> p.labels@[k]
                == r.label_view()[k],
{
}

/// A resource with no namespace metadata is patched in the "default"
/// namespace.
pub proof fn lemma_missing_namespace_patched_in_default(p: PatchRequest, r: Resource)
    requires
        patch_for(p, r),
        r.namespace is None,
    ensures
        p.namespace@ == "default"@,
{
}

/// Deletion is inert: the plan for a removed resource never issues a patch,
/// whatever the resource's label state.
pub proof fn lemma_removal_never_patches(event: Event, plan: StepPlan)
    requires
        event is Removed,
        plan_for(event, plan),
    ensures
        !(plan is DoPatch),
{
}

/// Dispatch completeness: every event variant other than Applied and Removed
/// is consumed with no patch and no observation at all.
pub proof fn lemma_other_events_are_inert(event: Event, plan: StepPlan)
    requires
        event is Other,
        plan_for(event, plan),
    ensures
        plan is Skip,
{
}

/// Fold the outcome of an issued patch back into the event's result: success
/// yields the record that (namespace, name) was labeled; any failure
/// propagates unchanged, ending the event in that error.
pub fn conclude_patch(request: PatchRequest, outcome: Result<(), PatchError>) -> (r: Result<
    Observation,
    PatchError,
>)
    ensures
        outcome is Ok ==> (r matches Ok(o) && (o matches Observation::Labeled {
            namespace,
            name,
        } && namespace@ == request.namespace@ && name@ == request.name@)),
        outcome matches Err(e) ==> (r matches Err(e2) && e2 == e),
{
    match outcome {
        Ok(()) => Ok(
            Observation::Labeled { namespace: request.namespace, name: request.name },
        ),
        Err(e) => Err(e),
    }
}

} // verus!
