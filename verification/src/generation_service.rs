//! The generation application service over the projection repository:
//! retrieving and listing a tenant's generations, requesting cancellation of
//! one that is still running, and the decisions around a provider dispatch or
//! refresh (what to ask the provider, and what to store from its answer and
//! from the Drive imports that followed it).
use vstd::prelude::*;

use crate::catalog_service::{list_offset, page_offset};
use crate::generation::{
    after_imports, apply_completed_drive_imports, apply_import_plan_to_wire, artifact_view,
    cancel_requested_wire, cancel_spec, generation_wire_spec, map_generation_wire,
    map_refresh_wire, map_repository_error, planned_wire, refresh_provider_task_id,
    refresh_task_spec, refresh_wire_spec, runtime_scope,
    CompletedDriveImportArtifact, DriveImportPlan, DriveImportPlanItem, GenerationErrorKind,
    GenerationRecordSummary, ImageGenerationRefreshCommandWire, ImageGenerationServiceError,
    ImageGenerationWire, NormalizedProviderGenerationResult, WireView,
};
use crate::projection::{
    lemma_read_after_insert, record_keys, store_record, stored, tenant_wires,
    GenerationProjectionRecord, InMemoryGenerationProjectionRepository, RecordView,
};
use crate::scope::{opt_view, ImageGenerationActor, ImageGenerationScope};
use crate::subject::RuntimeSubject;
use crate::text::{blank, first_index, trim, trimmed};

verus! {

/// The generation service over an in-memory projection repository.
pub struct ImageGenerationService {
    store: InMemoryGenerationProjectionRepository,
}

/// The stored generation a subject's request names: its tenant and the
/// trimmed generation id.
pub open spec fn requested(records: Seq<RecordView>, subject: RuntimeSubject, generation_id: Seq<char>) -> Option<
    RecordView,
> {
    stored(records, (subject.tenant_id@, trimmed(generation_id)))
}


/// What a refresh asks the provider: the stored generation and the provider
/// task to poll.
pub struct RefreshRequest {
    pub stored: ImageGenerationWire,
    pub provider_task_id: String,
}

/// What the dispatch of a new generation produced: the generation record,
/// its Drive sync status, the provider's result, the Drive locations planned
/// for its outputs and the Drive import plan.
pub struct GenerationDispatchResult {
    pub record: GenerationRecordSummary,
    pub drive_sync_status: String,
    pub provider_result: NormalizedProviderGenerationResult,
    pub drive_import_plans: Vec<DriveImportPlanItem>,
    pub import_plan: DriveImportPlan,
}

/// The completed Drive imports handed to the service, by view; `None` when
/// no import ran.
pub open spec fn completed_view(completed: Option<&Vec<CompletedDriveImportArtifact>>) -> Option<
    Seq<(i32, Seq<char>, Seq<char>)>,
> {
    match completed {
        Some(c) => Some(c@.map_values(|a: CompletedDriveImportArtifact| artifact_view(a))),
        None => None,
    }
}

/// A generation with the completed imports applied, when imports ran.
pub open spec fn with_imports(
    w: WireView,
    completed: Option<Seq<(i32, Seq<char>, Seq<char>)>>,
    items: Seq<DriveImportPlanItem>,
) -> WireView {
    match completed {
        Some(arts) => after_imports(w, arts, items),
        None => w,
    }
}

/// The generation a dispatch creates, after the imports that followed it.
pub open spec fn created_wire(
    generation_id: Seq<char>,
    d: GenerationDispatchResult,
    completed: Option<Seq<(i32, Seq<char>, Seq<char>)>>,
) -> WireView {
    with_imports(
        generation_wire_spec(
            generation_id,
            d.record,
            d.drive_sync_status@,
            d.provider_result.outputs@,
            d.drive_import_plans@,
        ),
        completed,
        d.import_plan.items@,
    )
}

/// The generation a refresh produces: the provider's answer mapped onto the
/// stored generation, the Drive import plan attached, and the imports that
/// followed applied.
pub open spec fn refreshed_wire(
    generation_id: Seq<char>,
    stored: WireView,
    result: NormalizedProviderGenerationResult,
    drive_sync_status: Seq<char>,
    items: Seq<DriveImportPlanItem>,
    completed: Option<Seq<(i32, Seq<char>, Seq<char>)>>,
) -> WireView {
    with_imports(
        planned_wire(refresh_wire_spec(generation_id, stored, result, drive_sync_status), items),
        completed,
        items,
    )
}

/// The generation scope of a subject: its tenant and organization, acting as
/// its user.
pub open spec fn subject_scope(subject: RuntimeSubject) -> ImageGenerationScope {
    ImageGenerationScope {
        tenant_id: subject.tenant_id,
        organization_id: subject.organization_id,
        actor: ImageGenerationActor::User { user_id: subject.user_id },
    }
}

impl ImageGenerationService {
    /// The generations the service holds.
    pub closed spec fn records(&self) -> Seq<RecordView> {
        self.store@
    }

    /// A service over a projection repository.
    pub fn new(store: InMemoryGenerationProjectionRepository) -> (s: Self)
        ensures
            s.records() == store@,
    {
        ImageGenerationService { store }
    }

    /// The projection repository the service reads and writes.
    pub fn store(&self) -> (r: &InMemoryGenerationProjectionRepository)
        ensures
            r@ == self.records(),
    {
        &self.store
    }

    /// The generation a subject asks for, or `NotFound`.
    pub fn get_generation(&self, subject: &RuntimeSubject, generation_id: &str) -> (r: Result<
        ImageGenerationWire,
        ImageGenerationServiceError,
    >)
        ensures
            match (r, requested(self.records(), *subject, generation_id@)) {
                (Ok(w), Some(rec)) => w@ == rec.wire,
                (Err(e), None) => e == ImageGenerationServiceError::NotFound,
                _ => false,
            },
    {
        let id = trim(generation_id);
        match self.store.get(subject.tenant_id.as_str(), id.as_str()) {
            Ok(Some(record)) => Ok(record.wire),
            Ok(None) => Err(ImageGenerationServiceError::NotFound),
            Err(e) => Err(map_repository_error(e)),
        }
    }

    /// The subject's tenant's generations.
    pub fn list_generations(&self, subject: &RuntimeSubject, page: i64, page_size: i64) -> (r: Result<
        Vec<ImageGenerationWire>,
        ImageGenerationServiceError,
    >)
        requires
            i64::MIN <= page_offset(page, page_size) <= i64::MAX,
        ensures
            r matches Ok(v) && v@.map_values(|w: ImageGenerationWire| w@) == tenant_wires(
                self.records(),
                subject.tenant_id@,
            ),
    {
        let offset = list_offset(page, page_size);
        match self.store.list_wire_json(subject.tenant_id.as_str(), page_size, offset) {
            Ok(v) => Ok(v),
            Err(e) => Err(map_repository_error(e)),
        }
    }

    /// What a refresh of a generation asks the provider: unknown generations
    /// are `NotFound`; the provider task is the command's, else the stored
    /// one, and a refresh without one is refused.
    pub fn prepare_refresh(
        &self,
        subject: &RuntimeSubject,
        generation_id: &str,
        command: ImageGenerationRefreshCommandWire,
    ) -> (r: Result<RefreshRequest, ImageGenerationServiceError>)
        ensures
            match requested(self.records(), *subject, generation_id@) {
                None => r == Err::<RefreshRequest, ImageGenerationServiceError>(
                    ImageGenerationServiceError::NotFound,
                ),
                Some(rec) => match refresh_task_spec(
                    opt_view(command.provider_task_id),
                    rec.wire.provider_task_id,
                ) {
                    None => r matches Err(e) && e@ == (
                        GenerationErrorKind::Validation,
                        "provider_task_id is required for refresh"@,
                    ),
                    Some(t) => r matches Ok(q) && q.stored@ == rec.wire && q.provider_task_id@ == t,
                },
            },
    {
        let stored = self.get_generation(subject, generation_id)?;
        let provider_task_id = refresh_provider_task_id(command.provider_task_id, &stored.provider_task_id)?;
        Ok(RefreshRequest { stored, provider_task_id })
    }

    /// Stores the answer to a refresh: the provider's result mapped onto the
    /// stored generation, with the Drive import plan and the completed imports
    /// (`None` when no import ran), together with the new persistence
    /// snapshot. An unknown generation is `NotFound` and changes nothing.
    pub fn complete_refresh(
        &mut self,
        subject: &RuntimeSubject,
        generation_id: &str,
        stored: &ImageGenerationWire,
        result: &NormalizedProviderGenerationResult,
        drive_sync_status: &str,
        import_plan: &DriveImportPlan,
        completed: Option<&Vec<CompletedDriveImportArtifact>>,
        persistence: serde_json::Value,
    ) -> (r: Result<ImageGenerationWire, ImageGenerationServiceError>)
        ensures
            ({
                let w = refreshed_wire(
                    generation_id@,
                    stored@,
                    *result,
                    drive_sync_status@,
                    import_plan.items@,
                    completed_view(completed),
                );
                match first_index(
                    record_keys(old(self).records()),
                    (subject.tenant_id@, trimmed(generation_id@)),
                ) {
                    None => r == Err::<ImageGenerationWire, ImageGenerationServiceError>(
                        ImageGenerationServiceError::NotFound,
                    ) && final(self).records() == old(self).records(),
                    Some(i) => {
                        let rec = RecordView { wire: w, persistence: persistence, ..old(self).records()[i] };
                        &&& r matches Ok(x) && x@ == w
                        &&& final(self).records() == old(self).records().update(i, rec)
                        &&& requested(final(self).records(), *subject, generation_id@) == Some(rec)
                    },
                }
            }),
    {
        let mut updated = map_refresh_wire(generation_id, stored, result, drive_sync_status);
        apply_import_plan_to_wire(&mut updated, import_plan);
        match completed {
            Some(c) => apply_completed_drive_imports(&mut updated, c, import_plan),
            None => {},
        }
        let id = trim(generation_id);
        let organization = match &subject.organization_id {
            Some(o) => Some(o.as_str()),
            None => None,
        };
        let ghost before = self.store@;
        let ghost key = (subject.tenant_id@, id@);
        proof {
            crate::text::lemma_first_index_bounds(record_keys(before), key);
        }
        match self.store.update_after_refresh(
            subject.tenant_id.as_str(),
            organization,
            id.as_str(),
            updated.copy(),
            persistence,
        ) {
            Ok(()) => {
                proof {
                    let after = self.store@;
                    assert(record_keys(after) =~= record_keys(before));
                }
                Ok(updated)
            },
            Err(e) => Err(map_repository_error(e)),
        }
    }

    /// Stores a newly dispatched generation: the dispatch mapped onto the
    /// wire, with the completed Drive imports (`None` when no import ran),
    /// under the subject's scope and the given id. Without a provider request
    /// snapshot nothing is stored and planning fails.
    pub fn complete_create(
        &mut self,
        subject: &RuntimeSubject,
        generation_id: &str,
        dispatch: &GenerationDispatchResult,
        completed: Option<&Vec<CompletedDriveImportArtifact>>,
        persistence: serde_json::Value,
        provider_request: Option<serde_json::Value>,
    ) -> (r: Result<ImageGenerationWire, ImageGenerationServiceError>)
        ensures
            ({
                let w = created_wire(generation_id@, *dispatch, completed_view(completed));
                match provider_request {
                    None => r matches Err(e) && e@ == (
                        GenerationErrorKind::Planning,
                        "provider request snapshot is required"@,
                    ) && final(self).records() == old(self).records(),
                    Some(p) => {
                        let rec = RecordView {
                            scope: subject_scope(*subject),
                            generation_id: generation_id@,
                            persistence: persistence,
                            provider_request: p,
                            wire: w,
                        };
                        &&& r matches Ok(x) && x@ == w
                        &&& final(self).records() == store_record(old(self).records(), rec)
                        &&& trimmed(generation_id@) == generation_id@ ==> requested(
                            final(self).records(),
                            *subject,
                            generation_id@,
                        ) == Some(rec)
                    },
                }
            }),
    {
        let mut wire = map_generation_wire(
            generation_id,
            &dispatch.record,
            dispatch.drive_sync_status.as_str(),
            &dispatch.provider_result.outputs,
            &dispatch.drive_import_plans,
        );
        match completed {
            Some(c) => apply_completed_drive_imports(&mut wire, c, &dispatch.import_plan),
            None => {},
        }
        let provider_request = match provider_request {
            Some(p) => p,
            None => {
                return Err(
                    ImageGenerationServiceError::Planning(
                        "provider request snapshot is required".to_owned(),
                    ),
                );
            },
        };
        let record = GenerationProjectionRecord {
            scope: runtime_scope(subject),
            generation_id: generation_id.to_owned(),
            persistence,
            provider_request,
            wire: wire.copy(),
        };
        let ghost rv = record@;
        let _ = self.store.insert(record);
        proof {
            lemma_read_after_insert(old(self).store@, rv);
        }
        Ok(wire)
    }

    /// Requests cancellation of a generation: unknown generations are
    /// `NotFound`, generations in a terminal status a conflict; otherwise the
    /// stored generation becomes `cancel_requested` with the reason, and is
    /// returned.
    pub fn cancel_generation(
        &mut self,
        subject: &RuntimeSubject,
        generation_id: &str,
        reason: Option<String>,
    ) -> (r: Result<ImageGenerationWire, ImageGenerationServiceError>)
        ensures
            match requested(old(self).records(), *subject, generation_id@) {
                None => r == Err::<ImageGenerationWire, ImageGenerationServiceError>(
                    ImageGenerationServiceError::NotFound,
                ) && final(self).records() == old(self).records(),
                Some(rec) => match cancel_spec(rec.wire, opt_view(reason)) {
                    Err(m) => r matches Err(e) && e@ == (GenerationErrorKind::Conflict, m)
                        && final(self).records() == old(self).records(),
                    Ok(w) => r matches Ok(x) && x@ == w && requested(
                        final(self).records(),
                        *subject,
                        generation_id@,
                    ) == Some(RecordView { wire: w, ..rec }),
                },
            },
    {
        let wire = self.get_generation(subject, generation_id)?;
        let updated = cancel_requested_wire(wire, reason)?;
        let id = trim(generation_id);
        let organization = match &subject.organization_id {
            Some(o) => Some(o.as_str()),
            None => None,
        };
        let ghost before = self.store@;
        let ghost key = (subject.tenant_id@, id@);
        proof {
            crate::text::lemma_first_index_bounds(record_keys(before), key);
        }
        match self.store.cancel_generation(subject.tenant_id.as_str(), organization, id.as_str(), updated.copy()) {
            Ok(()) => {
                proof {
                    let i = first_index(record_keys(before), key)->0;
                    let after = self.store@;
                    assert(record_keys(after) =~= record_keys(before));
                }
                Ok(updated)
            },
            Err(e) => Err(map_repository_error(e)),
        }
    }
}

/// After a refresh the generation reports the provider's current task and
/// status, not the stored ones: attaching the Drive plan and applying the
/// completed imports leave them as the provider result gave them.
pub proof fn lemma_refreshed_generation_reports_provider_state(
    generation_id: Seq<char>,
    stored: WireView,
    result: NormalizedProviderGenerationResult,
    drive_sync_status: Seq<char>,
    items: Seq<DriveImportPlanItem>,
    completed: Option<Seq<(i32, Seq<char>, Seq<char>)>>,
)
    ensures
        ({
            let w = refreshed_wire(generation_id, stored, result, drive_sync_status, items, completed);
            &&& w.provider_status == opt_view(result.provider_status)
            &&& w.provider_task_id == opt_view(result.provider_task_id)
        }),
{
    crate::generation::lemma_refresh_reports_provider_state(generation_id, stored, result, drive_sync_status);
}

/// A generation created from a dispatch whose record names a provider task
/// keeps that task, and a later refresh that names no task polls it.
pub proof fn lemma_created_generation_refreshes_its_task(
    generation_id: Seq<char>,
    d: GenerationDispatchResult,
    completed: Option<Seq<(i32, Seq<char>, Seq<char>)>>,
    task: Seq<char>,
)
    requires
        opt_view(d.record.provider_task_id) == Some(task),
        !blank(task),
    ensures
        created_wire(generation_id, d, completed).provider_task_id == Some(task),
        refresh_task_spec(None, created_wire(generation_id, d, completed).provider_task_id) == Some(
            task,
        ),
{
    crate::generation::lemma_created_generation_reports_dispatch(
        generation_id,
        d.record,
        d.drive_sync_status@,
        d.provider_result.outputs@,
        d.drive_import_plans@,
    );
}

} // verus!
