//! The generation wire model and the rules the generation service applies to
//! it: mapping provider results onto the wire, attaching Drive import plans
//! and completed imports, refresh and cancel decisions, and error mapping.
use vstd::prelude::*;

use crate::scope::{opt_view, ImageGenerationActor, ImageGenerationScope, RepositoryError};
use crate::subject::RuntimeSubject;
use crate::text::{
    blank, clone_opt, concat2, decimal, first_index, i64_to_text, is_blank,
    lemma_first_index, lemma_first_index_bounds, text_eq,
};

verus! {

// ---------------------------------------------------------------------------
// Status and media kinds
// ---------------------------------------------------------------------------

/// The lifecycle status of a generation.
#[derive(Clone, Copy, Debug, PartialEq, Eq, Structural)]
pub enum ImageGenerationRuntimeStatus {
    Queued,
    Dispatching,
    Submitted,
    Rendering,
    Importing,
    Succeeded,
    Failed,
    CancelRequested,
    Cancelled,
    Expired,
}

/// The wire name of a status.
pub open spec fn status_name(status: ImageGenerationRuntimeStatus) -> Seq<char> {
    match status {
        ImageGenerationRuntimeStatus::Queued => "queued"@,
        ImageGenerationRuntimeStatus::Dispatching => "dispatching"@,
        ImageGenerationRuntimeStatus::Submitted => "submitted"@,
        ImageGenerationRuntimeStatus::Rendering => "rendering"@,
        ImageGenerationRuntimeStatus::Importing => "importing"@,
        ImageGenerationRuntimeStatus::Succeeded => "succeeded"@,
        ImageGenerationRuntimeStatus::Failed => "failed"@,
        ImageGenerationRuntimeStatus::CancelRequested => "cancel_requested"@,
        ImageGenerationRuntimeStatus::Cancelled => "cancelled"@,
        ImageGenerationRuntimeStatus::Expired => "expired"@,
    }
}

impl ImageGenerationRuntimeStatus {
    /// The wire name of the status.
    pub fn as_str(&self) -> (s: &'static str)
        ensures
            s@ == status_name(*self),
    {
        match self {
            ImageGenerationRuntimeStatus::Queued => "queued",
            ImageGenerationRuntimeStatus::Dispatching => "dispatching",
            ImageGenerationRuntimeStatus::Submitted => "submitted",
            ImageGenerationRuntimeStatus::Rendering => "rendering",
            ImageGenerationRuntimeStatus::Importing => "importing",
            ImageGenerationRuntimeStatus::Succeeded => "succeeded",
            ImageGenerationRuntimeStatus::Failed => "failed",
            ImageGenerationRuntimeStatus::CancelRequested => "cancel_requested",
            ImageGenerationRuntimeStatus::Cancelled => "cancelled",
            ImageGenerationRuntimeStatus::Expired => "expired",
        }
    }
}

/// The kind of media a provider produced.
#[derive(Clone, Copy, Debug, PartialEq, Eq, Structural)]
pub enum GeneratedMediaKind {
    Image,
    Video,
}

/// The wire name of a media kind.
pub open spec fn media_kind_name(kind: GeneratedMediaKind) -> Seq<char> {
    match kind {
        GeneratedMediaKind::Image => "image"@,
        GeneratedMediaKind::Video => "video"@,
    }
}

impl GeneratedMediaKind {
    /// The wire name of the media kind.
    pub fn as_media_kind(&self) -> (s: &'static str)
        ensures
            s@ == media_kind_name(*self),
    {
        match self {
            GeneratedMediaKind::Image => "image",
            GeneratedMediaKind::Video => "video",
        }
    }
}

// ---------------------------------------------------------------------------
// Provider results and Drive plans
// ---------------------------------------------------------------------------

/// One artifact a provider produced.
#[derive(Debug, PartialEq, Eq)]
pub struct GeneratedMediaOutput {
    pub output_index: i32,
    pub kind: GeneratedMediaKind,
    pub provider_asset_id: Option<String>,
    pub provider_uri: Option<String>,
    pub provider_url: Option<String>,
    pub file_name: Option<String>,
    pub mime_type: Option<String>,
    pub size_bytes: Option<i64>,
    pub width: Option<i32>,
    pub height: Option<i32>,
    pub duration_seconds: Option<i32>,
}

/// A provider result, normalized across vendors.
#[derive(Debug, PartialEq, Eq)]
pub struct NormalizedProviderGenerationResult {
    pub provider_code: String,
    pub provider_task_id: Option<String>,
    pub provider_status: Option<String>,
    pub status: ImageGenerationRuntimeStatus,
    pub provider_terminal: bool,
    pub ready_for_drive_import: bool,
    pub outputs: Vec<GeneratedMediaOutput>,
    pub error_code: Option<String>,
    pub error_message: Option<String>,
}

/// The result of a synchronous OpenAI generation: its outputs are ready and
/// go straight to Drive import.
pub fn openai_generation_result(provider_code: &str, outputs: Vec<GeneratedMediaOutput>) -> (r:
    NormalizedProviderGenerationResult)
    ensures
        r.provider_code@ == provider_code@,
        r.provider_task_id is None,
        opt_view(r.provider_status) == Some("succeeded"@),
        r.status == ImageGenerationRuntimeStatus::Importing,
        r.provider_terminal,
        r.ready_for_drive_import,
        r.outputs@ == outputs@,
        r.error_code is None,
        r.error_message is None,
{
    NormalizedProviderGenerationResult {
        provider_code: provider_code.to_owned(),
        provider_task_id: None,
        provider_status: Some("succeeded".to_owned()),
        status: ImageGenerationRuntimeStatus::Importing,
        provider_terminal: true,
        ready_for_drive_import: true,
        outputs,
        error_code: None,
        error_message: None,
    }
}

/// Where one output is imported into Drive.
#[derive(Debug, PartialEq, Eq)]
pub struct DriveImportPlanItem {
    pub output_index: i32,
    pub drive_space_id: String,
    pub drive_node_id: String,
    pub drive_uri: String,
}

/// The Drive import plan of a generation.
#[derive(Debug, PartialEq, Eq)]
pub struct DriveImportPlan {
    pub generation_id: String,
    pub provider_code: String,
    pub items: Vec<DriveImportPlanItem>,
}

impl DriveImportPlan {
    /// The plan of a generation with nothing to import.
    pub fn empty() -> (p: Self)
        ensures
            p.generation_id@ == Seq::<char>::empty(),
            p.provider_code@ == Seq::<char>::empty(),
            p.items@ == Seq::<DriveImportPlanItem>::empty(),
    {
        DriveImportPlan { generation_id: String::new(), provider_code: String::new(), items: Vec::new() }
    }
}

/// An output uploaded into Drive.
#[derive(Clone, Debug, Eq, PartialEq)]
pub struct CompletedDriveImportArtifact {
    pub output_index: i32,
    pub drive_node_id: String,
    pub drive_uri: String,
    pub checksum_sha256_hex: String,
}

/// The generation record the service plan produced.
#[derive(Debug, PartialEq, Eq)]
pub struct GenerationRecordSummary {
    pub status: ImageGenerationRuntimeStatus,
    pub scene: String,
    pub provider_code: String,
    pub provider_task_id: Option<String>,
    pub provider_status: Option<String>,
    pub drive_space_id: Option<String>,
    pub output_count: i32,
}

// ---------------------------------------------------------------------------
// Wire model
// ---------------------------------------------------------------------------

/// Extra facts recorded on a generation.
#[derive(Debug, PartialEq, Eq)]
pub struct ImageGenerationMetadata {
    pub cancel_reason: Option<String>,
}

/// One output of a generation, as the API reports it.
#[derive(Debug, PartialEq, Eq)]
pub struct ImageGenerationOutputWire {
    pub output_index: i32,
    pub media_kind: String,
    pub scene: String,
    pub sync_status: String,
    pub provider_code: Option<String>,
    pub provider_asset_id: Option<String>,
    pub provider_uri: Option<String>,
    pub provider_url: Option<String>,
    pub drive_space_id: Option<String>,
    pub drive_node_id: Option<String>,
    pub drive_uri: Option<String>,
    pub file_name: Option<String>,
    pub mime_type: Option<String>,
    pub size_bytes: Option<String>,
    pub width: Option<i32>,
    pub height: Option<i32>,
    pub duration_seconds: Option<i32>,
}

/// A generation, as the API reports it.
#[derive(Debug, PartialEq, Eq)]
pub struct ImageGenerationWire {
    pub generation_id: String,
    pub status: String,
    pub scene: String,
    pub provider_code: Option<String>,
    pub provider_task_id: Option<String>,
    pub provider_status: Option<String>,
    pub drive_space_id: Option<String>,
    pub drive_sync_status: String,
    pub output_asset_count: i32,
    pub outputs: Vec<ImageGenerationOutputWire>,
    pub metadata: Option<ImageGenerationMetadata>,
}

/// The view of an output on the wire.
pub struct OutputView {
    pub output_index: i32,
    pub media_kind: Seq<char>,
    pub scene: Seq<char>,
    pub sync_status: Seq<char>,
    pub provider_code: Option<Seq<char>>,
    pub provider_asset_id: Option<Seq<char>>,
    pub provider_uri: Option<Seq<char>>,
    pub provider_url: Option<Seq<char>>,
    pub drive_space_id: Option<Seq<char>>,
    pub drive_node_id: Option<Seq<char>>,
    pub drive_uri: Option<Seq<char>>,
    pub file_name: Option<Seq<char>>,
    pub mime_type: Option<Seq<char>>,
    pub size_bytes: Option<Seq<char>>,
    pub width: Option<i32>,
    pub height: Option<i32>,
    pub duration_seconds: Option<i32>,
}

/// The view of a generation on the wire; the metadata is its cancel reason.
pub struct WireView {
    pub generation_id: Seq<char>,
    pub status: Seq<char>,
    pub scene: Seq<char>,
    pub provider_code: Option<Seq<char>>,
    pub provider_task_id: Option<Seq<char>>,
    pub provider_status: Option<Seq<char>>,
    pub drive_space_id: Option<Seq<char>>,
    pub drive_sync_status: Seq<char>,
    pub output_asset_count: i32,
    pub outputs: Seq<OutputView>,
    pub metadata: Option<Option<Seq<char>>>,
}

impl View for ImageGenerationOutputWire {
    type V = OutputView;

    open spec fn view(&self) -> OutputView {
        OutputView {
            output_index: self.output_index,
            media_kind: self.media_kind@,
            scene: self.scene@,
            sync_status: self.sync_status@,
            provider_code: opt_view(self.provider_code),
            provider_asset_id: opt_view(self.provider_asset_id),
            provider_uri: opt_view(self.provider_uri),
            provider_url: opt_view(self.provider_url),
            drive_space_id: opt_view(self.drive_space_id),
            drive_node_id: opt_view(self.drive_node_id),
            drive_uri: opt_view(self.drive_uri),
            file_name: opt_view(self.file_name),
            mime_type: opt_view(self.mime_type),
            size_bytes: opt_view(self.size_bytes),
            width: self.width,
            height: self.height,
            duration_seconds: self.duration_seconds,
        }
    }
}

/// The views of a list of outputs.
pub open spec fn outputs_view(s: Seq<ImageGenerationOutputWire>) -> Seq<OutputView> {
    s.map_values(|o: ImageGenerationOutputWire| o@)
}

/// The view of optional metadata.
pub open spec fn metadata_view(m: Option<ImageGenerationMetadata>) -> Option<Option<Seq<char>>> {
    match m {
        Some(x) => Some(opt_view(x.cancel_reason)),
        None => None,
    }
}

impl View for ImageGenerationWire {
    type V = WireView;

    open spec fn view(&self) -> WireView {
        WireView {
            generation_id: self.generation_id@,
            status: self.status@,
            scene: self.scene@,
            provider_code: opt_view(self.provider_code),
            provider_task_id: opt_view(self.provider_task_id),
            provider_status: opt_view(self.provider_status),
            drive_space_id: opt_view(self.drive_space_id),
            drive_sync_status: self.drive_sync_status@,
            output_asset_count: self.output_asset_count,
            outputs: outputs_view(self.outputs@),
            metadata: metadata_view(self.metadata),
        }
    }
}

impl ImageGenerationOutputWire {
    /// A copy of the output.
    pub fn copy(&self) -> (r: Self)
        ensures
            r == *self,
    {
        ImageGenerationOutputWire {
            output_index: self.output_index,
            media_kind: self.media_kind.clone(),
            scene: self.scene.clone(),
            sync_status: self.sync_status.clone(),
            provider_code: clone_opt(&self.provider_code),
            provider_asset_id: clone_opt(&self.provider_asset_id),
            provider_uri: clone_opt(&self.provider_uri),
            provider_url: clone_opt(&self.provider_url),
            drive_space_id: clone_opt(&self.drive_space_id),
            drive_node_id: clone_opt(&self.drive_node_id),
            drive_uri: clone_opt(&self.drive_uri),
            file_name: clone_opt(&self.file_name),
            mime_type: clone_opt(&self.mime_type),
            size_bytes: clone_opt(&self.size_bytes),
            width: self.width,
            height: self.height,
            duration_seconds: self.duration_seconds,
        }
    }
}

fn copy_outputs(v: &Vec<ImageGenerationOutputWire>) -> (r: Vec<ImageGenerationOutputWire>)
    ensures
        r@ == v@,
{
    let mut r: Vec<ImageGenerationOutputWire> = Vec::new();
    let mut k: usize = 0;
    while k < v.len()
        invariant
            k <= v.len(),
            r@ == v@.take(k as int),
        decreases v.len() - k,
    {
        r.push(v[k].copy());
        assert(r@ =~= v@.take(k + 1));
        k = k + 1;
    }
    assert(v@.take(v@.len() as int) =~= v@);
    r
}

impl ImageGenerationWire {
    /// A copy of the generation.
    pub fn copy(&self) -> (r: Self)
        ensures
            r@ == self@,
    {
        ImageGenerationWire {
            generation_id: self.generation_id.clone(),
            status: self.status.clone(),
            scene: self.scene.clone(),
            provider_code: clone_opt(&self.provider_code),
            provider_task_id: clone_opt(&self.provider_task_id),
            provider_status: clone_opt(&self.provider_status),
            drive_space_id: clone_opt(&self.drive_space_id),
            drive_sync_status: self.drive_sync_status.clone(),
            output_asset_count: self.output_asset_count,
            outputs: copy_outputs(&self.outputs),
            metadata: copy_metadata(&self.metadata),
        }
    }
}

fn copy_metadata(m: &Option<ImageGenerationMetadata>) -> (r: Option<ImageGenerationMetadata>)
    ensures
        r == *m,
{
    match m {
        Some(x) => {
            let c = ImageGenerationMetadata { cancel_reason: clone_opt(&x.cancel_reason) };
            assert(c == *x);
            Some(c)
        },
        None => None,
    }
}

// ---------------------------------------------------------------------------
// Mapping provider outputs onto the wire
// ---------------------------------------------------------------------------

/// The output indices of a list of plan items.
pub open spec fn item_indices(items: Seq<DriveImportPlanItem>) -> Seq<i32> {
    items.map_values(|i: DriveImportPlanItem| i.output_index)
}

/// The first plan item for an output index, if any.
pub open spec fn plan_item_for(items: Seq<DriveImportPlanItem>, index: i32) -> Option<
    DriveImportPlanItem,
> {
    match first_index(item_indices(items), index) {
        Some(i) => Some(items[i]),
        None => None,
    }
}

/// The decimal text of an optional byte count.
pub open spec fn size_text(size: Option<i64>) -> Option<Seq<char>> {
    match size {
        Some(n) => Some(decimal(n as int)),
        None => None,
    }
}

/// The wire view of a provider output, before any Drive import: pending,
/// attributed to the scene and provider, with the Drive location of its plan
/// item when there is one.
pub open spec fn output_wire_spec(
    output: GeneratedMediaOutput,
    scene: Seq<char>,
    provider_code: Seq<char>,
    item: Option<DriveImportPlanItem>,
) -> OutputView {
    OutputView {
        output_index: output.output_index,
        media_kind: media_kind_name(output.kind),
        scene: scene,
        sync_status: "pending"@,
        provider_code: Some(provider_code),
        provider_asset_id: opt_view(output.provider_asset_id),
        provider_uri: opt_view(output.provider_uri),
        provider_url: opt_view(output.provider_url),
        drive_space_id: match item {
            Some(i) => Some(i.drive_space_id@),
            None => None,
        },
        drive_node_id: match item {
            Some(i) => Some(i.drive_node_id@),
            None => None,
        },
        drive_uri: match item {
            Some(i) => Some(i.drive_uri@),
            None => None,
        },
        file_name: opt_view(output.file_name),
        mime_type: opt_view(output.mime_type),
        size_bytes: size_text(output.size_bytes),
        width: output.width,
        height: output.height,
        duration_seconds: output.duration_seconds,
    }
}

fn find_plan_item(items: &Vec<DriveImportPlanItem>, index: i32) -> (r: Option<usize>)
    ensures
        match r {
            Some(k) => k < items.len() && first_index(item_indices(items@), index) == Some(
                k as int,
            ),
            None => first_index(item_indices(items@), index) == None::<int>,
        },
{
    let ghost ids = item_indices(items@);
    let mut k: usize = 0;
    while k < items.len()
        invariant
            k <= items.len(),
            ids == item_indices(items@),
            forall|j: int| 0 <= j < k ==> ids[j] != index,
        decreases items.len() - k,
    {
        if items[k].output_index == index {
            proof {
                lemma_first_index(ids, index, k as int);
            }
            return Some(k);
        }
        k = k + 1;
    }
    proof {
        lemma_first_index(ids, index, k as int);
    }
    None
}

fn size_to_text(size: Option<i64>) -> (r: Option<String>)
    ensures
        opt_view(r) == size_text(size),
{
    match size {
        Some(n) => Some(i64_to_text(n)),
        None => None,
    }
}

fn output_wire(
    output: &GeneratedMediaOutput,
    scene: &String,
    provider_code: &String,
    item: Option<&DriveImportPlanItem>,
) -> (w: ImageGenerationOutputWire)
    ensures
        w@ == output_wire_spec(
            *output,
            scene@,
            provider_code@,
            match item {
                Some(i) => Some(*i),
                None => None,
            },
        ),
{
    ImageGenerationOutputWire {
        output_index: output.output_index,
        media_kind: output.kind.as_media_kind().to_owned(),
        scene: scene.clone(),
        sync_status: "pending".to_owned(),
        provider_code: Some(provider_code.clone()),
        provider_asset_id: clone_opt(&output.provider_asset_id),
        provider_uri: clone_opt(&output.provider_uri),
        provider_url: clone_opt(&output.provider_url),
        drive_space_id: match item {
            Some(i) => Some(i.drive_space_id.clone()),
            None => None,
        },
        drive_node_id: match item {
            Some(i) => Some(i.drive_node_id.clone()),
            None => None,
        },
        drive_uri: match item {
            Some(i) => Some(i.drive_uri.clone()),
            None => None,
        },
        file_name: clone_opt(&output.file_name),
        mime_type: clone_opt(&output.mime_type),
        size_bytes: size_to_text(output.size_bytes),
        width: output.width,
        height: output.height,
        duration_seconds: output.duration_seconds,
    }
}

/// The wire generation created from a dispatch: status, scene, provider and
/// Drive facts from the record, the given Drive sync status, no metadata, and
/// every provider output pending with the Drive location of its plan item.
pub open spec fn generation_wire_spec(
    generation_id: Seq<char>,
    record: GenerationRecordSummary,
    drive_sync_status: Seq<char>,
    outputs: Seq<GeneratedMediaOutput>,
    plans: Seq<DriveImportPlanItem>,
) -> WireView {
    WireView {
        generation_id: generation_id,
        status: status_name(record.status),
        scene: record.scene@,
        provider_code: Some(record.provider_code@),
        provider_task_id: opt_view(record.provider_task_id),
        provider_status: opt_view(record.provider_status),
        drive_space_id: opt_view(record.drive_space_id),
        drive_sync_status: drive_sync_status,
        output_asset_count: record.output_count,
        outputs: outputs.map_values(
            |o: GeneratedMediaOutput|
                output_wire_spec(o, record.scene@, record.provider_code@, plan_item_for(plans, o.output_index)),
        ),
        metadata: None,
    }
}

/// The wire generation after a provider refresh: status, task and outputs
/// from the result (outputs pending, without Drive locations), the given Drive
/// sync status (`failed` when the generation failed), the request's
/// generation id, and the rest as stored.
pub open spec fn refresh_wire_spec(
    generation_id: Seq<char>,
    stored: WireView,
    result: NormalizedProviderGenerationResult,
    drive_sync_status: Seq<char>,
) -> WireView {
    WireView {
        generation_id: generation_id,
        status: status_name(result.status),
        provider_task_id: opt_view(result.provider_task_id),
        provider_status: opt_view(result.provider_status),
        drive_sync_status: if result.status == ImageGenerationRuntimeStatus::Failed {
            "failed"@
        } else {
            drive_sync_status
        },
        output_asset_count: result.outputs@.len() as i32,
        outputs: result.outputs@.map_values(
            |o: GeneratedMediaOutput| output_wire_spec(o, stored.scene, result.provider_code@, None),
        ),
        ..stored
    }
}

/// Maps a dispatch onto a new wire generation.
pub fn map_generation_wire(
    generation_id: &str,
    record: &GenerationRecordSummary,
    drive_sync_status: &str,
    outputs: &Vec<GeneratedMediaOutput>,
    drive_import_plans: &Vec<DriveImportPlanItem>,
) -> (w: ImageGenerationWire)
    ensures
        w@ == generation_wire_spec(
            generation_id@,
            *record,
            drive_sync_status@,
            outputs@,
            drive_import_plans@,
        ),
{
    let mut wire_outputs: Vec<ImageGenerationOutputWire> = Vec::new();
    let mut k: usize = 0;
    while k < outputs.len()
        invariant
            k <= outputs.len(),
            wire_outputs@.len() == k,
            forall|i: int|
                0 <= i < k ==> #[trigger] wire_outputs@[i]@ == output_wire_spec(
                    outputs@[i],
                    record.scene@,
                    record.provider_code@,
                    plan_item_for(drive_import_plans@, outputs@[i].output_index),
                ),
        decreases outputs.len() - k,
    {
        let output = &outputs[k];
        let found = find_plan_item(drive_import_plans, output.output_index);
        let w = match found {
            Some(j) => output_wire(output, &record.scene, &record.provider_code, Some(&drive_import_plans[j])),
            None => output_wire(output, &record.scene, &record.provider_code, None),
        };
        wire_outputs.push(w);
        k = k + 1;
    }
    proof {
        assert(outputs_view(wire_outputs@) =~= outputs@.map_values(
            |o: GeneratedMediaOutput|
                output_wire_spec(o, record.scene@, record.provider_code@, plan_item_for(drive_import_plans@, o.output_index)),
        ));
    }
    ImageGenerationWire {
        generation_id: generation_id.to_owned(),
        status: record.status.as_str().to_owned(),
        scene: record.scene.clone(),
        provider_code: Some(record.provider_code.clone()),
        provider_task_id: clone_opt(&record.provider_task_id),
        provider_status: clone_opt(&record.provider_status),
        drive_space_id: clone_opt(&record.drive_space_id),
        drive_sync_status: drive_sync_status.to_owned(),
        output_asset_count: record.output_count,
        outputs: wire_outputs,
        metadata: None,
    }
}

/// Maps a provider refresh onto the stored generation.
pub fn map_refresh_wire(
    generation_id: &str,
    wire: &ImageGenerationWire,
    result: &NormalizedProviderGenerationResult,
    drive_sync_status: &str,
) -> (w: ImageGenerationWire)
    ensures
        w@ == refresh_wire_spec(generation_id@, wire@, *result, drive_sync_status@),
{
    let mut wire_outputs: Vec<ImageGenerationOutputWire> = Vec::new();
    let mut k: usize = 0;
    while k < result.outputs.len()
        invariant
            k <= result.outputs.len(),
            wire_outputs@.len() == k,
            forall|i: int|
                0 <= i < k ==> #[trigger] wire_outputs@[i]@ == output_wire_spec(
                    result.outputs@[i],
                    wire.scene@,
                    result.provider_code@,
                    None,
                ),
        decreases result.outputs.len() - k,
    {
        let w = output_wire(&result.outputs[k], &wire.scene, &result.provider_code, None);
        wire_outputs.push(w);
        k = k + 1;
    }
    let sync = if result.status == ImageGenerationRuntimeStatus::Failed {
        "failed".to_owned()
    } else {
        drive_sync_status.to_owned()
    };
    let count = result.outputs.len() as i32;
    let copy = wire.copy();
    proof {
        assert(outputs_view(wire_outputs@) =~= result.outputs@.map_values(
            |o: GeneratedMediaOutput| output_wire_spec(o, wire.scene@, result.provider_code@, None),
        ));
    }
    ImageGenerationWire {
        generation_id: generation_id.to_owned(),
        status: result.status.as_str().to_owned(),
        scene: copy.scene,
        provider_code: copy.provider_code,
        provider_task_id: clone_opt(&result.provider_task_id),
        provider_status: clone_opt(&result.provider_status),
        drive_space_id: copy.drive_space_id,
        drive_sync_status: sync,
        output_asset_count: count,
        outputs: wire_outputs,
        metadata: copy.metadata,
    }
}

// ---------------------------------------------------------------------------
// Drive import plans and completed imports
// ---------------------------------------------------------------------------

/// An output with the Drive location of its plan item, when there is one.
pub open spec fn with_plan_location(o: OutputView, item: Option<DriveImportPlanItem>) -> OutputView {
    match item {
        Some(i) => OutputView {
            drive_space_id: Some(i.drive_space_id@),
            drive_node_id: Some(i.drive_node_id@),
            drive_uri: Some(i.drive_uri@),
            ..o
        },
        None => o,
    }
}

/// The Drive space of the first plan item, if any.
pub open spec fn first_item_space(items: Seq<DriveImportPlanItem>) -> Option<Seq<char>> {
    if items.len() > 0 {
        Some(items[0].drive_space_id@)
    } else {
        None
    }
}

fn located_output(o: &ImageGenerationOutputWire, item: &DriveImportPlanItem) -> (r:
    ImageGenerationOutputWire)
    ensures
        r@ == with_plan_location(o@, Some(*item)),
{
    ImageGenerationOutputWire {
        output_index: o.output_index,
        media_kind: o.media_kind.clone(),
        scene: o.scene.clone(),
        sync_status: o.sync_status.clone(),
        provider_code: clone_opt(&o.provider_code),
        provider_asset_id: clone_opt(&o.provider_asset_id),
        provider_uri: clone_opt(&o.provider_uri),
        provider_url: clone_opt(&o.provider_url),
        drive_space_id: Some(item.drive_space_id.clone()),
        drive_node_id: Some(item.drive_node_id.clone()),
        drive_uri: Some(item.drive_uri.clone()),
        file_name: clone_opt(&o.file_name),
        mime_type: clone_opt(&o.mime_type),
        size_bytes: clone_opt(&o.size_bytes),
        width: o.width,
        height: o.height,
        duration_seconds: o.duration_seconds,
    }
}

/// A generation with a Drive import plan attached: each output takes the
/// location of the first plan item for its index, and the generation takes
/// the Drive space of the first plan item.
pub open spec fn planned_wire(w: WireView, items: Seq<DriveImportPlanItem>) -> WireView {
    WireView {
        outputs: w.outputs.map_values(
            |o: OutputView| with_plan_location(o, plan_item_for(items, o.output_index)),
        ),
        drive_space_id: first_item_space(items),
        ..w
    }
}

/// Attaches a Drive import plan to a generation: each output takes the
/// location of the first plan item for its index, and the generation takes
/// the Drive space of the first plan item.
pub fn apply_import_plan_to_wire(wire: &mut ImageGenerationWire, import_plan: &DriveImportPlan)
    ensures
        final(wire)@ == planned_wire(old(wire)@, import_plan.items@),
{
    let ghost before = wire@;
    let mut outs: Vec<ImageGenerationOutputWire> = Vec::new();
    let mut k: usize = 0;
    while k < wire.outputs.len()
        invariant
            k <= wire.outputs.len(),
            wire@ == before,
            outs@.len() == k,
            forall|i: int|
                0 <= i < k ==> #[trigger] outs@[i]@ == with_plan_location(
                    wire.outputs@[i]@,
                    plan_item_for(import_plan.items@, wire.outputs@[i].output_index),
                ),
        decreases wire.outputs.len() - k,
    {
        let o = &wire.outputs[k];
        let next = match find_plan_item(&import_plan.items, o.output_index) {
            Some(j) => located_output(o, &import_plan.items[j]),
            None => o.copy(),
        };
        outs.push(next);
        k = k + 1;
    }
    wire.outputs = outs;
    wire.drive_space_id = if import_plan.items.len() > 0 {
        Some(import_plan.items[0].drive_space_id.clone())
    } else {
        None
    };
    proof {
        assert(outputs_view(wire.outputs@) =~= before.outputs.map_values(
            |o: OutputView| with_plan_location(o, plan_item_for(import_plan.items@, o.output_index)),
        ));
    }
}

/// The view of a completed import: (output index, node, uri).
pub open spec fn artifact_view(a: CompletedDriveImportArtifact) -> (i32, Seq<char>, Seq<char>) {
    (a.output_index, a.drive_node_id@, a.drive_uri@)
}

/// The output indices of a list of output views.
pub open spec fn output_indices(outs: Seq<OutputView>) -> Seq<i32> {
    outs.map_values(|o: OutputView| o.output_index)
}

/// An output once its import completed: imported at the artifact's node and
/// uri, in the space of its plan item when there is one.
pub open spec fn imported_output(
    o: OutputView,
    a: (i32, Seq<char>, Seq<char>),
    item: Option<DriveImportPlanItem>,
) -> OutputView {
    OutputView {
        sync_status: "imported"@,
        drive_node_id: Some(a.1),
        drive_uri: Some(a.2),
        drive_space_id: match item {
            Some(i) => Some(i.drive_space_id@),
            None => o.drive_space_id,
        },
        ..o
    }
}

/// One completed import applied to the outputs: the first output with the
/// artifact's index is marked imported; without such an output nothing
/// changes.
pub open spec fn apply_artifact(
    outs: Seq<OutputView>,
    a: (i32, Seq<char>, Seq<char>),
    items: Seq<DriveImportPlanItem>,
) -> Seq<OutputView> {
    match first_index(output_indices(outs), a.0) {
        Some(j) => outs.update(j, imported_output(outs[j], a, plan_item_for(items, a.0))),
        None => outs,
    }
}

/// Completed imports applied to the outputs in order.
pub open spec fn apply_artifacts(
    outs: Seq<OutputView>,
    arts: Seq<(i32, Seq<char>, Seq<char>)>,
    items: Seq<DriveImportPlanItem>,
) -> Seq<OutputView>
    decreases arts.len(),
{
    if arts.len() == 0 {
        outs
    } else {
        apply_artifact(apply_artifacts(outs, arts.drop_last(), items), arts.last(), items)
    }
}

/// Every output is imported, and there is at least one.
pub open spec fn all_imported(outs: Seq<OutputView>) -> bool {
    outs.len() > 0 && forall|i: int| 0 <= i < outs.len() ==> #[trigger] outs[i].sync_status == "imported"@
}

/// The generation after its completed imports are applied.
pub open spec fn after_imports(
    w: WireView,
    arts: Seq<(i32, Seq<char>, Seq<char>)>,
    items: Seq<DriveImportPlanItem>,
) -> WireView {
    let outs = apply_artifacts(w.outputs, arts, items);
    WireView {
        outputs: outs,
        drive_sync_status: if all_imported(outs) {
            "imported"@
        } else {
            w.drive_sync_status
        },
        drive_space_id: if outs.len() > 0 {
            outs[0].drive_space_id
        } else {
            None
        },
        ..w
    }
}

fn find_output(outs: &Vec<ImageGenerationOutputWire>, index: i32) -> (r: Option<usize>)
    ensures
        match r {
            Some(k) => k < outs.len() && first_index(output_indices(outputs_view(outs@)), index)
                == Some(k as int),
            None => first_index(output_indices(outputs_view(outs@)), index) == None::<int>,
        },
{
    let ghost ids = output_indices(outputs_view(outs@));
    let mut k: usize = 0;
    while k < outs.len()
        invariant
            k <= outs.len(),
            ids == output_indices(outputs_view(outs@)),
            forall|j: int| 0 <= j < k ==> ids[j] != index,
        decreases outs.len() - k,
    {
        if outs[k].output_index == index {
            proof {
                lemma_first_index(ids, index, k as int);
            }
            return Some(k);
        }
        k = k + 1;
    }
    proof {
        lemma_first_index(ids, index, k as int);
    }
    None
}

fn imported_wire_output(
    o: &ImageGenerationOutputWire,
    a: &CompletedDriveImportArtifact,
    item: Option<&DriveImportPlanItem>,
) -> (r: ImageGenerationOutputWire)
    ensures
        r@ == imported_output(
            o@,
            artifact_view(*a),
            match item {
                Some(i) => Some(*i),
                None => None,
            },
        ),
{
    ImageGenerationOutputWire {
        output_index: o.output_index,
        media_kind: o.media_kind.clone(),
        scene: o.scene.clone(),
        sync_status: "imported".to_owned(),
        provider_code: clone_opt(&o.provider_code),
        provider_asset_id: clone_opt(&o.provider_asset_id),
        provider_uri: clone_opt(&o.provider_uri),
        provider_url: clone_opt(&o.provider_url),
        drive_space_id: match item {
            Some(i) => Some(i.drive_space_id.clone()),
            None => clone_opt(&o.drive_space_id),
        },
        drive_node_id: Some(a.drive_node_id.clone()),
        drive_uri: Some(a.drive_uri.clone()),
        file_name: clone_opt(&o.file_name),
        mime_type: clone_opt(&o.mime_type),
        size_bytes: clone_opt(&o.size_bytes),
        width: o.width,
        height: o.height,
        duration_seconds: o.duration_seconds,
    }
}

fn all_outputs_imported(outs: &Vec<ImageGenerationOutputWire>) -> (r: bool)
    ensures
        r == all_imported(outputs_view(outs@)),
{
    if outs.len() == 0 {
        return false;
    }
    let mut k: usize = 0;
    while k < outs.len()
        invariant
            k <= outs.len(),
            forall|i: int| 0 <= i < k ==> #[trigger] outs@[i].sync_status@ == "imported"@,
        decreases outs.len() - k,
    {
        if !text_eq(outs[k].sync_status.as_str(), "imported") {
            assert(outputs_view(outs@)[k as int].sync_status != "imported"@);
            return false;
        }
        k = k + 1;
    }
    assert forall|i: int| 0 <= i < outputs_view(outs@).len() implies #[trigger] outputs_view(
        outs@,
    )[i].sync_status == "imported"@ by {
        assert(outs@[i].sync_status@ == "imported"@);
    }
    true
}

/// Records completed Drive imports on a generation: each artifact marks the
/// first output with its index as imported at its Drive node; the generation
/// becomes imported once every output is; its Drive space is that of its
/// first output.
pub fn apply_completed_drive_imports(
    wire: &mut ImageGenerationWire,
    completed: &Vec<CompletedDriveImportArtifact>,
    import_plan: &DriveImportPlan,
)
    ensures
        final(wire)@ == after_imports(
            old(wire)@,
            completed@.map_values(|a: CompletedDriveImportArtifact| artifact_view(a)),
            import_plan.items@,
        ),
{
    let ghost before = wire@;
    let ghost arts = completed@.map_values(|a: CompletedDriveImportArtifact| artifact_view(a));
    let mut outs = copy_outputs(&wire.outputs);
    let mut k: usize = 0;
    while k < completed.len()
        invariant
            k <= completed.len(),
            wire@ == before,
            arts == completed@.map_values(|a: CompletedDriveImportArtifact| artifact_view(a)),
            outputs_view(outs@) == apply_artifacts(before.outputs, arts.take(k as int), import_plan.items@),
        decreases completed.len() - k,
    {
        let a = &completed[k];
        let ghost prev = outputs_view(outs@);
        proof {
            assert(arts.take(k + 1).drop_last() =~= arts.take(k as int));
            assert(arts.take(k + 1).last() == artifact_view(completed@[k as int]));
        }
        match find_output(&outs, a.output_index) {
            Some(j) => {
                let next = match find_plan_item(&import_plan.items, a.output_index) {
                    Some(p) => imported_wire_output(&outs[j], a, Some(&import_plan.items[p])),
                    None => imported_wire_output(&outs[j], a, None),
                };
                outs.set(j, next);
                proof {
                    assert(outputs_view(outs@) =~= prev.update(
                        j as int,
                        imported_output(prev[j as int], artifact_view(*a), plan_item_for(import_plan.items@, a.output_index)),
                    ));
                }
            },
            None => {},
        }
        k = k + 1;
    }
    proof {
        assert(arts.take(completed.len() as int) =~= arts);
    }
    let imported = all_outputs_imported(&outs);
    if imported {
        wire.drive_sync_status = "imported".to_owned();
    }
    wire.drive_space_id = if outs.len() > 0 {
        clone_opt(&outs[0].drive_space_id)
    } else {
        None
    };
    wire.outputs = outs;
}

proof fn lemma_apply_artifact_shape(
    outs: Seq<OutputView>,
    a: (i32, Seq<char>, Seq<char>),
    items: Seq<DriveImportPlanItem>,
)
    ensures
        apply_artifact(outs, a, items).len() == outs.len(),
        output_indices(apply_artifact(outs, a, items)) == output_indices(outs),
        forall|j: int|
            0 <= j < outs.len() && outs[j].sync_status == "imported"@ ==> (#[trigger] apply_artifact(
                outs,
                a,
                items,
            )[j]).sync_status == "imported"@,
        first_index(output_indices(outs), a.0) matches Some(j) ==> apply_artifact(
            outs,
            a,
            items,
        )[j].sync_status == "imported"@,
{
    lemma_first_index_bounds(output_indices(outs), a.0);
    let r = apply_artifact(outs, a, items);
    assert(output_indices(r) =~= output_indices(outs));
}

proof fn lemma_apply_artifacts_shape(
    outs: Seq<OutputView>,
    arts: Seq<(i32, Seq<char>, Seq<char>)>,
    items: Seq<DriveImportPlanItem>,
)
    ensures
        apply_artifacts(outs, arts, items).len() == outs.len(),
        output_indices(apply_artifacts(outs, arts, items)) == output_indices(outs),
        forall|j: int|
            0 <= j < outs.len() && outs[j].sync_status == "imported"@ ==> (#[trigger] apply_artifacts(
                outs,
                arts,
                items,
            )[j]).sync_status == "imported"@,
    decreases arts.len(),
{
    if arts.len() > 0 {
        let mid = apply_artifacts(outs, arts.drop_last(), items);
        lemma_apply_artifacts_shape(outs, arts.drop_last(), items);
        lemma_apply_artifact_shape(mid, arts.last(), items);
        assert forall|j: int|
            0 <= j < outs.len() && outs[j].sync_status == "imported"@ implies (#[trigger] apply_artifacts(
                outs,
                arts,
                items,
            )[j]).sync_status == "imported"@ by {
            assert(mid[j].sync_status == "imported"@);
        }
    }
}

/// Every completed import marks an output: once the completed imports are
/// applied, the first output whose index matches each artifact is imported,
/// and, unless a later artifact names the same index, it carries that
/// artifact's Drive node and uri.
pub proof fn lemma_completed_imports_mark_outputs(
    outs: Seq<OutputView>,
    arts: Seq<(i32, Seq<char>, Seq<char>)>,
    items: Seq<DriveImportPlanItem>,
    k: int,
)
    requires
        0 <= k < arts.len(),
        first_index(output_indices(outs), arts[k].0) is Some,
    ensures
        ({
            let j = first_index(output_indices(outs), arts[k].0)->0;
            let o = apply_artifacts(outs, arts, items)[j];
            &&& o.sync_status == "imported"@
            &&& (forall|m: int| k < m < arts.len() ==> #[trigger] arts[m].0 != arts[k].0) ==> {
                &&& o.drive_node_id == Some(arts[k].1)
                &&& o.drive_uri == Some(arts[k].2)
            }
        }),
    decreases arts.len(),
{
    let j = first_index(output_indices(outs), arts[k].0)->0;
    lemma_first_index_bounds(output_indices(outs), arts[k].0);
    let mid = apply_artifacts(outs, arts.drop_last(), items);
    lemma_apply_artifacts_shape(outs, arts.drop_last(), items);
    lemma_apply_artifact_shape(mid, arts.last(), items);
    if k == arts.len() - 1 {
        assert(output_indices(mid) == output_indices(outs));
    } else {
        assert(arts.drop_last()[k] == arts[k]);
        lemma_completed_imports_mark_outputs(outs, arts.drop_last(), items, k);
        assert(mid[j].sync_status == "imported"@);
        if forall|m: int| k < m < arts.len() ==> #[trigger] arts[m].0 != arts[k].0 {
            assert forall|m: int| k < m < arts.drop_last().len() implies #[trigger] arts.drop_last()[m].0
                != arts.drop_last()[k].0 by {
                assert(arts.drop_last()[m] == arts[m]);
            }
            let last = arts.last();
            assert(last == arts[arts.len() - 1]);
            assert(last.0 != arts[k].0);
            let ids = output_indices(mid);
            assert(ids[j] == arts[k].0);
            lemma_first_index_bounds(ids, last.0);
            match first_index(ids, last.0) {
                Some(j2) => {
                    assert(ids[j2] == last.0);
                    assert(j2 != j);
                },
                None => {},
            }
            assert(apply_artifacts(outs, arts, items)[j] == mid[j]);
        }
    }
}

/// A generation is reported imported only when all of its outputs are: after
/// completed imports are applied, an imported Drive status means either all
/// outputs are imported or the generation was imported already.
pub proof fn lemma_imported_generation_has_imported_outputs(
    w: WireView,
    arts: Seq<(i32, Seq<char>, Seq<char>)>,
    items: Seq<DriveImportPlanItem>,
)
    ensures
        after_imports(w, arts, items).drive_sync_status == "imported"@ ==> (all_imported(
            after_imports(w, arts, items).outputs,
        ) || w.drive_sync_status == "imported"@),
{
}

// ---------------------------------------------------------------------------
// Refresh and cancel decisions
// ---------------------------------------------------------------------------

/// Why a generation request failed.
#[derive(Debug, PartialEq, Eq)]
pub enum ImageGenerationServiceError {
    Validation(String),
    NotFound,
    Dispatch(String),
    Planning(String),
    Persistence(String),
    DriveImport(String),
    Conflict(String),
}

/// The variant of a generation service error.
#[derive(Clone, Copy, Debug, PartialEq, Eq, Structural)]
pub enum GenerationErrorKind {
    Validation,
    NotFound,
    Dispatch,
    Planning,
    Persistence,
    DriveImport,
    Conflict,
}

impl View for ImageGenerationServiceError {
    type V = (GenerationErrorKind, Seq<char>);

    open spec fn view(&self) -> (GenerationErrorKind, Seq<char>) {
        match self {
            ImageGenerationServiceError::Validation(m) => (GenerationErrorKind::Validation, m@),
            ImageGenerationServiceError::NotFound => (GenerationErrorKind::NotFound, Seq::empty()),
            ImageGenerationServiceError::Dispatch(m) => (GenerationErrorKind::Dispatch, m@),
            ImageGenerationServiceError::Planning(m) => (GenerationErrorKind::Planning, m@),
            ImageGenerationServiceError::Persistence(m) => (GenerationErrorKind::Persistence, m@),
            ImageGenerationServiceError::DriveImport(m) => (GenerationErrorKind::DriveImport, m@),
            ImageGenerationServiceError::Conflict(m) => (GenerationErrorKind::Conflict, m@),
        }
    }
}

/// The human-readable text of a generation error.
pub open spec fn generation_message_spec(e: (GenerationErrorKind, Seq<char>)) -> Seq<char> {
    match e.0 {
        GenerationErrorKind::Validation => "validation failed: "@ + e.1,
        GenerationErrorKind::NotFound => "generation not found"@,
        GenerationErrorKind::Dispatch => "provider dispatch failed: "@ + e.1,
        GenerationErrorKind::Planning => "planning failed: "@ + e.1,
        GenerationErrorKind::Persistence => "persistence failed: "@ + e.1,
        GenerationErrorKind::DriveImport => "drive import failed: "@ + e.1,
        GenerationErrorKind::Conflict => "conflict: "@ + e.1,
    }
}

impl ImageGenerationServiceError {
    /// The human-readable text of the error.
    pub fn message(&self) -> (s: String)
        ensures
            s@ == generation_message_spec(self@),
    {
        match self {
            ImageGenerationServiceError::Validation(m) => concat2("validation failed: ", m.as_str()),
            ImageGenerationServiceError::NotFound => "generation not found".to_owned(),
            ImageGenerationServiceError::Dispatch(m) => concat2("provider dispatch failed: ", m.as_str()),
            ImageGenerationServiceError::Planning(m) => concat2("planning failed: ", m.as_str()),
            ImageGenerationServiceError::Persistence(m) => concat2("persistence failed: ", m.as_str()),
            ImageGenerationServiceError::DriveImport(m) => concat2("drive import failed: ", m.as_str()),
            ImageGenerationServiceError::Conflict(m) => concat2("conflict: ", m.as_str()),
        }
    }
}

/// The generation error a repository error becomes.
pub open spec fn repository_error_spec(e: RepositoryError) -> (GenerationErrorKind, Seq<char>) {
    match e {
        RepositoryError::NotFound => (GenerationErrorKind::NotFound, Seq::empty()),
        RepositoryError::Conflict(m) => (GenerationErrorKind::Conflict, m@),
        RepositoryError::Validation(m) => (GenerationErrorKind::Validation, m@),
        RepositoryError::Database(m) => (GenerationErrorKind::Persistence, m@),
        RepositoryError::Serialization(m) => (GenerationErrorKind::Persistence, m@),
    }
}

/// Maps a repository failure onto a generation failure.
pub fn map_repository_error(error: RepositoryError) -> (e: ImageGenerationServiceError)
    ensures
        e@ == repository_error_spec(error),
{
    match error {
        RepositoryError::NotFound => ImageGenerationServiceError::NotFound,
        RepositoryError::Conflict(message) => ImageGenerationServiceError::Conflict(message),
        RepositoryError::Validation(message) => ImageGenerationServiceError::Validation(message),
        RepositoryError::Database(message) => ImageGenerationServiceError::Persistence(message),
        RepositoryError::Serialization(message) => ImageGenerationServiceError::Persistence(message),
    }
}

/// A status from which a generation can no longer be cancelled.
pub open spec fn terminal_status(status: Seq<char>) -> bool {
    status == "succeeded"@ || status == "failed"@ || status == "cancelled"@ || status == "expired"@
}

/// Decides whether a wire status is terminal.
pub fn is_terminal_status(status: &str) -> (r: bool)
    ensures
        r == terminal_status(status@),
{
    text_eq(status, "succeeded") || text_eq(status, "failed") || text_eq(status, "cancelled")
        || text_eq(status, "expired")
}

/// The outcome of a cancel request on a generation: refused in a terminal
/// status; otherwise the generation moves to `cancel_requested` and records a
/// non-blank reason.
pub open spec fn cancel_spec(w: WireView, reason: Option<Seq<char>>) -> Result<WireView, Seq<char>> {
    if terminal_status(w.status) {
        Err("generation cannot be cancelled in status "@ + w.status)
    } else {
        Ok(
            WireView {
                status: "cancel_requested"@,
                metadata: match reason {
                    Some(r) => if blank(r) {
                        w.metadata
                    } else {
                        Some(Some(r))
                    },
                    None => w.metadata,
                },
                ..w
            },
        )
    }
}

/// Applies a cancel request to a generation.
pub fn cancel_requested_wire(wire: ImageGenerationWire, reason: Option<String>) -> (r: Result<
    ImageGenerationWire,
    ImageGenerationServiceError,
>)
    ensures
        match (r, cancel_spec(wire@, opt_view(reason))) {
            (Ok(w), Ok(v)) => w@ == v,
            (Err(e), Err(m)) => e@ == (GenerationErrorKind::Conflict, m),
            _ => false,
        },
{
    if is_terminal_status(wire.status.as_str()) {
        return Err(
            ImageGenerationServiceError::Conflict(
                concat2("generation cannot be cancelled in status ", wire.status.as_str()),
            ),
        );
    }
    let mut updated = wire;
    updated.status = ImageGenerationRuntimeStatus::CancelRequested.as_str().to_owned();
    match reason {
        Some(r) => {
            if !is_blank(r.as_str()) {
                updated.metadata = Some(ImageGenerationMetadata { cancel_reason: Some(r) });
            }
        },
        None => {},
    }
    Ok(updated)
}

/// A cancel request that was accepted can be repeated: the generation is
/// then `cancel_requested`, which is not a terminal status, and nothing but
/// its status and cancel reason changes.
pub proof fn lemma_cancel_can_repeat(w: WireView, reason: Option<Seq<char>>, again: Option<Seq<char>>)
    requires
        cancel_spec(w, reason) is Ok,
    ensures
        cancel_spec(cancel_spec(w, reason)->Ok_0, again) is Ok,
        cancel_spec(w, reason)->Ok_0.outputs == w.outputs,
        cancel_spec(w, reason)->Ok_0.drive_sync_status == w.drive_sync_status,
{
    reveal_strlit("cancel_requested");
    reveal_strlit("succeeded");
    reveal_strlit("failed");
    reveal_strlit("cancelled");
    reveal_strlit("expired");
    let c = "cancel_requested"@;
    assert(c != "succeeded"@) by {
        assert(c[0] != "succeeded"@[0]);
    }
    assert(c != "failed"@) by {
        assert(c[0] != "failed"@[0]);
    }
    assert(c != "expired"@) by {
        assert(c[0] != "expired"@[0]);
    }
    assert(c != "cancelled"@) by {
        assert(c.len() != "cancelled"@.len());
    }
}

/// The provider task a refresh polls: the command's task, else the stored
/// one; a blank choice is refused.
pub open spec fn refresh_task_spec(command_task: Option<Seq<char>>, stored_task: Option<Seq<char>>) -> Option<
    Seq<char>,
> {
    match (match command_task {
        Some(t) => Some(t),
        None => stored_task,
    }) {
        Some(t) => if blank(t) {
            None
        } else {
            Some(t)
        },
        None => None,
    }
}

/// Chooses the provider task a refresh polls.
pub fn refresh_provider_task_id(command_task: Option<String>, stored_task: &Option<String>) -> (r:
    Result<String, ImageGenerationServiceError>)
    ensures
        match (r, refresh_task_spec(opt_view(command_task), opt_view(*stored_task))) {
            (Ok(t), Some(u)) => t@ == u,
            (Err(e), None) => e@ == (
                GenerationErrorKind::Validation,
                "provider_task_id is required for refresh"@,
            ),
            _ => false,
        },
{
    let chosen = match command_task {
        Some(t) => Some(t),
        None => clone_opt(stored_task),
    };
    match chosen {
        Some(t) => {
            if is_blank(t.as_str()) {
                Err(
                    ImageGenerationServiceError::Validation(
                        "provider_task_id is required for refresh".to_owned(),
                    ),
                )
            } else {
                Ok(t)
            }
        },
        None => Err(
            ImageGenerationServiceError::Validation(
                "provider_task_id is required for refresh".to_owned(),
            ),
        ),
    }
}

/// Drive imports run only for a result that is ready for import, with
/// uploads prepared, on a host that has a Drive runtime.
pub fn should_execute_drive_imports(
    ready_for_drive_import: bool,
    prepared_uploads: usize,
    drive_runtime_available: bool,
) -> (r: bool)
    ensures
        r == (ready_for_drive_import && prepared_uploads > 0 && drive_runtime_available),
{
    ready_for_drive_import && prepared_uploads > 0 && drive_runtime_available
}

/// The Drive state of one output, as the persistence plan records it.
#[derive(Debug, PartialEq, Eq)]
pub struct OutputDriveImportState {
    pub output_index: i32,
    pub sync_status: String,
    pub drive_space_id: Option<String>,
    pub drive_node_id: Option<String>,
    pub drive_uri: Option<String>,
}

/// The view of an output's Drive state.
pub open spec fn drive_state_view(s: OutputDriveImportState) -> (
    i32,
    Seq<char>,
    Option<Seq<char>>,
    Option<Seq<char>>,
    Option<Seq<char>>,
) {
    (s.output_index, s.sync_status@, opt_view(s.drive_space_id), opt_view(s.drive_node_id), opt_view(s.drive_uri))
}

/// The Drive state a wire output reports.
pub open spec fn output_drive_state(o: OutputView) -> (
    i32,
    Seq<char>,
    Option<Seq<char>>,
    Option<Seq<char>>,
    Option<Seq<char>>,
) {
    (o.output_index, o.sync_status, o.drive_space_id, o.drive_node_id, o.drive_uri)
}

/// The Drive states of a generation's outputs, in order.
pub fn output_drive_states(wire: &ImageGenerationWire) -> (r: Vec<OutputDriveImportState>)
    ensures
        r@.len() == wire@.outputs.len(),
        forall|i: int|
            0 <= i < r@.len() ==> drive_state_view(#[trigger] r@[i]) == output_drive_state(
                wire@.outputs[i],
            ),
{
    let mut r: Vec<OutputDriveImportState> = Vec::new();
    let mut k: usize = 0;
    while k < wire.outputs.len()
        invariant
            k <= wire.outputs.len(),
            r@.len() == k,
            forall|i: int|
                0 <= i < k ==> drive_state_view(#[trigger] r@[i]) == output_drive_state(
                    wire@.outputs[i],
                ),
        decreases wire.outputs.len() - k,
    {
        let o = &wire.outputs[k];
        r.push(
            OutputDriveImportState {
                output_index: o.output_index,
                sync_status: o.sync_status.clone(),
                drive_space_id: clone_opt(&o.drive_space_id),
                drive_node_id: clone_opt(&o.drive_node_id),
                drive_uri: clone_opt(&o.drive_uri),
            },
        );
        k = k + 1;
    }
    r
}

// ---------------------------------------------------------------------------
// Commands
// ---------------------------------------------------------------------------

/// The generation scope of a subject: its tenant and organization, acting as
/// its user.
pub fn runtime_scope(subject: &RuntimeSubject) -> (scope: ImageGenerationScope)
    ensures
        scope.tenant_id == subject.tenant_id,
        scope.organization_id == subject.organization_id,
        scope.actor == (ImageGenerationActor::User { user_id: subject.user_id }),
{
    ImageGenerationScope {
        tenant_id: subject.tenant_id.clone(),
        organization_id: clone_opt(&subject.organization_id),
        actor: ImageGenerationActor::User { user_id: subject.user_id.clone() },
    }
}

/// A generation request as the API receives it.
#[derive(Debug, PartialEq, Eq)]
pub struct ImageGenerationCommandWire {
    pub prompt: String,
    pub negative_prompt: Option<String>,
    pub scene: String,
    pub provider_code: Option<String>,
    pub model: Option<String>,
    pub resolution: Option<String>,
    pub style: Option<String>,
    pub output_count: Option<u32>,
    pub reference_images: Vec<String>,
    pub webhook_url: Option<String>,
    pub idempotency_key: Option<String>,
}

/// A generation request as the provider service receives it.
#[derive(Debug, PartialEq, Eq)]
pub struct ImageGenerationCreateCommand {
    pub prompt: String,
    pub negative_prompt: Option<String>,
    pub scene: String,
    pub provider_code: Option<String>,
    pub model: Option<String>,
    pub resolution: Option<String>,
    pub style: Option<String>,
    pub output_count: Option<u32>,
    pub reference_images: Vec<String>,
    pub webhook_url: Option<String>,
    pub idempotency_key: Option<String>,
}

/// A refresh request as the API receives it.
#[derive(Debug, PartialEq, Eq)]
pub struct ImageGenerationRefreshCommandWire {
    pub provider_task_id: Option<String>,
}

/// A cancel request as the API receives it.
#[derive(Debug, PartialEq, Eq)]
pub struct ImageGenerationCancelCommandWire {
    pub reason: Option<String>,
}

/// Maps an API generation request onto the provider service's command, field
/// by field.
pub fn map_create_command(command: ImageGenerationCommandWire) -> (r: Result<
    ImageGenerationCreateCommand,
    ImageGenerationServiceError,
>)
    ensures
        r matches Ok(c) && {
            &&& c.prompt == command.prompt
            &&& c.negative_prompt == command.negative_prompt
            &&& c.scene == command.scene
            &&& c.provider_code == command.provider_code
            &&& c.model == command.model
            &&& c.resolution == command.resolution
            &&& c.style == command.style
            &&& c.output_count == command.output_count
            &&& c.reference_images == command.reference_images
            &&& c.webhook_url == command.webhook_url
            &&& c.idempotency_key == command.idempotency_key
        },
{
    Ok(
        ImageGenerationCreateCommand {
            prompt: command.prompt,
            negative_prompt: command.negative_prompt,
            scene: command.scene,
            provider_code: command.provider_code,
            model: command.model,
            resolution: command.resolution,
            style: command.style,
            output_count: command.output_count,
            reference_images: command.reference_images,
            webhook_url: command.webhook_url,
            idempotency_key: command.idempotency_key,
        },
    )
}

// ---------------------------------------------------------------------------
// Laws of the wire mappings
// ---------------------------------------------------------------------------

/// A refresh reports the provider's current state: the refreshed generation
/// carries the result's provider task id, provider status and status, and
/// one output per result output, whatever the stored generation said; the
/// request's generation id and the stored scene are kept.
pub proof fn lemma_refresh_reports_provider_state(
    generation_id: Seq<char>,
    stored: WireView,
    result: NormalizedProviderGenerationResult,
    drive_sync_status: Seq<char>,
)
    ensures
        ({
            let w = refresh_wire_spec(generation_id, stored, result, drive_sync_status);
            &&& w.provider_status == opt_view(result.provider_status)
            &&& w.provider_task_id == opt_view(result.provider_task_id)
            &&& w.status == status_name(result.status)
            &&& w.outputs.len() == result.outputs@.len()
            &&& w.output_asset_count == result.outputs@.len() as i32
            &&& w.generation_id == generation_id
            &&& w.scene == stored.scene
            &&& w.provider_code == stored.provider_code
            &&& w.metadata == stored.metadata
            &&& w.drive_sync_status == (if result.status == ImageGenerationRuntimeStatus::Failed {
                "failed"@
            } else {
                drive_sync_status
            })
            &&& forall|i: int|
                0 <= i < result.outputs@.len() ==> {
                    let o = #[trigger] w.outputs[i];
                    &&& o.output_index == result.outputs@[i].output_index
                    &&& o.sync_status == "pending"@
                    &&& o.scene == stored.scene
                    &&& o.provider_code == Some(result.provider_code@)
                    &&& o.provider_url == opt_view(result.outputs@[i].provider_url)
                    &&& o.drive_node_id is None
                    &&& o.drive_uri is None
                }
        }),
{
}

/// A created generation reports its dispatch: the provider task id,
/// provider status, status and Drive space of the dispatch record, and one
/// output per provider output, so that a later refresh can poll that task.
pub proof fn lemma_created_generation_reports_dispatch(
    generation_id: Seq<char>,
    record: GenerationRecordSummary,
    drive_sync_status: Seq<char>,
    outputs: Seq<GeneratedMediaOutput>,
    plans: Seq<DriveImportPlanItem>,
)
    ensures
        ({
            let w = generation_wire_spec(generation_id, record, drive_sync_status, outputs, plans);
            &&& w.provider_task_id == opt_view(record.provider_task_id)
            &&& w.provider_status == opt_view(record.provider_status)
            &&& w.status == status_name(record.status)
            &&& w.drive_space_id == opt_view(record.drive_space_id)
            &&& w.outputs.len() == outputs.len()
            &&& w.output_asset_count == record.output_count
            &&& w.generation_id == generation_id
            &&& w.scene == record.scene@
            &&& w.provider_code == Some(record.provider_code@)
            &&& w.drive_sync_status == drive_sync_status
            &&& w.metadata is None
            &&& forall|i: int|
                0 <= i < outputs.len() ==> {
                    let o = #[trigger] w.outputs[i];
                    &&& o.output_index == outputs[i].output_index
                    &&& o.sync_status == "pending"@
                    &&& o.scene == record.scene@
                    &&& o.provider_code == Some(record.provider_code@)
                    &&& o.provider_url == opt_view(outputs[i].provider_url)
                    &&& (plan_item_for(plans, outputs[i].output_index) matches Some(item) ==> {
                        &&& o.drive_space_id == Some(item.drive_space_id@)
                        &&& o.drive_node_id == Some(item.drive_node_id@)
                        &&& o.drive_uri == Some(item.drive_uri@)
                    })
                }
        }),
{
}

} // verus!
