use sdkwork_image::generation::{
    apply_completed_drive_imports, apply_import_plan_to_wire, cancel_requested_wire,
    is_terminal_status, map_generation_wire, map_refresh_wire, map_repository_error,
    openai_generation_result, output_drive_states, refresh_provider_task_id,
    should_execute_drive_imports, CompletedDriveImportArtifact, DriveImportPlan,
    DriveImportPlanItem, GeneratedMediaKind, GeneratedMediaOutput, GenerationRecordSummary,
    ImageGenerationMetadata, ImageGenerationOutputWire, ImageGenerationRuntimeStatus,
    ImageGenerationServiceError, ImageGenerationWire, NormalizedProviderGenerationResult,
};
use sdkwork_image::generation::ImageGenerationRuntimeStatus as S;
use sdkwork_image::lifecycle::{
    dispatch_status_for_runtime, due_task_batch_limit, generation_page_window, job_resolution,
    job_style, marks_generation_succeeded, notification_retry_seconds, plan_lifecycle_side_effects,
    provider_poll_due, provider_poll_interval_seconds, provider_task_to_upsert, LifecycleStep,
};
use sdkwork_image::projection::{
    rebuild_scope, GenerationProjectionRecord, InMemoryGenerationProjectionRepository,
};
use sdkwork_image::provider::{
    adapter_descriptor, create_dispatch_path, dispatch_headers, http_status_error, invalid_response,
    map_sdk_error, normalize_api_key, retrieve_dispatch_path, status_error,
    ImageGenerationProviderCapability, ImageGenerationProviderError, ImageProviderDispatchPlan,
    ImageProviderOperation, ImageVendorParameters, SdkFailure,
    IMAGE_GENERATION_PROVIDER_ADAPTER_ID,
};
use sdkwork_image::requests::{
    aspect_ratio_from_size, build_provider_request, vendor_schema_for, ProviderRequest,
    build_midjourney_image_generation_request,
    build_nano_banana_image_generation_request, build_openai_image_generation_request,
    build_vidu_reference_to_image_request, check_vendor_parameter_schema,
    openai_image_generation_sdk_supports_output_count, prompt_with_optional_negative,
    reject_payload_for_non_vidu, OpenAiVendorParameters, SeededVendorParameters,
    OPENAI_VENDOR_SCHEMA,
};
use sdkwork_image::runtime::{
    artifact_content_type, artifact_file_name, check_preparation_count, check_preparation_index,
    completed_import, drive_import_enabled, environment_name, is_production_environment,
    object_store_root, resolve_fetch_url, ImageRuntimeError, ProviderArtifactRef,
};
use sdkwork_image::scope::{ImageGenerationActor, ImageGenerationScope, RepositoryError};

fn output_wire(index: i32, sync: &str) -> ImageGenerationOutputWire {
    ImageGenerationOutputWire {
        output_index: index,
        media_kind: "image".to_string(),
        scene: "hero".to_string(),
        sync_status: sync.to_string(),
        provider_code: Some("openai".to_string()),
        provider_asset_id: None,
        provider_uri: None,
        provider_url: Some(format!("https://cdn.example.com/{index}.png")),
        drive_space_id: None,
        drive_node_id: None,
        drive_uri: None,
        file_name: None,
        mime_type: Some("image/png".to_string()),
        size_bytes: None,
        width: Some(1024),
        height: Some(1024),
        duration_seconds: None,
    }
}

fn wire(status: &str, outputs: Vec<ImageGenerationOutputWire>) -> ImageGenerationWire {
    ImageGenerationWire {
        generation_id: "gen-1".to_string(),
        status: status.to_string(),
        scene: "hero".to_string(),
        provider_code: Some("openai".to_string()),
        provider_task_id: Some("task-1".to_string()),
        provider_status: None,
        drive_space_id: None,
        drive_sync_status: "pending".to_string(),
        output_asset_count: outputs.len() as i32,
        outputs,
        metadata: None,
    }
}

fn plan_item(index: i32) -> DriveImportPlanItem {
    DriveImportPlanItem {
        output_index: index,
        drive_space_id: "space-1".to_string(),
        drive_node_id: format!("node-{index}"),
        drive_uri: format!("drive://spaces/space-1/nodes/node-{index}"),
    }
}

fn media(index: i32) -> GeneratedMediaOutput {
    GeneratedMediaOutput {
        output_index: index,
        kind: GeneratedMediaKind::Image,
        provider_asset_id: None,
        provider_uri: None,
        provider_url: Some("https://provider.example.com/temporary-image.png".to_string()),
        file_name: Some("hero.png".to_string()),
        mime_type: Some("image/png".to_string()),
        size_bytes: Some(2048),
        width: Some(1024),
        height: Some(1024),
        duration_seconds: None,
    }
}

fn plan(size: Option<&str>, negative: Option<&str>) -> ImageProviderDispatchPlan {
    ImageProviderDispatchPlan {
        provider_id: IMAGE_GENERATION_PROVIDER_ADAPTER_ID.to_string(),
        provider_code: "midjourney".to_string(),
        provider_operation: ImageProviderOperation::MidjourneyImageGeneration,
        model: None,
        prompt: "a cat".to_string(),
        negative_prompt: negative.map(str::to_string),
        size: size.map(str::to_string),
        quality: Some("hd".to_string()),
        response_format: None,
        output_count: 2,
        reference_images: Vec::new(),
        callback_url: Some("https://hooks.example.com".to_string()),
        vendor_parameters: None,
    }
}

// ---------------------------------------------------------------------------
// wire rules
// ---------------------------------------------------------------------------

#[test]
fn cancel_is_refused_in_terminal_statuses() {
    for status in ["succeeded", "failed", "cancelled", "expired"] {
        assert!(is_terminal_status(status));
        assert_eq!(
            cancel_requested_wire(wire(status, Vec::new()), None),
            Err(ImageGenerationServiceError::Conflict(format!(
                "generation cannot be cancelled in status {status}"
            )))
        );
    }
    assert!(!is_terminal_status("rendering"));
}

#[test]
fn cancel_records_reason_and_can_repeat() {
    let first = cancel_requested_wire(wire("rendering", Vec::new()), Some("changed mind".to_string()))
        .expect("cancel");
    assert_eq!(first.status, "cancel_requested");
    assert_eq!(
        first.metadata,
        Some(ImageGenerationMetadata {
            cancel_reason: Some("changed mind".to_string())
        })
    );
    let second = cancel_requested_wire(first, Some("  ".to_string())).expect("again");
    assert_eq!(second.status, "cancel_requested");
    assert_eq!(
        second.metadata,
        Some(ImageGenerationMetadata {
            cancel_reason: Some("changed mind".to_string())
        })
    );
}

#[test]
fn refresh_task_id_prefers_command_and_refuses_blank() {
    assert_eq!(
        refresh_provider_task_id(Some("cmd".to_string()), &Some("stored".to_string())),
        Ok("cmd".to_string())
    );
    assert_eq!(
        refresh_provider_task_id(None, &Some("stored".to_string())),
        Ok("stored".to_string())
    );
    let refused = Err(ImageGenerationServiceError::Validation(
        "provider_task_id is required for refresh".to_string(),
    ));
    assert_eq!(refresh_provider_task_id(Some(" ".to_string()), &Some("stored".to_string())), refused);
    assert_eq!(refresh_provider_task_id(None, &None), refused);
}

#[test]
fn import_plans_attach_drive_locations() {
    let mut w = wire("importing", vec![output_wire(0, "pending"), output_wire(1, "pending")]);
    apply_import_plan_to_wire(
        &mut w,
        &DriveImportPlan {
            generation_id: "gen-1".to_string(),
            provider_code: "openai".to_string(),
            items: vec![plan_item(1)],
        },
    );
    assert_eq!(w.outputs[0].drive_node_id, None);
    assert_eq!(w.outputs[1].drive_node_id, Some("node-1".to_string()));
    assert_eq!(w.drive_space_id, Some("space-1".to_string()));
}

#[test]
fn completed_imports_mark_outputs_and_generation() {
    let plan = DriveImportPlan {
        generation_id: "gen-1".to_string(),
        provider_code: "openai".to_string(),
        items: vec![plan_item(0), plan_item(1)],
    };
    let artifact = |index: i32| CompletedDriveImportArtifact {
        output_index: index,
        drive_node_id: format!("uploaded-{index}"),
        drive_uri: format!("drive://spaces/space-1/nodes/uploaded-{index}"),
        checksum_sha256_hex: String::new(),
    };
    let mut partial = wire("importing", vec![output_wire(0, "pending"), output_wire(1, "pending")]);
    apply_completed_drive_imports(&mut partial, &vec![artifact(1)], &plan);
    assert_eq!(partial.outputs[1].sync_status, "imported");
    assert_eq!(partial.outputs[1].drive_node_id, Some("uploaded-1".to_string()));
    assert_eq!(partial.outputs[0].sync_status, "pending");
    assert_eq!(partial.drive_sync_status, "pending");
    assert_eq!(partial.drive_space_id, None);

    let mut full = wire("importing", vec![output_wire(0, "pending"), output_wire(1, "pending")]);
    apply_completed_drive_imports(&mut full, &vec![artifact(0), artifact(1), artifact(7)], &plan);
    assert_eq!(full.drive_sync_status, "imported");
    assert_eq!(full.drive_space_id, Some("space-1".to_string()));

    let mut empty = wire("importing", Vec::new());
    apply_completed_drive_imports(&mut empty, &vec![artifact(0)], &plan);
    assert_eq!(empty.drive_sync_status, "pending");
}

#[test]
fn generation_wire_from_dispatch() {
    let record = GenerationRecordSummary {
        status: ImageGenerationRuntimeStatus::Importing,
        scene: "product_hero".to_string(),
        provider_code: "openai".to_string(),
        provider_task_id: None,
        provider_status: Some("succeeded".to_string()),
        drive_space_id: Some("space-1".to_string()),
        output_count: 1,
    };
    let w = map_generation_wire("gen-7", &record, "pending", &vec![media(0)], &vec![plan_item(0)]);
    assert_eq!(w.generation_id, "gen-7");
    assert_eq!(w.status, "importing");
    assert_eq!(w.outputs.len(), 1);
    assert_eq!(w.outputs[0].media_kind, "image");
    assert_eq!(w.outputs[0].sync_status, "pending");
    assert_eq!(w.outputs[0].size_bytes, Some("2048".to_string()));
    assert_eq!(w.outputs[0].drive_node_id, Some("node-0".to_string()));
    assert_eq!(w.outputs[0].scene, "product_hero");
}

#[test]
fn refresh_wire_from_provider_result() {
    let result = NormalizedProviderGenerationResult {
        provider_code: "midjourney".to_string(),
        provider_task_id: Some("mj-1".to_string()),
        provider_status: Some("FAILURE".to_string()),
        status: ImageGenerationRuntimeStatus::Failed,
        provider_terminal: true,
        ready_for_drive_import: false,
        outputs: vec![media(0), media(1)],
        error_code: None,
        error_message: None,
    };
    let stored = wire("rendering", Vec::new());
    let w = map_refresh_wire("gen-9", &stored, &result, "pending");
    assert_eq!(w.generation_id, "gen-9");
    assert_eq!(w.status, "failed");
    assert_eq!(w.drive_sync_status, "failed");
    assert_eq!(w.output_asset_count, 2);
    assert_eq!(w.provider_task_id, Some("mj-1".to_string()));
    assert_eq!(w.outputs[1].provider_code, Some("midjourney".to_string()));
    assert_eq!(w.outputs[1].drive_uri, None);
    let states = output_drive_states(&w);
    assert_eq!(states.len(), 2);
    assert_eq!(states[0].sync_status, "pending");
}

#[test]
fn generation_errors_and_decisions() {
    assert_eq!(map_repository_error(RepositoryError::NotFound), ImageGenerationServiceError::NotFound);
    assert_eq!(
        map_repository_error(RepositoryError::Serialization("json".to_string())),
        ImageGenerationServiceError::Persistence("json".to_string())
    );
    assert_eq!(
        map_repository_error(RepositoryError::Conflict("busy".to_string())),
        ImageGenerationServiceError::Conflict("busy".to_string())
    );
    assert_eq!(ImageGenerationServiceError::NotFound.message(), "generation not found");
    assert_eq!(
        ImageGenerationServiceError::Dispatch("timeout".to_string()).message(),
        "provider dispatch failed: timeout"
    );
    assert_eq!(ImageGenerationServiceError::Conflict("x".to_string()).message(), "conflict: x");
    assert!(should_execute_drive_imports(true, 1, true));
    assert!(!should_execute_drive_imports(true, 0, true));
    assert!(!should_execute_drive_imports(false, 1, true));
    assert!(!should_execute_drive_imports(true, 1, false));
    let result = openai_generation_result("openai", vec![media(0)]);
    assert_eq!(result.status, ImageGenerationRuntimeStatus::Importing);
    assert!(result.ready_for_drive_import && result.provider_terminal);
    assert_eq!(result.provider_status, Some("succeeded".to_string()));
    assert_eq!(ImageGenerationRuntimeStatus::CancelRequested.as_str(), "cancel_requested");
}

// ---------------------------------------------------------------------------
// projection repository
// ---------------------------------------------------------------------------

fn record(tenant: &str, id: &str, status: &str) -> GenerationProjectionRecord {
    GenerationProjectionRecord {
        scope: ImageGenerationScope {
            tenant_id: tenant.to_string(),
            organization_id: None,
            actor: ImageGenerationActor::User {
                user_id: "42".to_string(),
            },
        },
        generation_id: id.to_string(),
        persistence: serde_json::Value::Null,
        provider_request: serde_json::Value::Bool(true),
        wire: wire(status, Vec::new()),
    }
}

#[test]
fn projection_reads_back_what_was_stored() {
    let mut repo = InMemoryGenerationProjectionRepository::new();
    repo.insert(record("1", "gen-a", "rendering")).expect("insert");
    repo.insert(record("2", "gen-b", "queued")).expect("insert");
    repo.insert(record("1", "gen-a", "succeeded")).expect("replace");
    let read = repo.get("1", "gen-a").expect("get").expect("present");
    assert_eq!(read.wire.status, "succeeded");
    assert_eq!(read.provider_request, serde_json::Value::Bool(true));
    assert!(repo.get("2", "gen-a").expect("get").is_none());
    let wires = repo.list_wire_json("1", 20, 0).expect("list");
    assert_eq!(wires.len(), 1);
    assert_eq!(repo.list_wire_json("3", 20, 0).expect("list").len(), 0);
}

#[test]
fn projection_refresh_and_cancel_rules() {
    let mut repo = InMemoryGenerationProjectionRepository::new();
    repo.insert(record("1", "gen-a", "rendering")).expect("insert");
    repo.insert(record("1", "gen-done", "succeeded")).expect("insert");
    assert_eq!(
        repo.update_after_refresh("1", None, "gen-x", wire("failed", Vec::new()), serde_json::Value::Null),
        Err(RepositoryError::NotFound)
    );
    repo.update_after_refresh("1", None, "gen-a", wire("importing", Vec::new()), serde_json::Value::Bool(false))
        .expect("refresh");
    let refreshed = repo.get("1", "gen-a").expect("get").expect("present");
    assert_eq!(refreshed.wire.status, "importing");
    assert_eq!(refreshed.persistence, serde_json::Value::Bool(false));
    assert_eq!(
        repo.cancel_generation("1", None, "gen-done", wire("cancel_requested", Vec::new())),
        Err(RepositoryError::Conflict("generation cannot be cancelled".to_string()))
    );
    assert_eq!(
        repo.cancel_generation("9", None, "gen-a", wire("cancel_requested", Vec::new())),
        Err(RepositoryError::NotFound)
    );
    repo.cancel_generation("1", Some("5"), "gen-a", wire("cancel_requested", Vec::new()))
        .expect("cancel");
    assert_eq!(repo.get("1", "gen-a").expect("get").expect("present").wire.status, "cancel_requested");
}

#[test]
fn stored_rows_rebuild_their_scope() {
    let scope = rebuild_scope(100001, 0, Some(42));
    assert_eq!(scope.tenant_id, "100001");
    assert_eq!(scope.organization_id, None);
    assert_eq!(scope.actor, ImageGenerationActor::User { user_id: "42".to_string() });
    let anonymous = rebuild_scope(5, 7, None);
    assert_eq!(anonymous.organization_id, Some("7".to_string()));
    assert_eq!(
        anonymous.actor,
        ImageGenerationActor::Anonymous { anonymous_id: "anonymous".to_string() }
    );
    assert_eq!(
        rebuild_scope(5, 7, Some(0)).actor,
        ImageGenerationActor::Anonymous { anonymous_id: "anonymous".to_string() }
    );
}

// ---------------------------------------------------------------------------
// lifecycle
// ---------------------------------------------------------------------------

#[test]
fn lifecycle_polling_and_dispatch_status() {
    for s in [S::Queued, S::Dispatching, S::Submitted, S::Rendering, S::CancelRequested] {
        assert!(provider_poll_due(s));
        assert_eq!(dispatch_status_for_runtime(s), "rendering");
    }
    for s in [S::Failed, S::Cancelled, S::Expired] {
        assert!(!provider_poll_due(s));
        assert_eq!(dispatch_status_for_runtime(s), "failed");
    }
    for s in [S::Importing, S::Succeeded] {
        assert_eq!(dispatch_status_for_runtime(s), "completed");
    }
}

#[test]
fn lifecycle_steps_follow_plan_methods() {
    let methods = vec![
        "enqueue_notification".to_string(),
        "upsert_provider_task".to_string(),
        "mark_provider_submitted".to_string(),
    ];
    assert_eq!(
        plan_lifecycle_side_effects(&methods),
        vec![
            LifecycleStep::MarkProviderSubmitted,
            LifecycleStep::UpsertProviderTask,
            LifecycleStep::EnqueueNotifications,
        ]
    );
    assert!(plan_lifecycle_side_effects(&Vec::new()).is_empty());
    assert!(marks_generation_succeeded(&vec!["mark_generation_succeeded".to_string()]));
    assert!(!marks_generation_succeeded(&methods));
    assert_eq!(provider_task_to_upsert(Some(" task-1 ")), Some("task-1".to_string()));
    assert_eq!(provider_task_to_upsert(Some("  ")), None);
}

#[test]
fn background_bounds_and_job_defaults() {
    assert_eq!(due_task_batch_limit(0), 1);
    assert_eq!(due_task_batch_limit(500), 100);
    assert_eq!(provider_poll_interval_seconds(1), 5);
    assert_eq!(provider_poll_interval_seconds(30), 30);
    assert_eq!(provider_poll_interval_seconds(7200), 3600);
    assert_eq!(notification_retry_seconds(100_000), 86_400);
    assert_eq!(generation_page_window(1000, -1), (100, 0));
    assert_eq!(job_resolution(&None), "1024x1024");
    assert_eq!(job_resolution(&Some("512x512".to_string())), "512x512");
    assert_eq!(job_style(&None), "default");
}

// ---------------------------------------------------------------------------
// vendor requests
// ---------------------------------------------------------------------------

#[test]
fn aspect_ratios_are_reduced() {
    assert_eq!(aspect_ratio_from_size(Some("1024x768")), Some("4:3".to_string()));
    assert_eq!(aspect_ratio_from_size(Some(" 1920 x 1080 ")), Some("16:9".to_string()));
    assert_eq!(aspect_ratio_from_size(Some("16:9")), Some("16:9".to_string()));
    assert_eq!(aspect_ratio_from_size(Some("1024x1024")), Some("1:1".to_string()));
    assert_eq!(aspect_ratio_from_size(Some("0x10")), None);
    assert_eq!(aspect_ratio_from_size(Some("-4:3")), None);
    assert_eq!(aspect_ratio_from_size(Some("4:3x2")), None);
    assert_eq!(aspect_ratio_from_size(Some("square")), None);
    assert_eq!(aspect_ratio_from_size(None), None);
}

#[test]
fn negative_prompts_are_folded_into_the_prompt() {
    assert_eq!(prompt_with_optional_negative(&plan(None, None)), "a cat");
    assert_eq!(prompt_with_optional_negative(&plan(None, Some("  "))), "a cat");
    assert_eq!(
        prompt_with_optional_negative(&plan(None, Some(" dogs "))),
        "a cat\n\nNegative prompt: dogs"
    );
}

#[test]
fn vendor_requests_take_parameters_before_plan_values() {
    let p = plan(Some("1024x768"), Some("dogs"));
    let openai = build_openai_image_generation_request(
        &p,
        OpenAiVendorParameters {
            quality: Some("standard".to_string()),
            response_format: None,
            size: None,
        },
    );
    assert_eq!(openai.model, "midjourney");
    assert_eq!(openai.n, Some(2));
    assert_eq!(openai.quality, Some("standard".to_string()));
    assert_eq!(openai.size, Some("1024x768".to_string()));
    assert!(openai_image_generation_sdk_supports_output_count());

    let mj = build_midjourney_image_generation_request(&p, SeededVendorParameters::default())
        .expect("midjourney");
    assert_eq!(mj.aspect_ratio, Some("4:3".to_string()));
    assert_eq!(mj.prompt, "a cat\n\nNegative prompt: dogs");
    assert_eq!(mj.style, Some("hd".to_string()));

    let payload = SeededVendorParameters {
        seed: Some(7),
        style: None,
        payload: Some("{}".to_string()),
    };
    assert!(reject_payload_for_non_vidu(&payload).is_err());
    let vidu = build_vidu_reference_to_image_request(&p, payload);
    assert_eq!(vidu.payload, Some("{}".to_string()));
    assert_eq!(vidu.seed, Some(7));
    assert_eq!(vidu.model, "midjourney");

    assert_eq!(
        build_nano_banana_image_generation_request(
            &p,
            SeededVendorParameters {
                seed: None,
                style: Some("anime".to_string()),
                payload: None,
            }
        )
        .err(),
        Some(ImageGenerationProviderError::UnsupportedParameter(
            "nano-banana only accepts seed in vendor parameters".to_string()
        ))
    );
    let nano = build_nano_banana_image_generation_request(&p, SeededVendorParameters::default())
        .expect("nano");
    assert_eq!(nano.images, None);
    assert_eq!(nano.size, Some("1024x768".to_string()));
}

#[test]
fn vendor_parameter_schemas_are_checked() {
    let mut p = plan(None, None);
    assert_eq!(check_vendor_parameter_schema(&p, OPENAI_VENDOR_SCHEMA), Ok(false));
    p.vendor_parameters = Some(ImageVendorParameters {
        schema: " openai.image-generation.v1 ".to_string(),
        values: serde_json::Value::Null,
    });
    assert_eq!(check_vendor_parameter_schema(&p, OPENAI_VENDOR_SCHEMA), Ok(true));
    p.vendor_parameters = Some(ImageVendorParameters {
        schema: "vidu.image-generation.v1".to_string(),
        values: serde_json::Value::Null,
    });
    assert_eq!(
        check_vendor_parameter_schema(&p, OPENAI_VENDOR_SCHEMA),
        Err(ImageGenerationProviderError::UnsupportedParameter(
            "vendor parameter schema vidu.image-generation.v1 is not valid for midjourney".to_string()
        ))
    );
}

// ---------------------------------------------------------------------------
// provider errors, paths and descriptor
// ---------------------------------------------------------------------------

#[test]
fn http_statuses_map_onto_provider_errors() {
    assert_eq!(status_error(408, "slow".to_string()), ImageGenerationProviderError::Timeout("slow".to_string()));
    assert_eq!(status_error(429, "busy".to_string()), ImageGenerationProviderError::RateLimited("busy".to_string()));
    assert_eq!(
        status_error(503, "down".to_string()),
        ImageGenerationProviderError::ProviderUnavailable("http status 503: down".to_string())
    );
    assert_eq!(
        status_error(404, "missing".to_string()),
        ImageGenerationProviderError::Rejected("http status 404: missing".to_string())
    );
    assert_eq!(
        http_status_error(400, b"bad \xff"),
        ImageGenerationProviderError::Rejected("http status 400: bad \u{FFFD}".to_string())
    );
    assert_eq!(
        map_sdk_error(SdkFailure::Http { timeout: true, message: "t".to_string() }),
        ImageGenerationProviderError::Timeout("t".to_string())
    );
    assert_eq!(
        map_sdk_error(SdkFailure::Http { timeout: false, message: "reset".to_string() }),
        ImageGenerationProviderError::Transport("reset".to_string())
    );
    assert_eq!(
        map_sdk_error(SdkFailure::HttpStatus { status: 500, body: "x".to_string() }),
        ImageGenerationProviderError::ProviderUnavailable("http status 500: x".to_string())
    );
    assert_eq!(
        map_sdk_error(SdkFailure::Serialization("eof".to_string())),
        ImageGenerationProviderError::InvalidProviderResponse("eof".to_string())
    );
    assert_eq!(
        map_sdk_error(SdkFailure::InvalidHeaderName("h".to_string())),
        ImageGenerationProviderError::Configuration("h".to_string())
    );
    assert_eq!(
        invalid_response("missing images"),
        ImageGenerationProviderError::InvalidProviderResponse("missing images".to_string())
    );
}

#[test]
fn embedded_paths_and_headers() {
    assert_eq!(
        create_dispatch_path(ImageProviderOperation::OpenAiImageGeneration),
        Ok("/v1/images/generations")
    );
    assert_eq!(
        create_dispatch_path(ImageProviderOperation::ProviderNativeImageGeneration),
        Err(ImageGenerationProviderError::UnsupportedCapability(
            "provider-native image generation".to_string()
        ))
    );
    assert_eq!(
        retrieve_dispatch_path(ImageProviderOperation::MidjourneyImageGeneration, "t1"),
        Ok("/v1/midjourney/v1/images/generations/t1".to_string())
    );
    assert_eq!(
        retrieve_dispatch_path(ImageProviderOperation::ViduReferenceToImageGeneration, "t2"),
        Ok("/v1/vidu/ent/v2/tasks/t2/creations".to_string())
    );
    assert_eq!(
        retrieve_dispatch_path(ImageProviderOperation::OpenAiImageGeneration, "t3"),
        Err(ImageGenerationProviderError::UnsupportedCapability("task retrieval".to_string()))
    );
    assert_eq!(
        dispatch_headers(Some("k"), true),
        vec![
            ("authorization".to_string(), "Bearer k".to_string()),
            ("content-type".to_string(), "application/json".to_string()),
        ]
    );
    assert!(dispatch_headers(None, false).is_empty());
    assert_eq!(normalize_api_key(Some("  key ")), Some("key".to_string()));
    assert_eq!(normalize_api_key(Some("   ")), None);
    let descriptor = adapter_descriptor(IMAGE_GENERATION_PROVIDER_ADAPTER_ID);
    assert_eq!(descriptor.id, IMAGE_GENERATION_PROVIDER_ADAPTER_ID);
    assert_eq!(descriptor.vendors, vec!["openai", "gpt-image", "midjourney", "nano-banana", "vidu"]);
    assert_eq!(descriptor.capabilities.len(), 7);
    assert_eq!(descriptor.capabilities[0], ImageGenerationProviderCapability::TextToImage);
}

// ---------------------------------------------------------------------------
// runtime
// ---------------------------------------------------------------------------

fn artifact(url: Option<&str>, uri: Option<&str>) -> ProviderArtifactRef {
    ProviderArtifactRef {
        output_index: 3,
        provider_url: url.map(str::to_string),
        provider_uri: uri.map(str::to_string),
        file_name: None,
        mime_type: None,
    }
}

#[test]
fn fetch_urls_fall_back_and_are_checked() {
    assert_eq!(
        resolve_fetch_url(&artifact(Some(" "), Some("https://cdn.example.com/a.png")))
            .expect("url"),
        "https://cdn.example.com/a.png"
    );
    assert_eq!(
        resolve_fetch_url(&artifact(Some(" https://CDN.Example.com/a b.png "), None)).expect("url"),
        "https://cdn.example.com/a%20b.png"
    );
    assert_eq!(
        resolve_fetch_url(&artifact(Some("http://cdn.example.com/a.png"), None)).unwrap_err(),
        "provider artifact url must use https"
    );
    assert_eq!(
        resolve_fetch_url(&artifact(None, None)).unwrap_err(),
        "provider artifact url is required"
    );
    assert!(resolve_fetch_url(&artifact(Some("not a url"), None))
        .unwrap_err()
        .starts_with("invalid provider artifact url: "));
    assert_eq!(
        resolve_fetch_url(&artifact(Some("ftp://x.example.com/a"), None)).unwrap_err(),
        "provider artifact url must use https"
    );
}

#[test]
fn fetched_artifacts_are_named_and_typed() {
    assert_eq!(artifact_file_name(&None, 3), "output-3.bin");
    assert_eq!(artifact_file_name(&Some(" ".to_string()), 0), "output-0.bin");
    assert_eq!(artifact_file_name(&Some("hero.png".to_string()), 0), "hero.png");
    assert_eq!(artifact_content_type(None), "application/octet-stream");
    assert_eq!(artifact_content_type(Some("image/png")), "image/png");
}

#[test]
fn drive_import_settings() {
    assert!(drive_import_enabled(None));
    assert!(drive_import_enabled(Some(" YES ")));
    assert!(drive_import_enabled(Some("1")));
    assert!(!drive_import_enabled(Some("false")));
    assert!(!drive_import_enabled(Some("enabled")));
    assert_eq!(object_store_root(None), ".data/image-drive-objects");
    assert_eq!(object_store_root(Some("/srv/drive".to_string())), "/srv/drive");
    assert_eq!(check_preparation_count(2, 2), Ok(()));
    assert_eq!(
        check_preparation_count(2, 1),
        Err(ImageRuntimeError::Validation(
            "drive import preparations must match import plan items".to_string()
        ))
    );
    assert_eq!(
        check_preparation_index(0, 1),
        Err(ImageRuntimeError::Validation(
            "drive import preparation output_index mismatch".to_string()
        ))
    );
    let done = completed_import(1, "space-1", "node-9", None);
    assert_eq!(done.drive_uri, "drive://spaces/space-1/nodes/node-9");
    assert_eq!(done.checksum_sha256_hex, "");
}

#[test]
fn deployment_environment_flags() {
    assert_eq!(environment_name(None, None), "development");
    assert_eq!(environment_name(None, Some("staging".to_string())), "staging");
    assert_eq!(environment_name(Some("prod".to_string()), Some("x".to_string())), "prod");
    assert!(is_production_environment(" Production "));
    assert!(is_production_environment("PROD"));
    assert!(!is_production_environment("development"));
}

// ---------------------------------------------------------------------------
// generation service
// ---------------------------------------------------------------------------

fn runtime_subject(tenant: &str) -> sdkwork_image::subject::RuntimeSubject {
    sdkwork_image::subject::RuntimeSubject {
        tenant_id: tenant.to_string(),
        organization_id: None,
        user_id: "42".to_string(),
    }
}

#[test]
fn generation_service_reads_and_cancels() {
    let mut repo = InMemoryGenerationProjectionRepository::new();
    repo.insert(record("1", "gen-a", "rendering")).expect("insert");
    repo.insert(record("1", "gen-b", "succeeded")).expect("insert");
    repo.insert(record("2", "gen-c", "queued")).expect("insert");
    let mut service = sdkwork_image::generation_service::ImageGenerationService::new(repo);
    let subject = runtime_subject("1");
    assert_eq!(service.get_generation(&subject, " gen-a ").expect("get").status, "rendering");
    assert_eq!(
        service.get_generation(&subject, "gen-c"),
        Err(ImageGenerationServiceError::NotFound)
    );
    assert_eq!(service.list_generations(&subject, 1, 20).expect("list").len(), 2);
    assert_eq!(
        service.cancel_generation(&subject, "gen-b", None),
        Err(ImageGenerationServiceError::Conflict(
            "generation cannot be cancelled in status succeeded".to_string()
        ))
    );
    assert_eq!(
        service.cancel_generation(&subject, "gen-z", None),
        Err(ImageGenerationServiceError::NotFound)
    );
    let cancelled = service
        .cancel_generation(&subject, "gen-a", Some("no longer needed".to_string()))
        .expect("cancel");
    assert_eq!(cancelled.status, "cancel_requested");
    let read = service.get_generation(&subject, "gen-a").expect("read");
    assert_eq!(read, cancelled);
    assert_eq!(
        read.metadata,
        Some(ImageGenerationMetadata {
            cancel_reason: Some("no longer needed".to_string())
        })
    );
}

fn artifact_for(index: i32) -> CompletedDriveImportArtifact {
    CompletedDriveImportArtifact {
        output_index: index,
        drive_node_id: format!("imported-{index}"),
        drive_uri: format!("drive://imported/{index}"),
        checksum_sha256_hex: "00".to_string(),
    }
}

fn dispatch_result() -> sdkwork_image::generation_service::GenerationDispatchResult {
    sdkwork_image::generation_service::GenerationDispatchResult {
        record: GenerationRecordSummary {
            status: ImageGenerationRuntimeStatus::Importing,
            scene: "hero".to_string(),
            provider_code: "openai".to_string(),
            provider_task_id: None,
            provider_status: Some("succeeded".to_string()),
            drive_space_id: Some("space-1".to_string()),
            output_count: 1,
        },
        drive_sync_status: "pending".to_string(),
        provider_result: openai_generation_result("openai", vec![media(0)]),
        drive_import_plans: vec![plan_item(0)],
        import_plan: DriveImportPlan {
            generation_id: "gen-new".to_string(),
            provider_code: "openai".to_string(),
            items: vec![plan_item(0)],
        },
    }
}

#[test]
fn generation_service_stores_created_generations() {
    let mut service = sdkwork_image::generation_service::ImageGenerationService::new(
        InMemoryGenerationProjectionRepository::new(),
    );
    let subject = runtime_subject("1");
    let refused = service.complete_create(
        &subject,
        "gen-new",
        &dispatch_result(),
        None,
        serde_json::Value::Null,
        None,
    );
    assert_eq!(
        refused,
        Err(ImageGenerationServiceError::Planning(
            "provider request snapshot is required".to_string()
        ))
    );
    assert_eq!(
        service.get_generation(&subject, "gen-new"),
        Err(ImageGenerationServiceError::NotFound)
    );
    let completed = vec![artifact_for(0)];
    let created = service
        .complete_create(
            &subject,
            "gen-new",
            &dispatch_result(),
            Some(&completed),
            serde_json::Value::Null,
            Some(serde_json::Value::Bool(true)),
        )
        .expect("create");
    assert_eq!(created.status, "importing");
    assert_eq!(created.drive_sync_status, "imported");
    assert_eq!(created.outputs[0].sync_status, "imported");
    assert_eq!(created.outputs[0].drive_node_id, Some("imported-0".to_string()));
    assert_eq!(created.drive_space_id, Some("space-1".to_string()));
    assert_eq!(service.get_generation(&subject, "gen-new").expect("read"), created);
    let stored = service.store().get("1", "gen-new").expect("get").expect("present");
    assert_eq!(stored.provider_request, serde_json::Value::Bool(true));
    assert_eq!(
        stored.scope.actor,
        ImageGenerationActor::User {
            user_id: "42".to_string()
        }
    );
    let without_imports = service
        .complete_create(
            &subject,
            "gen-plain",
            &dispatch_result(),
            None,
            serde_json::Value::Null,
            Some(serde_json::Value::Null),
        )
        .expect("create");
    assert_eq!(without_imports.drive_sync_status, "pending");
    assert_eq!(without_imports.outputs[0].sync_status, "pending");
    assert_eq!(without_imports.outputs[0].drive_node_id, Some("node-0".to_string()));
}

#[test]
fn generation_service_refreshes_generations() {
    let mut repo = InMemoryGenerationProjectionRepository::new();
    repo.insert(record("1", "gen-a", "rendering")).expect("insert");
    let mut untracked = record("1", "gen-b", "rendering");
    untracked.wire.provider_task_id = None;
    repo.insert(untracked).expect("insert");
    let mut service = sdkwork_image::generation_service::ImageGenerationService::new(repo);
    let subject = runtime_subject("1");
    let command = |task: Option<&str>| sdkwork_image::generation::ImageGenerationRefreshCommandWire {
        provider_task_id: task.map(str::to_string),
    };
    assert!(matches!(
        service.prepare_refresh(&subject, "gen-z", command(None)),
        Err(ImageGenerationServiceError::NotFound)
    ));
    assert!(matches!(
        service.prepare_refresh(&subject, "gen-b", command(None)),
        Err(ImageGenerationServiceError::Validation(m)) if m == "provider_task_id is required for refresh"
    ));
    let request = service
        .prepare_refresh(&subject, " gen-a ", command(None))
        .expect("prepare");
    assert_eq!(request.provider_task_id, "task-1");
    assert_eq!(request.stored.status, "rendering");
    let overridden = service
        .prepare_refresh(&subject, "gen-a", command(Some("task-9")))
        .expect("prepare");
    assert_eq!(overridden.provider_task_id, "task-9");

    let result = NormalizedProviderGenerationResult {
        provider_code: "midjourney".to_string(),
        provider_task_id: Some("task-1".to_string()),
        provider_status: Some("SUCCESS".to_string()),
        status: ImageGenerationRuntimeStatus::Importing,
        provider_terminal: true,
        ready_for_drive_import: true,
        outputs: vec![media(0), media(1)],
        error_code: None,
        error_message: None,
    };
    let plan = DriveImportPlan {
        generation_id: "gen-a".to_string(),
        provider_code: "midjourney".to_string(),
        items: vec![plan_item(0), plan_item(1)],
    };
    let completed = vec![artifact_for(1)];
    let missing = service.complete_refresh(
        &subject,
        "gen-z",
        &request.stored,
        &result,
        "pending",
        &plan,
        None,
        serde_json::Value::Null,
    );
    assert_eq!(missing, Err(ImageGenerationServiceError::NotFound));
    let refreshed = service
        .complete_refresh(
            &subject,
            "gen-a",
            &request.stored,
            &result,
            "pending",
            &plan,
            Some(&completed),
            serde_json::Value::Bool(false),
        )
        .expect("refresh");
    assert_eq!(refreshed.status, "importing");
    assert_eq!(refreshed.output_asset_count, 2);
    assert_eq!(refreshed.drive_space_id, Some("space-1".to_string()));
    assert_eq!(refreshed.outputs[0].sync_status, "pending");
    assert_eq!(refreshed.outputs[0].drive_node_id, Some("node-0".to_string()));
    assert_eq!(refreshed.outputs[1].sync_status, "imported");
    assert_eq!(refreshed.outputs[1].drive_node_id, Some("imported-1".to_string()));
    assert_eq!(refreshed.drive_sync_status, "pending");
    assert_eq!(service.get_generation(&subject, "gen-a").expect("read"), refreshed);
    let stored = service.store().get("1", "gen-a").expect("get").expect("present");
    assert_eq!(stored.persistence, serde_json::Value::Bool(false));
    assert_eq!(stored.provider_request, serde_json::Value::Bool(true));
}

#[test]
fn provider_requests_follow_the_plan_operation() {
    let seeded = |style: Option<&str>, payload: Option<&str>| SeededVendorParameters {
        seed: Some(7),
        style: style.map(str::to_string),
        payload: payload.map(str::to_string),
    };
    let mut p = plan(Some("1024x768"), Some(" blurry "));
    match build_provider_request(&p, OpenAiVendorParameters::default(), seeded(None, None)) {
        Ok(ProviderRequest::Midjourney(q)) => {
            assert_eq!(q.aspect_ratio, Some("4:3".to_string()));
            assert_eq!(q.prompt, "a cat\n\nNegative prompt: blurry");
            assert_eq!(q.seed, Some(7));
            assert_eq!(q.style, Some("hd".to_string()));
        }
        _ => panic!("expected a Midjourney request"),
    }
    assert!(matches!(
        build_provider_request(&p, OpenAiVendorParameters::default(), seeded(None, Some("x"))),
        Err(ImageGenerationProviderError::UnsupportedParameter(m))
            if m == "payload is only supported by the vidu image adapter"
    ));
    p.provider_operation = ImageProviderOperation::NanoBananaImageGeneration;
    assert!(matches!(
        build_provider_request(&p, OpenAiVendorParameters::default(), seeded(Some("s"), None)),
        Err(ImageGenerationProviderError::UnsupportedParameter(m))
            if m == "nano-banana only accepts seed in vendor parameters"
    ));
    match build_provider_request(&p, OpenAiVendorParameters::default(), seeded(None, None)) {
        Ok(ProviderRequest::NanoBanana(q)) => {
            assert_eq!(q.images, None);
            assert_eq!(q.size, Some("1024x768".to_string()));
        }
        _ => panic!("expected a Nano Banana request"),
    }
    p.provider_operation = ImageProviderOperation::ViduReferenceToImageGeneration;
    match build_provider_request(&p, OpenAiVendorParameters::default(), seeded(None, Some("raw"))) {
        Ok(ProviderRequest::Vidu(q)) => {
            assert_eq!(q.payload, Some("raw".to_string()));
            assert_eq!(q.model, "midjourney");
        }
        _ => panic!("expected a Vidu request"),
    }
    p.provider_operation = ImageProviderOperation::OpenAiImageGeneration;
    let openai = OpenAiVendorParameters {
        quality: None,
        response_format: Some("b64_json".to_string()),
        size: None,
    };
    match build_provider_request(&p, openai, seeded(None, Some("ignored"))) {
        Ok(ProviderRequest::OpenAi(q)) => {
            assert_eq!(q.n, Some(2));
            assert_eq!(q.prompt, "a cat");
            assert_eq!(q.response_format, Some("b64_json".to_string()));
            assert_eq!(q.quality, Some("hd".to_string()));
        }
        _ => panic!("expected an OpenAI request"),
    }
    p.provider_operation = ImageProviderOperation::ProviderNativeImageGeneration;
    assert!(matches!(
        build_provider_request(&p, OpenAiVendorParameters::default(), seeded(None, None)),
        Err(ImageGenerationProviderError::UnsupportedCapability(m))
            if m == "provider-native image generation"
    ));
    assert_eq!(vendor_schema_for(ImageProviderOperation::ProviderNativeImageGeneration), None);
    assert_eq!(
        vendor_schema_for(ImageProviderOperation::OpenAiImageGeneration),
        Some(OPENAI_VENDOR_SCHEMA)
    );
    let descriptor = adapter_descriptor(IMAGE_GENERATION_PROVIDER_ADAPTER_ID);
    assert!(descriptor.supports_vendor("nano-banana"));
    assert!(!descriptor.supports_vendor("dall-e"));
    assert_eq!(descriptor.check_vendor("vidu"), Ok(()));
    assert_eq!(
        descriptor.check_vendor("dall-e"),
        Err(ImageGenerationProviderError::UnsupportedVendor("dall-e".to_string()))
    );
}

#[test]
fn the_last_import_of_an_output_sets_its_drive_location() {
    let plan = DriveImportPlan {
        generation_id: "gen-1".to_string(),
        provider_code: "openai".to_string(),
        items: vec![plan_item(0)],
    };
    let mut w = wire("importing", vec![output_wire(0, "pending")]);
    apply_completed_drive_imports(&mut w, &vec![artifact_for(0), artifact_for(0)], &plan);
    assert_eq!(w.outputs[0].drive_uri, Some("drive://imported/0".to_string()));
    let mut again = wire("importing", vec![output_wire(0, "pending")]);
    let second = CompletedDriveImportArtifact {
        output_index: 0,
        drive_node_id: "second".to_string(),
        drive_uri: "drive://second".to_string(),
        checksum_sha256_hex: String::new(),
    };
    apply_completed_drive_imports(&mut again, &vec![artifact_for(0), second], &plan);
    assert_eq!(again.outputs[0].sync_status, "imported");
    assert_eq!(again.outputs[0].drive_node_id, Some("second".to_string()));
    assert_eq!(again.outputs[0].drive_uri, Some("drive://second".to_string()));
    assert_eq!(again.drive_sync_status, "imported");
}

#[test]
fn job_rows_read_scope_numbers_then_require_the_input() {
    let scope = |tenant: &str, org: Option<&str>, user: &str| ImageGenerationScope {
        tenant_id: tenant.to_string(),
        organization_id: org.map(str::to_string),
        actor: ImageGenerationActor::User {
            user_id: user.to_string(),
        },
    };
    let input = sdkwork_image::projection::JobInputFields {
        resolution: None,
        style: Some("anime".to_string()),
    };
    let plan = sdkwork_image::projection::plan_job_insert(&scope(" 7 ", Some(" "), "42"), Some(&input))
        .expect("plan");
    assert_eq!(
        (plan.tenant_id, plan.organization_id, plan.user_id),
        (7, 0, 42)
    );
    assert_eq!(plan.resolution, "1024x1024");
    assert_eq!(plan.style, "anime");
    assert!(matches!(
        sdkwork_image::projection::plan_job_insert(&scope("7", Some("9"), "42"), None),
        Err(RepositoryError::Validation(m)) if m == "input snapshot is required"
    ));
    assert!(matches!(
        sdkwork_image::projection::plan_job_insert(&scope("x", None, "42"), None),
        Err(RepositoryError::Validation(m)) if m == "tenant_id must be a numeric identifier"
    ));
    assert!(matches!(
        sdkwork_image::projection::plan_job_insert(&scope("7", Some("o"), "42"), Some(&input)),
        Err(RepositoryError::Validation(m)) if m == "organization_id must be a numeric identifier"
    ));
    assert!(matches!(
        sdkwork_image::projection::plan_job_insert(&scope("7", None, " "), Some(&input)),
        Err(RepositoryError::Validation(m)) if m == "user_id is required"
    ));
}
