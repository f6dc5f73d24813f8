use sdkwork_image::api::{
    assembly_route_count, context_trace_id, list_page, map_catalog_error as api_catalog_status,
    map_edit_task_command, map_gallery_item_command, map_service_error as api_service_status,
    offset_page_info, ApiResultCode, ImageOperationCommandWire, PageMode,
};
use sdkwork_image::generation::ImageGenerationServiceError as E;
use sdkwork_image::catalog::{
    catalog_page_window, map_edit_task_status, scope_ids, search_pattern, validate_edit_task_command,
    ImageAssetRecord, ImageCatalogRepository, ImageCatalogScope, ImageEditTaskCreateCommand,
    ImageGalleryItemCreateCommand, ImageGalleryRecord, ImagePresetRecord,
    InMemoryImageCatalogRepository,
};
use sdkwork_image::catalog_service::{
    catalog_scope, list_offset, map_catalog_error, ImageCatalogService, ImageCatalogServiceError,
};
use sdkwork_image::scope::{
    actor_user_id, organization_id, organization_scope_id, parse_scope_id, ImageGenerationActor,
    ImageGenerationScope, RepositoryError,
};
use sdkwork_image::subject::{
    required_text, runtime_subject_from_extension, runtime_subject_from_iam, IamAppContext,
    RuntimeSubject,
};
use sdkwork_image::text::{
    i64_to_text, is_blank, parse_i64, text_eq, to_ascii_lowercase, trim,
};

fn subject() -> RuntimeSubject {
    RuntimeSubject {
        tenant_id: "100001".to_string(),
        organization_id: None,
        user_id: "42".to_string(),
    }
}

fn preset(id: &str) -> ImagePresetRecord {
    ImagePresetRecord {
        preset_id: id.to_string(),
        preset_key: format!("key-{id}"),
        title: "Hero".to_string(),
        description: None,
        default_resolution: "1024x1024".to_string(),
        default_style: "default".to_string(),
        item_count: 0,
    }
}

fn asset(id: &str) -> ImageAssetRecord {
    ImageAssetRecord {
        asset_id: id.to_string(),
        title: Some("Sunset".to_string()),
        prompt: None,
        resolution: None,
        mime_type: Some("image/png".to_string()),
        provenance: "generated".to_string(),
    }
}

fn gallery(id: &str) -> ImageGalleryRecord {
    ImageGalleryRecord {
        gallery_id: id.to_string(),
        gallery_key: "favorites".to_string(),
        title: "Favorites".to_string(),
        description: None,
        item_count: 0,
    }
}

// ---------------------------------------------------------------------------
// text
// ---------------------------------------------------------------------------

#[test]
fn trim_removes_unicode_whitespace_at_both_ends() {
    assert_eq!(trim(" \t\u{3000}hello world\u{00A0}\n"), "hello world");
    assert_eq!(trim("   "), "");
    assert_eq!(trim("x"), "x");
    assert!(is_blank(" \u{2003} "));
    assert!(!is_blank(" a "));
}

#[test]
fn parse_i64_matches_std_parsing() {
    for text in ["0", "42", "+7", "-19", "9223372036854775807", "-9223372036854775808"] {
        assert_eq!(parse_i64(text), text.parse::<i64>().ok(), "{text}");
    }
    for text in ["", "-", "+", "12a", " 1", "9223372036854775808", "-9223372036854775809", "1.5"] {
        assert_eq!(parse_i64(text), None, "{text}");
        assert!(text.parse::<i64>().is_err());
    }
}

#[test]
fn decimal_text_round_trips_through_parsing() {
    for n in [0_i64, 7, -7, 1024, i64::MAX, i64::MIN] {
        let text = i64_to_text(n);
        assert_eq!(text, n.to_string());
        assert_eq!(parse_i64(&text), Some(n));
    }
}

#[test]
fn ascii_lowercase_and_text_equality() {
    assert_eq!(to_ascii_lowercase("TrUe Ä"), "true Ä");
    assert!(text_eq("abc", "abc"));
    assert!(!text_eq("abc", "abd"));
    assert!(!text_eq("abc", "ab"));
}

// ---------------------------------------------------------------------------
// scope
// ---------------------------------------------------------------------------

#[test]
fn parse_scope_id_reads_trimmed_numbers() {
    assert_eq!(parse_scope_id(" 100001 ", "tenant_id"), Ok(100001));
    assert_eq!(
        parse_scope_id("  ", "tenant_id"),
        Err(RepositoryError::Validation("tenant_id is required".to_string()))
    );
    assert_eq!(
        parse_scope_id("user-001", "user_id"),
        Err(RepositoryError::Validation(
            "user_id must be a numeric identifier".to_string()
        ))
    );
}

#[test]
fn organization_and_actor_identifiers() {
    assert_eq!(organization_scope_id(None), Ok(0));
    assert_eq!(organization_scope_id(Some(" ")), Ok(0));
    assert_eq!(organization_scope_id(Some("55")), Ok(55));
    assert_eq!(
        actor_user_id(&ImageGenerationActor::Anonymous {
            anonymous_id: "anonymous".to_string()
        }),
        Ok(0)
    );
    assert_eq!(
        actor_user_id(&ImageGenerationActor::System {
            operator_id: "9".to_string()
        }),
        Ok(9)
    );
    let scope = ImageGenerationScope {
        tenant_id: "1".to_string(),
        organization_id: Some("x".to_string()),
        actor: ImageGenerationActor::User {
            user_id: "2".to_string(),
        },
    };
    assert_eq!(
        organization_id(&scope),
        Err(RepositoryError::Validation(
            "organization_id must be a numeric identifier".to_string()
        ))
    );
}

// ---------------------------------------------------------------------------
// subject
// ---------------------------------------------------------------------------

#[test]
fn runtime_subject_requires_tenant_and_user() {
    let subject = runtime_subject_from_iam(&IamAppContext {
        tenant_id: " 100001 ".to_string(),
        organization_id: Some("  ".to_string()),
        user_id: "42".to_string(),
    })
    .expect("subject");
    assert_eq!(subject.tenant_id, "100001");
    assert_eq!(subject.organization_id, None);
    assert_eq!(subject.user_id, "42");

    let error = runtime_subject_from_iam(&IamAppContext {
        tenant_id: "".to_string(),
        organization_id: None,
        user_id: "".to_string(),
    })
    .unwrap_err();
    assert_eq!(error, "authenticated runtime context tenant_id is required");
    assert_eq!(
        required_text(" ", "user_id"),
        Err("authenticated runtime context user_id is required".to_string())
    );
    assert_eq!(
        runtime_subject_from_extension(None),
        Err("authenticated runtime context is required".to_string())
    );
}

// ---------------------------------------------------------------------------
// catalog and catalog service
// ---------------------------------------------------------------------------

#[test]
fn in_memory_catalog_creates_and_reads_edit_tasks() {
    let mut repo = InMemoryImageCatalogRepository::new();
    let scope = catalog_scope(&subject());
    let task = repo
        .create_edit_task(
            &scope,
            ImageEditTaskCreateCommand {
                source_asset_id: "asset-1".to_string(),
                edit_type: "upscale".to_string(),
                prompt: "sharper".to_string(),
                negative_prompt: None,
            },
        )
        .expect("task");
    assert_eq!(task.task_id, "edit-asset-1");
    assert_eq!(task.status, "queued");
    let read = repo.get_edit_task(&scope, "edit-asset-1").expect("read");
    assert_eq!(read, Some(task));
    assert_eq!(repo.get_edit_task(&scope, "edit-missing").expect("read"), None);
}

#[test]
fn in_memory_catalog_creates_gallery_items() {
    let mut repo = InMemoryImageCatalogRepository::new();
    let scope = catalog_scope(&subject());
    let item = repo
        .create_gallery_item(
            &scope,
            "gallery-1",
            ImageGalleryItemCreateCommand {
                asset_id: "asset-1".to_string(),
                caption: Some("first".to_string()),
                sort_order: None,
            },
        )
        .expect("item");
    assert_eq!(item.item_id, "item-gallery-1-asset-1");
    assert_eq!(item.gallery_id, "gallery-1");
    assert_eq!(item.sort_order, 0);
    assert_eq!(repo.gallery_items(), vec![item]);
}

#[test]
fn catalog_service_trims_ids_and_reports_missing_records() {
    let repo = InMemoryImageCatalogRepository::with_records(
        vec![preset("preset-1"), preset("preset-2")],
        vec![asset("asset-1")],
        vec![gallery("gallery-1")],
    );
    let service = ImageCatalogService::new(repo);
    let subject = subject();
    assert_eq!(
        service.get_preset(&subject, "  preset-2 ").expect("preset").preset_id,
        "preset-2"
    );
    assert_eq!(
        service.get_asset(&subject, "asset-9"),
        Err(ImageCatalogServiceError::NotFound)
    );
    assert_eq!(
        service.get_gallery(&subject, "gallery-1").expect("gallery").title,
        "Favorites"
    );
    assert_eq!(
        service
            .list_presets(&subject, 0, 20, Some("hero".to_string()))
            .expect("presets")
            .len(),
        2
    );
    assert_eq!(service.list_assets(&subject, 3, 10, None).expect("assets").len(), 1);
    assert_eq!(service.list_galleries(&subject, 1, 10, None).expect("galleries").len(), 1);
}

#[test]
fn catalog_service_validates_gallery_items_and_creates_edit_tasks() {
    let mut service = ImageCatalogService::new(InMemoryImageCatalogRepository::new());
    let subject = subject();
    let refused = service.create_gallery_item(
        &subject,
        "gallery-1",
        ImageGalleryItemCreateCommand {
            asset_id: "  ".to_string(),
            caption: None,
            sort_order: Some(3),
        },
    );
    assert_eq!(
        refused,
        Err(ImageCatalogServiceError::Validation("assetId is required".to_string()))
    );
    assert!(service.store().gallery_items().is_empty());
    let item = service
        .create_gallery_item(
            &subject,
            " gallery-1 ",
            ImageGalleryItemCreateCommand {
                asset_id: "asset-1".to_string(),
                caption: None,
                sort_order: Some(3),
            },
        )
        .expect("item");
    assert_eq!(item.gallery_id, "gallery-1");
    assert_eq!(item.sort_order, 3);
    let task = service
        .create_edit_task(
            &subject,
            ImageEditTaskCreateCommand {
                source_asset_id: "asset-1".to_string(),
                edit_type: "inpaint".to_string(),
                prompt: "remove logo".to_string(),
                negative_prompt: None,
            },
        )
        .expect("task");
    assert_eq!(service.get_edit_task(&subject, " edit-asset-1 "), Ok(task));
}

#[test]
fn catalog_errors_and_messages() {
    assert_eq!(map_catalog_error(RepositoryError::NotFound), ImageCatalogServiceError::NotFound);
    assert_eq!(
        map_catalog_error(RepositoryError::Conflict("dup".to_string())),
        ImageCatalogServiceError::Persistence("dup".to_string())
    );
    assert_eq!(
        map_catalog_error(RepositoryError::Validation("bad".to_string())),
        ImageCatalogServiceError::Validation("bad".to_string())
    );
    assert_eq!(
        ImageCatalogServiceError::Validation("bad".to_string()).message(),
        "validation failed: bad"
    );
    assert_eq!(ImageCatalogServiceError::NotFound.message(), "resource not found");
    assert_eq!(
        ImageCatalogServiceError::Persistence("db".to_string()).message(),
        "persistence failed: db"
    );
}

#[test]
fn list_offsets_count_pages_from_one() {
    assert_eq!(list_offset(1, 20), 0);
    assert_eq!(list_offset(0, 20), 0);
    assert_eq!(list_offset(-4, 20), 0);
    assert_eq!(list_offset(3, 25), 50);
}

#[test]
fn sql_catalog_rules() {
    assert_eq!(map_edit_task_status(1), "queued");
    assert_eq!(map_edit_task_status(2), "rendering");
    assert_eq!(map_edit_task_status(3), "ready");
    assert_eq!(map_edit_task_status(0), "failed");
    assert_eq!(catalog_page_window(0, -5), (1, 0));
    assert_eq!(catalog_page_window(500, 10), (200, 10));
    assert_eq!(search_pattern(Some("  cat ")), Some("%cat%".to_string()));
    assert_eq!(search_pattern(Some("   ")), None);
    assert_eq!(search_pattern(None), None);
    let scope = ImageCatalogScope {
        tenant_id: "7".to_string(),
        organization_id: Some("8".to_string()),
        user_id: "9".to_string(),
    };
    assert_eq!(scope_ids(&scope), Ok((7, 8)));
    let command = ImageEditTaskCreateCommand {
        source_asset_id: "a".to_string(),
        edit_type: " ".to_string(),
        prompt: "".to_string(),
        negative_prompt: None,
    };
    assert_eq!(
        validate_edit_task_command(&command),
        Err(RepositoryError::Validation("edit_type is required".to_string()))
    );
}

// ---------------------------------------------------------------------------
// api
// ---------------------------------------------------------------------------

#[test]
fn api_maps_failures_onto_statuses() {
    assert_eq!(api_service_status(&E::Validation("x".to_string())), (400, ApiResultCode::ValidationError));
    assert_eq!(api_service_status(&E::NotFound), (404, ApiResultCode::NotFound));
    assert_eq!(api_service_status(&E::Dispatch("x".to_string())), (502, ApiResultCode::BadGateway));
    assert_eq!(api_service_status(&E::Planning("x".to_string())), (502, ApiResultCode::BadGateway));
    assert_eq!(api_service_status(&E::DriveImport("x".to_string())), (502, ApiResultCode::BadGateway));
    assert_eq!(api_service_status(&E::Conflict("x".to_string())), (409, ApiResultCode::Conflict));
    assert_eq!(api_service_status(&E::Persistence("x".to_string())), (500, ApiResultCode::InternalError));
    assert_eq!(
        api_catalog_status(&ImageCatalogServiceError::NotFound),
        (404, ApiResultCode::NotFound)
    );
    assert_eq!(
        api_catalog_status(&ImageCatalogServiceError::Persistence("x".to_string())),
        (500, ApiResultCode::InternalError)
    );
}

#[test]
fn api_paging_defaults_and_bounds() {
    assert_eq!(list_page(None, None, 100), (1, 20));
    assert_eq!(list_page(Some(-3), Some(1000), 100), (1, 100));
    assert_eq!(list_page(Some(4), Some(0), 200), (4, 1));
    let info = offset_page_info(2, 20, Some(35));
    assert_eq!(info.mode, PageMode::Offset);
    assert_eq!(info.page, Some(2));
    assert_eq!(info.page_size, Some(20));
    assert_eq!(info.total_items, Some("35".to_string()));
    assert_eq!(offset_page_info(1, 20, None).total_items, None);
}

#[test]
fn api_operation_bodies_are_validated() {
    let body = ImageOperationCommandWire {
        asset_id: Some(" ".to_string()),
        caption: None,
        sort_order: None,
        source_asset_id: Some("asset-1".to_string()),
        edit_type: Some("upscale".to_string()),
        prompt: None,
        negative_prompt: Some("blur".to_string()),
    };
    assert_eq!(
        map_gallery_item_command(ImageOperationCommandWire {
            asset_id: Some(" ".to_string()),
            caption: None,
            sort_order: None,
            source_asset_id: None,
            edit_type: None,
            prompt: None,
            negative_prompt: None,
        }),
        Err(ImageCatalogServiceError::Validation("assetId is required".to_string()))
    );
    assert_eq!(
        map_edit_task_command(body),
        Err(ImageCatalogServiceError::Validation("prompt is required".to_string()))
    );
    let command = map_edit_task_command(ImageOperationCommandWire {
        asset_id: None,
        caption: None,
        sort_order: None,
        source_asset_id: Some("asset-1".to_string()),
        edit_type: Some("upscale".to_string()),
        prompt: Some("sharper".to_string()),
        negative_prompt: Some("blur".to_string()),
    })
    .expect("command");
    assert_eq!(command.source_asset_id, "asset-1");
    assert_eq!(command.negative_prompt, Some("blur".to_string()));
    assert_eq!(
        map_edit_task_command(ImageOperationCommandWire {
            asset_id: None,
            caption: None,
            sort_order: None,
            source_asset_id: None,
            edit_type: None,
            prompt: None,
            negative_prompt: None,
        }),
        Err(ImageCatalogServiceError::Validation("sourceAssetId is required".to_string()))
    );
}

#[test]
fn api_trace_ids_and_route_count() {
    assert_eq!(context_trace_id(Some("trace-1".to_string())), Some("trace-1".to_string()));
    assert_eq!(context_trace_id(Some("  ".to_string())), None);
    assert_eq!(context_trace_id(None), None);
    assert_eq!(assembly_route_count(), 3);
}
