//! The image storage catalog: which tables the image domain owns, the SQL
//! migrations that create them, the capability manifest that advertises them,
//! and the SQL contract of the generation repository.
use vstd::prelude::*;

verus! {

/// File name of the foundation migration.
pub const IMAGE_INITIAL_MIGRATION: &'static str = "0001_image_foundation.sql";

/// File name of the generation runtime migration.
pub const IMAGE_RUNTIME_MIGRATION: &'static str = "0002_image_generation_drive_runtime.sql";

/// A repository of the image domain and the tables it writes.
#[derive(Clone, Debug, Eq, PartialEq)]
pub struct ImageRepositoryBinding {
    pub domain: &'static str,
    pub repository_name: &'static str,
    pub tables: Vec<&'static str>,
    pub requires_transaction: bool,
}

/// What the image storage offers to a host: tables, migrations and bindings.
#[derive(Clone, Debug, Eq, PartialEq)]
pub struct ImageStorageCapabilityManifest {
    pub name: &'static str,
    pub schema_version: &'static str,
    pub tables: Vec<&'static str>,
    pub generation_tables: Vec<&'static str>,
    pub asset_tables: Vec<&'static str>,
    pub gallery_tables: Vec<&'static str>,
    pub migrations: Vec<&'static str>,
    pub repository_bindings: Vec<ImageRepositoryBinding>,
}

/// One named SQL statement of a repository.
#[derive(Clone, Debug, Eq, PartialEq)]
pub struct ImageRepositorySqlMethod {
    pub name: &'static str,
    pub sql: &'static str,
}

/// The SQL statements that keep generation state consistent.
#[derive(Clone, Debug, Eq, PartialEq)]
pub struct ImageGenerationRepositorySqlContract {
    pub repository_name: &'static str,
    pub requires_transaction: bool,
    pub methods: Vec<ImageRepositorySqlMethod>,
}

/// The tables of image generation, in declaration order.
pub open spec fn generation_table_names() -> Seq<&'static str> {
    seq![
        "image_preset",
        "image_generation_job",
        "image_generation_output",
        "image_provider_binding",
        "image_provider_task",
        "image_provider_webhook_event",
        "image_notification_outbox",
        "image_edit_task",
    ]
}

/// The tables of image assets.
pub open spec fn asset_table_names() -> Seq<&'static str> {
    seq!["image_asset"]
}

/// The tables of image galleries.
pub open spec fn gallery_table_names() -> Seq<&'static str> {
    seq!["image_gallery", "image_gallery_item"]
}

/// Every table of the image database: generation, then asset, then gallery.
pub open spec fn database_table_names() -> Seq<&'static str> {
    generation_table_names() + asset_table_names() + gallery_table_names()
}

/// The tables of image generation.
pub fn image_generation_tables() -> (tables: Vec<&'static str>)
    ensures
        tables@ == generation_table_names(),
{
    let tables = vec![
        "image_preset",
        "image_generation_job",
        "image_generation_output",
        "image_provider_binding",
        "image_provider_task",
        "image_provider_webhook_event",
        "image_notification_outbox",
        "image_edit_task",
    ];
    assert(tables@ =~= generation_table_names());
    tables
}

/// The tables of image assets.
pub fn image_asset_tables() -> (tables: Vec<&'static str>)
    ensures
        tables@ == asset_table_names(),
{
    let tables = vec!["image_asset"];
    assert(tables@ =~= asset_table_names());
    tables
}

/// The tables of image galleries.
pub fn image_gallery_tables() -> (tables: Vec<&'static str>)
    ensures
        tables@ == gallery_table_names(),
{
    let tables = vec!["image_gallery", "image_gallery_item"];
    assert(tables@ =~= gallery_table_names());
    tables
}

/// Every table of the image database.
pub fn image_database_tables() -> (tables: Vec<&'static str>)
    ensures
        tables@ == database_table_names(),
{
    let mut tables = image_generation_tables();
    let mut assets = image_asset_tables();
    let mut galleries = image_gallery_tables();
    tables.append(&mut assets);
    tables.append(&mut galleries);
    tables
}

/// The text starts with the given prefix.
pub open spec fn has_prefix(s: Seq<char>, prefix: Seq<char>) -> bool {
    prefix.len() <= s.len() && s.subrange(0, prefix.len() as int) == prefix
}

/// Every table of the image database carries the `image_` prefix, and none
/// carries a legacy `studio_` or `plus_` prefix.
pub proof fn lemma_database_tables_are_image_prefixed()
    ensures
        forall|i: int|
            0 <= i < database_table_names().len() ==> {
                &&& has_prefix((#[trigger] database_table_names()[i])@, "image_"@)
                &&& !has_prefix(database_table_names()[i]@, "studio_"@)
                &&& !has_prefix(database_table_names()[i]@, "plus_"@)
            },
{
    reveal_strlit("image_");
    reveal_strlit("studio_");
    reveal_strlit("plus_");
    reveal_strlit("image_preset");
    reveal_strlit("image_generation_job");
    reveal_strlit("image_generation_output");
    reveal_strlit("image_provider_binding");
    reveal_strlit("image_provider_task");
    reveal_strlit("image_provider_webhook_event");
    reveal_strlit("image_notification_outbox");
    reveal_strlit("image_edit_task");
    reveal_strlit("image_asset");
    reveal_strlit("image_gallery");
    reveal_strlit("image_gallery_item");
    let t = database_table_names();
    assert(t.len() == 11);
    assert forall|i: int| 0 <= i < t.len() implies {
        &&& has_prefix((#[trigger] t[i])@, "image_"@)
        &&& !has_prefix(t[i]@, "studio_"@)
        &&& !has_prefix(t[i]@, "plus_"@)
    } by {
        let s = t[i]@;
        assert(s.len() >= 6);
        assert(s[0] == 'i' && s[1] == 'm' && s[2] == 'a' && s[3] == 'g' && s[4] == 'e' && s[5] == '_');
        assert(s.subrange(0, 6) =~= "image_"@);
        assert(s.subrange(0, 7) != "studio_"@) by {
            if s.len() >= 7 {
                assert(s.subrange(0, 7)[0] != "studio_"@[0]);
            }
        }
        assert(s.subrange(0, 5) != "plus_"@) by {
            assert(s.subrange(0, 5)[0] != "plus_"@[0]);
        }
    }
}

/// The foundation migration: presets, generation jobs, edit tasks, assets,
/// galleries and gallery items.
pub const IMAGE_INITIAL_MIGRATION_SQL: &'static str = r#"-- Image foundation schema: presets, generation jobs, edit tasks, assets and galleries.

CREATE TABLE IF NOT EXISTS image_preset (
    id BIGSERIAL PRIMARY KEY,
    uuid VARCHAR(64) NOT NULL UNIQUE,
    tenant_id BIGINT NOT NULL DEFAULT 0,
    organization_id BIGINT NOT NULL DEFAULT 0,
    data_scope INTEGER NOT NULL DEFAULT 0,
    preset_key VARCHAR(128) NOT NULL,
    title VARCHAR(256) NOT NULL,
    description TEXT,
    default_resolution VARCHAR(64) NOT NULL DEFAULT '1024x1024',
    default_style VARCHAR(128) NOT NULL DEFAULT 'default',
    prompt_template TEXT,
    sort_order INTEGER NOT NULL DEFAULT 0,
    metadata JSONB NOT NULL DEFAULT '{}'::jsonb,
    status INTEGER NOT NULL DEFAULT 1,
    created_at TIMESTAMPTZ NOT NULL DEFAULT CURRENT_TIMESTAMP,
    updated_at TIMESTAMPTZ NOT NULL DEFAULT CURRENT_TIMESTAMP,
    deleted_at TIMESTAMPTZ,
    version BIGINT NOT NULL DEFAULT 0
);

CREATE UNIQUE INDEX IF NOT EXISTS uk_image_preset_key
    ON image_preset (tenant_id, organization_id, preset_key);

CREATE TABLE IF NOT EXISTS image_generation_job (
    id BIGSERIAL PRIMARY KEY,
    uuid VARCHAR(64) NOT NULL UNIQUE,
    tenant_id BIGINT NOT NULL DEFAULT 0,
    organization_id BIGINT NOT NULL DEFAULT 0,
    data_scope INTEGER NOT NULL DEFAULT 0,
    user_id BIGINT,
    request_id VARCHAR(128),
    trace_id VARCHAR(128),
    preset_id BIGINT,
    prompt TEXT NOT NULL,
    negative_prompt TEXT,
    resolution VARCHAR(64) NOT NULL,
    style VARCHAR(128) NOT NULL,
    model_id VARCHAR(128),
    provider_id VARCHAR(128),
    job_status INTEGER NOT NULL DEFAULT 1,
    visibility INTEGER NOT NULL DEFAULT 1,
    input_snapshot JSONB NOT NULL DEFAULT '{}'::jsonb,
    error_code VARCHAR(128),
    error_message TEXT,
    queued_at TIMESTAMPTZ,
    started_at TIMESTAMPTZ,
    finished_at TIMESTAMPTZ,
    metadata JSONB NOT NULL DEFAULT '{}'::jsonb,
    status INTEGER NOT NULL DEFAULT 1,
    created_at TIMESTAMPTZ NOT NULL DEFAULT CURRENT_TIMESTAMP,
    updated_at TIMESTAMPTZ NOT NULL DEFAULT CURRENT_TIMESTAMP,
    deleted_at TIMESTAMPTZ,
    version BIGINT NOT NULL DEFAULT 0
);

CREATE INDEX IF NOT EXISTS idx_image_generation_job_scope_status
    ON image_generation_job (tenant_id, organization_id, job_status);

CREATE INDEX IF NOT EXISTS idx_image_generation_job_user
    ON image_generation_job (tenant_id, user_id, created_at);

CREATE TABLE IF NOT EXISTS image_edit_task (
    id BIGSERIAL PRIMARY KEY,
    uuid VARCHAR(64) NOT NULL UNIQUE,
    tenant_id BIGINT NOT NULL DEFAULT 0,
    organization_id BIGINT NOT NULL DEFAULT 0,
    data_scope INTEGER NOT NULL DEFAULT 0,
    user_id BIGINT,
    source_asset_id BIGINT NOT NULL,
    result_asset_id BIGINT,
    edit_type VARCHAR(64) NOT NULL,
    prompt TEXT NOT NULL,
    negative_prompt TEXT,
    job_status INTEGER NOT NULL DEFAULT 1,
    error_message TEXT,
    metadata JSONB NOT NULL DEFAULT '{}'::jsonb,
    status INTEGER NOT NULL DEFAULT 1,
    created_at TIMESTAMPTZ NOT NULL DEFAULT CURRENT_TIMESTAMP,
    updated_at TIMESTAMPTZ NOT NULL DEFAULT CURRENT_TIMESTAMP,
    deleted_at TIMESTAMPTZ,
    version BIGINT NOT NULL DEFAULT 0
);

CREATE INDEX IF NOT EXISTS idx_image_edit_task_source_asset
    ON image_edit_task (tenant_id, organization_id, source_asset_id);

CREATE TABLE IF NOT EXISTS image_asset (
    id BIGSERIAL PRIMARY KEY,
    uuid VARCHAR(64) NOT NULL UNIQUE,
    tenant_id BIGINT NOT NULL DEFAULT 0,
    organization_id BIGINT NOT NULL DEFAULT 0,
    data_scope INTEGER NOT NULL DEFAULT 0,
    user_id BIGINT,
    generation_job_id BIGINT,
    gallery_id BIGINT,
    title VARCHAR(256),
    prompt TEXT,
    resolution VARCHAR(64),
    mime_type VARCHAR(128),
    width INTEGER,
    height INTEGER,
    size_bytes BIGINT,
    provenance VARCHAR(64) NOT NULL DEFAULT 'generated',
    asset_media_resource_id VARCHAR(128),
    asset_object_blob_id BIGINT,
    asset_resource_snapshot JSONB NOT NULL DEFAULT '{}'::jsonb,
    thumbnail_media_resource_id VARCHAR(128),
    thumbnail_resource_snapshot JSONB NOT NULL DEFAULT '{}'::jsonb,
    visibility INTEGER NOT NULL DEFAULT 1,
    metadata JSONB NOT NULL DEFAULT '{}'::jsonb,
    status INTEGER NOT NULL DEFAULT 1,
    created_at TIMESTAMPTZ NOT NULL DEFAULT CURRENT_TIMESTAMP,
    updated_at TIMESTAMPTZ NOT NULL DEFAULT CURRENT_TIMESTAMP,
    deleted_at TIMESTAMPTZ,
    version BIGINT NOT NULL DEFAULT 0
);

CREATE INDEX IF NOT EXISTS idx_image_asset_job
    ON image_asset (tenant_id, organization_id, generation_job_id);

CREATE INDEX IF NOT EXISTS idx_image_asset_gallery
    ON image_asset (tenant_id, organization_id, gallery_id);

CREATE TABLE IF NOT EXISTS image_gallery (
    id BIGSERIAL PRIMARY KEY,
    uuid VARCHAR(64) NOT NULL UNIQUE,
    tenant_id BIGINT NOT NULL DEFAULT 0,
    organization_id BIGINT NOT NULL DEFAULT 0,
    data_scope INTEGER NOT NULL DEFAULT 0,
    user_id BIGINT,
    gallery_key VARCHAR(128) NOT NULL,
    title VARCHAR(256) NOT NULL,
    description TEXT,
    cover_asset_id BIGINT,
    visibility INTEGER NOT NULL DEFAULT 1,
    sort_order INTEGER NOT NULL DEFAULT 0,
    metadata JSONB NOT NULL DEFAULT '{}'::jsonb,
    status INTEGER NOT NULL DEFAULT 1,
    created_at TIMESTAMPTZ NOT NULL DEFAULT CURRENT_TIMESTAMP,
    updated_at TIMESTAMPTZ NOT NULL DEFAULT CURRENT_TIMESTAMP,
    deleted_at TIMESTAMPTZ,
    version BIGINT NOT NULL DEFAULT 0
);

CREATE INDEX IF NOT EXISTS idx_image_gallery_scope_status
    ON image_gallery (tenant_id, organization_id, status);

CREATE TABLE IF NOT EXISTS image_gallery_item (
    id BIGSERIAL PRIMARY KEY,
    uuid VARCHAR(64) NOT NULL UNIQUE,
    tenant_id BIGINT NOT NULL DEFAULT 0,
    organization_id BIGINT NOT NULL DEFAULT 0,
    data_scope INTEGER NOT NULL DEFAULT 0,
    gallery_id BIGINT NOT NULL,
    asset_id BIGINT NOT NULL,
    sort_order INTEGER NOT NULL DEFAULT 0,
    caption TEXT,
    metadata JSONB NOT NULL DEFAULT '{}'::jsonb,
    status INTEGER NOT NULL DEFAULT 1,
    created_at TIMESTAMPTZ NOT NULL DEFAULT CURRENT_TIMESTAMP,
    updated_at TIMESTAMPTZ NOT NULL DEFAULT CURRENT_TIMESTAMP,
    deleted_at TIMESTAMPTZ,
    version BIGINT NOT NULL DEFAULT 0
);

CREATE UNIQUE INDEX IF NOT EXISTS uk_image_gallery_item_asset
    ON image_gallery_item (tenant_id, organization_id, gallery_id, asset_id);
"#;

/// The runtime migration: provider dispatch columns, multi-output Drive sync,
/// provider tasks, webhook events and the notification outbox.
pub const IMAGE_RUNTIME_MIGRATION_SQL: &'static str = r#"-- Image generation runtime schema: provider dispatch, multi-output Drive sync and notifications.

ALTER TABLE image_generation_job ADD COLUMN IF NOT EXISTS scene VARCHAR(128);
ALTER TABLE image_generation_job ADD COLUMN IF NOT EXISTS provider_code VARCHAR(128);
ALTER TABLE image_generation_job ADD COLUMN IF NOT EXISTS provider_operation VARCHAR(128);
ALTER TABLE image_generation_job ADD COLUMN IF NOT EXISTS provider_task_id VARCHAR(256);
ALTER TABLE image_generation_job ADD COLUMN IF NOT EXISTS provider_status VARCHAR(128);
ALTER TABLE image_generation_job ADD COLUMN IF NOT EXISTS provider_state JSONB NOT NULL DEFAULT '{}'::jsonb;
ALTER TABLE image_generation_job ADD COLUMN IF NOT EXISTS idempotency_key VARCHAR(128);
ALTER TABLE image_generation_job ADD COLUMN IF NOT EXISTS callback_url TEXT;
ALTER TABLE image_generation_job ADD COLUMN IF NOT EXISTS next_poll_at TIMESTAMPTZ;
ALTER TABLE image_generation_job ADD COLUMN IF NOT EXISTS last_polled_at TIMESTAMPTZ;
ALTER TABLE image_generation_job ADD COLUMN IF NOT EXISTS submitted_at TIMESTAMPTZ;
ALTER TABLE image_generation_job ADD COLUMN IF NOT EXISTS import_started_at TIMESTAMPTZ;
ALTER TABLE image_generation_job ADD COLUMN IF NOT EXISTS output_asset_count INTEGER NOT NULL DEFAULT 0;
ALTER TABLE image_generation_job ADD COLUMN IF NOT EXISTS drive_space_id VARCHAR(128);
ALTER TABLE image_generation_job ADD COLUMN IF NOT EXISTS drive_sync_status VARCHAR(64) NOT NULL DEFAULT 'pending';

CREATE TABLE IF NOT EXISTS image_generation_output (
    id BIGSERIAL PRIMARY KEY,
    uuid VARCHAR(64) NOT NULL UNIQUE,
    tenant_id BIGINT NOT NULL DEFAULT 0,
    organization_id BIGINT NOT NULL DEFAULT 0,
    data_scope INTEGER NOT NULL DEFAULT 0,
    user_id BIGINT,
    generation_job_id BIGINT NOT NULL,
    generation_uuid VARCHAR(64) NOT NULL,
    output_index INTEGER NOT NULL,
    media_kind VARCHAR(32) NOT NULL,
    scene VARCHAR(128) NOT NULL,
    provider_code VARCHAR(128) NOT NULL,
    provider_operation VARCHAR(128),
    provider_task_id VARCHAR(256),
    provider_asset_id VARCHAR(256),
    provider_uri TEXT,
    provider_url TEXT,
    provider_payload_snapshot JSONB NOT NULL DEFAULT '{}'::jsonb,
    drive_space_type VARCHAR(64),
    drive_space_id VARCHAR(128),
    drive_parent_node_id VARCHAR(128),
    drive_node_id VARCHAR(128),
    drive_uri TEXT,
    object_blob_id VARCHAR(128),
    resource_snapshot JSONB NOT NULL DEFAULT '{}'::jsonb,
    file_name VARCHAR(512),
    mime_type VARCHAR(128),
    size_bytes BIGINT,
    width INTEGER,
    height INTEGER,
    duration_seconds DOUBLE PRECISION,
    sync_status VARCHAR(64) NOT NULL DEFAULT 'pending',
    import_attempts INTEGER NOT NULL DEFAULT 0,
    next_retry_at TIMESTAMPTZ,
    imported_at TIMESTAMPTZ,
    error_message TEXT,
    metadata JSONB NOT NULL DEFAULT '{}'::jsonb,
    status INTEGER NOT NULL DEFAULT 1,
    created_at TIMESTAMPTZ NOT NULL DEFAULT CURRENT_TIMESTAMP,
    updated_at TIMESTAMPTZ NOT NULL DEFAULT CURRENT_TIMESTAMP,
    deleted_at TIMESTAMPTZ,
    version BIGINT NOT NULL DEFAULT 0
);

CREATE UNIQUE INDEX IF NOT EXISTS uk_image_generation_output_index
    ON image_generation_output (tenant_id, organization_id, generation_job_id, output_index);

CREATE UNIQUE INDEX IF NOT EXISTS uk_image_generation_output_provider_asset
    ON image_generation_output (provider_code, provider_asset_id)
    WHERE provider_asset_id IS NOT NULL;

CREATE INDEX IF NOT EXISTS idx_image_generation_output_drive_sync
    ON image_generation_output (tenant_id, organization_id, sync_status, next_retry_at);

CREATE INDEX IF NOT EXISTS idx_image_generation_output_scene
    ON image_generation_output (tenant_id, organization_id, scene);

CREATE TABLE IF NOT EXISTS image_provider_binding (
    id BIGSERIAL PRIMARY KEY,
    uuid VARCHAR(64) NOT NULL UNIQUE,
    tenant_id BIGINT NOT NULL DEFAULT 0,
    organization_id BIGINT NOT NULL DEFAULT 0,
    data_scope INTEGER NOT NULL DEFAULT 0,
    scene VARCHAR(128) NOT NULL,
    provider_code VARCHAR(128) NOT NULL,
    provider_operation VARCHAR(128) NOT NULL,
    model VARCHAR(128),
    priority INTEGER NOT NULL DEFAULT 0,
    enabled BOOLEAN NOT NULL DEFAULT TRUE,
    configuration JSONB NOT NULL DEFAULT '{}'::jsonb,
    metadata JSONB NOT NULL DEFAULT '{}'::jsonb,
    status INTEGER NOT NULL DEFAULT 1,
    created_at TIMESTAMPTZ NOT NULL DEFAULT CURRENT_TIMESTAMP,
    updated_at TIMESTAMPTZ NOT NULL DEFAULT CURRENT_TIMESTAMP,
    deleted_at TIMESTAMPTZ,
    version BIGINT NOT NULL DEFAULT 0
);

CREATE TABLE IF NOT EXISTS image_provider_task (
    id BIGSERIAL PRIMARY KEY,
    uuid VARCHAR(64) NOT NULL UNIQUE,
    tenant_id BIGINT NOT NULL DEFAULT 0,
    organization_id BIGINT NOT NULL DEFAULT 0,
    data_scope INTEGER NOT NULL DEFAULT 0,
    generation_job_id BIGINT NOT NULL,
    provider_code VARCHAR(128) NOT NULL,
    provider_operation VARCHAR(128),
    provider_task_id VARCHAR(256),
    provider_request_id VARCHAR(256),
    provider_status VARCHAR(128),
    dispatch_status VARCHAR(64) NOT NULL DEFAULT 'pending',
    callback_url TEXT,
    request_snapshot JSONB NOT NULL DEFAULT '{}'::jsonb,
    response_snapshot JSONB NOT NULL DEFAULT '{}'::jsonb,
    poll_attempts INTEGER NOT NULL DEFAULT 0,
    next_poll_at TIMESTAMPTZ,
    last_polled_at TIMESTAMPTZ,
    submitted_at TIMESTAMPTZ,
    completed_at TIMESTAMPTZ,
    metadata JSONB NOT NULL DEFAULT '{}'::jsonb,
    status INTEGER NOT NULL DEFAULT 1,
    created_at TIMESTAMPTZ NOT NULL DEFAULT CURRENT_TIMESTAMP,
    updated_at TIMESTAMPTZ NOT NULL DEFAULT CURRENT_TIMESTAMP,
    deleted_at TIMESTAMPTZ,
    version BIGINT NOT NULL DEFAULT 0
);

CREATE UNIQUE INDEX IF NOT EXISTS uk_image_provider_task_provider
    ON image_provider_task (provider_code, provider_task_id)
    WHERE provider_task_id IS NOT NULL;

CREATE INDEX IF NOT EXISTS idx_image_provider_task_poll
    ON image_provider_task (dispatch_status, next_poll_at);

CREATE TABLE IF NOT EXISTS image_provider_webhook_event (
    id BIGSERIAL PRIMARY KEY,
    uuid VARCHAR(64) NOT NULL UNIQUE,
    tenant_id BIGINT NOT NULL DEFAULT 0,
    organization_id BIGINT NOT NULL DEFAULT 0,
    data_scope INTEGER NOT NULL DEFAULT 0,
    provider_code VARCHAR(128) NOT NULL,
    provider_task_id VARCHAR(256),
    external_event_id VARCHAR(256),
    event_type VARCHAR(128),
    payload_hash VARCHAR(128) NOT NULL,
    signature_valid BOOLEAN NOT NULL DEFAULT FALSE,
    payload_snapshot JSONB NOT NULL DEFAULT '{}'::jsonb,
    process_status VARCHAR(64) NOT NULL DEFAULT 'pending',
    processed_at TIMESTAMPTZ,
    metadata JSONB NOT NULL DEFAULT '{}'::jsonb,
    status INTEGER NOT NULL DEFAULT 1,
    created_at TIMESTAMPTZ NOT NULL DEFAULT CURRENT_TIMESTAMP,
    updated_at TIMESTAMPTZ NOT NULL DEFAULT CURRENT_TIMESTAMP,
    deleted_at TIMESTAMPTZ,
    version BIGINT NOT NULL DEFAULT 0
);

CREATE UNIQUE INDEX IF NOT EXISTS uk_image_provider_webhook_event
    ON image_provider_webhook_event (provider_code, payload_hash);

CREATE TABLE IF NOT EXISTS image_notification_outbox (
    id BIGSERIAL PRIMARY KEY,
    uuid VARCHAR(64) NOT NULL UNIQUE,
    tenant_id BIGINT NOT NULL DEFAULT 0,
    organization_id BIGINT NOT NULL DEFAULT 0,
    data_scope INTEGER NOT NULL DEFAULT 0,
    aggregate_type VARCHAR(64) NOT NULL,
    aggregate_id VARCHAR(128) NOT NULL,
    event_type VARCHAR(128) NOT NULL,
    payload_snapshot JSONB NOT NULL DEFAULT '{}'::jsonb,
    delivery_status VARCHAR(64) NOT NULL DEFAULT 'pending',
    delivery_attempts INTEGER NOT NULL DEFAULT 0,
    next_delivery_at TIMESTAMPTZ,
    delivered_at TIMESTAMPTZ,
    error_message TEXT,
    metadata JSONB NOT NULL DEFAULT '{}'::jsonb,
    status INTEGER NOT NULL DEFAULT 1,
    created_at TIMESTAMPTZ NOT NULL DEFAULT CURRENT_TIMESTAMP,
    updated_at TIMESTAMPTZ NOT NULL DEFAULT CURRENT_TIMESTAMP,
    deleted_at TIMESTAMPTZ,
    version BIGINT NOT NULL DEFAULT 0
);

CREATE INDEX IF NOT EXISTS idx_image_notification_outbox_pending
    ON image_notification_outbox (delivery_status, next_delivery_at);
"#;

/// The SQL of the foundation migration.
pub fn image_initial_migration_sql() -> (sql: &'static str)
    ensures
        sql == IMAGE_INITIAL_MIGRATION_SQL,
{
    IMAGE_INITIAL_MIGRATION_SQL
}

/// The SQL of the runtime migration.
pub fn image_runtime_migration_sql() -> (sql: &'static str)
    ensures
        sql == IMAGE_RUNTIME_MIGRATION_SQL,
{
    IMAGE_RUNTIME_MIGRATION_SQL
}

/// A binding of the image domain that requires a transaction.
pub open spec fn image_binding(repository_name: &'static str, tables: Seq<&'static str>) -> (
    &'static str,
    &'static str,
    Seq<&'static str>,
    bool,
) {
    ("image", repository_name, tables, true)
}

/// The fields of a repository binding, tables taken as a sequence.
pub open spec fn binding_fields(b: ImageRepositoryBinding) -> (
    &'static str,
    &'static str,
    Seq<&'static str>,
    bool,
) {
    (b.domain, b.repository_name, b.tables@, b.requires_transaction)
}

/// The capability manifest of the image storage.
pub fn image_storage_capability_manifest() -> (manifest: ImageStorageCapabilityManifest)
    ensures
        manifest.name == "image-storage",
        manifest.schema_version == "2026-06-06",
        manifest.tables@ == database_table_names(),
        manifest.generation_tables@ == generation_table_names(),
        manifest.asset_tables@ == asset_table_names(),
        manifest.gallery_tables@ == gallery_table_names(),
        manifest.migrations@ == seq![IMAGE_INITIAL_MIGRATION, IMAGE_RUNTIME_MIGRATION],
        manifest.repository_bindings@.len() == 3,
        binding_fields(manifest.repository_bindings@[0]) == image_binding(
            "ImageGenerationRepository",
            generation_table_names(),
        ),
        binding_fields(manifest.repository_bindings@[1]) == image_binding(
            "ImageAssetRepository",
            asset_table_names(),
        ),
        binding_fields(manifest.repository_bindings@[2]) == image_binding(
            "ImageGalleryRepository",
            gallery_table_names(),
        ),
{
    let migrations = vec![IMAGE_INITIAL_MIGRATION, IMAGE_RUNTIME_MIGRATION];
    assert(migrations@ =~= seq![IMAGE_INITIAL_MIGRATION, IMAGE_RUNTIME_MIGRATION]);
    let mut bindings: Vec<ImageRepositoryBinding> = Vec::new();
    bindings.push(
        ImageRepositoryBinding {
            domain: "image",
            repository_name: "ImageGenerationRepository",
            tables: image_generation_tables(),
            requires_transaction: true,
        },
    );
    bindings.push(
        ImageRepositoryBinding {
            domain: "image",
            repository_name: "ImageAssetRepository",
            tables: image_asset_tables(),
            requires_transaction: true,
        },
    );
    bindings.push(
        ImageRepositoryBinding {
            domain: "image",
            repository_name: "ImageGalleryRepository",
            tables: image_gallery_tables(),
            requires_transaction: true,
        },
    );
    ImageStorageCapabilityManifest {
        name: "image-storage",
        schema_version: "2026-06-06",
        tables: image_database_tables(),
        generation_tables: image_generation_tables(),
        asset_tables: image_asset_tables(),
        gallery_tables: image_gallery_tables(),
        migrations,
        repository_bindings: bindings,
    }
}

/// The statement behind `create_generation`.
pub const SQL_CREATE_GENERATION: &'static str = r#"
INSERT INTO image_generation_job (
    uuid, tenant_id, organization_id, user_id, request_id, trace_id,
    prompt, negative_prompt, resolution, style, model_id, provider_id,
    scene, provider_code, provider_operation, idempotency_key, callback_url,
    job_status, visibility, input_snapshot, drive_sync_status, queued_at, metadata
) VALUES (
    $1, $2, $3, $4, $5, $6,
    $7, $8, $9, $10, $11, $12,
    $13, $14, $15, $16, $17,
    $18, $19, $20, $21, CURRENT_TIMESTAMP, $22
)
RETURNING id, uuid
"#;
/// The statement behind `mark_provider_submitted`.
pub const SQL_MARK_PROVIDER_SUBMITTED: &'static str = r#"
UPDATE image_generation_job
SET provider_task_id = $5,
    provider_status = $6,
    provider_state = $7,
    job_status = $8,
    submitted_at = CURRENT_TIMESTAMP,
    next_poll_at = $9,
    updated_at = CURRENT_TIMESTAMP,
    version = version + 1
WHERE tenant_id = $1
  AND organization_id = $2
  AND uuid = $3
  AND provider_code = $4
"#;
/// The statement behind `upsert_provider_task`.
pub const SQL_UPSERT_PROVIDER_TASK: &'static str = r#"
INSERT INTO image_provider_task (
    uuid, tenant_id, organization_id, generation_job_id, provider_code,
    provider_operation, provider_task_id, provider_request_id, provider_status,
    dispatch_status, callback_url, request_snapshot, response_snapshot,
    next_poll_at, submitted_at, metadata
) VALUES (
    $1, $2, $3, $4, $5,
    $6, $7, $8, $9,
    $10, $11, $12, $13,
    $14, CURRENT_TIMESTAMP, $15
)
ON CONFLICT (provider_code, provider_task_id)
WHERE provider_task_id IS NOT NULL
DO UPDATE SET
    provider_status = EXCLUDED.provider_status,
    dispatch_status = EXCLUDED.dispatch_status,
    response_snapshot = EXCLUDED.response_snapshot,
    next_poll_at = EXCLUDED.next_poll_at,
    updated_at = CURRENT_TIMESTAMP,
    version = image_provider_task.version + 1
RETURNING id, uuid
"#;
/// The statement behind `record_provider_webhook_event`.
pub const SQL_RECORD_PROVIDER_WEBHOOK_EVENT: &'static str = r#"
INSERT INTO image_provider_webhook_event (
    uuid, tenant_id, organization_id, provider_code, provider_task_id,
    external_event_id, event_type, payload_hash, signature_valid,
    payload_snapshot, process_status, metadata
) VALUES (
    $1, $2, $3, $4, $5,
    $6, $7, $8, $9,
    $10, $11, $12
)
ON CONFLICT (provider_code, payload_hash)
DO UPDATE SET
    process_status = image_provider_webhook_event.process_status,
    updated_at = CURRENT_TIMESTAMP
RETURNING id, uuid, process_status
"#;
/// The statement behind `upsert_generation_outputs`.
pub const SQL_UPSERT_GENERATION_OUTPUTS: &'static str = r#"
INSERT INTO image_generation_output (
    uuid, tenant_id, organization_id, user_id, generation_job_id, generation_uuid,
    output_index, media_kind, scene, provider_code, provider_operation, provider_task_id,
    provider_asset_id, provider_uri, provider_url, provider_payload_snapshot,
    drive_space_type, drive_space_id, drive_parent_node_id, drive_node_id, drive_uri,
    resource_snapshot, file_name, mime_type, size_bytes, width, height, duration_seconds,
    sync_status, metadata
) VALUES (
    $1, $2, $3, $4, $5, $6,
    $7, $8, $9, $10, $11, $12,
    $13, $14, $15, $16,
    $17, $18, $19, $20, $21,
    $22, $23, $24, $25, $26, $27, $28,
    $29, $30
)
ON CONFLICT (tenant_id, organization_id, generation_job_id, output_index)
DO UPDATE SET
    scene = EXCLUDED.scene,
    provider_code = EXCLUDED.provider_code,
    provider_operation = EXCLUDED.provider_operation,
    provider_task_id = EXCLUDED.provider_task_id,
    provider_asset_id = EXCLUDED.provider_asset_id,
    provider_uri = EXCLUDED.provider_uri,
    provider_url = EXCLUDED.provider_url,
    drive_space_id = EXCLUDED.drive_space_id,
    drive_parent_node_id = EXCLUDED.drive_parent_node_id,
    drive_node_id = EXCLUDED.drive_node_id,
    drive_uri = EXCLUDED.drive_uri,
    resource_snapshot = EXCLUDED.resource_snapshot,
    sync_status = EXCLUDED.sync_status,
    updated_at = CURRENT_TIMESTAMP,
    version = image_generation_output.version + 1
RETURNING id, uuid
"#;
/// The statement behind `mark_drive_importing`.
pub const SQL_MARK_DRIVE_IMPORTING: &'static str = r#"
UPDATE image_generation_output
SET sync_status = 'importing',
    import_attempts = import_attempts + 1,
    updated_at = CURRENT_TIMESTAMP,
    version = version + 1
WHERE tenant_id = $1
  AND organization_id = $2
  AND generation_uuid = $3
  AND output_index = $4
"#;
/// The statement behind `mark_drive_imported`.
pub const SQL_MARK_DRIVE_IMPORTED: &'static str = r#"
UPDATE image_generation_output
SET sync_status = 'imported',
    drive_space_id = $5,
    drive_node_id = $6,
    drive_uri = $7,
    object_blob_id = $8,
    resource_snapshot = $9,
    imported_at = CURRENT_TIMESTAMP,
    updated_at = CURRENT_TIMESTAMP,
    version = version + 1
WHERE tenant_id = $1
  AND organization_id = $2
  AND generation_uuid = $3
  AND output_index = $4
"#;
/// The statement behind `mark_generation_succeeded`.
pub const SQL_MARK_GENERATION_SUCCEEDED: &'static str = r#"
UPDATE image_generation_job
SET job_status = $4,
    drive_sync_status = 'imported',
    output_asset_count = (
        SELECT COUNT(1)
        FROM image_generation_output
        WHERE tenant_id = $1
          AND organization_id = $2
          AND generation_uuid = $3
          AND sync_status = 'imported'
    ),
    finished_at = CURRENT_TIMESTAMP,
    updated_at = CURRENT_TIMESTAMP,
    version = version + 1
WHERE tenant_id = $1
  AND organization_id = $2
  AND uuid = $3
"#;
/// The statement behind `mark_generation_failed`.
pub const SQL_MARK_GENERATION_FAILED: &'static str = r#"
UPDATE image_generation_job
SET job_status = $4,
    provider_status = $5,
    error_code = $6,
    error_message = $7,
    finished_at = CURRENT_TIMESTAMP,
    updated_at = CURRENT_TIMESTAMP,
    version = version + 1
WHERE tenant_id = $1
  AND organization_id = $2
  AND uuid = $3
"#;
/// The statement behind `enqueue_notification`.
pub const SQL_ENQUEUE_NOTIFICATION: &'static str = r#"
INSERT INTO image_notification_outbox (
    uuid, tenant_id, organization_id, aggregate_type, aggregate_id,
    event_type, payload_snapshot, delivery_status, next_delivery_at, metadata
) VALUES (
    $1, $2, $3, $4, $5,
    $6, $7, 'pending', $8, $9
)
RETURNING id, uuid
"#;
/// The statement behind `find_due_provider_tasks`.
pub const SQL_FIND_DUE_PROVIDER_TASKS: &'static str = r#"
SELECT *
FROM image_provider_task
WHERE tenant_id = $1
  AND organization_id = $2
  AND dispatch_status IN ('submitted', 'rendering', 'pending')
  AND (next_poll_at IS NULL OR next_poll_at <= CURRENT_TIMESTAMP)
ORDER BY next_poll_at NULLS FIRST, id
LIMIT $3
"#;
/// The statement behind `find_pending_drive_imports`.
pub const SQL_FIND_PENDING_DRIVE_IMPORTS: &'static str = r#"
SELECT *
FROM image_generation_output
WHERE tenant_id = $1
  AND organization_id = $2
  AND sync_status IN ('pending', 'failed')
  AND (next_retry_at IS NULL OR next_retry_at <= CURRENT_TIMESTAMP)
ORDER BY next_retry_at NULLS FIRST, id
LIMIT $3
"#;

/// A (name, statement) pair of the generation repository contract.
pub open spec fn method_entry(name: &'static str, sql: &'static str) -> (&'static str, &'static str) {
    (name, sql)
}

/// The statements of the generation repository, in contract order.
pub open spec fn generation_sql_methods() -> Seq<(&'static str, &'static str)> {
    seq![
        method_entry("create_generation", SQL_CREATE_GENERATION),
        method_entry("mark_provider_submitted", SQL_MARK_PROVIDER_SUBMITTED),
        method_entry("upsert_provider_task", SQL_UPSERT_PROVIDER_TASK),
        method_entry("record_provider_webhook_event", SQL_RECORD_PROVIDER_WEBHOOK_EVENT),
        method_entry("upsert_generation_outputs", SQL_UPSERT_GENERATION_OUTPUTS),
        method_entry("mark_drive_importing", SQL_MARK_DRIVE_IMPORTING),
        method_entry("mark_drive_imported", SQL_MARK_DRIVE_IMPORTED),
        method_entry("mark_generation_succeeded", SQL_MARK_GENERATION_SUCCEEDED),
        method_entry("mark_generation_failed", SQL_MARK_GENERATION_FAILED),
        method_entry("enqueue_notification", SQL_ENQUEUE_NOTIFICATION),
        method_entry("find_due_provider_tasks", SQL_FIND_DUE_PROVIDER_TASKS),
        method_entry("find_pending_drive_imports", SQL_FIND_PENDING_DRIVE_IMPORTS),
    ]
}

/// The (name, statement) pairs of a list of SQL methods.
pub open spec fn method_pairs(methods: Seq<ImageRepositorySqlMethod>) -> Seq<(&'static str, &'static str)> {
    methods.map_values(|m: ImageRepositorySqlMethod| (m.name, m.sql))
}

/// The SQL contract of the generation repository.
pub fn image_generation_repository_sql_contract() -> (contract: ImageGenerationRepositorySqlContract)
    ensures
        contract.repository_name == "ImageGenerationRepository",
        contract.requires_transaction,
        method_pairs(contract.methods@) == generation_sql_methods(),
{
    let mut methods: Vec<ImageRepositorySqlMethod> = Vec::new();
    methods.push(ImageRepositorySqlMethod { name: "create_generation", sql: SQL_CREATE_GENERATION });
    methods.push(ImageRepositorySqlMethod { name: "mark_provider_submitted", sql: SQL_MARK_PROVIDER_SUBMITTED });
    methods.push(ImageRepositorySqlMethod { name: "upsert_provider_task", sql: SQL_UPSERT_PROVIDER_TASK });
    methods.push(ImageRepositorySqlMethod { name: "record_provider_webhook_event", sql: SQL_RECORD_PROVIDER_WEBHOOK_EVENT });
    methods.push(ImageRepositorySqlMethod { name: "upsert_generation_outputs", sql: SQL_UPSERT_GENERATION_OUTPUTS });
    methods.push(ImageRepositorySqlMethod { name: "mark_drive_importing", sql: SQL_MARK_DRIVE_IMPORTING });
    methods.push(ImageRepositorySqlMethod { name: "mark_drive_imported", sql: SQL_MARK_DRIVE_IMPORTED });
    methods.push(ImageRepositorySqlMethod { name: "mark_generation_succeeded", sql: SQL_MARK_GENERATION_SUCCEEDED });
    methods.push(ImageRepositorySqlMethod { name: "mark_generation_failed", sql: SQL_MARK_GENERATION_FAILED });
    methods.push(ImageRepositorySqlMethod { name: "enqueue_notification", sql: SQL_ENQUEUE_NOTIFICATION });
    methods.push(ImageRepositorySqlMethod { name: "find_due_provider_tasks", sql: SQL_FIND_DUE_PROVIDER_TASKS });
    methods.push(ImageRepositorySqlMethod { name: "find_pending_drive_imports", sql: SQL_FIND_PENDING_DRIVE_IMPORTS });
    assert(method_pairs(methods@) =~= generation_sql_methods());
    ImageGenerationRepositorySqlContract {
        repository_name: "ImageGenerationRepository",
        requires_transaction: true,
        methods,
    }
}

} // verus!
