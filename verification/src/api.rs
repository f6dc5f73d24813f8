//! The app API's request and response rules: paging parameters, command
//! validation for gallery items and edit tasks, the HTTP status and result
//! code of each failure, page metadata, and the request trace id.
use vstd::prelude::*;

use crate::catalog::{ImageEditTaskCreateCommand, ImageGalleryItemCreateCommand};
use crate::catalog_service::{CatalogErrorKind, ImageCatalogServiceError};
use crate::generation::{GenerationErrorKind, ImageGenerationServiceError};
use crate::lifecycle::{clamp_i64, clamp_spec};
use crate::scope::opt_view;
use crate::text::{blank, decimal, i64_to_text, is_blank};

verus! {

/// The result code of an API failure.
#[derive(Clone, Copy, Debug, PartialEq, Eq, Structural)]
pub enum ApiResultCode {
    ValidationError,
    NotFound,
    BadGateway,
    Conflict,
    InternalError,
}

/// The HTTP status and result code of a generation failure.
pub open spec fn service_error_status_spec(kind: GenerationErrorKind) -> (u16, ApiResultCode) {
    match kind {
        GenerationErrorKind::Validation => (400, ApiResultCode::ValidationError),
        GenerationErrorKind::NotFound => (404, ApiResultCode::NotFound),
        GenerationErrorKind::Dispatch => (502, ApiResultCode::BadGateway),
        GenerationErrorKind::Planning => (502, ApiResultCode::BadGateway),
        GenerationErrorKind::DriveImport => (502, ApiResultCode::BadGateway),
        GenerationErrorKind::Conflict => (409, ApiResultCode::Conflict),
        GenerationErrorKind::Persistence => (500, ApiResultCode::InternalError),
    }
}

/// Maps a generation failure onto its HTTP status and result code.
pub fn map_service_error(error: &ImageGenerationServiceError) -> (r: (u16, ApiResultCode))
    ensures
        r == service_error_status_spec(error@.0),
{
    match error {
        ImageGenerationServiceError::Validation(_) => (400, ApiResultCode::ValidationError),
        ImageGenerationServiceError::NotFound => (404, ApiResultCode::NotFound),
        ImageGenerationServiceError::Dispatch(_) => (502, ApiResultCode::BadGateway),
        ImageGenerationServiceError::Planning(_) => (502, ApiResultCode::BadGateway),
        ImageGenerationServiceError::DriveImport(_) => (502, ApiResultCode::BadGateway),
        ImageGenerationServiceError::Conflict(_) => (409, ApiResultCode::Conflict),
        ImageGenerationServiceError::Persistence(_) => (500, ApiResultCode::InternalError),
    }
}

/// The HTTP status and result code of a catalog failure.
pub open spec fn catalog_error_status_spec(kind: CatalogErrorKind) -> (u16, ApiResultCode) {
    match kind {
        CatalogErrorKind::Validation => (400, ApiResultCode::ValidationError),
        CatalogErrorKind::NotFound => (404, ApiResultCode::NotFound),
        CatalogErrorKind::Persistence => (500, ApiResultCode::InternalError),
    }
}

/// Maps a catalog failure onto its HTTP status and result code.
pub fn map_catalog_error(error: &ImageCatalogServiceError) -> (r: (u16, ApiResultCode))
    ensures
        r == catalog_error_status_spec(error@.0),
{
    match error {
        ImageCatalogServiceError::Validation(_) => (400, ApiResultCode::ValidationError),
        ImageCatalogServiceError::NotFound => (404, ApiResultCode::NotFound),
        ImageCatalogServiceError::Persistence(_) => (500, ApiResultCode::InternalError),
    }
}

/// Every generation failure is reported with a client (4xx) or server (5xx)
/// error status, and only validation failures are reported as 400.
pub proof fn lemma_error_statuses_are_errors(kind: GenerationErrorKind)
    ensures
        400 <= service_error_status_spec(kind).0 < 600,
        service_error_status_spec(kind).0 == 400 <==> kind == GenerationErrorKind::Validation,
{
}

/// The page and page size of a listing: page 1 by default and at least 1;
/// size 20 by default, between 1 and `max_page_size`.
pub open spec fn list_page_spec(page: Option<i64>, page_size: Option<i64>, max_page_size: i64) -> (
    i64,
    i64,
) {
    let p = match page {
        Some(p) => p,
        None => 1,
    };
    let s = match page_size {
        Some(s) => s,
        None => 20,
    };
    (if p < 1 {
        1
    } else {
        p
    }, clamp_spec(s, 1, max_page_size))
}

/// Reads the paging parameters of a listing.
pub fn list_page(page: Option<i64>, page_size: Option<i64>, max_page_size: i64) -> (r: (i64, i64))
    requires
        max_page_size >= 1,
    ensures
        r == list_page_spec(page, page_size, max_page_size),
        r.0 >= 1,
        1 <= r.1 <= max_page_size,
{
    let p = match page {
        Some(p) => p,
        None => 1,
    };
    let s = match page_size {
        Some(s) => s,
        None => 20,
    };
    let p = if p < 1 {
        1
    } else {
        p
    };
    (p, clamp_i64(s, 1, max_page_size))
}

/// The largest page of generations.
pub const GENERATION_PAGE_SIZE_LIMIT: i64 = 100;

/// The largest page of catalog records.
pub const CATALOG_PAGE_SIZE_LIMIT: i64 = 200;

/// The body of the gallery-item and edit-task operations.
#[derive(Debug, PartialEq, Eq)]
pub struct ImageOperationCommandWire {
    pub asset_id: Option<String>,
    pub caption: Option<String>,
    pub sort_order: Option<i32>,
    pub source_asset_id: Option<String>,
    pub edit_type: Option<String>,
    pub prompt: Option<String>,
    pub negative_prompt: Option<String>,
}

/// A present, non-blank value, as given (not trimmed).
pub open spec fn nonblank_value(o: Option<Seq<char>>) -> Option<Seq<char>> {
    match o {
        Some(s) => if blank(s) {
            None
        } else {
            Some(s)
        },
        None => None,
    }
}

fn take_nonblank(o: Option<String>) -> (r: Option<String>)
    ensures
        opt_view(r) == nonblank_value(opt_view(o)),
{
    match o {
        Some(s) => {
            if is_blank(s.as_str()) {
                None
            } else {
                Some(s)
            }
        },
        None => None,
    }
}

/// The gallery-item command of an operation body; the asset id is required.
pub fn map_gallery_item_command(body: ImageOperationCommandWire) -> (r: Result<
    ImageGalleryItemCreateCommand,
    ImageCatalogServiceError,
>)
    ensures
        match (r, nonblank_value(opt_view(body.asset_id))) {
            (Ok(c), Some(a)) => c.asset_id@ == a && c.caption == body.caption && c.sort_order
                == body.sort_order,
            (Err(e), None) => e@ == (CatalogErrorKind::Validation, "assetId is required"@),
            _ => false,
        },
{
    match take_nonblank(body.asset_id) {
        Some(asset_id) => Ok(
            ImageGalleryItemCreateCommand { asset_id, caption: body.caption, sort_order: body.sort_order },
        ),
        None => Err(ImageCatalogServiceError::Validation("assetId is required".to_owned())),
    }
}

/// The problem with an edit-task body, checked in order: source asset, edit
/// type, prompt.
pub open spec fn edit_body_problem(body: ImageOperationCommandWire) -> Option<Seq<char>> {
    if nonblank_value(opt_view(body.source_asset_id)) is None {
        Some("sourceAssetId is required"@)
    } else if nonblank_value(opt_view(body.edit_type)) is None {
        Some("editType is required"@)
    } else if nonblank_value(opt_view(body.prompt)) is None {
        Some("prompt is required"@)
    } else {
        None
    }
}

/// The edit-task command of an operation body; source asset, edit type and
/// prompt are required.
pub fn map_edit_task_command(body: ImageOperationCommandWire) -> (r: Result<
    ImageEditTaskCreateCommand,
    ImageCatalogServiceError,
>)
    ensures
        match (r, edit_body_problem(body)) {
            (Ok(c), None) => {
                &&& Some(c.source_asset_id@) == opt_view(body.source_asset_id)
                &&& Some(c.edit_type@) == opt_view(body.edit_type)
                &&& Some(c.prompt@) == opt_view(body.prompt)
                &&& c.negative_prompt == body.negative_prompt
            },
            (Err(e), Some(p)) => e@ == (CatalogErrorKind::Validation, p),
            _ => false,
        },
{
    let source_asset_id = match take_nonblank(body.source_asset_id) {
        Some(v) => v,
        None => return Err(ImageCatalogServiceError::Validation("sourceAssetId is required".to_owned())),
    };
    let edit_type = match take_nonblank(body.edit_type) {
        Some(v) => v,
        None => return Err(ImageCatalogServiceError::Validation("editType is required".to_owned())),
    };
    let prompt = match take_nonblank(body.prompt) {
        Some(v) => v,
        None => return Err(ImageCatalogServiceError::Validation("prompt is required".to_owned())),
    };
    Ok(
        ImageEditTaskCreateCommand {
            source_asset_id,
            edit_type,
            prompt,
            negative_prompt: body.negative_prompt,
        },
    )
}

/// The trace id a request carries, when it is not blank; otherwise a fresh
/// one is generated by the host.
pub fn context_trace_id(trace_id: Option<String>) -> (r: Option<String>)
    ensures
        opt_view(r) == nonblank_value(opt_view(trace_id)),
{
    take_nonblank(trace_id)
}

/// How a page of results is described.
#[derive(Clone, Copy, Debug, PartialEq, Eq, Structural)]
pub enum PageMode {
    Offset,
    Cursor,
}

/// The paging facts returned with a list.
#[derive(Debug, PartialEq, Eq)]
pub struct PageInfo {
    pub mode: PageMode,
    pub page: Option<i32>,
    pub page_size: Option<i32>,
    pub total_items: Option<String>,
    pub total_pages: Option<i32>,
    pub next_cursor: Option<String>,
    pub has_more: Option<bool>,
}

/// The page facts of an offset listing; the page and size are narrowed to
/// 32 bits, and the total is reported as decimal text.
pub fn offset_page_info(page: i64, page_size: i64, total_items: Option<i64>) -> (info: PageInfo)
    ensures
        info.mode == PageMode::Offset,
        info.page == Some(page as i32),
        info.page_size == Some(page_size as i32),
        opt_view(info.total_items) == (match total_items {
            Some(t) => Some(decimal(t as int)),
            None => None,
        }),
        info.total_pages is None,
        info.next_cursor is None,
        info.has_more is None,
{
    PageInfo {
        mode: PageMode::Offset,
        page: Some(page as i32),
        page_size: Some(page_size as i32),
        total_items: match total_items {
            Some(t) => Some(i64_to_text(t)),
            None => None,
        },
        total_pages: None,
        next_cursor: None,
        has_more: None,
    }
}

/// The number of route crates the API assembly mounts.
pub const ROUTE_CRATE_COUNT: usize = 3;

/// The number of route crates the API assembly mounts.
pub fn assembly_route_count() -> (n: usize)
    ensures
        n == ROUTE_CRATE_COUNT,
{
    ROUTE_CRATE_COUNT
}

} // verus!
