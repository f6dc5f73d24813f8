//! The catalog application service: pages, trims identifiers, validates
//! commands and maps repository failures for presets, assets, galleries and
//! edit tasks.
use vstd::prelude::*;

use crate::catalog::{
    item_fields, item_sort_order, task_fields, ImageAssetRecord, ImageCatalogRepository, ImageCatalogScope,
    ImageEditTaskCreateCommand, ImageEditTaskRecord, ImageGalleryItemCreateCommand,
    ImageGalleryItemRecord, ImageGalleryRecord, ImagePresetRecord,
};
use crate::scope::{opt_view, RepositoryError};
use crate::subject::RuntimeSubject;
use crate::text::{blank, clone_opt, concat2, is_blank, trim, trimmed};

verus! {

/// Why a catalog request failed.
#[derive(Debug, PartialEq, Eq)]
pub enum ImageCatalogServiceError {
    Validation(String),
    NotFound,
    Persistence(String),
}

/// The variant of a catalog service error.
#[derive(Clone, Copy, Debug, PartialEq, Eq, Structural)]
pub enum CatalogErrorKind {
    Validation,
    NotFound,
    Persistence,
}

impl View for ImageCatalogServiceError {
    type V = (CatalogErrorKind, Seq<char>);

    open spec fn view(&self) -> (CatalogErrorKind, Seq<char>) {
        match self {
            ImageCatalogServiceError::Validation(m) => (CatalogErrorKind::Validation, m@),
            ImageCatalogServiceError::NotFound => (CatalogErrorKind::NotFound, Seq::empty()),
            ImageCatalogServiceError::Persistence(m) => (CatalogErrorKind::Persistence, m@),
        }
    }
}

/// The catalog error a repository error becomes.
pub open spec fn catalog_error_spec(e: RepositoryError) -> (CatalogErrorKind, Seq<char>) {
    match e {
        RepositoryError::NotFound => (CatalogErrorKind::NotFound, Seq::empty()),
        RepositoryError::Validation(m) => (CatalogErrorKind::Validation, m@),
        RepositoryError::Conflict(m) => (CatalogErrorKind::Persistence, m@),
        RepositoryError::Database(m) => (CatalogErrorKind::Persistence, m@),
        RepositoryError::Serialization(m) => (CatalogErrorKind::Persistence, m@),
    }
}

/// Maps a repository failure onto a catalog failure: conflicts, database and
/// serialization failures are all persistence failures.
pub fn map_catalog_error(error: RepositoryError) -> (e: ImageCatalogServiceError)
    ensures
        e@ == catalog_error_spec(error),
{
    match error {
        RepositoryError::NotFound => ImageCatalogServiceError::NotFound,
        RepositoryError::Validation(message) => ImageCatalogServiceError::Validation(message),
        RepositoryError::Conflict(message) => ImageCatalogServiceError::Persistence(message),
        RepositoryError::Database(message) => ImageCatalogServiceError::Persistence(message),
        RepositoryError::Serialization(message) => ImageCatalogServiceError::Persistence(message),
    }
}

/// The human-readable text of a catalog error.
pub open spec fn catalog_message_spec(e: (CatalogErrorKind, Seq<char>)) -> Seq<char> {
    match e.0 {
        CatalogErrorKind::Validation => "validation failed: "@ + e.1,
        CatalogErrorKind::NotFound => "resource not found"@,
        CatalogErrorKind::Persistence => "persistence failed: "@ + e.1,
    }
}

impl ImageCatalogServiceError {
    /// The human-readable text of the error.
    pub fn message(&self) -> (s: String)
        ensures
            s@ == catalog_message_spec(self@),
    {
        match self {
            ImageCatalogServiceError::Validation(m) => concat2("validation failed: ", m.as_str()),
            ImageCatalogServiceError::NotFound => "resource not found".to_owned(),
            ImageCatalogServiceError::Persistence(m) => concat2("persistence failed: ", m.as_str()),
        }
    }
}

/// The catalog scope of a subject.
pub open spec fn scope_of(subject: RuntimeSubject) -> ImageCatalogScope {
    ImageCatalogScope {
        tenant_id: subject.tenant_id,
        organization_id: subject.organization_id,
        user_id: subject.user_id,
    }
}

/// The catalog scope a subject reads and writes in.
pub fn catalog_scope(subject: &RuntimeSubject) -> (scope: ImageCatalogScope)
    ensures
        scope == scope_of(*subject),
{
    ImageCatalogScope {
        tenant_id: subject.tenant_id.clone(),
        organization_id: clone_opt(&subject.organization_id),
        user_id: subject.user_id.clone(),
    }
}

/// The row offset of a page: pages count from 1, and a page below 1 reads as
/// the first page.
pub open spec fn page_offset(page: i64, page_size: i64) -> int {
    let p: int = if page < 1 {
        1
    } else {
        page as int
    };
    (p - 1) * page_size
}

/// Computes the row offset of a page.
pub fn list_offset(page: i64, page_size: i64) -> (offset: i64)
    requires
        i64::MIN <= page_offset(page, page_size) <= i64::MAX,
    ensures
        offset == page_offset(page, page_size),
{
    let p = if page < 1 {
        1
    } else {
        page
    };
    (p - 1) * page_size
}

/// The application service over a catalog repository.
pub struct ImageCatalogService<R: ImageCatalogRepository> {
    store: R,
}

/// The text of an optional string, as a string slice.
fn opt_str(o: &Option<String>) -> (r: Option<&str>)
    ensures
        match r {
            Some(s) => Some(s@),
            None => None::<Seq<char>>,
        } == opt_view(*o),
{
    match o {
        Some(s) => Some(s.as_str()),
        None => None,
    }
}

/// The outcome of a lookup: the record, or `NotFound` when the repository
/// has none, or the mapped repository failure.
pub open spec fn found_or_missing<T>(r: Result<Option<T>, RepositoryError>) -> Result<
    T,
    (CatalogErrorKind, Seq<char>),
> {
    match r {
        Ok(Some(x)) => Ok(x),
        Ok(None) => Err((CatalogErrorKind::NotFound, Seq::empty())),
        Err(e) => Err(catalog_error_spec(e)),
    }
}

/// Finishes a lookup: the record, `NotFound` when the repository has none,
/// or the repository failure mapped onto a catalog failure.
pub fn finish_lookup<T>(r: Result<Option<T>, RepositoryError>) -> (out: Result<
    T,
    ImageCatalogServiceError,
>)
    ensures
        match (out, found_or_missing(r)) {
            (Ok(x), Ok(y)) => x == y,
            (Err(e), Err(f)) => e@ == f,
            _ => false,
        },
{
    match r {
        Ok(Some(x)) => Ok(x),
        Ok(None) => Err(ImageCatalogServiceError::NotFound),
        Err(e) => Err(map_catalog_error(e)),
    }
}

impl<R: ImageCatalogRepository> ImageCatalogService<R> {
    /// The repository the service reads and writes.
    pub closed spec fn repository(&self) -> R {
        self.store
    }

    /// A service over a repository.
    pub fn new(store: R) -> (s: Self)
        ensures
            s.repository() == store,
    {
        ImageCatalogService { store }
    }

    /// The repository the service reads and writes.
    pub fn store(&self) -> (r: &R)
        ensures
            *r == self.repository(),
    {
        &self.store
    }

    /// A page of presets visible to the subject.
    pub fn list_presets(&self, subject: &RuntimeSubject, page: i64, page_size: i64, q: Option<String>) -> (r:
        Result<Vec<ImagePresetRecord>, ImageCatalogServiceError>)
        requires
            i64::MIN <= page_offset(page, page_size) <= i64::MAX,
        ensures
            match (
                r,
                self.repository().preset_listing(
                    scope_of(*subject),
                    page_size,
                    page_offset(page, page_size) as i64,
                    opt_view(q),
                ),
            ) {
                (Ok(v), Ok(s)) => v@ == s,
                (Err(e), Err(f)) => e@ == catalog_error_spec(f),
                _ => false,
            },
            r matches Ok(v) ==> forall|i: int|
                0 <= i < v@.len() ==> self.repository().presets(scope_of(*subject)).contains(
                    #[trigger] v@[i],
                ),
    {
        let offset = list_offset(page, page_size);
        let scope = catalog_scope(subject);
        match self.store.list_presets(&scope, page_size, offset, opt_str(&q)) {
            Ok(v) => Ok(v),
            Err(e) => Err(map_catalog_error(e)),
        }
    }

    /// The preset with the given id (trimmed), or `NotFound`.
    pub fn get_preset(&self, subject: &RuntimeSubject, preset_id: &str) -> (r: Result<
        ImagePresetRecord,
        ImageCatalogServiceError,
    >)
        ensures
            match (
                r,
                found_or_missing(self.repository().preset_lookup(scope_of(*subject), trimmed(preset_id@))),
            ) {
                (Ok(x), Ok(y)) => x == y,
                (Err(e), Err(f)) => e@ == f,
                _ => false,
            },
            r matches Ok(p) ==> self.repository().presets(scope_of(*subject)).contains(p)
                && p.preset_id@ == trimmed(preset_id@),
            (forall|i: int|
                0 <= i < self.repository().presets(scope_of(*subject)).len()
                    ==> (#[trigger] self.repository().presets(scope_of(*subject))[i]).preset_id@
                    != trimmed(preset_id@)) ==> r is Err,
    {
        let scope = catalog_scope(subject);
        let id = trim(preset_id);
        let found = self.store.get_preset(&scope, id.as_str());
        proof {
            let ghost g = found;
            if let Ok(Some(x)) = g {
                let s = self.store.presets(scope);
                let i = choose|i: int| 0 <= i < s.len() && s[i] == x;
                assert(s[i].preset_id@ == x.preset_id@);
                assert(self.repository().presets(scope_of(*subject))[i] == x);
            }
        }
        finish_lookup(found)
    }

    /// A page of assets visible to the subject.
    pub fn list_assets(&self, subject: &RuntimeSubject, page: i64, page_size: i64, q: Option<String>) -> (r:
        Result<Vec<ImageAssetRecord>, ImageCatalogServiceError>)
        requires
            i64::MIN <= page_offset(page, page_size) <= i64::MAX,
        ensures
            match (
                r,
                self.repository().asset_listing(
                    scope_of(*subject),
                    page_size,
                    page_offset(page, page_size) as i64,
                    opt_view(q),
                ),
            ) {
                (Ok(v), Ok(s)) => v@ == s,
                (Err(e), Err(f)) => e@ == catalog_error_spec(f),
                _ => false,
            },
            r matches Ok(v) ==> forall|i: int|
                0 <= i < v@.len() ==> self.repository().assets(scope_of(*subject)).contains(
                    #[trigger] v@[i],
                ),
    {
        let offset = list_offset(page, page_size);
        let scope = catalog_scope(subject);
        match self.store.list_assets(&scope, page_size, offset, opt_str(&q)) {
            Ok(v) => Ok(v),
            Err(e) => Err(map_catalog_error(e)),
        }
    }

    /// The asset with the given id (trimmed), or `NotFound`.
    pub fn get_asset(&self, subject: &RuntimeSubject, asset_id: &str) -> (r: Result<
        ImageAssetRecord,
        ImageCatalogServiceError,
    >)
        ensures
            match (
                r,
                found_or_missing(self.repository().asset_lookup(scope_of(*subject), trimmed(asset_id@))),
            ) {
                (Ok(x), Ok(y)) => x == y,
                (Err(e), Err(f)) => e@ == f,
                _ => false,
            },
            r matches Ok(a) ==> self.repository().assets(scope_of(*subject)).contains(a)
                && a.asset_id@ == trimmed(asset_id@),
            (forall|i: int|
                0 <= i < self.repository().assets(scope_of(*subject)).len()
                    ==> (#[trigger] self.repository().assets(scope_of(*subject))[i]).asset_id@
                    != trimmed(asset_id@)) ==> r is Err,
    {
        let scope = catalog_scope(subject);
        let id = trim(asset_id);
        let found = self.store.get_asset(&scope, id.as_str());
        proof {
            let ghost g = found;
            if let Ok(Some(x)) = g {
                let s = self.store.assets(scope);
                let i = choose|i: int| 0 <= i < s.len() && s[i] == x;
                assert(s[i].asset_id@ == x.asset_id@);
                assert(self.repository().assets(scope_of(*subject))[i] == x);
            }
        }
        finish_lookup(found)
    }

    /// A page of galleries visible to the subject.
    pub fn list_galleries(
        &self,
        subject: &RuntimeSubject,
        page: i64,
        page_size: i64,
        q: Option<String>,
    ) -> (r: Result<Vec<ImageGalleryRecord>, ImageCatalogServiceError>)
        requires
            i64::MIN <= page_offset(page, page_size) <= i64::MAX,
        ensures
            match (
                r,
                self.repository().gallery_listing(
                    scope_of(*subject),
                    page_size,
                    page_offset(page, page_size) as i64,
                    opt_view(q),
                ),
            ) {
                (Ok(v), Ok(s)) => v@ == s,
                (Err(e), Err(f)) => e@ == catalog_error_spec(f),
                _ => false,
            },
            r matches Ok(v) ==> forall|i: int|
                0 <= i < v@.len() ==> self.repository().galleries(scope_of(*subject)).contains(
                    #[trigger] v@[i],
                ),
    {
        let offset = list_offset(page, page_size);
        let scope = catalog_scope(subject);
        match self.store.list_galleries(&scope, page_size, offset, opt_str(&q)) {
            Ok(v) => Ok(v),
            Err(e) => Err(map_catalog_error(e)),
        }
    }

    /// The gallery with the given id (trimmed), or `NotFound`.
    pub fn get_gallery(&self, subject: &RuntimeSubject, gallery_id: &str) -> (r: Result<
        ImageGalleryRecord,
        ImageCatalogServiceError,
    >)
        ensures
            match (
                r,
                found_or_missing(self.repository().gallery_lookup(scope_of(*subject), trimmed(gallery_id@))),
            ) {
                (Ok(x), Ok(y)) => x == y,
                (Err(e), Err(f)) => e@ == f,
                _ => false,
            },
            r matches Ok(g) ==> self.repository().galleries(scope_of(*subject)).contains(g)
                && g.gallery_id@ == trimmed(gallery_id@),
            (forall|i: int|
                0 <= i < self.repository().galleries(scope_of(*subject)).len()
                    ==> (#[trigger] self.repository().galleries(scope_of(*subject))[i]).gallery_id@
                    != trimmed(gallery_id@)) ==> r is Err,
    {
        let scope = catalog_scope(subject);
        let id = trim(gallery_id);
        let found = self.store.get_gallery(&scope, id.as_str());
        proof {
            let ghost g = found;
            if let Ok(Some(x)) = g {
                let s = self.store.galleries(scope);
                let i = choose|i: int| 0 <= i < s.len() && s[i] == x;
                assert(s[i].gallery_id@ == x.gallery_id@);
                assert(self.repository().galleries(scope_of(*subject))[i] == x);
            }
        }
        finish_lookup(found)
    }

    /// Places an asset in a gallery; a blank asset id is refused before the
    /// repository is touched.
    pub fn create_gallery_item(
        &mut self,
        subject: &RuntimeSubject,
        gallery_id: &str,
        command: ImageGalleryItemCreateCommand,
    ) -> (r: Result<ImageGalleryItemRecord, ImageCatalogServiceError>)
        ensures
            blank(command.asset_id@) ==> {
                &&& r matches Err(e) && e@ == (CatalogErrorKind::Validation, "assetId is required"@)
                &&& final(self).repository() == old(self).repository()
            },
            !blank(command.asset_id@) ==> match (
                r,
                old(self).repository().gallery_item_creation(
                    scope_of(*subject),
                    trimmed(gallery_id@),
                    command,
                ),
            ) {
                (Ok(i), Ok(f)) => item_fields(i) == f,
                (Err(e), Err(x)) => e@ == catalog_error_spec(x),
                _ => false,
            },
            r matches Ok(item) ==> {
                &&& item.sort_order == item_sort_order(command)
                &&& item.caption == command.caption
            },
    {
        if is_blank(command.asset_id.as_str()) {
            return Err(ImageCatalogServiceError::Validation("assetId is required".to_owned()));
        }
        let scope = catalog_scope(subject);
        let id = trim(gallery_id);
        match self.store.create_gallery_item(&scope, id.as_str(), command) {
            Ok(item) => Ok(item),
            Err(e) => Err(map_catalog_error(e)),
        }
    }

    /// Requests an edit of an asset.
    pub fn create_edit_task(&mut self, subject: &RuntimeSubject, command: ImageEditTaskCreateCommand) -> (r:
        Result<ImageEditTaskRecord, ImageCatalogServiceError>)
        ensures
            match (r, old(self).repository().edit_task_creation(scope_of(*subject), command)) {
                (Ok(t), Ok(f)) => task_fields(t) == f,
                (Err(e), Err(x)) => e@ == catalog_error_spec(x),
                _ => false,
            },
            r matches Ok(task) ==> task.status@ == "queued"@,
    {
        let scope = catalog_scope(subject);
        match self.store.create_edit_task(&scope, command) {
            Ok(task) => Ok(task),
            Err(e) => Err(map_catalog_error(e)),
        }
    }

    /// The edit task with the given id (trimmed), or `NotFound`.
    pub fn get_edit_task(&self, subject: &RuntimeSubject, task_id: &str) -> (r: Result<
        ImageEditTaskRecord,
        ImageCatalogServiceError,
    >)
        ensures
            match (
                r,
                found_or_missing(self.repository().edit_task_lookup(scope_of(*subject), trimmed(task_id@))),
            ) {
                (Ok(x), Ok(y)) => x == y,
                (Err(e), Err(f)) => e@ == f,
                _ => false,
            },
            r matches Ok(t) ==> self.repository().edit_tasks(scope_of(*subject)).contains(t)
                && t.task_id@ == trimmed(task_id@),
            (forall|i: int|
                0 <= i < self.repository().edit_tasks(scope_of(*subject)).len()
                    ==> (#[trigger] self.repository().edit_tasks(scope_of(*subject))[i]).task_id@
                    != trimmed(task_id@)) ==> r is Err,
    {
        let scope = catalog_scope(subject);
        let id = trim(task_id);
        let found = self.store.get_edit_task(&scope, id.as_str());
        proof {
            let ghost g = found;
            if let Ok(Some(x)) = g {
                let s = self.store.edit_tasks(scope);
                let i = choose|i: int| 0 <= i < s.len() && s[i] == x;
                assert(s[i].task_id@ == x.task_id@);
                assert(self.repository().edit_tasks(scope_of(*subject))[i] == x);
            }
        }
        finish_lookup(found)
    }
}

} // verus!
