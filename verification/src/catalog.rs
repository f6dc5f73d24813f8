//! The image catalog: presets, assets, galleries, gallery items and edit
//! tasks, the repository interface that stores them, the in-memory
//! repository, and the rules the SQL repository applies to scopes, paging,
//! search and edit-task states.
use vstd::prelude::*;

use crate::scope::{
    opt_view, organization_outcome, parse_scope_id, scope_id_outcome,
    RepositoryError,
};
use crate::text::{
    blank, clone_opt, first_index, lemma_first_index, lemma_first_index_bounds, concat2, concat3, is_blank, text_eq, trim, trimmed};

verus! {

// ---------------------------------------------------------------------------
// Records and commands
// ---------------------------------------------------------------------------

/// The tenant, organization and user a catalog request acts for.
#[derive(Debug, PartialEq, Eq)]
pub struct ImageCatalogScope {
    pub tenant_id: String,
    pub organization_id: Option<String>,
    pub user_id: String,
}

/// A reusable generation preset.
#[derive(Debug, PartialEq, Eq)]
pub struct ImagePresetRecord {
    pub preset_id: String,
    pub preset_key: String,
    pub title: String,
    pub description: Option<String>,
    pub default_resolution: String,
    pub default_style: String,
    pub item_count: i32,
}

/// A stored image asset.
#[derive(Debug, PartialEq, Eq)]
pub struct ImageAssetRecord {
    pub asset_id: String,
    pub title: Option<String>,
    pub prompt: Option<String>,
    pub resolution: Option<String>,
    pub mime_type: Option<String>,
    pub provenance: String,
}

/// A gallery of assets.
#[derive(Debug, PartialEq, Eq)]
pub struct ImageGalleryRecord {
    pub gallery_id: String,
    pub gallery_key: String,
    pub title: String,
    pub description: Option<String>,
    pub item_count: i32,
}

/// An asset placed in a gallery.
#[derive(Debug, PartialEq, Eq)]
pub struct ImageGalleryItemRecord {
    pub item_id: String,
    pub gallery_id: String,
    pub asset_id: String,
    pub sort_order: i32,
    pub caption: Option<String>,
}

/// An edit requested on an asset.
#[derive(Debug, PartialEq, Eq)]
pub struct ImageEditTaskRecord {
    pub task_id: String,
    pub source_asset_id: String,
    pub edit_type: String,
    pub prompt: String,
    pub status: String,
}

/// The request to place an asset in a gallery.
#[derive(Debug, PartialEq, Eq)]
pub struct ImageGalleryItemCreateCommand {
    pub asset_id: String,
    pub caption: Option<String>,
    pub sort_order: Option<i32>,
}

/// The request to edit an asset.
#[derive(Debug, PartialEq, Eq)]
pub struct ImageEditTaskCreateCommand {
    pub source_asset_id: String,
    pub edit_type: String,
    pub prompt: String,
    pub negative_prompt: Option<String>,
}

impl ImageCatalogScope {
    /// A copy of the scope.
    pub fn copy(&self) -> (r: Self)
        ensures
            r == *self,
    {
        ImageCatalogScope {
            tenant_id: self.tenant_id.clone(),
            organization_id: clone_opt(&self.organization_id),
            user_id: self.user_id.clone(),
        }
    }
}

impl ImagePresetRecord {
    /// A copy of the record.
    pub fn copy(&self) -> (r: Self)
        ensures
            r == *self,
    {
        ImagePresetRecord {
            preset_id: self.preset_id.clone(),
            preset_key: self.preset_key.clone(),
            title: self.title.clone(),
            description: clone_opt(&self.description),
            default_resolution: self.default_resolution.clone(),
            default_style: self.default_style.clone(),
            item_count: self.item_count,
        }
    }
}

impl ImageAssetRecord {
    /// A copy of the record.
    pub fn copy(&self) -> (r: Self)
        ensures
            r == *self,
    {
        ImageAssetRecord {
            asset_id: self.asset_id.clone(),
            title: clone_opt(&self.title),
            prompt: clone_opt(&self.prompt),
            resolution: clone_opt(&self.resolution),
            mime_type: clone_opt(&self.mime_type),
            provenance: self.provenance.clone(),
        }
    }
}

impl ImageGalleryRecord {
    /// A copy of the record.
    pub fn copy(&self) -> (r: Self)
        ensures
            r == *self,
    {
        ImageGalleryRecord {
            gallery_id: self.gallery_id.clone(),
            gallery_key: self.gallery_key.clone(),
            title: self.title.clone(),
            description: clone_opt(&self.description),
            item_count: self.item_count,
        }
    }
}

impl ImageGalleryItemRecord {
    /// A copy of the record.
    pub fn copy(&self) -> (r: Self)
        ensures
            r == *self,
    {
        ImageGalleryItemRecord {
            item_id: self.item_id.clone(),
            gallery_id: self.gallery_id.clone(),
            asset_id: self.asset_id.clone(),
            sort_order: self.sort_order,
            caption: clone_opt(&self.caption),
        }
    }
}

impl ImageEditTaskRecord {
    /// A copy of the record.
    pub fn copy(&self) -> (r: Self)
        ensures
            r == *self,
    {
        ImageEditTaskRecord {
            task_id: self.task_id.clone(),
            source_asset_id: self.source_asset_id.clone(),
            edit_type: self.edit_type.clone(),
            prompt: self.prompt.clone(),
            status: self.status.clone(),
        }
    }
}

// ---------------------------------------------------------------------------
// Repository interface
// ---------------------------------------------------------------------------

/// The sort order a gallery item is stored with.
pub open spec fn item_sort_order(command: ImageGalleryItemCreateCommand) -> i32 {
    match command.sort_order {
        Some(s) => s,
        None => 0,
    }
}

/// The view of an optional string slice.
pub open spec fn str_opt_view(q: Option<&str>) -> Option<Seq<char>> {
    match q {
        Some(s) => Some(s@),
        None => None,
    }
}

/// A listing seen as its records, or its failure.
pub open spec fn records_result<T>(r: Result<Vec<T>, RepositoryError>) -> Result<Seq<T>, RepositoryError> {
    match r {
        Ok(v) => Ok(v@),
        Err(e) => Err(e),
    }
}

/// A created gallery item seen as its fields, or the failure.
pub open spec fn item_result_fields(r: Result<ImageGalleryItemRecord, RepositoryError>) -> Result<
    (Seq<char>, Seq<char>, Seq<char>, i32, Option<String>),
    RepositoryError,
> {
    match r {
        Ok(i) => Ok(item_fields(i)),
        Err(e) => Err(e),
    }
}

/// A created edit task seen as its fields, or the failure.
pub open spec fn task_result_fields(r: Result<ImageEditTaskRecord, RepositoryError>) -> Result<
    (Seq<char>, Seq<char>, Seq<char>, Seq<char>, Seq<char>),
    RepositoryError,
> {
    match r {
        Ok(t) => Ok(task_fields(t)),
        Err(e) => Err(e),
    }
}

/// Storage of the image catalog, as implemented in memory and over SQL.
///
/// The spec functions name the records a repository holds for a scope; the
/// contracts say that what a read returns is among them, and what a create
/// stores.
pub trait ImageCatalogRepository {
    /// The presets visible in a scope.
    spec fn presets(&self, scope: ImageCatalogScope) -> Seq<ImagePresetRecord>;

    /// The assets visible in a scope.
    spec fn assets(&self, scope: ImageCatalogScope) -> Seq<ImageAssetRecord>;

    /// The galleries visible in a scope.
    spec fn galleries(&self, scope: ImageCatalogScope) -> Seq<ImageGalleryRecord>;

    /// The edit tasks visible in a scope.
    spec fn edit_tasks(&self, scope: ImageCatalogScope) -> Seq<ImageEditTaskRecord>;

    /// What a preset listing with this window and search answers.
    spec fn preset_listing(
        &self,
        scope: ImageCatalogScope,
        limit: i64,
        offset: i64,
        q: Option<Seq<char>>,
    ) -> Result<Seq<ImagePresetRecord>, RepositoryError>;

    /// What a preset lookup by id answers.
    spec fn preset_lookup(&self, scope: ImageCatalogScope, id: Seq<char>) -> Result<
        Option<ImagePresetRecord>,
        RepositoryError,
    >;

    /// What an asset listing with this window and search answers.
    spec fn asset_listing(
        &self,
        scope: ImageCatalogScope,
        limit: i64,
        offset: i64,
        q: Option<Seq<char>>,
    ) -> Result<Seq<ImageAssetRecord>, RepositoryError>;

    /// What an asset lookup by id answers.
    spec fn asset_lookup(&self, scope: ImageCatalogScope, id: Seq<char>) -> Result<
        Option<ImageAssetRecord>,
        RepositoryError,
    >;

    /// What a gallery listing with this window and search answers.
    spec fn gallery_listing(
        &self,
        scope: ImageCatalogScope,
        limit: i64,
        offset: i64,
        q: Option<Seq<char>>,
    ) -> Result<Seq<ImageGalleryRecord>, RepositoryError>;

    /// What a gallery lookup by id answers.
    spec fn gallery_lookup(&self, scope: ImageCatalogScope, id: Seq<char>) -> Result<
        Option<ImageGalleryRecord>,
        RepositoryError,
    >;

    /// What placing an asset in a gallery answers: the created item's fields,
    /// or the failure.
    spec fn gallery_item_creation(
        &self,
        scope: ImageCatalogScope,
        gallery_id: Seq<char>,
        command: ImageGalleryItemCreateCommand,
    ) -> Result<(Seq<char>, Seq<char>, Seq<char>, i32, Option<String>), RepositoryError>;

    /// What creating an edit task answers: the created task's fields, or the
    /// failure.
    spec fn edit_task_creation(&self, scope: ImageCatalogScope, command: ImageEditTaskCreateCommand) -> Result<
        (Seq<char>, Seq<char>, Seq<char>, Seq<char>, Seq<char>),
        RepositoryError,
    >;

    /// What an edit task lookup by id answers.
    spec fn edit_task_lookup(&self, scope: ImageCatalogScope, id: Seq<char>) -> Result<
        Option<ImageEditTaskRecord>,
        RepositoryError,
    >;

    fn list_presets(&self, scope: &ImageCatalogScope, limit: i64, offset: i64, q: Option<&str>) -> (r:
        Result<Vec<ImagePresetRecord>, RepositoryError>)
        ensures
            records_result(r) == self.preset_listing(*scope, limit, offset, str_opt_view(q)),
            r matches Ok(v) ==> forall|i: int|
                0 <= i < v@.len() ==> self.presets(*scope).contains(#[trigger] v@[i]),
    ;

    fn get_preset(&self, scope: &ImageCatalogScope, preset_id: &str) -> (r: Result<
        Option<ImagePresetRecord>,
        RepositoryError,
    >)
        ensures
            r == self.preset_lookup(*scope, preset_id@),
            r matches Ok(Some(p)) ==> self.presets(*scope).contains(p) && p.preset_id@ == preset_id@,
            r matches Ok(None) ==> forall|i: int|
                0 <= i < self.presets(*scope).len() ==> (#[trigger] self.presets(*scope)[i]).preset_id@
                    != preset_id@,
    ;

    fn list_assets(&self, scope: &ImageCatalogScope, limit: i64, offset: i64, q: Option<&str>) -> (r:
        Result<Vec<ImageAssetRecord>, RepositoryError>)
        ensures
            records_result(r) == self.asset_listing(*scope, limit, offset, str_opt_view(q)),
            r matches Ok(v) ==> forall|i: int|
                0 <= i < v@.len() ==> self.assets(*scope).contains(#[trigger] v@[i]),
    ;

    fn get_asset(&self, scope: &ImageCatalogScope, asset_id: &str) -> (r: Result<
        Option<ImageAssetRecord>,
        RepositoryError,
    >)
        ensures
            r == self.asset_lookup(*scope, asset_id@),
            r matches Ok(Some(a)) ==> self.assets(*scope).contains(a) && a.asset_id@ == asset_id@,
            r matches Ok(None) ==> forall|i: int|
                0 <= i < self.assets(*scope).len() ==> (#[trigger] self.assets(*scope)[i]).asset_id@
                    != asset_id@,
    ;

    fn list_galleries(&self, scope: &ImageCatalogScope, limit: i64, offset: i64, q: Option<&str>) -> (r:
        Result<Vec<ImageGalleryRecord>, RepositoryError>)
        ensures
            records_result(r) == self.gallery_listing(*scope, limit, offset, str_opt_view(q)),
            r matches Ok(v) ==> forall|i: int|
                0 <= i < v@.len() ==> self.galleries(*scope).contains(#[trigger] v@[i]),
    ;

    fn get_gallery(&self, scope: &ImageCatalogScope, gallery_id: &str) -> (r: Result<
        Option<ImageGalleryRecord>,
        RepositoryError,
    >)
        ensures
            r == self.gallery_lookup(*scope, gallery_id@),
            r matches Ok(Some(g)) ==> self.galleries(*scope).contains(g) && g.gallery_id@ == gallery_id@,
            r matches Ok(None) ==> forall|i: int|
                0 <= i < self.galleries(*scope).len() ==> (#[trigger] self.galleries(*scope)[i]).gallery_id@
                    != gallery_id@,
    ;

    fn create_gallery_item(
        &mut self,
        scope: &ImageCatalogScope,
        gallery_id: &str,
        command: ImageGalleryItemCreateCommand,
    ) -> (r: Result<ImageGalleryItemRecord, RepositoryError>)
        ensures
            item_result_fields(r) == old(self).gallery_item_creation(*scope, gallery_id@, command),
            r matches Ok(item) ==> {
                &&& item.sort_order == item_sort_order(command)
                &&& item.caption == command.caption
            },
    ;

    fn create_edit_task(&mut self, scope: &ImageCatalogScope, command: ImageEditTaskCreateCommand) -> (r:
        Result<ImageEditTaskRecord, RepositoryError>)
        ensures
            task_result_fields(r) == old(self).edit_task_creation(*scope, command),
            r matches Ok(task) ==> task.status@ == "queued"@,
    ;

    fn get_edit_task(&self, scope: &ImageCatalogScope, task_id: &str) -> (r: Result<
        Option<ImageEditTaskRecord>,
        RepositoryError,
    >)
        ensures
            r == self.edit_task_lookup(*scope, task_id@),
            r matches Ok(Some(t)) ==> self.edit_tasks(*scope).contains(t) && t.task_id@ == task_id@,
            r matches Ok(None) ==> forall|i: int|
                0 <= i < self.edit_tasks(*scope).len() ==> (#[trigger] self.edit_tasks(*scope)[i]).task_id@
                    != task_id@,
    ;
}

// ---------------------------------------------------------------------------
// In-memory repository
// ---------------------------------------------------------------------------

/// A catalog held in memory: every scope sees the same records, listing
/// ignores paging and search, and lookups return the first record with the
/// requested id.
pub struct InMemoryImageCatalogRepository {
    presets: Vec<ImagePresetRecord>,
    assets: Vec<ImageAssetRecord>,
    galleries: Vec<ImageGalleryRecord>,
    gallery_items: Vec<ImageGalleryItemRecord>,
    edit_tasks: Vec<ImageEditTaskRecord>,
}

/// Everything an in-memory catalog holds.
pub struct CatalogContents {
    pub presets: Seq<ImagePresetRecord>,
    pub assets: Seq<ImageAssetRecord>,
    pub galleries: Seq<ImageGalleryRecord>,
    pub gallery_items: Seq<ImageGalleryItemRecord>,
    pub edit_tasks: Seq<ImageEditTaskRecord>,
}

impl View for InMemoryImageCatalogRepository {
    type V = CatalogContents;

    closed spec fn view(&self) -> CatalogContents {
        CatalogContents {
            presets: self.presets@,
            assets: self.assets@,
            galleries: self.galleries@,
            gallery_items: self.gallery_items@,
            edit_tasks: self.edit_tasks@,
        }
    }
}

/// The ids of a list of presets.
pub open spec fn preset_ids(s: Seq<ImagePresetRecord>) -> Seq<Seq<char>> {
    s.map_values(|p: ImagePresetRecord| p.preset_id@)
}

/// The ids of a list of assets.
pub open spec fn asset_ids(s: Seq<ImageAssetRecord>) -> Seq<Seq<char>> {
    s.map_values(|a: ImageAssetRecord| a.asset_id@)
}

/// The ids of a list of galleries.
pub open spec fn gallery_ids(s: Seq<ImageGalleryRecord>) -> Seq<Seq<char>> {
    s.map_values(|g: ImageGalleryRecord| g.gallery_id@)
}

/// The ids of a list of edit tasks.
pub open spec fn task_ids(s: Seq<ImageEditTaskRecord>) -> Seq<Seq<char>> {
    s.map_values(|t: ImageEditTaskRecord| t.task_id@)
}

/// The record at the first matching position, if any.
pub open spec fn lookup<T>(records: Seq<T>, ids: Seq<Seq<char>>, id: Seq<char>) -> Option<T> {
    match first_index(ids, id) {
        Some(i) => Some(records[i]),
        None => None,
    }
}

/// The gallery item the in-memory catalog creates for a command.
pub open spec fn new_gallery_item(gallery_id: Seq<char>, command: ImageGalleryItemCreateCommand) -> (
    Seq<char>,
    Seq<char>,
    Seq<char>,
    i32,
    Option<String>,
) {
    (
        "item-"@ + gallery_id + "-"@ + command.asset_id@,
        gallery_id,
        command.asset_id@,
        item_sort_order(command),
        command.caption,
    )
}

/// The fields of a gallery item, its texts taken as views.
pub open spec fn item_fields(item: ImageGalleryItemRecord) -> (
    Seq<char>,
    Seq<char>,
    Seq<char>,
    i32,
    Option<String>,
) {
    (item.item_id@, item.gallery_id@, item.asset_id@, item.sort_order, item.caption)
}

/// The edit task the in-memory catalog creates for a command.
pub open spec fn new_edit_task(command: ImageEditTaskCreateCommand) -> (
    Seq<char>,
    Seq<char>,
    Seq<char>,
    Seq<char>,
    Seq<char>,
) {
    (
        "edit-"@ + command.source_asset_id@,
        command.source_asset_id@,
        command.edit_type@,
        command.prompt@,
        "queued"@,
    )
}

/// The fields of an edit task, as views.
pub open spec fn task_fields(task: ImageEditTaskRecord) -> (
    Seq<char>,
    Seq<char>,
    Seq<char>,
    Seq<char>,
    Seq<char>,
) {
    (task.task_id@, task.source_asset_id@, task.edit_type@, task.prompt@, task.status@)
}

impl InMemoryImageCatalogRepository {
    /// An empty catalog.
    pub fn new() -> (r: Self)
        ensures
            r@.presets.len() == 0,
            r@.assets.len() == 0,
            r@.galleries.len() == 0,
            r@.gallery_items.len() == 0,
            r@.edit_tasks.len() == 0,
    {
        InMemoryImageCatalogRepository {
            presets: Vec::new(),
            assets: Vec::new(),
            galleries: Vec::new(),
            gallery_items: Vec::new(),
            edit_tasks: Vec::new(),
        }
    }

    /// A catalog that starts with the given presets, assets and galleries.
    pub fn with_records(
        presets: Vec<ImagePresetRecord>,
        assets: Vec<ImageAssetRecord>,
        galleries: Vec<ImageGalleryRecord>,
    ) -> (r: Self)
        ensures
            r@.presets == presets@,
            r@.assets == assets@,
            r@.galleries == galleries@,
            r@.gallery_items.len() == 0,
            r@.edit_tasks.len() == 0,
    {
        InMemoryImageCatalogRepository {
            presets,
            assets,
            galleries,
            gallery_items: Vec::new(),
            edit_tasks: Vec::new(),
        }
    }

    /// The gallery items stored so far, in creation order.
    pub fn gallery_items(&self) -> (r: Vec<ImageGalleryItemRecord>)
        ensures
            r@ == self@.gallery_items,
    {
        let mut r: Vec<ImageGalleryItemRecord> = Vec::new();
        let mut k: usize = 0;
        while k < self.gallery_items.len()
            invariant
                k <= self.gallery_items.len(),
                r@ == self.gallery_items@.take(k as int),
            decreases self.gallery_items.len() - k,
        {
            r.push(self.gallery_items[k].copy());
            assert(r@ =~= self.gallery_items@.take(k + 1));
            k = k + 1;
        }
        assert(self.gallery_items@.take(self.gallery_items@.len() as int) =~= self.gallery_items@);
        r
    }
}

fn copy_presets(v: &Vec<ImagePresetRecord>) -> (r: Vec<ImagePresetRecord>)
    ensures
        r@ == v@,
{
    let mut r: Vec<ImagePresetRecord> = Vec::new();
    let mut k: usize = 0;
    while k < v.len()
        invariant
            k <= v.len(),
            r@ == v@.take(k as int),
        decreases v.len() - k,
    {
        r.push(v[k].copy());
        assert(r@ =~= v@.take(k + 1));
        k = k + 1;
    }
    assert(v@.take(v@.len() as int) =~= v@);
    r
}

fn copy_assets(v: &Vec<ImageAssetRecord>) -> (r: Vec<ImageAssetRecord>)
    ensures
        r@ == v@,
{
    let mut r: Vec<ImageAssetRecord> = Vec::new();
    let mut k: usize = 0;
    while k < v.len()
        invariant
            k <= v.len(),
            r@ == v@.take(k as int),
        decreases v.len() - k,
    {
        r.push(v[k].copy());
        assert(r@ =~= v@.take(k + 1));
        k = k + 1;
    }
    assert(v@.take(v@.len() as int) =~= v@);
    r
}

fn copy_galleries(v: &Vec<ImageGalleryRecord>) -> (r: Vec<ImageGalleryRecord>)
    ensures
        r@ == v@,
{
    let mut r: Vec<ImageGalleryRecord> = Vec::new();
    let mut k: usize = 0;
    while k < v.len()
        invariant
            k <= v.len(),
            r@ == v@.take(k as int),
        decreases v.len() - k,
    {
        r.push(v[k].copy());
        assert(r@ =~= v@.take(k + 1));
        k = k + 1;
    }
    assert(v@.take(v@.len() as int) =~= v@);
    r
}

fn find_preset(v: &Vec<ImagePresetRecord>, id: &str) -> (r: Option<ImagePresetRecord>)
    ensures
        r == lookup(v@, preset_ids(v@), id@),
{
    let mut k: usize = 0;
    while k < v.len()
        invariant
            k <= v.len(),
            forall|j: int| 0 <= j < k ==> preset_ids(v@)[j] != id@,
        decreases v.len() - k,
    {
        if text_eq(v[k].preset_id.as_str(), id) {
            proof {
                lemma_first_index(preset_ids(v@), id@, k as int);
            }
            return Some(v[k].copy());
        }
        k = k + 1;
    }
    proof {
        lemma_first_index(preset_ids(v@), id@, v.len() as int);
    }
    None
}

fn find_asset(v: &Vec<ImageAssetRecord>, id: &str) -> (r: Option<ImageAssetRecord>)
    ensures
        r == lookup(v@, asset_ids(v@), id@),
{
    let mut k: usize = 0;
    while k < v.len()
        invariant
            k <= v.len(),
            forall|j: int| 0 <= j < k ==> asset_ids(v@)[j] != id@,
        decreases v.len() - k,
    {
        if text_eq(v[k].asset_id.as_str(), id) {
            proof {
                lemma_first_index(asset_ids(v@), id@, k as int);
            }
            return Some(v[k].copy());
        }
        k = k + 1;
    }
    proof {
        lemma_first_index(asset_ids(v@), id@, v.len() as int);
    }
    None
}

fn find_gallery(v: &Vec<ImageGalleryRecord>, id: &str) -> (r: Option<ImageGalleryRecord>)
    ensures
        r == lookup(v@, gallery_ids(v@), id@),
{
    let mut k: usize = 0;
    while k < v.len()
        invariant
            k <= v.len(),
            forall|j: int| 0 <= j < k ==> gallery_ids(v@)[j] != id@,
        decreases v.len() - k,
    {
        if text_eq(v[k].gallery_id.as_str(), id) {
            proof {
                lemma_first_index(gallery_ids(v@), id@, k as int);
            }
            return Some(v[k].copy());
        }
        k = k + 1;
    }
    proof {
        lemma_first_index(gallery_ids(v@), id@, v.len() as int);
    }
    None
}

fn find_task(v: &Vec<ImageEditTaskRecord>, id: &str) -> (r: Option<ImageEditTaskRecord>)
    ensures
        r == lookup(v@, task_ids(v@), id@),
{
    let mut k: usize = 0;
    while k < v.len()
        invariant
            k <= v.len(),
            forall|j: int| 0 <= j < k ==> task_ids(v@)[j] != id@,
        decreases v.len() - k,
    {
        if text_eq(v[k].task_id.as_str(), id) {
            proof {
                lemma_first_index(task_ids(v@), id@, k as int);
            }
            return Some(v[k].copy());
        }
        k = k + 1;
    }
    proof {
        lemma_first_index(task_ids(v@), id@, v.len() as int);
    }
    None
}

proof fn lemma_lookup_contains<T>(records: Seq<T>, ids: Seq<Seq<char>>, id: Seq<char>)
    requires
        ids.len() == records.len(),
    ensures
        lookup(records, ids, id) matches Some(x) ==> records.contains(x),
{
    lemma_first_index_bounds(ids, id);
    if let Some(i) = first_index(ids, id) {
        assert(records[i] == records[i]);
    }
}

proof fn lemma_first_index_absent(ids: Seq<Seq<char>>, id: Seq<char>)
    ensures
        first_index(ids, id) is None ==> forall|i: int| 0 <= i < ids.len() ==> ids[i] != id,
    decreases ids.len(),
{
    if ids.len() > 0 && ids[0] != id {
        lemma_first_index_absent(ids.drop_first(), id);
        if first_index(ids, id) is None {
            assert forall|i: int| 0 <= i < ids.len() implies ids[i] != id by {
                if i > 0 {
                    assert(ids[i] == ids.drop_first()[i - 1]);
                }
            }
        }
    }
}

impl ImageCatalogRepository for InMemoryImageCatalogRepository {
    open spec fn presets(&self, scope: ImageCatalogScope) -> Seq<ImagePresetRecord> {
        self@.presets
    }

    open spec fn assets(&self, scope: ImageCatalogScope) -> Seq<ImageAssetRecord> {
        self@.assets
    }

    open spec fn galleries(&self, scope: ImageCatalogScope) -> Seq<ImageGalleryRecord> {
        self@.galleries
    }

    open spec fn edit_tasks(&self, scope: ImageCatalogScope) -> Seq<ImageEditTaskRecord> {
        self@.edit_tasks
    }

    open spec fn preset_listing(
        &self,
        scope: ImageCatalogScope,
        limit: i64,
        offset: i64,
        q: Option<Seq<char>>,
    ) -> Result<Seq<ImagePresetRecord>, RepositoryError> {
        Ok(self@.presets)
    }

    open spec fn preset_lookup(&self, scope: ImageCatalogScope, id: Seq<char>) -> Result<
        Option<ImagePresetRecord>,
        RepositoryError,
    > {
        Ok(lookup(self@.presets, preset_ids(self@.presets), id))
    }

    open spec fn asset_listing(
        &self,
        scope: ImageCatalogScope,
        limit: i64,
        offset: i64,
        q: Option<Seq<char>>,
    ) -> Result<Seq<ImageAssetRecord>, RepositoryError> {
        Ok(self@.assets)
    }

    open spec fn asset_lookup(&self, scope: ImageCatalogScope, id: Seq<char>) -> Result<
        Option<ImageAssetRecord>,
        RepositoryError,
    > {
        Ok(lookup(self@.assets, asset_ids(self@.assets), id))
    }

    open spec fn gallery_listing(
        &self,
        scope: ImageCatalogScope,
        limit: i64,
        offset: i64,
        q: Option<Seq<char>>,
    ) -> Result<Seq<ImageGalleryRecord>, RepositoryError> {
        Ok(self@.galleries)
    }

    open spec fn gallery_lookup(&self, scope: ImageCatalogScope, id: Seq<char>) -> Result<
        Option<ImageGalleryRecord>,
        RepositoryError,
    > {
        Ok(lookup(self@.galleries, gallery_ids(self@.galleries), id))
    }

    open spec fn gallery_item_creation(
        &self,
        scope: ImageCatalogScope,
        gallery_id: Seq<char>,
        command: ImageGalleryItemCreateCommand,
    ) -> Result<(Seq<char>, Seq<char>, Seq<char>, i32, Option<String>), RepositoryError> {
        Ok(new_gallery_item(gallery_id, command))
    }

    open spec fn edit_task_creation(&self, scope: ImageCatalogScope, command: ImageEditTaskCreateCommand) -> Result<
        (Seq<char>, Seq<char>, Seq<char>, Seq<char>, Seq<char>),
        RepositoryError,
    > {
        Ok(new_edit_task(command))
    }

    open spec fn edit_task_lookup(&self, scope: ImageCatalogScope, id: Seq<char>) -> Result<
        Option<ImageEditTaskRecord>,
        RepositoryError,
    > {
        Ok(lookup(self@.edit_tasks, task_ids(self@.edit_tasks), id))
    }

    fn list_presets(&self, scope: &ImageCatalogScope, limit: i64, offset: i64, q: Option<&str>) -> (r:
        Result<Vec<ImagePresetRecord>, RepositoryError>)
        ensures
            r matches Ok(v) && v@ == self@.presets,
    {
        Ok(copy_presets(&self.presets))
    }

    fn get_preset(&self, scope: &ImageCatalogScope, preset_id: &str) -> (r: Result<
        Option<ImagePresetRecord>,
        RepositoryError,
    >)
        ensures
            r == Ok::<Option<ImagePresetRecord>, RepositoryError>(
                lookup(self@.presets, preset_ids(self@.presets), preset_id@),
            ),
    {
        proof {
            lemma_lookup_contains(self.presets@, preset_ids(self.presets@), preset_id@);
            lemma_first_index_bounds(preset_ids(self.presets@), preset_id@);
            lemma_first_index_absent(preset_ids(self.presets@), preset_id@);
            if first_index(preset_ids(self.presets@), preset_id@) is None {
                assert forall|i: int| 0 <= i < self.presets@.len() implies (#[trigger] self.presets@[i]).preset_id@
                    != preset_id@ by {
                    assert(preset_ids(self.presets@)[i] == self.presets@[i].preset_id@);
                }
            }
        }
        Ok(find_preset(&self.presets, preset_id))
    }

    fn list_assets(&self, scope: &ImageCatalogScope, limit: i64, offset: i64, q: Option<&str>) -> (r:
        Result<Vec<ImageAssetRecord>, RepositoryError>)
        ensures
            r matches Ok(v) && v@ == self@.assets,
    {
        Ok(copy_assets(&self.assets))
    }

    fn get_asset(&self, scope: &ImageCatalogScope, asset_id: &str) -> (r: Result<
        Option<ImageAssetRecord>,
        RepositoryError,
    >)
        ensures
            r == Ok::<Option<ImageAssetRecord>, RepositoryError>(
                lookup(self@.assets, asset_ids(self@.assets), asset_id@),
            ),
    {
        proof {
            lemma_lookup_contains(self.assets@, asset_ids(self.assets@), asset_id@);
            lemma_first_index_bounds(asset_ids(self.assets@), asset_id@);
            lemma_first_index_absent(asset_ids(self.assets@), asset_id@);
            if first_index(asset_ids(self.assets@), asset_id@) is None {
                assert forall|i: int| 0 <= i < self.assets@.len() implies (#[trigger] self.assets@[i]).asset_id@
                    != asset_id@ by {
                    assert(asset_ids(self.assets@)[i] == self.assets@[i].asset_id@);
                }
            }
        }
        Ok(find_asset(&self.assets, asset_id))
    }

    fn list_galleries(&self, scope: &ImageCatalogScope, limit: i64, offset: i64, q: Option<&str>) -> (r:
        Result<Vec<ImageGalleryRecord>, RepositoryError>)
        ensures
            r matches Ok(v) && v@ == self@.galleries,
    {
        Ok(copy_galleries(&self.galleries))
    }

    fn get_gallery(&self, scope: &ImageCatalogScope, gallery_id: &str) -> (r: Result<
        Option<ImageGalleryRecord>,
        RepositoryError,
    >)
        ensures
            r == Ok::<Option<ImageGalleryRecord>, RepositoryError>(
                lookup(self@.galleries, gallery_ids(self@.galleries), gallery_id@),
            ),
    {
        proof {
            lemma_lookup_contains(self.galleries@, gallery_ids(self.galleries@), gallery_id@);
            lemma_first_index_bounds(gallery_ids(self.galleries@), gallery_id@);
            lemma_first_index_absent(gallery_ids(self.galleries@), gallery_id@);
            if first_index(gallery_ids(self.galleries@), gallery_id@) is None {
                assert forall|i: int| 0 <= i < self.galleries@.len() implies (#[trigger] self.galleries@[i]).gallery_id@
                    != gallery_id@ by {
                    assert(gallery_ids(self.galleries@)[i] == self.galleries@[i].gallery_id@);
                }
            }
        }
        Ok(find_gallery(&self.galleries, gallery_id))
    }

    fn create_gallery_item(
        &mut self,
        scope: &ImageCatalogScope,
        gallery_id: &str,
        command: ImageGalleryItemCreateCommand,
    ) -> (r: Result<ImageGalleryItemRecord, RepositoryError>)
        ensures
            r matches Ok(item) && {
                &&& item_fields(item) == new_gallery_item(gallery_id@, command)
                &&& final(self)@.gallery_items == old(self)@.gallery_items.push(item)
            },
            final(self)@.presets == old(self)@.presets,
            final(self)@.assets == old(self)@.assets,
            final(self)@.galleries == old(self)@.galleries,
            final(self)@.edit_tasks == old(self)@.edit_tasks,
    {
        let head = concat3("item-", gallery_id, "-");
        let item = ImageGalleryItemRecord {
            item_id: concat2(head.as_str(), command.asset_id.as_str()),
            gallery_id: gallery_id.to_owned(),
            asset_id: command.asset_id,
            sort_order: match command.sort_order {
                Some(s) => s,
                None => 0,
            },
            caption: command.caption,
        };
        self.gallery_items.push(item.copy());
        Ok(item)
    }

    fn create_edit_task(&mut self, scope: &ImageCatalogScope, command: ImageEditTaskCreateCommand) -> (r:
        Result<ImageEditTaskRecord, RepositoryError>)
        ensures
            r matches Ok(task) && {
                &&& task_fields(task) == new_edit_task(command)
                &&& final(self)@.edit_tasks == old(self)@.edit_tasks.push(task)
            },
            final(self)@.presets == old(self)@.presets,
            final(self)@.assets == old(self)@.assets,
            final(self)@.galleries == old(self)@.galleries,
            final(self)@.gallery_items == old(self)@.gallery_items,
    {
        let task = ImageEditTaskRecord {
            task_id: concat2("edit-", command.source_asset_id.as_str()),
            source_asset_id: command.source_asset_id,
            edit_type: command.edit_type,
            prompt: command.prompt,
            status: "queued".to_owned(),
        };
        self.edit_tasks.push(task.copy());
        Ok(task)
    }

    fn get_edit_task(&self, scope: &ImageCatalogScope, task_id: &str) -> (r: Result<
        Option<ImageEditTaskRecord>,
        RepositoryError,
    >)
        ensures
            r == Ok::<Option<ImageEditTaskRecord>, RepositoryError>(
                lookup(self@.edit_tasks, task_ids(self@.edit_tasks), task_id@),
            ),
    {
        proof {
            lemma_lookup_contains(self.edit_tasks@, task_ids(self.edit_tasks@), task_id@);
            lemma_first_index_bounds(task_ids(self.edit_tasks@), task_id@);
            lemma_first_index_absent(task_ids(self.edit_tasks@), task_id@);
            if first_index(task_ids(self.edit_tasks@), task_id@) is None {
                assert forall|i: int| 0 <= i < self.edit_tasks@.len() implies (#[trigger] self.edit_tasks@[i]).task_id@
                    != task_id@ by {
                    assert(task_ids(self.edit_tasks@)[i] == self.edit_tasks@[i].task_id@);
                }
            }
        }
        Ok(find_task(&self.edit_tasks, task_id))
    }
}

/// Reading an edit task back from the in-memory catalog right after creating
/// it gives the created task, provided no earlier task carries the same id.
pub proof fn lemma_edit_task_read_after_create(
    before: Seq<ImageEditTaskRecord>,
    task: ImageEditTaskRecord,
)
    requires
        forall|i: int| 0 <= i < before.len() ==> before[i].task_id@ != task.task_id@,
    ensures
        lookup(before.push(task), task_ids(before.push(task)), task.task_id@) == Some(task),
{
    let after = before.push(task);
    let ids = task_ids(after);
    assert forall|j: int| 0 <= j < before.len() implies ids[j] != task.task_id@ by {
        assert(ids[j] == before[j].task_id@);
    }
    lemma_first_index(ids, task.task_id@, before.len() as int);
}

// ---------------------------------------------------------------------------
// Rules of the SQL catalog repository
// ---------------------------------------------------------------------------

/// The tenant and organization identifiers of a catalog scope: the tenant is
/// required, a blank or absent organization is `0`.
pub open spec fn scope_ids_outcome(scope: ImageCatalogScope) -> Result<(i64, i64), Seq<char>> {
    match scope_id_outcome(scope.tenant_id@, "tenant_id"@) {
        Err(m) => Err(m),
        Ok(t) => match organization_outcome(opt_view(scope.organization_id)) {
            Err(m) => Err(m),
            Ok(o) => Ok((t, o)),
        },
    }
}

/// Reads the numeric tenant and organization of a catalog scope.
pub fn scope_ids(scope: &ImageCatalogScope) -> (r: Result<(i64, i64), RepositoryError>)
    ensures
        match r {
            Ok(p) => scope_ids_outcome(*scope) == Ok::<(i64, i64), Seq<char>>(p),
            Err(RepositoryError::Validation(m)) => scope_ids_outcome(*scope) == Err::<
                (i64, i64),
                Seq<char>,
            >(m@),
            Err(_) => false,
        },
{
    let tenant_id = parse_scope_id(scope.tenant_id.as_str(), "tenant_id")?;
    let organization_id = match &scope.organization_id {
        Some(value) => {
            if is_blank(value.as_str()) {
                0
            } else {
                parse_scope_id(value.as_str(), "organization_id")?
            }
        },
        None => 0,
    };
    Ok((tenant_id, organization_id))
}

/// The status an edit task's numeric job status is reported as.
pub open spec fn edit_task_status_spec(job_status: i32) -> Seq<char> {
    if job_status == 1 {
        "queued"@
    } else if job_status == 2 {
        "rendering"@
    } else if job_status == 3 {
        "ready"@
    } else {
        "failed"@
    }
}

/// Maps the stored job status of an edit task onto its reported status.
pub fn map_edit_task_status(job_status: i32) -> (s: String)
    ensures
        s@ == edit_task_status_spec(job_status),
{
    match job_status {
        1 => "queued".to_owned(),
        2 => "rendering".to_owned(),
        3 => "ready".to_owned(),
        _ => "failed".to_owned(),
    }
}

/// The page window the SQL catalog reads: at most 200 and at least one row,
/// from a non-negative offset.
pub fn catalog_page_window(limit: i64, offset: i64) -> (w: (i64, i64))
    ensures
        w.0 == (if limit < 1 {
            1
        } else if limit > 200 {
            200
        } else {
            limit
        }),
        w.1 == (if offset < 0 {
            0
        } else {
            offset
        }),
{
    let l = if limit < 1 {
        1
    } else if limit > 200 {
        200
    } else {
        limit
    };
    let o = if offset < 0 {
        0
    } else {
        offset
    };
    (l, o)
}

/// The search term of a listing: the trimmed query, absent when blank.
pub open spec fn search_term_spec(q: Option<Seq<char>>) -> Option<Seq<char>> {
    match q {
        Some(s) => if blank(s) {
            None
        } else {
            Some(trimmed(s))
        },
        None => None,
    }
}

/// The `ILIKE` pattern of a listing's search, if it has one.
pub fn search_pattern(q: Option<&str>) -> (r: Option<String>)
    ensures
        opt_view(r) == (match search_term_spec(
            match q {
                Some(s) => Some(s@),
                None => None,
            },
        ) {
            Some(t) => Some("%"@ + t + "%"@),
            None => None,
        }),
{
    match q {
        Some(s) => {
            let t = trim(s);
            if t.as_str().is_empty() {
                None
            } else {
                Some(concat3("%", t.as_str(), "%"))
            }
        },
        None => None,
    }
}

/// The validation the SQL catalog applies to an edit-task command: source
/// asset, edit type and prompt must not be blank, checked in that order.
pub open spec fn edit_command_problem(command: ImageEditTaskCreateCommand) -> Option<Seq<char>> {
    if blank(command.source_asset_id@) {
        Some("source_asset_id is required"@)
    } else if blank(command.edit_type@) {
        Some("edit_type is required"@)
    } else if blank(command.prompt@) {
        Some("prompt is required"@)
    } else {
        None
    }
}

/// Checks an edit-task command before it is stored.
pub fn validate_edit_task_command(command: &ImageEditTaskCreateCommand) -> (r: Result<
    (),
    RepositoryError,
>)
    ensures
        match (r, edit_command_problem(*command)) {
            (Ok(()), None) => true,
            (Err(RepositoryError::Validation(m)), Some(p)) => m@ == p,
            _ => false,
        },
{
    if is_blank(command.source_asset_id.as_str()) {
        return Err(RepositoryError::Validation("source_asset_id is required".to_owned()));
    }
    if is_blank(command.edit_type.as_str()) {
        return Err(RepositoryError::Validation("edit_type is required".to_owned()));
    }
    if is_blank(command.prompt.as_str()) {
        return Err(RepositoryError::Validation("prompt is required".to_owned()));
    }
    Ok(())
}

/// An in-memory edit task is what the command asked for: it edits the
/// command's source asset with the command's edit type and prompt (not
/// swapped), is queued, and is named after its source asset.
pub proof fn lemma_created_edit_task_follows_command(
    repo: InMemoryImageCatalogRepository,
    scope: ImageCatalogScope,
    command: ImageEditTaskCreateCommand,
)
    ensures
        repo.edit_task_creation(scope, command) matches Ok(f) && {
            &&& f.0 == "edit-"@ + command.source_asset_id@
            &&& f.1 == command.source_asset_id@
            &&& f.2 == command.edit_type@
            &&& f.3 == command.prompt@
            &&& f.4 == "queued"@
        },
{
}

/// An in-memory gallery item places the command's asset in the requested
/// gallery, with the command's caption and sort order (0 when none).
pub proof fn lemma_created_gallery_item_follows_command(
    repo: InMemoryImageCatalogRepository,
    scope: ImageCatalogScope,
    gallery_id: Seq<char>,
    command: ImageGalleryItemCreateCommand,
)
    ensures
        repo.gallery_item_creation(scope, gallery_id, command) matches Ok(f) && {
            &&& f.0 == "item-"@ + gallery_id + "-"@ + command.asset_id@
            &&& f.1 == gallery_id
            &&& f.2 == command.asset_id@
            &&& f.3 == (match command.sort_order {
                Some(x) => x,
                None => 0,
            })
            &&& f.4 == command.caption
        },
{
}

} // verus!
