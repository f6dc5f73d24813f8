//! Generation projections: the stored form of a generation (scope, wire and
//! persistence snapshots), the in-memory projection repository keyed by
//! tenant and generation id, what a new job row is written with, and how a
//! stored row's numeric scope is turned back into a generation scope.
use vstd::prelude::*;

use crate::generation::{
    is_terminal_status, terminal_status, ImageGenerationWire, WireView,
};
use crate::lifecycle::{job_resolution, job_style};
use crate::scope::{
    actor_outcome, actor_user_id, organization_id, organization_outcome, opt_view,
    parse_scope_id, scope_id_outcome, ImageGenerationActor, ImageGenerationScope,
    RepositoryError,
};
use crate::text::{
    blank, decimal, first_index, i64_to_text, is_ws, lemma_decimal_round_trip, lemma_first_index,
    lemma_first_index_bounds, nat_digits, text_eq, trim_end, trim_start, trimmed,
};

verus! {

/// A `serde_json::Value` copied with `Clone`: the copy is the same value.
#[verifier::external_body]
fn clone_json(v: &serde_json::Value) -> (r: serde_json::Value)
    ensures
        r == *v,
{
    v.clone()
}

/// A generation as the projection repository stores it.
pub struct GenerationProjectionRecord {
    pub scope: ImageGenerationScope,
    pub generation_id: String,
    pub persistence: serde_json::Value,
    pub provider_request: serde_json::Value,
    pub wire: ImageGenerationWire,
}

/// The view of a stored generation.
pub struct RecordView {
    pub scope: ImageGenerationScope,
    pub generation_id: Seq<char>,
    pub persistence: serde_json::Value,
    pub provider_request: serde_json::Value,
    pub wire: WireView,
}

impl View for GenerationProjectionRecord {
    type V = RecordView;

    open spec fn view(&self) -> RecordView {
        RecordView {
            scope: self.scope,
            generation_id: self.generation_id@,
            persistence: self.persistence,
            provider_request: self.provider_request,
            wire: self.wire@,
        }
    }
}

impl GenerationProjectionRecord {
    /// A copy of the record.
    pub fn copy(&self) -> (r: Self)
        ensures
            r@ == self@,
    {
        GenerationProjectionRecord {
            scope: self.scope.copy(),
            generation_id: self.generation_id.clone(),
            persistence: clone_json(&self.persistence),
            provider_request: clone_json(&self.provider_request),
            wire: self.wire.copy(),
        }
    }
}

/// The key a record is stored under: (tenant, generation id).
pub open spec fn record_key(r: RecordView) -> (Seq<char>, Seq<char>) {
    (r.scope.tenant_id@, r.generation_id)
}

/// The keys of stored records, in storage order.
pub open spec fn record_keys(s: Seq<RecordView>) -> Seq<(Seq<char>, Seq<char>)> {
    s.map_values(|r: RecordView| record_key(r))
}

/// The stored record under a key, if any.
pub open spec fn stored(s: Seq<RecordView>, key: (Seq<char>, Seq<char>)) -> Option<RecordView> {
    match first_index(record_keys(s), key) {
        Some(i) => Some(s[i]),
        None => None,
    }
}

/// The records after storing one: it replaces the record under its key, or
/// is added after the others.
pub open spec fn store_record(s: Seq<RecordView>, r: RecordView) -> Seq<RecordView> {
    match first_index(record_keys(s), record_key(r)) {
        Some(i) => s.update(i, r),
        None => s.push(r),
    }
}

/// The wires of a tenant's records, in storage order.
pub open spec fn tenant_wires(s: Seq<RecordView>, tenant_id: Seq<char>) -> Seq<WireView>
    decreases s.len(),
{
    if s.len() == 0 {
        Seq::empty()
    } else {
        let rest = tenant_wires(s.drop_last(), tenant_id);
        if s.last().scope.tenant_id@ == tenant_id {
            rest.push(s.last().wire)
        } else {
            rest
        }
    }
}

/// Generation projections held in memory, keyed by tenant and generation id.
pub struct InMemoryGenerationProjectionRepository {
    records: Vec<GenerationProjectionRecord>,
}

impl View for InMemoryGenerationProjectionRepository {
    type V = Seq<RecordView>;

    closed spec fn view(&self) -> Seq<RecordView> {
        self.records@.map_values(|r: GenerationProjectionRecord| r@)
    }
}

impl InMemoryGenerationProjectionRepository {
    /// An empty repository.
    pub fn new() -> (r: Self)
        ensures
            r@ == Seq::<RecordView>::empty(),
    {
        let r = InMemoryGenerationProjectionRepository { records: Vec::new() };
        assert(r@ =~= Seq::<RecordView>::empty());
        r
    }

    fn find(&self, tenant_id: &str, generation_id: &str) -> (r: Option<usize>)
        ensures
            match r {
                Some(i) => i < self.records.len() && first_index(record_keys(self@), (tenant_id@, generation_id@))
                    == Some(i as int),
                None => first_index(record_keys(self@), (tenant_id@, generation_id@)) == None::<int>,
            },
    {
        let ghost keys = record_keys(self@);
        let ghost key = (tenant_id@, generation_id@);
        let mut k: usize = 0;
        while k < self.records.len()
            invariant
                k <= self.records.len(),
                keys == record_keys(self@),
                keys.len() == self.records.len(),
                key == (tenant_id@, generation_id@),
                forall|j: int| 0 <= j < k ==> keys[j] != key,
            decreases self.records.len() - k,
        {
            let r = &self.records[k];
            assert(keys[k as int] == (r.scope.tenant_id@, r.generation_id@));
            let same_tenant = text_eq(r.scope.tenant_id.as_str(), tenant_id);
            let same_id = text_eq(r.generation_id.as_str(), generation_id);
            if same_tenant && same_id {
                proof {
                    assert(r.scope.tenant_id@ == tenant_id@);
                    assert(r.generation_id@ == generation_id@);
                    assert(keys[k as int] == key);
                    lemma_first_index(keys, key, k as int);
                }
                return Some(k);
            }
            k = k + 1;
        }
        proof {
            lemma_first_index(keys, key, k as int);
        }
        None
    }

    /// Stores a generation, replacing the one under the same tenant and
    /// generation id.
    pub fn insert(&mut self, record: GenerationProjectionRecord) -> (r: Result<(), RepositoryError>)
        ensures
            r is Ok,
            final(self)@ == store_record(old(self)@, record@),
    {
        let ghost rv = record@;
        match self.find(record.scope.tenant_id.as_str(), record.generation_id.as_str()) {
            Some(i) => {
                self.records.set(i, record);
                proof {
                    assert(self@ =~= old(self)@.update(i as int, rv));
                }
            },
            None => {
                self.records.push(record);
                proof {
                    assert(self@ =~= old(self)@.push(rv));
                }
            },
        }
        Ok(())
    }

    /// The generation stored for a tenant under an id.
    pub fn get(&self, tenant_id: &str, generation_id: &str) -> (r: Result<
        Option<GenerationProjectionRecord>,
        RepositoryError,
    >)
        ensures
            r matches Ok(found) && match (found, stored(self@, (tenant_id@, generation_id@))) {
                (Some(x), Some(y)) => x@ == y,
                (None, None) => true,
                _ => false,
            },
    {
        match self.find(tenant_id, generation_id) {
            Some(i) => Ok(Some(self.records[i].copy())),
            None => Ok(None),
        }
    }

    /// The wires of a tenant's generations, in storage order; paging is not
    /// applied in memory.
    pub fn list_wire_json(&self, tenant_id: &str, limit: i64, offset: i64) -> (r: Result<
        Vec<ImageGenerationWire>,
        RepositoryError,
    >)
        ensures
            r matches Ok(v) && v@.map_values(|w: ImageGenerationWire| w@) == tenant_wires(self@, tenant_id@),
    {
        let mut out: Vec<ImageGenerationWire> = Vec::new();
        let mut k: usize = 0;
        while k < self.records.len()
            invariant
                k <= self.records.len(),
                self@.len() == self.records.len(),
                out@.map_values(|w: ImageGenerationWire| w@) == tenant_wires(self@.take(k as int), tenant_id@),
            decreases self.records.len() - k,
        {
            let r = &self.records[k];
            proof {
                assert(self@.take(k + 1).drop_last() =~= self@.take(k as int));
                assert(self@.take(k + 1).last() == r@);
            }
            if text_eq(r.scope.tenant_id.as_str(), tenant_id) {
                out.push(r.wire.copy());
                proof {
                    assert(out@.map_values(|w: ImageGenerationWire| w@) =~= tenant_wires(self@.take(k as int), tenant_id@).push(r.wire@));
                }
            }
            k = k + 1;
        }
        proof {
            assert(self@.take(self.records.len() as int) =~= self@);
        }
        Ok(out)
    }

    /// Records the wire and persistence snapshot of a refreshed generation;
    /// an unknown generation is `NotFound` and changes nothing.
    pub fn update_after_refresh(
        &mut self,
        tenant_id: &str,
        organization_id: Option<&str>,
        generation_id: &str,
        wire: ImageGenerationWire,
        persistence: serde_json::Value,
    ) -> (r: Result<(), RepositoryError>)
        ensures
            match first_index(record_keys(old(self)@), (tenant_id@, generation_id@)) {
                None => r == Err::<(), RepositoryError>(RepositoryError::NotFound) && final(self)@
                    == old(self)@,
                Some(i) => r is Ok && final(self)@ == old(self)@.update(
                    i,
                    RecordView { wire: wire@, persistence: persistence, ..old(self)@[i] },
                ),
            },
    {
        match self.find(tenant_id, generation_id) {
            None => Err(RepositoryError::NotFound),
            Some(i) => {
                let old_record = &self.records[i];
                let updated = GenerationProjectionRecord {
                    scope: old_record.scope.copy(),
                    generation_id: old_record.generation_id.clone(),
                    persistence,
                    provider_request: clone_json(&old_record.provider_request),
                    wire,
                };
                let ghost uv = updated@;
                self.records.set(i, updated);
                proof {
                    assert(self@ =~= old(self)@.update(i as int, uv));
                }
                Ok(())
            },
        }
    }

    /// Records the wire of a cancel request; an unknown generation is
    /// `NotFound`, and a generation whose stored status is terminal is a
    /// conflict; neither changes anything.
    pub fn cancel_generation(
        &mut self,
        tenant_id: &str,
        organization_id: Option<&str>,
        generation_id: &str,
        wire: ImageGenerationWire,
    ) -> (r: Result<(), RepositoryError>)
        ensures
            match first_index(record_keys(old(self)@), (tenant_id@, generation_id@)) {
                None => r == Err::<(), RepositoryError>(RepositoryError::NotFound) && final(self)@
                    == old(self)@,
                Some(i) => if terminal_status(old(self)@[i].wire.status) {
                    r matches Err(RepositoryError::Conflict(m)) && m@ == "generation cannot be cancelled"@
                        && final(self)@ == old(self)@
                } else {
                    r is Ok && final(self)@ == old(self)@.update(
                        i,
                        RecordView { wire: wire@, ..old(self)@[i] },
                    )
                },
            },
    {
        match self.find(tenant_id, generation_id) {
            None => Err(RepositoryError::NotFound),
            Some(i) => {
                if is_terminal_status(self.records[i].wire.status.as_str()) {
                    return Err(RepositoryError::Conflict("generation cannot be cancelled".to_owned()));
                }
                let old_record = &self.records[i];
                let updated = GenerationProjectionRecord {
                    scope: old_record.scope.copy(),
                    generation_id: old_record.generation_id.clone(),
                    persistence: clone_json(&old_record.persistence),
                    provider_request: clone_json(&old_record.provider_request),
                    wire,
                };
                let ghost uv = updated@;
                self.records.set(i, updated);
                proof {
                    assert(self@ =~= old(self)@.update(i as int, uv));
                }
                Ok(())
            },
        }
    }
}

/// Reading a generation right after storing it gives the stored generation.
pub proof fn lemma_read_after_insert(records: Seq<RecordView>, r: RecordView)
    ensures
        stored(store_record(records, r), record_key(r)) == Some(r),
{
    let keys = record_keys(records);
    let key = record_key(r);
    lemma_first_index_bounds(keys, key);
    match first_index(keys, key) {
        Some(i) => {
            let after = records.update(i, r);
            let after_keys = record_keys(after);
            lemma_first_index_prefix_absent(keys, key, i);
            assert forall|j: int| 0 <= j < i implies after_keys[j] != key by {
                assert(after_keys[j] == keys[j]);
            }
            lemma_first_index(after_keys, key, i);
        },
        None => {
            let after = records.push(r);
            let after_keys = record_keys(after);
            lemma_first_index_all_absent(keys, key);
            assert forall|j: int| 0 <= j < records.len() implies after_keys[j] != key by {
                assert(after_keys[j] == keys[j]);
            }
            lemma_first_index(after_keys, key, records.len() as int);
        },
    }
}

/// Storing a generation leaves every generation under another key as it was.
pub proof fn lemma_insert_preserves_other_keys(
    records: Seq<RecordView>,
    r: RecordView,
    key: (Seq<char>, Seq<char>),
)
    requires
        key != record_key(r),
    ensures
        stored(store_record(records, r), key) == stored(records, key),
{
    let keys = record_keys(records);
    let after = store_record(records, r);
    let after_keys = record_keys(after);
    lemma_first_index_bounds(keys, record_key(r));
    lemma_first_index_bounds(keys, key);
    match first_index(keys, record_key(r)) {
        Some(i) => {
            assert(after_keys =~= keys.update(i, record_key(r)));
        },
        None => {
            assert(after_keys =~= keys.push(record_key(r)));
        },
    }
    match first_index(keys, key) {
        Some(m) => {
            lemma_first_index_prefix_absent(keys, key, m);
            assert forall|j: int| 0 <= j < m implies after_keys[j] != key by {
                if after_keys[j] != keys[j] {
                    assert(after_keys[j] == record_key(r));
                }
            }
            assert(after_keys[m] == key);
            lemma_first_index(after_keys, key, m);
            assert(after[m] == records[m]);
        },
        None => {
            lemma_first_index_all_absent(keys, key);
            assert forall|j: int| 0 <= j < after_keys.len() implies after_keys[j] != key by {
                if j < keys.len() && after_keys[j] == keys[j] {
                } else {
                    assert(after_keys[j] == record_key(r));
                }
            }
            lemma_first_index(after_keys, key, after_keys.len() as int);
        },
    }
}

proof fn lemma_first_index_prefix_absent<T>(s: Seq<T>, x: T, i: int)
    requires
        first_index(s, x) == Some(i),
    ensures
        forall|j: int| 0 <= j < i ==> s[j] != x,
    decreases s.len(),
{
    lemma_first_index_bounds(s, x);
    if s.len() > 0 && s[0] != x {
        lemma_first_index_prefix_absent(s.drop_first(), x, i - 1);
        assert forall|j: int| 0 <= j < i implies s[j] != x by {
            if j > 0 {
                assert(s[j] == s.drop_first()[j - 1]);
            }
        }
    }
}

proof fn lemma_first_index_all_absent<T>(s: Seq<T>, x: T)
    requires
        first_index(s, x) is None,
    ensures
        forall|j: int| 0 <= j < s.len() ==> s[j] != x,
    decreases s.len(),
{
    if s.len() > 0 {
        lemma_first_index_all_absent(s.drop_first(), x);
        assert forall|j: int| 0 <= j < s.len() implies s[j] != x by {
            if j > 0 {
                assert(s[j] == s.drop_first()[j - 1]);
            }
        }
    }
}

// ---------------------------------------------------------------------------
// Writing a new job row
// ---------------------------------------------------------------------------

/// The fields of a generation's input snapshot that its job row reads: the
/// requested resolution and style.
pub struct JobInputFields {
    pub resolution: Option<String>,
    pub style: Option<String>,
}

/// The scope numbers and defaults a new generation job row is written with.
pub struct JobInsertPlan {
    pub tenant_id: i64,
    pub organization_id: i64,
    pub user_id: i64,
    pub resolution: String,
    pub style: String,
}

/// The fields of an insert plan, its texts as views.
pub open spec fn job_plan_view(p: JobInsertPlan) -> (i64, i64, i64, Seq<char>, Seq<char>) {
    (p.tenant_id, p.organization_id, p.user_id, p.resolution@, p.style@)
}

/// What inserting a generation decides before it writes: the tenant, the
/// organization and the actor's user are read in that order, then the input
/// snapshot is required; the resolution defaults to `1024x1024` and the style
/// to `default`. A refusal is the validation message of the first failure.
pub open spec fn job_insert_spec(scope: ImageGenerationScope, input: Option<JobInputFields>) -> Result<
    (i64, i64, i64, Seq<char>, Seq<char>),
    Seq<char>,
> {
    match scope_id_outcome(scope.tenant_id@, "tenant_id"@) {
        Err(m) => Err(m),
        Ok(t) => match organization_outcome(opt_view(scope.organization_id)) {
            Err(m) => Err(m),
            Ok(o) => match actor_outcome(scope.actor) {
                Err(m) => Err(m),
                Ok(u) => match input {
                    None => Err("input snapshot is required"@),
                    Some(i) => Ok(
                        (
                            t,
                            o,
                            u,
                            match i.resolution {
                                Some(r) => r@,
                                None => "1024x1024"@,
                            },
                            match i.style {
                                Some(x) => x@,
                                None => "default"@,
                            },
                        ),
                    ),
                },
            },
        },
    }
}

/// Decides what a new generation job row is written with.
pub fn plan_job_insert(scope: &ImageGenerationScope, input: Option<&JobInputFields>) -> (r: Result<
    JobInsertPlan,
    RepositoryError,
>)
    ensures
        ({
            let spec_input = match input {
                Some(i) => Some(*i),
                None => None,
            };
            match r {
                Ok(p) => job_insert_spec(*scope, spec_input) == Ok::<
                    (i64, i64, i64, Seq<char>, Seq<char>),
                    Seq<char>,
                >(job_plan_view(p)),
                Err(RepositoryError::Validation(m)) => job_insert_spec(*scope, spec_input) == Err::<
                    (i64, i64, i64, Seq<char>, Seq<char>),
                    Seq<char>,
                >(m@),
                Err(_) => false,
            }
        }),
{
    let tenant_id = parse_scope_id(scope.tenant_id.as_str(), "tenant_id")?;
    let organization_id = organization_id(scope)?;
    let user_id = actor_user_id(&scope.actor)?;
    let input = match input {
        Some(i) => i,
        None => {
            return Err(RepositoryError::Validation("input snapshot is required".to_owned()));
        },
    };
    Ok(
        JobInsertPlan {
            tenant_id,
            organization_id,
            user_id,
            resolution: job_resolution(&input.resolution),
            style: job_style(&input.style),
        },
    )
}

// ---------------------------------------------------------------------------
// Rebuilding a scope from a stored row
// ---------------------------------------------------------------------------

/// The scope of a stored generation row: the tenant as decimal text, no
/// organization for organization `0`, and a user actor for a positive user id
/// (anonymous otherwise).
pub open spec fn rebuilt_scope_spec(tenant_id: i64, organization_id: i64, user_id: Option<i64>) -> (
    Seq<char>,
    Option<Seq<char>>,
    Result<Seq<char>, Seq<char>>,
) {
    (
        decimal(tenant_id as int),
        if organization_id == 0 {
            None
        } else {
            Some(decimal(organization_id as int))
        },
        match user_id {
            Some(u) => if u > 0 {
                Ok(decimal(u as int))
            } else {
                Err("anonymous"@)
            },
            None => Err("anonymous"@),
        },
    )
}

/// The fields of a generation scope: tenant, organization, and the user id
/// of a user actor or the anonymous id of an anonymous one.
pub open spec fn scope_fields(s: ImageGenerationScope) -> (
    Seq<char>,
    Option<Seq<char>>,
    Result<Seq<char>, Seq<char>>,
) {
    (
        s.tenant_id@,
        opt_view(s.organization_id),
        match s.actor {
            ImageGenerationActor::User { user_id } => Ok(user_id@),
            ImageGenerationActor::Anonymous { anonymous_id } => Err(anonymous_id@),
            ImageGenerationActor::System { operator_id } => Err(operator_id@),
        },
    )
}

/// Rebuilds the scope of a stored generation row.
pub fn rebuild_scope(tenant_id: i64, organization_id: i64, user_id: Option<i64>) -> (s:
    ImageGenerationScope)
    ensures
        scope_fields(s) == rebuilt_scope_spec(tenant_id, organization_id, user_id),
        s.actor !is System,
{
    let actor = match user_id {
        Some(u) => {
            if u > 0 {
                ImageGenerationActor::User { user_id: i64_to_text(u) }
            } else {
                ImageGenerationActor::Anonymous { anonymous_id: "anonymous".to_owned() }
            }
        },
        None => ImageGenerationActor::Anonymous { anonymous_id: "anonymous".to_owned() },
    };
    ImageGenerationScope {
        tenant_id: i64_to_text(tenant_id),
        organization_id: if organization_id == 0 {
            None
        } else {
            Some(i64_to_text(organization_id))
        },
        actor,
    }
}

proof fn lemma_decimal_is_trimmed(n: int)
    ensures
        !blank(decimal(n)),
        trimmed(decimal(n)) == decimal(n),
{
    let s = decimal(n);
    lemma_nat_digits_shape(if n < 0 {
        (-n) as nat
    } else {
        n as nat
    });
    if n < 0 {
        let d = nat_digits((-n) as nat);
        assert(s.drop_first() =~= d);
        assert(s.last() == d.last());
    }
    assert(!is_ws(s[0]));
    assert(trim_start(s) == s);
    assert(!is_ws(s.last()));
    assert(trim_end(s) == s);
}

proof fn lemma_nat_digits_shape(n: nat)
    ensures
        nat_digits(n).len() > 0,
        forall|k: int| 0 <= k < nat_digits(n).len() ==> '0' <= #[trigger] nat_digits(n)[k] <= '9',
    decreases n,
{
    if n >= 10 {
        lemma_nat_digits_shape(n / 10);
        let p = nat_digits(n / 10);
        let s = nat_digits(n);
        assert forall|k: int| 0 <= k < s.len() implies '0' <= #[trigger] s[k] <= '9' by {
            if k < p.len() {
                assert(s[k] == p[k]);
            }
        }
    }
}

/// The tenant and organization of a stored row survive rebuilding: reading
/// the rebuilt scope gives back the same numbers.
pub proof fn lemma_rebuilt_scope_reads_back(tenant_id: i64, organization_id: i64)
    ensures
        ({
            let t = decimal(tenant_id as int);
            let o = if organization_id == 0 {
                None
            } else {
                Some(decimal(organization_id as int))
            };
            &&& scope_id_outcome(t, "tenant_id"@) == Ok::<i64, Seq<char>>(tenant_id)
            &&& organization_outcome(o) == Ok::<i64, Seq<char>>(organization_id)
        }),
{
    lemma_decimal_is_trimmed(tenant_id as int);
    lemma_decimal_round_trip(tenant_id);
    lemma_decimal_is_trimmed(organization_id as int);
    lemma_decimal_round_trip(organization_id);
}

/// A user actor rebuilt from a positive user id reads back as that id.
pub proof fn lemma_rebuilt_user_reads_back(u: i64)
    requires
        u > 0,
    ensures
        scope_id_outcome(decimal(u as int), "user_id"@) == Ok::<i64, Seq<char>>(u),
{
    lemma_decimal_is_trimmed(u as int);
    lemma_decimal_round_trip(u);
}

} // verus!
