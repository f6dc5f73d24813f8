//! Repository errors and the numeric scope identifiers (tenant, organization,
//! user) that the SQL repositories bind.
use vstd::prelude::*;

use crate::text::{blank, clone_opt, concat2, is_blank, parse_i64, parse_i64_spec, trim, trimmed};

verus! {

/// Why a repository operation failed.
#[derive(Clone, Debug, PartialEq, Eq)]
pub enum RepositoryError {
    NotFound,
    Validation(String),
    Conflict(String),
    Database(String),
    Serialization(String),
}

/// Who acts on a generation.
#[derive(Clone, Debug, PartialEq, Eq)]
pub enum ImageGenerationActor {
    User { user_id: String },
    Anonymous { anonymous_id: String },
    System { operator_id: String },
}

/// The tenant, organization and actor a generation belongs to.
#[derive(Clone, Debug, PartialEq, Eq)]
pub struct ImageGenerationScope {
    pub tenant_id: String,
    pub organization_id: Option<String>,
    pub actor: ImageGenerationActor,
}

impl ImageGenerationActor {
    /// A copy of the actor.
    pub fn copy(&self) -> (r: Self)
        ensures
            r == *self,
    {
        match self {
            ImageGenerationActor::User { user_id } => ImageGenerationActor::User { user_id: user_id.clone() },
            ImageGenerationActor::Anonymous { anonymous_id } => ImageGenerationActor::Anonymous {
                anonymous_id: anonymous_id.clone(),
            },
            ImageGenerationActor::System { operator_id } => ImageGenerationActor::System {
                operator_id: operator_id.clone(),
            },
        }
    }
}

impl ImageGenerationScope {
    /// A copy of the scope.
    pub fn copy(&self) -> (r: Self)
        ensures
            r == *self,
    {
        ImageGenerationScope {
            tenant_id: self.tenant_id.clone(),
            organization_id: clone_opt(&self.organization_id),
            actor: self.actor.copy(),
        }
    }
}

/// The outcome of reading a scope identifier: the number, or the validation
/// message.
pub open spec fn scope_id_outcome(value: Seq<char>, field: Seq<char>) -> Result<i64, Seq<char>> {
    if blank(value) {
        Err(field + " is required"@)
    } else {
        match parse_i64_spec(trimmed(value)) {
            Some(v) => Ok(v),
            None => Err(field + " must be a numeric identifier"@),
        }
    }
}

/// A repository result seen as a number or a validation message; other errors
/// have no such reading.
pub open spec fn id_result_view(r: Result<i64, RepositoryError>) -> Option<Result<i64, Seq<char>>> {
    match r {
        Ok(v) => Some(Ok(v)),
        Err(RepositoryError::Validation(m)) => Some(Err(m@)),
        Err(_) => None,
    }
}

/// Reads a numeric scope identifier: the trimmed text must be a decimal `i64`.
pub fn parse_scope_id(value: &str, field: &'static str) -> (r: Result<i64, RepositoryError>)
    ensures
        id_result_view(r) == Some(scope_id_outcome(value@, field@)),
{
    if is_blank(value) {
        return Err(RepositoryError::Validation(concat2(field, " is required")));
    }
    let t = trim(value);
    match parse_i64(t.as_str()) {
        Some(v) => Ok(v),
        None => Err(RepositoryError::Validation(concat2(field, " must be a numeric identifier"))),
    }
}

/// The outcome of reading an optional organization identifier: absent or
/// blank means organization `0`.
pub open spec fn organization_outcome(value: Option<Seq<char>>) -> Result<i64, Seq<char>> {
    match value {
        Some(v) => if blank(v) {
            Ok(0)
        } else {
            scope_id_outcome(v, "organization_id"@)
        },
        None => Ok(0),
    }
}

/// The view of an optional string.
pub open spec fn opt_view(o: Option<String>) -> Option<Seq<char>> {
    match o {
        Some(s) => Some(s@),
        None => None,
    }
}

/// Reads an optional organization identifier; absent or blank is `0`.
pub fn organization_scope_id(value: Option<&str>) -> (r: Result<i64, RepositoryError>)
    ensures
        id_result_view(r) == Some(
            organization_outcome(
                match value {
                    Some(v) => Some(v@),
                    None => None,
                },
            ),
        ),
{
    match value {
        Some(v) => {
            if is_blank(v) {
                Ok(0)
            } else {
                parse_scope_id(v, "organization_id")
            }
        },
        None => Ok(0),
    }
}

/// The organization identifier of a generation scope.
pub fn organization_id(scope: &ImageGenerationScope) -> (r: Result<i64, RepositoryError>)
    ensures
        id_result_view(r) == Some(organization_outcome(opt_view(scope.organization_id))),
{
    match &scope.organization_id {
        Some(v) => organization_scope_id(Some(v.as_str())),
        None => organization_scope_id(None),
    }
}

/// The outcome of reading the user identifier of an actor: anonymous actors
/// are user `0`, system actors are read from their operator identifier.
pub open spec fn actor_outcome(actor: ImageGenerationActor) -> Result<i64, Seq<char>> {
    match actor {
        ImageGenerationActor::User { user_id } => scope_id_outcome(user_id@, "user_id"@),
        ImageGenerationActor::Anonymous { .. } => Ok(0),
        ImageGenerationActor::System { operator_id } => scope_id_outcome(
            operator_id@,
            "operator_id"@,
        ),
    }
}

/// The numeric user identifier that an actor is recorded under.
pub fn actor_user_id(actor: &ImageGenerationActor) -> (r: Result<i64, RepositoryError>)
    ensures
        id_result_view(r) == Some(actor_outcome(*actor)),
{
    match actor {
        ImageGenerationActor::User { user_id } => parse_scope_id(user_id.as_str(), "user_id"),
        ImageGenerationActor::Anonymous { .. } => Ok(0),
        ImageGenerationActor::System { operator_id } => parse_scope_id(
            operator_id.as_str(),
            "operator_id",
        ),
    }
}

} // verus!
