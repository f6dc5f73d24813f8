//! The authenticated subject a request acts for, projected from the IAM
//! application context.
use vstd::prelude::*;

use crate::scope::opt_view;
use crate::text::{blank, concat3, is_blank, trim, trim_nonblank, trimmed, trimmed_nonblank};

verus! {

/// The identity fields of an authenticated IAM application context.
#[derive(Debug, PartialEq, Eq)]
pub struct IamAppContext {
    pub tenant_id: String,
    pub organization_id: Option<String>,
    pub user_id: String,
}

/// The tenant, optional organization and user a request acts for.
#[derive(Debug, PartialEq, Eq)]
pub struct RuntimeSubject {
    pub tenant_id: String,
    pub organization_id: Option<String>,
    pub user_id: String,
}

/// The message for a missing identity field.
pub open spec fn missing_field_message(field: Seq<char>) -> Seq<char> {
    "authenticated runtime context "@ + field + " is required"@
}

/// The trimmed value of a required identity field, or the message that
/// reports it missing.
pub open spec fn required_text_spec(value: Seq<char>, field: Seq<char>) -> Result<Seq<char>, Seq<char>> {
    if blank(value) {
        Err(missing_field_message(field))
    } else {
        Ok(trimmed(value))
    }
}

/// The view of a string result.
pub open spec fn text_result_view(r: Result<String, String>) -> Result<Seq<char>, Seq<char>> {
    match r {
        Ok(s) => Ok(s@),
        Err(e) => Err(e@),
    }
}

/// Reads a required identity field: trimmed, and refused when blank.
pub fn required_text(value: &str, field: &'static str) -> (r: Result<String, String>)
    ensures
        text_result_view(r) == required_text_spec(value@, field@),
{
    if is_blank(value) {
        return Err(concat3("authenticated runtime context ", field, " is required"));
    }
    Ok(trim(value))
}

/// The subject projected from an IAM context: tenant and user are required
/// (tenant checked first), the organization is kept only when not blank.
pub open spec fn subject_spec(context: IamAppContext) -> Result<
    (Seq<char>, Option<Seq<char>>, Seq<char>),
    Seq<char>,
> {
    match required_text_spec(context.tenant_id@, "tenant_id"@) {
        Err(m) => Err(m),
        Ok(t) => match required_text_spec(context.user_id@, "user_id"@) {
            Err(m) => Err(m),
            Ok(u) => Ok((t, trimmed_nonblank(opt_view(context.organization_id)), u)),
        },
    }
}

/// The fields of a subject, as views.
pub open spec fn subject_fields(s: RuntimeSubject) -> (Seq<char>, Option<Seq<char>>, Seq<char>) {
    (s.tenant_id@, opt_view(s.organization_id), s.user_id@)
}

/// Projects the runtime subject from an authenticated IAM context.
pub fn runtime_subject_from_iam(context: &IamAppContext) -> (r: Result<RuntimeSubject, String>)
    ensures
        match r {
            Ok(s) => subject_spec(*context) == Ok::<
                (Seq<char>, Option<Seq<char>>, Seq<char>),
                Seq<char>,
            >(subject_fields(s)),
            Err(e) => subject_spec(*context) == Err::<
                (Seq<char>, Option<Seq<char>>, Seq<char>),
                Seq<char>,
            >(e@),
        },
{
    let tenant_id = required_text(context.tenant_id.as_str(), "tenant_id")?;
    let user_id = required_text(context.user_id.as_str(), "user_id")?;
    let organization_id = match &context.organization_id {
        Some(o) => trim_nonblank(Some(o.as_str())),
        None => trim_nonblank(None),
    };
    Ok(RuntimeSubject { tenant_id, organization_id, user_id })
}

/// The message when a request carries no authenticated context.
pub open spec fn no_context_message() -> Seq<char> {
    "authenticated runtime context is required"@
}

/// Projects the subject of a request that may lack an authenticated context.
pub fn runtime_subject_from_extension(context: Option<&IamAppContext>) -> (r: Result<
    RuntimeSubject,
    String,
>)
    ensures
        match context {
            None => r matches Err(e) && e@ == no_context_message(),
            Some(c) => match r {
                Ok(s) => subject_spec(*c) == Ok::<
                    (Seq<char>, Option<Seq<char>>, Seq<char>),
                    Seq<char>,
                >(subject_fields(s)),
                Err(e) => subject_spec(*c) == Err::<
                    (Seq<char>, Option<Seq<char>>, Seq<char>),
                    Seq<char>,
                >(e@),
            },
        },
{
    match context {
        None => Err("authenticated runtime context is required".to_owned()),
        Some(c) => runtime_subject_from_iam(c),
    }
}

} // verus!
