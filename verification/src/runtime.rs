//! Runtime decisions around Drive import: which provider URL an artifact is
//! fetched from, how fetched artifacts are named and typed, whether import is
//! enabled, how completed uploads are addressed, and the deployment flags the
//! gateway reads.
use vstd::prelude::*;

use crate::generation::CompletedDriveImportArtifact;
use crate::scope::opt_view;
use crate::text::{
    ascii_lower, blank, concat2, concat3, decimal, i64_to_text, is_blank, opt_or, text_eq, to_ascii_lowercase,
    trim, trim_nonblank, trimmed, trimmed_nonblank,
};

verus! {

/// What `Url::parse` makes of a text: the URL's scheme, or the text of the
/// parse error.
pub uninterp spec fn url_parse_outcome(raw: Seq<char>) -> Result<Seq<char>, Seq<char>>;

/// What `Url::parse` makes of a text that it accepts: the serialization of
/// the parsed URL (`Url::as_str`).
pub uninterp spec fn url_serialization(raw: Seq<char>) -> Seq<char>;

/// A parsed URL's scheme and serialization.
struct ParsedUrl {
    scheme: String,
    serialized: String,
}

/// `Url::parse` (re-exported by reqwest): on success the scheme
/// (`Url::scheme`) and serialization (`Url::as_str`) of the parsed URL, on
/// failure the error's text.
#[verifier::external_body]
fn parse_url(raw: &str) -> (r: Result<ParsedUrl, String>)
    ensures
        match r {
            Ok(p) => url_parse_outcome(raw@) == Ok::<Seq<char>, Seq<char>>(p.scheme@)
                && p.serialized@ == url_serialization(raw@),
            Err(e) => url_parse_outcome(raw@) == Err::<Seq<char>, Seq<char>>(e@),
        },
{
    match reqwest::Url::parse(raw) {
        Ok(url) => {
            let scheme = url.scheme().to_string();
            let serialized = url.as_str().to_string();
            Ok(ParsedUrl { scheme, serialized })
        },
        Err(error) => Err(error.to_string()),
    }
}

/// A provider artifact to fetch before upload.
#[derive(Debug, PartialEq, Eq)]
pub struct ProviderArtifactRef {
    pub output_index: i32,
    pub provider_url: Option<String>,
    pub provider_uri: Option<String>,
    pub file_name: Option<String>,
    pub mime_type: Option<String>,
}

/// The text an artifact is fetched from: its provider URL, else its provider
/// URI, each trimmed and ignored when blank.
pub open spec fn fetch_source(artifact: ProviderArtifactRef) -> Option<Seq<char>> {
    opt_or(
        trimmed_nonblank(opt_view(artifact.provider_url)),
        trimmed_nonblank(opt_view(artifact.provider_uri)),
    )
}

/// How fetching an artifact is resolved: the source text whose URL is used,
/// or the refusal.
pub open spec fn fetch_url_outcome(artifact: ProviderArtifactRef) -> Result<Seq<char>, Seq<char>> {
    match fetch_source(artifact) {
        None => Err("provider artifact url is required"@),
        Some(raw) => match url_parse_outcome(raw) {
            Err(e) => Err("invalid provider artifact url: "@ + e),
            Ok(scheme) => if scheme == "https"@ {
                Ok(raw)
            } else {
                Err("provider artifact url must use https"@)
            },
        },
    }
}

/// The text of the URL an artifact is fetched from: the serialization of the
/// URL parsed from its source text (the provider URL, else the provider URI,
/// trimmed); transient provider artifacts are fetched over HTTPS only.
pub fn resolve_fetch_url(artifact: &ProviderArtifactRef) -> (r: Result<String, String>)
    ensures
        match (r, fetch_url_outcome(*artifact)) {
            (Ok(u), Ok(raw)) => u@ == url_serialization(raw),
            (Err(e), Err(m)) => e@ == m,
            _ => false,
        },
{
    let provider_url = match &artifact.provider_url {
        Some(u) => trim_nonblank(Some(u.as_str())),
        None => None,
    };
    let provider_uri = match &artifact.provider_uri {
        Some(u) => trim_nonblank(Some(u.as_str())),
        None => None,
    };
    let raw = match provider_url {
        Some(u) => u,
        None => match provider_uri {
            Some(u) => u,
            None => return Err("provider artifact url is required".to_owned()),
        },
    };
    match parse_url(raw.as_str()) {
        Err(error) => Err(concat2("invalid provider artifact url: ", error.as_str())),
        Ok(parsed) => {
            if text_eq(parsed.scheme.as_str(), "https") {
                Ok(parsed.serialized)
            } else {
                Err("provider artifact url must use https".to_owned())
            }
        },
    }
}

/// The file name a fetched artifact is stored under: its own when not blank,
/// else `output-<index>.bin`.
pub open spec fn artifact_file_name_spec(file_name: Option<Seq<char>>, output_index: i32) -> Seq<char> {
    match file_name {
        Some(f) => if blank(f) {
            "output-"@ + decimal(output_index as int) + ".bin"@
        } else {
            f
        },
        None => "output-"@ + decimal(output_index as int) + ".bin"@,
    }
}

/// Names a fetched artifact.
pub fn artifact_file_name(file_name: &Option<String>, output_index: i32) -> (r: String)
    ensures
        r@ == artifact_file_name_spec(opt_view(*file_name), output_index),
{
    match file_name {
        Some(f) => {
            if !is_blank(f.as_str()) {
                return f.clone();
            }
        },
        None => {},
    }
    let index = i64_to_text(output_index as i64);
    concat3("output-", index.as_str(), ".bin")
}

/// The content type of a fetched artifact: the response's, else
/// `application/octet-stream`.
pub fn artifact_content_type(header: Option<&str>) -> (r: String)
    ensures
        r@ == (match header {
            Some(h) => h@,
            None => "application/octet-stream"@,
        }),
{
    match header {
        Some(h) => h.to_owned(),
        None => "application/octet-stream".to_owned(),
    }
}

/// Drive import is enabled unless configured otherwise: the setting, trimmed
/// and lower-cased, must be `1`, `true`, `yes` or `on`; unset means `true`.
pub open spec fn drive_import_enabled_spec(setting: Option<Seq<char>>) -> bool {
    let v = match setting {
        Some(s) => s,
        None => "true"@,
    };
    let n = ascii_lower(trimmed(v));
    n == "1"@ || n == "true"@ || n == "yes"@ || n == "on"@
}

/// Whether Drive import runs, given the `IMAGE_DRIVE_IMPORT_ENABLED` setting.
pub fn drive_import_enabled(setting: Option<&str>) -> (r: bool)
    ensures
        r == drive_import_enabled_spec(
            match setting {
                Some(s) => Some(s@),
                None => None,
            },
        ),
{
    let v = match setting {
        Some(s) => trim(s),
        None => trim("true"),
    };
    let n = to_ascii_lowercase(v.as_str());
    let s = n.as_str();
    text_eq(s, "1") || text_eq(s, "true") || text_eq(s, "yes") || text_eq(s, "on")
}

/// The root of the local Drive object store: the configured one, else
/// `.data/image-drive-objects`.
pub fn object_store_root(setting: Option<String>) -> (r: String)
    ensures
        r@ == (match setting {
            Some(s) => s@,
            None => ".data/image-drive-objects"@,
        }),
{
    match setting {
        Some(s) => s,
        None => ".data/image-drive-objects".to_owned(),
    }
}

/// Why a Drive import run failed.
#[derive(Debug, PartialEq, Eq)]
pub enum ImageRuntimeError {
    Planning(String),
    DriveImport(String),
    Validation(String),
    ProviderFetch(String),
}

/// Upload preparations must pair one-to-one with the plan's items.
pub fn check_preparation_count(items: usize, preparations: usize) -> (r: Result<(), ImageRuntimeError>)
    ensures
        items == preparations <==> r is Ok,
        r matches Err(ImageRuntimeError::Validation(m)) ==> m@
            == "drive import preparations must match import plan items"@,
        r matches Err(e) ==> e is Validation,
{
    if preparations != items {
        return Err(
            ImageRuntimeError::Validation(
                "drive import preparations must match import plan items".to_owned(),
            ),
        );
    }
    Ok(())
}

/// A preparation must target the output of the plan item it is paired with.
pub fn check_preparation_index(item_index: i32, preparation_index: i32) -> (r: Result<
    (),
    ImageRuntimeError,
>)
    ensures
        item_index == preparation_index <==> r is Ok,
        r matches Err(ImageRuntimeError::Validation(m)) ==> m@
            == "drive import preparation output_index mismatch"@,
        r matches Err(e) ==> e is Validation,
{
    if item_index != preparation_index {
        return Err(
            ImageRuntimeError::Validation("drive import preparation output_index mismatch".to_owned()),
        );
    }
    Ok(())
}

/// The Drive URI of an uploaded node.
pub open spec fn drive_uri_spec(space_id: Seq<char>, node_id: Seq<char>) -> Seq<char> {
    "drive://spaces/"@ + space_id + "/nodes/"@ + node_id
}

/// Records an upload into Drive as a completed import of an output.
pub fn completed_import(
    output_index: i32,
    space_id: &str,
    node_id: &str,
    checksum_sha256_hex: Option<String>,
) -> (a: CompletedDriveImportArtifact)
    ensures
        a.output_index == output_index,
        a.drive_node_id@ == node_id@,
        a.drive_uri@ == drive_uri_spec(space_id@, node_id@),
        a.checksum_sha256_hex@ == (match checksum_sha256_hex {
            Some(c) => c@,
            None => Seq::<char>::empty(),
        }),
{
    let head = concat3("drive://spaces/", space_id, "/nodes/");
    CompletedDriveImportArtifact {
        output_index,
        drive_node_id: node_id.to_owned(),
        drive_uri: concat2(head.as_str(), node_id),
        checksum_sha256_hex: match checksum_sha256_hex {
            Some(c) => c,
            None => String::new(),
        },
    }
}

/// The deployment environment: the first configured of the two settings,
/// else `development`.
pub fn environment_name(primary: Option<String>, secondary: Option<String>) -> (r: String)
    ensures
        r@ == (match primary {
            Some(p) => p@,
            None => match secondary {
                Some(s) => s@,
                None => "development"@,
            },
        }),
{
    match primary {
        Some(p) => p,
        None => match secondary {
            Some(s) => s,
            None => "development".to_owned(),
        },
    }
}

/// Production environments are named `prod` or `production`, in any ASCII
/// case and with surrounding whitespace.
pub fn is_production_environment(environment: &str) -> (r: bool)
    ensures
        r == (ascii_lower(trimmed(environment@)) == "prod"@ || ascii_lower(trimmed(environment@))
            == "production"@),
{
    let t = trim(environment);
    let n = to_ascii_lowercase(t.as_str());
    text_eq(n.as_str(), "prod") || text_eq(n.as_str(), "production")
}

/// The provider URL is preferred: when it is present and not blank, the
/// artifact is fetched from that trimmed URL, and the provider URI plays no
/// part in the outcome.
pub proof fn lemma_provider_url_is_preferred(artifact: ProviderArtifactRef, url: String)
    requires
        artifact.provider_url == Some(url),
        !blank(url@),
    ensures
        fetch_source(artifact) == Some(trimmed(url@)),
        fetch_url_outcome(artifact) == fetch_url_outcome(
            ProviderArtifactRef { provider_uri: None, ..artifact },
        ),
{
}

/// The provider URI is only a fallback: it is used, trimmed, when the
/// provider URL is absent or blank.
pub proof fn lemma_provider_uri_is_fallback(artifact: ProviderArtifactRef, uri: String)
    requires
        match artifact.provider_url {
            Some(u) => blank(u@),
            None => true,
        },
        artifact.provider_uri == Some(uri),
        !blank(uri@),
    ensures
        fetch_source(artifact) == Some(trimmed(uri@)),
{
}

} // verus!
