//! The provider side of image generation: the dispatch plan handed to a vendor
//! adapter, the errors a provider reports, how HTTP statuses map onto them,
//! the open-api paths of each operation, and the adapter descriptor.
use vstd::prelude::*;

use crate::scope::opt_view;
use crate::text::{blank, concat2, concat3, decimal, i64_to_text, text_eq, trim, trimmed};

verus! {

/// `serde_json::Value`, carried through the library unread.
#[verifier::external_type_specification]
#[verifier::external_body]
pub struct ExJsonValue(serde_json::Value);

/// The category of a provider failure.
#[derive(Clone, Copy, Debug, PartialEq, Eq, Structural)]
pub enum ProviderErrorKind {
    UnsupportedVendor,
    UnsupportedCapability,
    UnsupportedParameter,
    InvalidRequest,
    InvalidProviderResponse,
    Timeout,
    RateLimited,
    ProviderUnavailable,
    Rejected,
    Transport,
    Configuration,
}

/// A provider failure with its message.
#[derive(Clone, Debug, PartialEq, Eq)]
pub enum ImageGenerationProviderError {
    UnsupportedVendor(String),
    UnsupportedCapability(String),
    UnsupportedParameter(String),
    InvalidRequest(String),
    InvalidProviderResponse(String),
    Timeout(String),
    RateLimited(String),
    ProviderUnavailable(String),
    Rejected(String),
    Transport(String),
    Configuration(String),
}

impl View for ImageGenerationProviderError {
    type V = (ProviderErrorKind, Seq<char>);

    open spec fn view(&self) -> (ProviderErrorKind, Seq<char>) {
        match self {
            ImageGenerationProviderError::UnsupportedVendor(m) => (
                ProviderErrorKind::UnsupportedVendor,
                m@,
            ),
            ImageGenerationProviderError::UnsupportedCapability(m) => (
                ProviderErrorKind::UnsupportedCapability,
                m@,
            ),
            ImageGenerationProviderError::UnsupportedParameter(m) => (
                ProviderErrorKind::UnsupportedParameter,
                m@,
            ),
            ImageGenerationProviderError::InvalidRequest(m) => (ProviderErrorKind::InvalidRequest, m@),
            ImageGenerationProviderError::InvalidProviderResponse(m) => (
                ProviderErrorKind::InvalidProviderResponse,
                m@,
            ),
            ImageGenerationProviderError::Timeout(m) => (ProviderErrorKind::Timeout, m@),
            ImageGenerationProviderError::RateLimited(m) => (ProviderErrorKind::RateLimited, m@),
            ImageGenerationProviderError::ProviderUnavailable(m) => (
                ProviderErrorKind::ProviderUnavailable,
                m@,
            ),
            ImageGenerationProviderError::Rejected(m) => (ProviderErrorKind::Rejected, m@),
            ImageGenerationProviderError::Transport(m) => (ProviderErrorKind::Transport, m@),
            ImageGenerationProviderError::Configuration(m) => (ProviderErrorKind::Configuration, m@),
        }
    }
}

/// The vendor operation a dispatch plan targets.
#[derive(Clone, Copy, Debug, PartialEq, Eq, Structural)]
pub enum ImageProviderOperation {
    OpenAiImageGeneration,
    MidjourneyImageGeneration,
    NanoBananaImageGeneration,
    ViduReferenceToImageGeneration,
    ProviderNativeImageGeneration,
}

/// Vendor-specific parameters: a schema name and the undecoded values.
pub struct ImageVendorParameters {
    pub schema: String,
    pub values: serde_json::Value,
}

/// Everything an adapter needs to submit one generation to a vendor.
pub struct ImageProviderDispatchPlan {
    pub provider_id: String,
    pub provider_code: String,
    pub provider_operation: ImageProviderOperation,
    pub model: Option<String>,
    pub prompt: String,
    pub negative_prompt: Option<String>,
    pub size: Option<String>,
    pub quality: Option<String>,
    pub response_format: Option<String>,
    pub output_count: u32,
    pub reference_images: Vec<String>,
    pub callback_url: Option<String>,
    pub vendor_parameters: Option<ImageVendorParameters>,
}

// ---------------------------------------------------------------------------
// HTTP status mapping
// ---------------------------------------------------------------------------

/// What `String::from_utf8_lossy` makes of a byte sequence.
pub uninterp spec fn utf8_lossy(bytes: Seq<u8>) -> Seq<char>;

/// `String::from_utf8_lossy`, as an owned string: valid UTF-8 is decoded as
/// is; invalid sequences become replacement characters (not stated).
#[verifier::external_body]
fn lossy_text(bytes: &[u8]) -> (s: String)
    ensures
        s@ == utf8_lossy(bytes@),
        vstd::utf8::valid_utf8(bytes@) ==> s@ == vstd::utf8::decode_utf8(bytes@),
{
    String::from_utf8_lossy(bytes).to_string()
}

/// The message of a status that is reported with its code.
pub open spec fn status_message(status: u16, body: Seq<char>) -> Seq<char> {
    "http status "@ + decimal(status as int) + ": "@ + body
}

/// The provider error that a non-success HTTP status stands for.
pub open spec fn status_error_spec(status: u16, body: Seq<char>) -> (ProviderErrorKind, Seq<char>) {
    if status == 408 {
        (ProviderErrorKind::Timeout, body)
    } else if status == 429 {
        (ProviderErrorKind::RateLimited, body)
    } else if status >= 500 {
        (ProviderErrorKind::ProviderUnavailable, status_message(status, body))
    } else {
        (ProviderErrorKind::Rejected, status_message(status, body))
    }
}

/// Maps a non-success HTTP status and its body onto a provider error:
/// 408 is a timeout, 429 a rate limit, 5xx an unavailable provider, and any
/// other status a rejection.
pub fn status_error(status: u16, body: String) -> (e: ImageGenerationProviderError)
    ensures
        e@ == status_error_spec(status, body@),
{
    if status == 408 {
        ImageGenerationProviderError::Timeout(body)
    } else if status == 429 {
        ImageGenerationProviderError::RateLimited(body)
    } else {
        let code = i64_to_text(status as i64);
        let head = concat3("http status ", code.as_str(), ": ");
        let message = concat2(head.as_str(), body.as_str());
        if status >= 500 {
            ImageGenerationProviderError::ProviderUnavailable(message)
        } else {
            ImageGenerationProviderError::Rejected(message)
        }
    }
}

/// The provider error for a non-success response of the embedded dispatcher,
/// its body read as lossy UTF-8.
pub fn http_status_error(status: u16, body: &[u8]) -> (e: ImageGenerationProviderError)
    ensures
        e@ == status_error_spec(status, utf8_lossy(body@)),
        vstd::utf8::valid_utf8(body@) ==> e@ == status_error_spec(
            status,
            vstd::utf8::decode_utf8(body@),
        ),
{
    status_error(status, lossy_text(body))
}

/// A failure of the generated vendor SDK, with its reported text.
#[derive(Debug, PartialEq, Eq)]
pub enum SdkFailure {
    Http { timeout: bool, message: String },
    HttpStatus { status: u16, body: String },
    Serialization(String),
    InvalidHeaderName(String),
    InvalidHeaderValue(String),
    InvalidHttpMethod(String),
}

/// The provider error an SDK failure becomes.
pub open spec fn sdk_error_spec(e: SdkFailure) -> (ProviderErrorKind, Seq<char>) {
    match e {
        SdkFailure::Http { timeout, message } => if timeout {
            (ProviderErrorKind::Timeout, message@)
        } else {
            (ProviderErrorKind::Transport, message@)
        },
        SdkFailure::HttpStatus { status, body } => status_error_spec(status, body@),
        SdkFailure::Serialization(m) => (ProviderErrorKind::InvalidProviderResponse, m@),
        SdkFailure::InvalidHeaderName(m) => (ProviderErrorKind::Configuration, m@),
        SdkFailure::InvalidHeaderValue(m) => (ProviderErrorKind::Configuration, m@),
        SdkFailure::InvalidHttpMethod(m) => (ProviderErrorKind::Configuration, m@),
    }
}

/// Maps an SDK failure onto a provider error: timeouts (transport or 408)
/// are timeouts, 429 a rate limit, 5xx an unavailable provider, other
/// statuses rejections, undecodable responses invalid, and malformed
/// requests configuration errors.
pub fn map_sdk_error(error: SdkFailure) -> (e: ImageGenerationProviderError)
    ensures
        e@ == sdk_error_spec(error),
{
    match error {
        SdkFailure::Http { timeout, message } => {
            if timeout {
                ImageGenerationProviderError::Timeout(message)
            } else {
                ImageGenerationProviderError::Transport(message)
            }
        },
        SdkFailure::HttpStatus { status, body } => status_error(status, body),
        SdkFailure::Serialization(m) => ImageGenerationProviderError::InvalidProviderResponse(m),
        SdkFailure::InvalidHeaderName(m) => ImageGenerationProviderError::Configuration(m),
        SdkFailure::InvalidHeaderValue(m) => ImageGenerationProviderError::Configuration(m),
        SdkFailure::InvalidHttpMethod(m) => ImageGenerationProviderError::Configuration(m),
    }
}

/// The error for a provider response the adapter cannot normalize.
pub fn invalid_response(message: &str) -> (e: ImageGenerationProviderError)
    ensures
        e@ == (ProviderErrorKind::InvalidProviderResponse, message@),
{
    ImageGenerationProviderError::InvalidProviderResponse(message.to_owned())
}

// ---------------------------------------------------------------------------
// Open-api paths and headers of the embedded dispatcher
// ---------------------------------------------------------------------------

/// Path of the OpenAI image generation operation.
pub const OPENAI_IMAGES_GENERATIONS_PATH: &'static str = "/v1/images/generations";

/// Path of the Midjourney image generation operation.
pub const MIDJOURNEY_IMAGES_GENERATIONS_PATH: &'static str = "/v1/midjourney/v1/images/generations";

/// Path of the Nano Banana image generation operation.
pub const NANO_BANANA_IMAGES_GENERATIONS_PATH: &'static str = "/v1/nano-banana/v1/images/generations";

/// Path of the Vidu reference-to-image operation.
pub const VIDU_REFERENCE_TO_IMAGE_PATH: &'static str = "/v1/vidu/ent/v2/reference2image";

/// The path that creates a generation for an operation.
pub open spec fn create_path_spec(operation: ImageProviderOperation) -> Option<&'static str> {
    match operation {
        ImageProviderOperation::OpenAiImageGeneration => Some(OPENAI_IMAGES_GENERATIONS_PATH),
        ImageProviderOperation::MidjourneyImageGeneration => Some(MIDJOURNEY_IMAGES_GENERATIONS_PATH),
        ImageProviderOperation::NanoBananaImageGeneration => Some(NANO_BANANA_IMAGES_GENERATIONS_PATH),
        ImageProviderOperation::ViduReferenceToImageGeneration => Some(VIDU_REFERENCE_TO_IMAGE_PATH),
        ImageProviderOperation::ProviderNativeImageGeneration => None,
    }
}

/// The open-api path that submits a generation; provider-native generation
/// has none.
pub fn create_dispatch_path(operation: ImageProviderOperation) -> (r: Result<
    &'static str,
    ImageGenerationProviderError,
>)
    ensures
        match (r, create_path_spec(operation)) {
            (Ok(p), Some(q)) => p == q,
            (Err(e), None) => e@ == (
                ProviderErrorKind::UnsupportedCapability,
                "provider-native image generation"@,
            ),
            _ => false,
        },
{
    match operation {
        ImageProviderOperation::OpenAiImageGeneration => Ok(OPENAI_IMAGES_GENERATIONS_PATH),
        ImageProviderOperation::MidjourneyImageGeneration => Ok(MIDJOURNEY_IMAGES_GENERATIONS_PATH),
        ImageProviderOperation::NanoBananaImageGeneration => Ok(NANO_BANANA_IMAGES_GENERATIONS_PATH),
        ImageProviderOperation::ViduReferenceToImageGeneration => Ok(VIDU_REFERENCE_TO_IMAGE_PATH),
        ImageProviderOperation::ProviderNativeImageGeneration => Err(
            ImageGenerationProviderError::UnsupportedCapability(
                "provider-native image generation".to_owned(),
            ),
        ),
    }
}

/// The path that reads back a provider task, for operations that have one.
pub open spec fn retrieve_path_spec(operation: ImageProviderOperation, task_id: Seq<char>) -> Option<
    Seq<char>,
> {
    match operation {
        ImageProviderOperation::MidjourneyImageGeneration => Some(
            MIDJOURNEY_IMAGES_GENERATIONS_PATH@ + "/"@ + task_id,
        ),
        ImageProviderOperation::NanoBananaImageGeneration => Some(
            NANO_BANANA_IMAGES_GENERATIONS_PATH@ + "/"@ + task_id,
        ),
        ImageProviderOperation::ViduReferenceToImageGeneration => Some(
            "/v1/vidu/ent/v2/tasks/"@ + task_id + "/creations"@,
        ),
        _ => None,
    }
}

/// The open-api path that retrieves a provider task; synchronous and
/// provider-native operations have none.
pub fn retrieve_dispatch_path(operation: ImageProviderOperation, task_id: &str) -> (r: Result<
    String,
    ImageGenerationProviderError,
>)
    ensures
        match (r, retrieve_path_spec(operation, task_id@)) {
            (Ok(p), Some(q)) => p@ == q,
            (Err(e), None) => e@ == (ProviderErrorKind::UnsupportedCapability, "task retrieval"@),
            _ => false,
        },
{
    match operation {
        ImageProviderOperation::MidjourneyImageGeneration => Ok(
            concat3(MIDJOURNEY_IMAGES_GENERATIONS_PATH, "/", task_id),
        ),
        ImageProviderOperation::NanoBananaImageGeneration => Ok(
            concat3(NANO_BANANA_IMAGES_GENERATIONS_PATH, "/", task_id),
        ),
        ImageProviderOperation::ViduReferenceToImageGeneration => Ok(
            concat3("/v1/vidu/ent/v2/tasks/", task_id, "/creations"),
        ),
        _ => Err(ImageGenerationProviderError::UnsupportedCapability("task retrieval".to_owned())),
    }
}

/// The API key the embedded dispatcher bills against: trimmed, and absent
/// when blank.
pub open spec fn api_key_spec(raw: Option<Seq<char>>) -> Option<Seq<char>> {
    match raw {
        Some(k) => if blank(k) {
            None
        } else {
            Some(trimmed(k))
        },
        None => None,
    }
}

/// Normalizes a configured API key.
pub fn normalize_api_key(raw: Option<&str>) -> (r: Option<String>)
    ensures
        opt_view(r) == api_key_spec(
            match raw {
                Some(k) => Some(k@),
                None => None,
            },
        ),
{
    match raw {
        Some(k) => {
            let t = trim(k);
            if t.as_str().is_empty() {
                None
            } else {
                Some(t)
            }
        },
        None => None,
    }
}

/// The headers of one embedded dispatch, as (name, value) views.
pub open spec fn dispatch_headers_spec(api_key: Option<Seq<char>>, with_body: bool) -> Seq<
    (Seq<char>, Seq<char>),
> {
    let auth = match api_key {
        Some(k) => seq![("authorization"@, "Bearer "@ + k)],
        None => Seq::empty(),
    };
    if with_body {
        auth.push(("content-type"@, "application/json"@))
    } else {
        auth
    }
}

/// The (name, value) views of a header list.
pub open spec fn header_views(h: Seq<(String, String)>) -> Seq<(Seq<char>, Seq<char>)> {
    h.map_values(|p: (String, String)| (p.0@, p.1@))
}

/// The headers of an embedded dispatch: a bearer token when an API key is
/// configured, and a JSON content type when the request has a body.
pub fn dispatch_headers(api_key: Option<&str>, with_body: bool) -> (h: Vec<(String, String)>)
    ensures
        header_views(h@) == dispatch_headers_spec(
            match api_key {
                Some(k) => Some(k@),
                None => None,
            },
            with_body,
        ),
{
    let mut h: Vec<(String, String)> = Vec::new();
    match api_key {
        Some(k) => {
            h.push(("authorization".to_owned(), concat2("Bearer ", k)));
        },
        None => {},
    }
    if with_body {
        h.push(("content-type".to_owned(), "application/json".to_owned()));
    }
    proof {
        assert(header_views(h@) =~= dispatch_headers_spec(
            match api_key {
                Some(k) => Some(k@),
                None => None,
            },
            with_body,
        ));
    }
    h
}

// ---------------------------------------------------------------------------
// Descriptor
// ---------------------------------------------------------------------------

/// What an image generation provider can do.
#[derive(Clone, Copy, Debug, PartialEq, Eq, Structural)]
pub enum ImageGenerationProviderCapability {
    TextToImage,
    ReferenceToImage,
    MultipleOutputs,
    NegativePrompt,
    Seed,
    Polling,
    Webhook,
}

/// Identity, vendors and capabilities of a provider adapter.
#[derive(Clone, Debug, PartialEq, Eq)]
pub struct ImageGenerationProviderDescriptor {
    pub id: String,
    pub vendors: Vec<String>,
    pub capabilities: Vec<ImageGenerationProviderCapability>,
}

/// The vendors of a descriptor, by view.
pub open spec fn vendor_names(d: ImageGenerationProviderDescriptor) -> Seq<Seq<char>> {
    d.vendors@.map_values(|v: String| v@)
}

impl ImageGenerationProviderDescriptor {
    /// Whether the adapter serves a vendor.
    pub fn supports_vendor(&self, vendor: &str) -> (r: bool)
        ensures
            r == vendor_names(*self).contains(vendor@),
    {
        let ghost names = vendor_names(*self);
        let mut k: usize = 0;
        while k < self.vendors.len()
            invariant
                k <= self.vendors.len(),
                names == vendor_names(*self),
                forall|j: int| 0 <= j < k ==> names[j] != vendor@,
            decreases self.vendors.len() - k,
        {
            if text_eq(self.vendors[k].as_str(), vendor) {
                assert(names[k as int] == vendor@);
                return true;
            }
            k = k + 1;
        }
        false
    }

    /// Refuses a vendor the adapter does not serve, naming it.
    pub fn check_vendor(&self, vendor: &str) -> (r: Result<(), ImageGenerationProviderError>)
        ensures
            r is Ok <==> vendor_names(*self).contains(vendor@),
            r matches Err(e) ==> e@ == (ProviderErrorKind::UnsupportedVendor, vendor@),
    {
        if self.supports_vendor(vendor) {
            Ok(())
        } else {
            Err(ImageGenerationProviderError::UnsupportedVendor(vendor.to_owned()))
        }
    }
}

/// Provider id of the HTTP adapter.
pub const IMAGE_GENERATION_PROVIDER_ADAPTER_ID: &'static str = "sdkwork-image-generation-provider-adapter";

/// Provider id of the in-process CloudRouter dispatch adapter.
pub const IMAGE_GENERATION_PROVIDER_CLOUDROUTER_EMBEDDED_ID: &'static str = "sdkwork-image-generation-provider-cloudrouter-embedded";

/// The vendors both adapters serve.
pub open spec fn adapter_vendors() -> Seq<Seq<char>> {
    seq!["openai"@, "gpt-image"@, "midjourney"@, "nano-banana"@, "vidu"@]
}

/// The capabilities both adapters declare.
pub open spec fn adapter_capabilities() -> Seq<ImageGenerationProviderCapability> {
    seq![
        ImageGenerationProviderCapability::TextToImage,
        ImageGenerationProviderCapability::ReferenceToImage,
        ImageGenerationProviderCapability::MultipleOutputs,
        ImageGenerationProviderCapability::NegativePrompt,
        ImageGenerationProviderCapability::Seed,
        ImageGenerationProviderCapability::Polling,
        ImageGenerationProviderCapability::Webhook,
    ]
}

/// The descriptor of a vendor adapter with the given provider id.
pub fn adapter_descriptor(id: &str) -> (d: ImageGenerationProviderDescriptor)
    ensures
        d.id@ == id@,
        d.vendors@.map_values(|v: String| v@) == adapter_vendors(),
        d.capabilities@ == adapter_capabilities(),
{
    let mut vendors: Vec<String> = Vec::new();
    vendors.push("openai".to_owned());
    vendors.push("gpt-image".to_owned());
    vendors.push("midjourney".to_owned());
    vendors.push("nano-banana".to_owned());
    vendors.push("vidu".to_owned());
    let mut capabilities: Vec<ImageGenerationProviderCapability> = Vec::new();
    capabilities.push(ImageGenerationProviderCapability::TextToImage);
    capabilities.push(ImageGenerationProviderCapability::ReferenceToImage);
    capabilities.push(ImageGenerationProviderCapability::MultipleOutputs);
    capabilities.push(ImageGenerationProviderCapability::NegativePrompt);
    capabilities.push(ImageGenerationProviderCapability::Seed);
    capabilities.push(ImageGenerationProviderCapability::Polling);
    capabilities.push(ImageGenerationProviderCapability::Webhook);
    assert(vendors@.map_values(|v: String| v@) =~= adapter_vendors());
    assert(capabilities@ =~= adapter_capabilities());
    ImageGenerationProviderDescriptor { id: id.to_owned(), vendors, capabilities }
}

} // verus!
