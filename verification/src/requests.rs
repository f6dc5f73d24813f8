//! Vendor request construction: how a dispatch plan becomes the request of
//! each image vendor (OpenAI, Midjourney, Nano Banana, Vidu), including the
//! aspect-ratio reduction and the negative-prompt suffix.
use vstd::prelude::*;


use crate::provider::{
    ImageGenerationProviderError, ImageProviderDispatchPlan, ImageProviderOperation,
    ProviderErrorKind,
};
use crate::scope::opt_view;
use crate::text::{
    blank, chars_of, clone_opt, clone_strings, concat2, concat3, decimal, i64_to_text, is_blank,
    first_index, lemma_first_index, opt_or, or_clone, parse_i64, parse_i64_spec, string_from_chars, text_eq, trim, trimmed,
};

verus! {

// ---------------------------------------------------------------------------
// Greatest common divisor
// ---------------------------------------------------------------------------

/// Euclid's greatest common divisor of two natural numbers.
pub open spec fn gcd_spec(a: nat, b: nat) -> nat
    decreases b,
{
    if b == 0 {
        a
    } else {
        gcd_spec(b, a % b)
    }
}

/// The product of two integers.
pub open spec fn times(k: int, d: int) -> int {
    k * d
}

/// `d` divides `x`.
pub open spec fn divides(d: int, x: int) -> bool {
    exists|k: int| x == #[trigger] times(k, d)
}

/// The divisor that `gcd` returns: the greatest common divisor, at least 1.
pub open spec fn reduced_divisor(a: nat, b: nat) -> int {
    if gcd_spec(a, b) == 0 {
        1
    } else {
        gcd_spec(a, b) as int
    }
}

/// The greatest common divisor divides both numbers.
pub proof fn lemma_gcd_divides(a: nat, b: nat)
    ensures
        divides(gcd_spec(a, b) as int, a as int),
        divides(gcd_spec(a, b) as int, b as int),
    decreases b,
{
    let g = gcd_spec(a, b) as int;
    if b == 0 {
        assert(a as int == times(1, a as int));
        assert(b as int == times(0, g));
    } else {
        let r = a % b;
        lemma_gcd_divides(b, r);
        let k1 = choose|k: int| b as int == times(k, g);
        let k2 = choose|k: int| r as int == times(k, g);
        let q = (a / b) as int;
        assert(a as int == q * (b as int) + (r as int)) by (nonlinear_arith)
            requires
                b > 0,
                q == (a / b) as int,
                r == a % b,
        ;
        assert(a as int == (q * k1 + k2) * g) by (nonlinear_arith)
            requires
                a as int == q * (b as int) + (r as int),
                b as int == k1 * g,
                r as int == k2 * g,
        ;
        assert(a as int == times(q * k1 + k2, g));
    }
}

/// The greatest common divisor of two positive numbers is positive.
pub proof fn lemma_gcd_positive(a: nat, b: nat)
    requires
        a > 0,
    ensures
        gcd_spec(a, b) > 0,
    decreases b,
{
    if b > 0 {
        lemma_gcd_positive(b, a % b);
    }
}

/// Euclid's algorithm; the result is never below 1.
fn gcd(left: i64, right: i64) -> (g: i64)
    requires
        left >= 0,
        right >= 0,
    ensures
        g == reduced_divisor(left as nat, right as nat),
{
    let mut l = left;
    let mut r = right;
    while r != 0
        invariant
            l >= 0,
            r >= 0,
            gcd_spec(l as nat, r as nat) == gcd_spec(left as nat, right as nat),
        decreases r,
    {
        let next = l % r;
        l = r;
        r = next;
    }
    if l < 1 {
        1
    } else {
        l
    }
}

// ---------------------------------------------------------------------------
// Aspect ratio
// ---------------------------------------------------------------------------

/// Finds the first occurrence of a character in a character vector.
fn find_char(v: &Vec<char>, c: char) -> (r: Option<usize>)
    ensures
        match r {
            Some(i) => i < v.len() && first_index(v@, c) == Some(i as int),
            None => first_index(v@, c) == None::<int>,
        },
{
    let mut i: usize = 0;
    while i < v.len()
        invariant
            i <= v.len(),
            forall|k: int| 0 <= k < i ==> v@[k] != c,
        decreases v.len() - i,
    {
        if v[i] == c {
            proof {
                lemma_first_index(v@, c, i as int);
            }
            return Some(i);
        }
        i = i + 1;
    }
    proof {
        lemma_first_index(v@, c, i as int);
    }
    None
}

/// The reduced `width:height` ratio of two sides, when both read as positive
/// integers.
pub open spec fn ratio_of(width: Seq<char>, height: Seq<char>) -> Option<Seq<char>> {
    match (parse_i64_spec(trimmed(width)), parse_i64_spec(trimmed(height))) {
        (Some(w), Some(h)) => if w > 0 && h > 0 {
            let g = reduced_divisor(w as nat, h as nat);
            Some(decimal((w as int) / g) + ":"@ + decimal((h as int) / g))
        } else {
            None
        },
        _ => None,
    }
}

/// The aspect ratio a size stands for: `W:H` or `WxH` (split at the first
/// separator, `:` taking precedence), reduced by the common divisor.
pub open spec fn aspect_ratio_spec(size: Option<Seq<char>>) -> Option<Seq<char>> {
    match size {
        None => None,
        Some(raw) => {
            let s = trimmed(raw);
            match first_index(s, ':') {
                Some(i) => ratio_of(s.subrange(0, i), s.subrange(i + 1, s.len() as int)),
                None => match first_index(s, 'x') {
                    Some(i) => ratio_of(s.subrange(0, i), s.subrange(i + 1, s.len() as int)),
                    None => None,
                },
            }
        },
    }
}

fn ratio_from_parts(v: &Vec<char>, at: usize) -> (r: Option<String>)
    requires
        at < v.len(),
    ensures
        opt_view(r) == ratio_of(v@.subrange(0, at as int), v@.subrange(at + 1, v@.len() as int)),
{
    let left = string_from_chars(v, 0, at);
    let right = string_from_chars(v, at + 1, v.len());
    let lt = trim(left.as_str());
    let rt = trim(right.as_str());
    let w = match parse_i64(lt.as_str()) {
        Some(w) => w,
        None => return None,
    };
    let h = match parse_i64(rt.as_str()) {
        Some(h) => h,
        None => return None,
    };
    if w <= 0 || h <= 0 {
        return None;
    }
    let g = gcd(w, h);
    let ws = i64_to_text(w / g);
    let hs = i64_to_text(h / g);
    Some(concat3(ws.as_str(), ":", hs.as_str()))
}

/// The aspect ratio that a vendor is asked for, derived from the plan's size.
pub fn aspect_ratio_from_size(size: Option<&str>) -> (r: Option<String>)
    ensures
        opt_view(r) == aspect_ratio_spec(
            match size {
                Some(s) => Some(s@),
                None => None,
            },
        ),
{
    let raw = match size {
        Some(s) => s,
        None => return None,
    };
    let t = trim(raw);
    let v = chars_of(t.as_str());
    match find_char(&v, ':') {
        Some(i) => ratio_from_parts(&v, i),
        None => match find_char(&v, 'x') {
            Some(i) => ratio_from_parts(&v, i),
            None => None,
        },
    }
}

/// The reduced ratio divides both sides exactly: for positive sides `w` and
/// `h`, the divisor `g` used for `W:H` satisfies `w == (w / g) * g` and
/// `h == (h / g) * g`.
pub proof fn lemma_aspect_ratio_exact(w: nat, h: nat)
    requires
        w > 0,
        h > 0,
    ensures
        reduced_divisor(w, h) >= 1,
        (w as int / reduced_divisor(w, h)) * reduced_divisor(w, h) == w,
        (h as int / reduced_divisor(w, h)) * reduced_divisor(w, h) == h,
{
    lemma_gcd_positive(w, h);
    lemma_gcd_divides(w, h);
    let g = reduced_divisor(w, h);
    let kw = choose|k: int| w as int == times(k, g);
    let kh = choose|k: int| h as int == times(k, g);
    assert(w as int == kw * g);
    assert(h as int == kh * g);
    assert(kw > 0) by (nonlinear_arith)
        requires
            w as int == kw * g,
            g > 0,
            w > 0,
    ;
    assert(kh > 0) by (nonlinear_arith)
        requires
            h as int == kh * g,
            g > 0,
            h > 0,
    ;
    vstd::arithmetic::div_mod::lemma_div_by_multiple(kw, g);
    vstd::arithmetic::div_mod::lemma_div_by_multiple(kh, g);
    assert(w as int / g == kw);
    assert(h as int / g == kh);
}

/// Every common divisor of two numbers divides their greatest common divisor.
proof fn lemma_common_divisor_divides_gcd(a: nat, b: nat, d: int)
    requires
        divides(d, a as int),
        divides(d, b as int),
    ensures
        divides(d, gcd_spec(a, b) as int),
    decreases b,
{
    if b > 0 {
        let r = a % b;
        let q = (a / b) as int;
        let ka = choose|k: int| a as int == times(k, d);
        let kb = choose|k: int| b as int == times(k, d);
        assert(a as int == q * (b as int) + (r as int)) by (nonlinear_arith)
            requires
                b > 0,
                q == (a / b) as int,
                r == a % b,
        ;
        assert(r as int == (ka - q * kb) * d) by (nonlinear_arith)
            requires
                a as int == q * (b as int) + (r as int),
                a as int == ka * d,
                b as int == kb * d,
        ;
        assert(r as int == times(ka - q * kb, d));
        lemma_common_divisor_divides_gcd(b, r, d);
    }
}

/// No common divisor of two numbers, not both zero, exceeds their greatest
/// common divisor.
pub proof fn lemma_gcd_greatest(a: nat, b: nat, d: int)
    requires
        a > 0 || b > 0,
        d > 0,
        divides(d, a as int),
        divides(d, b as int),
    ensures
        d <= gcd_spec(a, b),
{
    lemma_common_divisor_divides_gcd(a, b, d);
    if a > 0 {
        lemma_gcd_positive(a, b);
    } else {
        assert(a % b == 0) by (nonlinear_arith)
            requires
                a == 0,
                b > 0,
        ;
        assert(gcd_spec(a, b) == gcd_spec(b, 0));
        assert(gcd_spec(b, 0) == b);
    }
    let g = gcd_spec(a, b) as int;
    let k = choose|k: int| g == times(k, d);
    assert(d <= g) by (nonlinear_arith)
        requires
            g == k * d,
            g > 0,
            d > 0,
    ;
}

/// The ratio is in lowest terms: once both positive sides are divided by
/// the divisor used for `W:H`, they have no common divisor above 1.
pub proof fn lemma_aspect_ratio_lowest_terms(w: nat, h: nat)
    requires
        w > 0,
        h > 0,
    ensures
        gcd_spec(
            (w as int / reduced_divisor(w, h)) as nat,
            (h as int / reduced_divisor(w, h)) as nat,
        ) == 1,
{
    lemma_aspect_ratio_exact(w, h);
    lemma_gcd_positive(w, h);
    let g = reduced_divisor(w, h);
    let kw = w as int / g;
    let kh = h as int / g;
    assert(kw > 0 && kh > 0) by (nonlinear_arith)
        requires
            kw * g == w,
            kh * g == h,
            g >= 1,
            w > 0,
            h > 0,
    ;
    let g2 = gcd_spec(kw as nat, kh as nat) as int;
    lemma_gcd_positive(kw as nat, kh as nat);
    lemma_gcd_divides(kw as nat, kh as nat);
    let a = choose|k: int| kw == times(k, g2);
    let b = choose|k: int| kh == times(k, g2);
    let d = g2 * g;
    assert(w as int == times(a, d)) by (nonlinear_arith)
        requires
            kw == a * g2,
            kw * g == w,
            d == g2 * g,
    ;
    assert(h as int == times(b, d)) by (nonlinear_arith)
        requires
            kh == b * g2,
            kh * g == h,
            d == g2 * g,
    ;
    lemma_common_divisor_divides_gcd(w, h, d);
    let c = choose|k: int| gcd_spec(w, h) as int == times(k, d);
    assert(g == gcd_spec(w, h) as int);
    assert(g2 == 1) by (nonlinear_arith)
        requires
            g == c * d,
            d == g2 * g,
            g >= 1,
            g2 >= 1,
    ;
}

// ---------------------------------------------------------------------------
// Vendor parameters and requests
// ---------------------------------------------------------------------------

/// Vendor parameters accepted by the OpenAI adapter.
pub struct OpenAiVendorParameters {
    pub quality: Option<String>,
    pub response_format: Option<String>,
    pub size: Option<String>,
}

impl Default for OpenAiVendorParameters {
    fn default() -> (p: Self)
        ensures
            p.quality is None,
            p.response_format is None,
            p.size is None,
    {
        OpenAiVendorParameters { quality: None, response_format: None, size: None }
    }
}

/// Vendor parameters accepted by the seeded adapters (Midjourney, Nano
/// Banana, Vidu).
pub struct SeededVendorParameters {
    pub seed: Option<i64>,
    pub style: Option<String>,
    pub payload: Option<String>,
}

impl Default for SeededVendorParameters {
    fn default() -> (p: Self)
        ensures
            p.seed is None,
            p.style is None,
            p.payload is None,
    {
        SeededVendorParameters { seed: None, style: None, payload: None }
    }
}

/// The request of the OpenAI image generation operation.
pub struct OpenAiImageGenerationRequest {
    pub model: String,
    pub n: Option<i64>,
    pub prompt: String,
    pub quality: Option<String>,
    pub response_format: Option<String>,
    pub size: Option<String>,
}

/// The request of the Midjourney image generation operation.
pub struct MidjourneyImageGenerationRequest {
    pub aspect_ratio: Option<String>,
    pub callback_url: Option<String>,
    pub model: Option<String>,
    pub prompt: String,
    pub seed: Option<i64>,
    pub style: Option<String>,
}

/// The request of the Nano Banana image generation operation.
pub struct NanoBananaImageGenerationRequest {
    pub aspect_ratio: Option<String>,
    pub callback_url: Option<String>,
    pub images: Option<Vec<String>>,
    pub model: Option<String>,
    pub prompt: String,
    pub seed: Option<i64>,
    pub size: Option<String>,
}

/// The request of the Vidu reference-to-image operation.
pub struct ViduReferenceToImageRequest {
    pub aspect_ratio: Option<String>,
    pub callback_url: Option<String>,
    pub images: Vec<String>,
    pub model: String,
    pub payload: Option<String>,
    pub prompt: String,
    pub seed: Option<i64>,
    pub style: Option<String>,
}

/// The message that refuses a vendor parameter schema.
pub open spec fn schema_mismatch_message(schema: Seq<char>, provider_code: Seq<char>) -> Seq<char> {
    "vendor parameter schema "@ + schema + " is not valid for "@ + provider_code
}

/// Whether the plan carries vendor parameters to decode: absent parameters
/// fall back to the defaults, and a schema other than the expected one (after
/// trimming) is refused.
pub fn check_vendor_parameter_schema(plan: &ImageProviderDispatchPlan, expected_schema: &str) -> (r:
    Result<bool, ImageGenerationProviderError>)
    ensures
        match plan.vendor_parameters {
            None => r == Ok::<bool, ImageGenerationProviderError>(false),
            Some(p) => if trimmed(p.schema@) == expected_schema@ {
                r == Ok::<bool, ImageGenerationProviderError>(true)
            } else {
                r matches Err(e) && e@ == (
                    ProviderErrorKind::UnsupportedParameter,
                    schema_mismatch_message(p.schema@, plan.provider_code@),
                )
            },
        },
{
    match &plan.vendor_parameters {
        None => Ok(false),
        Some(p) => {
            let schema = trim(p.schema.as_str());
            if text_eq(schema.as_str(), expected_schema) {
                Ok(true)
            } else {
                let head = concat3("vendor parameter schema ", p.schema.as_str(), " is not valid for ");
                Err(
                    ImageGenerationProviderError::UnsupportedParameter(
                        concat2(head.as_str(), plan.provider_code.as_str()),
                    ),
                )
            }
        },
    }
}

/// The vendor parameter schema of the OpenAI adapter.
pub const OPENAI_VENDOR_SCHEMA: &'static str = "openai.image-generation.v1";

/// The vendor parameter schema of the Midjourney adapter.
pub const MIDJOURNEY_VENDOR_SCHEMA: &'static str = "midjourney.image-generation.v1";

/// The vendor parameter schema of the Nano Banana adapter.
pub const NANO_BANANA_VENDOR_SCHEMA: &'static str = "nano-banana.image-generation.v1";

/// The vendor parameter schema of the Vidu adapter.
pub const VIDU_VENDOR_SCHEMA: &'static str = "vidu.image-generation.v1";

/// The prompt sent to vendors without a negative-prompt field: the negative
/// prompt, when not blank, is appended after a blank line.
pub open spec fn prompt_with_negative_spec(prompt: Seq<char>, negative: Option<Seq<char>>) -> Seq<char> {
    match negative {
        Some(n) => if blank(n) {
            prompt
        } else {
            prompt + "\n\nNegative prompt: "@ + trimmed(n)
        },
        None => prompt,
    }
}

/// The plan's prompt with its negative prompt folded in.
pub fn prompt_with_optional_negative(plan: &ImageProviderDispatchPlan) -> (r: String)
    ensures
        r@ == prompt_with_negative_spec(plan.prompt@, opt_view(plan.negative_prompt)),
{
    match &plan.negative_prompt {
        Some(n) => {
            if is_blank(n.as_str()) {
                plan.prompt.clone()
            } else {
                let t = trim(n.as_str());
                concat3(plan.prompt.as_str(), "\n\nNegative prompt: ", t.as_str())
            }
        },
        None => plan.prompt.clone(),
    }
}

/// The model a vendor is asked for: the plan's model, else the provider code.
pub open spec fn model_or_code(plan: &ImageProviderDispatchPlan) -> String {
    match plan.model {
        Some(m) => m,
        None => plan.provider_code,
    }
}

fn model_or_provider_code(plan: &ImageProviderDispatchPlan) -> (r: String)
    ensures
        r == model_or_code(plan),
{
    match &plan.model {
        Some(m) => m.clone(),
        None => plan.provider_code.clone(),
    }
}

/// The plan's size, as the aspect-ratio input.
pub open spec fn size_view(plan: &ImageProviderDispatchPlan) -> Option<Seq<char>> {
    opt_view(plan.size)
}

fn plan_aspect_ratio(plan: &ImageProviderDispatchPlan) -> (r: Option<String>)
    ensures
        opt_view(r) == aspect_ratio_spec(size_view(plan)),
{
    match &plan.size {
        Some(s) => aspect_ratio_from_size(Some(s.as_str())),
        None => aspect_ratio_from_size(None),
    }
}

/// The OpenAI request of a plan: vendor parameters take precedence over the
/// plan's quality, response format and size; the model defaults to the
/// provider code; `n` is the output count.
pub open spec fn openai_request_spec(
    plan: &ImageProviderDispatchPlan,
    parameters: OpenAiVendorParameters,
    q: OpenAiImageGenerationRequest,
) -> bool {
    &&& q.model == model_or_code(plan)
    &&& q.n == Some(plan.output_count as i64)
    &&& q.prompt == plan.prompt
    &&& q.quality == opt_or(parameters.quality, plan.quality)
    &&& q.response_format == opt_or(parameters.response_format, plan.response_format)
    &&& q.size == opt_or(parameters.size, plan.size)
}

/// Builds the OpenAI request of a plan.
pub fn build_openai_image_generation_request(
    plan: &ImageProviderDispatchPlan,
    parameters: OpenAiVendorParameters,
) -> (r: OpenAiImageGenerationRequest)
    ensures
        openai_request_spec(plan, parameters, r),
{
    OpenAiImageGenerationRequest {
        model: model_or_provider_code(plan),
        n: Some(plan.output_count as i64),
        prompt: plan.prompt.clone(),
        quality: or_clone(parameters.quality, &plan.quality),
        response_format: or_clone(parameters.response_format, &plan.response_format),
        size: or_clone(parameters.size, &plan.size),
    }
}

/// Refuses a `payload` parameter outside the Vidu adapter.
pub fn reject_payload_for_non_vidu(parameters: &SeededVendorParameters) -> (r: Result<
    (),
    ImageGenerationProviderError,
>)
    ensures
        parameters.payload is None <==> r is Ok,
        r matches Err(e) ==> e@ == (
            ProviderErrorKind::UnsupportedParameter,
            "payload is only supported by the vidu image adapter"@,
        ),
{
    if parameters.payload.is_some() {
        return Err(
            ImageGenerationProviderError::UnsupportedParameter(
                "payload is only supported by the vidu image adapter".to_owned(),
            ),
        );
    }
    Ok(())
}

/// The Midjourney request of a plan: the aspect ratio of its size, the
/// negative prompt folded into the prompt, and the vendor style before the
/// plan's quality.
pub open spec fn midjourney_request_spec(
    plan: &ImageProviderDispatchPlan,
    parameters: SeededVendorParameters,
    q: MidjourneyImageGenerationRequest,
) -> bool {
    &&& opt_view(q.aspect_ratio) == aspect_ratio_spec(size_view(plan))
    &&& q.callback_url == plan.callback_url
    &&& q.model == plan.model
    &&& q.prompt@ == prompt_with_negative_spec(plan.prompt@, opt_view(plan.negative_prompt))
    &&& q.seed == parameters.seed
    &&& q.style == opt_or(parameters.style, plan.quality)
}

/// Builds the Midjourney request of a plan, refusing a `payload` parameter.
pub fn build_midjourney_image_generation_request(
    plan: &ImageProviderDispatchPlan,
    parameters: SeededVendorParameters,
) -> (r: Result<MidjourneyImageGenerationRequest, ImageGenerationProviderError>)
    ensures
        parameters.payload is None <==> r is Ok,
        r matches Err(e) ==> e@ == (
            ProviderErrorKind::UnsupportedParameter,
            "payload is only supported by the vidu image adapter"@,
        ),
        r matches Ok(q) ==> midjourney_request_spec(plan, parameters, q),
{
    reject_payload_for_non_vidu(&parameters)?;
    Ok(
        MidjourneyImageGenerationRequest {
            aspect_ratio: plan_aspect_ratio(plan),
            callback_url: clone_opt(&plan.callback_url),
            model: clone_opt(&plan.model),
            prompt: prompt_with_optional_negative(plan),
            seed: parameters.seed,
            style: or_clone(parameters.style, &plan.quality),
        },
    )
}

/// The Nano Banana request of a plan: reference images only when there are
/// some, the aspect ratio of its size, and the negative prompt folded into
/// the prompt.
pub open spec fn nano_banana_request_spec(
    plan: &ImageProviderDispatchPlan,
    parameters: SeededVendorParameters,
    q: NanoBananaImageGenerationRequest,
) -> bool {
    &&& opt_view(q.aspect_ratio) == aspect_ratio_spec(size_view(plan))
    &&& q.callback_url == plan.callback_url
    &&& (if plan.reference_images@.len() == 0 {
        q.images is None
    } else {
        q.images matches Some(v) && v@ == plan.reference_images@
    })
    &&& q.model == plan.model
    &&& q.prompt@ == prompt_with_negative_spec(plan.prompt@, opt_view(plan.negative_prompt))
    &&& q.seed == parameters.seed
    &&& q.size == plan.size
}

/// Builds the Nano Banana request of a plan; only `seed` is accepted as a
/// vendor parameter.
pub fn build_nano_banana_image_generation_request(
    plan: &ImageProviderDispatchPlan,
    parameters: SeededVendorParameters,
) -> (r: Result<NanoBananaImageGenerationRequest, ImageGenerationProviderError>)
    ensures
        (parameters.style is None && parameters.payload is None) <==> r is Ok,
        r matches Err(e) ==> e@ == (
            ProviderErrorKind::UnsupportedParameter,
            "nano-banana only accepts seed in vendor parameters"@,
        ),
        r matches Ok(q) ==> nano_banana_request_spec(plan, parameters, q),
{
    if parameters.style.is_some() || parameters.payload.is_some() {
        return Err(
            ImageGenerationProviderError::UnsupportedParameter(
                "nano-banana only accepts seed in vendor parameters".to_owned(),
            ),
        );
    }
    let images = if plan.reference_images.len() == 0 {
        None
    } else {
        Some(clone_strings(&plan.reference_images))
    };
    Ok(
        NanoBananaImageGenerationRequest {
            aspect_ratio: plan_aspect_ratio(plan),
            callback_url: clone_opt(&plan.callback_url),
            images,
            model: clone_opt(&plan.model),
            prompt: prompt_with_optional_negative(plan),
            seed: parameters.seed,
            size: clone_opt(&plan.size),
        },
    )
}

/// The Vidu reference-to-image request of a plan: its reference images, the
/// aspect ratio of its size, the model defaulting to the provider code, the
/// vendor payload and seed, and the vendor style before the plan's quality.
pub open spec fn vidu_request_spec(
    plan: &ImageProviderDispatchPlan,
    parameters: SeededVendorParameters,
    q: ViduReferenceToImageRequest,
) -> bool {
    &&& opt_view(q.aspect_ratio) == aspect_ratio_spec(size_view(plan))
    &&& q.callback_url == plan.callback_url
    &&& q.images@ == plan.reference_images@
    &&& q.model == model_or_code(plan)
    &&& q.payload == parameters.payload
    &&& q.prompt@ == prompt_with_negative_spec(plan.prompt@, opt_view(plan.negative_prompt))
    &&& q.seed == parameters.seed
    &&& q.style == opt_or(parameters.style, plan.quality)
}

/// Builds the Vidu reference-to-image request of a plan.
pub fn build_vidu_reference_to_image_request(
    plan: &ImageProviderDispatchPlan,
    parameters: SeededVendorParameters,
) -> (q: ViduReferenceToImageRequest)
    ensures
        vidu_request_spec(plan, parameters, q),
{
    ViduReferenceToImageRequest {
        aspect_ratio: plan_aspect_ratio(plan),
        callback_url: clone_opt(&plan.callback_url),
        images: clone_strings(&plan.reference_images),
        model: model_or_provider_code(plan),
        payload: parameters.payload,
        prompt: prompt_with_optional_negative(plan),
        seed: parameters.seed,
        style: or_clone(parameters.style, &plan.quality),
    }
}

/// The request an adapter submits for a dispatch plan, one per vendor
/// operation.
pub enum ProviderRequest {
    OpenAi(OpenAiImageGenerationRequest),
    Midjourney(MidjourneyImageGenerationRequest),
    NanoBanana(NanoBananaImageGenerationRequest),
    Vidu(ViduReferenceToImageRequest),
}

/// The vendor parameter schema each operation decodes; provider-native
/// generation has none.
pub open spec fn operation_schema(operation: ImageProviderOperation) -> Option<&'static str> {
    match operation {
        ImageProviderOperation::OpenAiImageGeneration => Some(OPENAI_VENDOR_SCHEMA),
        ImageProviderOperation::MidjourneyImageGeneration => Some(MIDJOURNEY_VENDOR_SCHEMA),
        ImageProviderOperation::NanoBananaImageGeneration => Some(NANO_BANANA_VENDOR_SCHEMA),
        ImageProviderOperation::ViduReferenceToImageGeneration => Some(VIDU_VENDOR_SCHEMA),
        ImageProviderOperation::ProviderNativeImageGeneration => None,
    }
}

/// The vendor parameter schema of an operation.
pub fn vendor_schema_for(operation: ImageProviderOperation) -> (r: Option<&'static str>)
    ensures
        r == operation_schema(operation),
{
    match operation {
        ImageProviderOperation::OpenAiImageGeneration => Some(OPENAI_VENDOR_SCHEMA),
        ImageProviderOperation::MidjourneyImageGeneration => Some(MIDJOURNEY_VENDOR_SCHEMA),
        ImageProviderOperation::NanoBananaImageGeneration => Some(NANO_BANANA_VENDOR_SCHEMA),
        ImageProviderOperation::ViduReferenceToImageGeneration => Some(VIDU_VENDOR_SCHEMA),
        ImageProviderOperation::ProviderNativeImageGeneration => None,
    }
}

/// The request a plan's operation submits, from the plan and its decoded
/// vendor parameters (the OpenAI ones for the OpenAI operation, the seeded
/// ones for the others): each vendor's request with its own refusals, and no
/// request for provider-native generation.
pub fn build_provider_request(
    plan: &ImageProviderDispatchPlan,
    openai: OpenAiVendorParameters,
    seeded: SeededVendorParameters,
) -> (r: Result<ProviderRequest, ImageGenerationProviderError>)
    ensures
        match plan.provider_operation {
            ImageProviderOperation::OpenAiImageGeneration => r matches Ok(ProviderRequest::OpenAi(q))
                && openai_request_spec(plan, openai, q),
            ImageProviderOperation::MidjourneyImageGeneration => if seeded.payload is None {
                r matches Ok(ProviderRequest::Midjourney(q)) && midjourney_request_spec(plan, seeded, q)
            } else {
                r matches Err(e) && e@ == (
                    ProviderErrorKind::UnsupportedParameter,
                    "payload is only supported by the vidu image adapter"@,
                )
            },
            ImageProviderOperation::NanoBananaImageGeneration => if seeded.style is None
                && seeded.payload is None {
                r matches Ok(ProviderRequest::NanoBanana(q)) && nano_banana_request_spec(plan, seeded, q)
            } else {
                r matches Err(e) && e@ == (
                    ProviderErrorKind::UnsupportedParameter,
                    "nano-banana only accepts seed in vendor parameters"@,
                )
            },
            ImageProviderOperation::ViduReferenceToImageGeneration => r matches Ok(
                ProviderRequest::Vidu(q),
            ) && vidu_request_spec(plan, seeded, q),
            ImageProviderOperation::ProviderNativeImageGeneration => r matches Err(e) && e@ == (
                ProviderErrorKind::UnsupportedCapability,
                "provider-native image generation"@,
            ),
        },
{
    match plan.provider_operation {
        ImageProviderOperation::OpenAiImageGeneration => Ok(
            ProviderRequest::OpenAi(build_openai_image_generation_request(plan, openai)),
        ),
        ImageProviderOperation::MidjourneyImageGeneration => {
            let q = build_midjourney_image_generation_request(plan, seeded)?;
            Ok(ProviderRequest::Midjourney(q))
        },
        ImageProviderOperation::NanoBananaImageGeneration => {
            let q = build_nano_banana_image_generation_request(plan, seeded)?;
            Ok(ProviderRequest::NanoBanana(q))
        },
        ImageProviderOperation::ViduReferenceToImageGeneration => Ok(
            ProviderRequest::Vidu(build_vidu_reference_to_image_request(plan, seeded)),
        ),
        ImageProviderOperation::ProviderNativeImageGeneration => Err(
            ImageGenerationProviderError::UnsupportedCapability(
                "provider-native image generation".to_owned(),
            ),
        ),
    }
}

/// The OpenAI SDK request carries an output count (`n`).
pub fn openai_image_generation_sdk_supports_output_count() -> (r: bool)
    ensures
        r,
{
    true
}

/// The requested model wins: when the plan names a model, the OpenAI and
/// Vidu requests ask for exactly that model; only a plan without a model
/// falls back to the provider code.
pub proof fn lemma_requests_ask_for_the_plan_model(
    plan: &ImageProviderDispatchPlan,
    openai: OpenAiVendorParameters,
    seeded: SeededVendorParameters,
    q: OpenAiImageGenerationRequest,
    v: ViduReferenceToImageRequest,
)
    requires
        openai_request_spec(plan, openai, q),
        vidu_request_spec(plan, seeded, v),
    ensures
        plan.model matches Some(m) ==> q.model == m && v.model == m,
        plan.model is None ==> q.model == plan.provider_code && v.model == plan.provider_code,
        q.prompt == plan.prompt,
        q.n == Some(plan.output_count as i64),
        v.images@ == plan.reference_images@,
{
}

/// Midjourney and Nano Banana send the plan's model as it is, present or
/// absent, with the plan's callback.
pub proof fn lemma_seeded_requests_pass_the_plan_model(
    plan: &ImageProviderDispatchPlan,
    seeded: SeededVendorParameters,
    m: MidjourneyImageGenerationRequest,
    n: NanoBananaImageGenerationRequest,
)
    requires
        midjourney_request_spec(plan, seeded, m),
        nano_banana_request_spec(plan, seeded, n),
    ensures
        m.model == plan.model,
        n.model == plan.model,
        m.callback_url == plan.callback_url,
        n.callback_url == plan.callback_url,
        m.seed == seeded.seed,
        n.seed == seeded.seed,
{
}

} // verus!
