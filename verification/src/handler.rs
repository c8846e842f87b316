//! The decisions of one conversion request. The handler never touches the network: it
//! says when the source has to be fetched, and is told what the fetch gave.

use vstd::prelude::*;
use vstd::string::StrSliceExecFns;
use vstd::utf8::encode_utf8;
use crate::cache::{lookup, ResultCache};
use crate::request::{ImageRequest, RequestError, RequestModel};
use crate::codec::load_image;
use crate::transform::{
    content_type, transform_loaded, transforms, EncodedImage, TransformError,
};

verus! {

/// Why the source could not be fetched.
#[derive(Debug, Clone, Copy, PartialEq, Eq, Structural)]
pub enum NetworkError {
    /// The source URL could not be reached.
    FetchFailed,
    /// The source answered, but its body could not be read to the end.
    ReadBodyFailed,
}

/// Why a request failed.
#[derive(Debug, Clone, Copy, PartialEq, Eq, Structural)]
pub enum ConvertError {
    Request(RequestError),
    Network(NetworkError),
    Transform(TransformError),
}

/// What to do next for a request.
#[derive(Debug, Clone, PartialEq, Eq)]
pub enum Step {
    /// The result is cached: answer with these bytes.
    Respond(Vec<u8>),
    /// The result is not cached: fetch this URL, then call [`complete`].
    Fetch(String),
}

/// The mathematical content of a [`Step`].
pub enum StepModel {
    Respond(Seq<u8>),
    Fetch(Seq<char>),
}

impl View for Step {
    type V = StepModel;

    open spec fn view(&self) -> StepModel {
        match self {
            Step::Respond(bytes) => StepModel::Respond(bytes@),
            Step::Fetch(url) => StepModel::Fetch(url@),
        }
    }
}

/// The step that a cache holding `entries` calls for: a hit is answered from the cache, a
/// miss has the source fetched.
pub open spec fn next_step(entries: Map<Seq<char>, Seq<u8>>, request: RequestModel) -> StepModel {
    match lookup(entries, request.key()) {
        Some(bytes) => StepModel::Respond(bytes),
        None => StepModel::Fetch(request.url),
    }
}

/// The entries of a cache after the cached results in `stored` were put into it, first
/// to last, each under the key of its request.
pub open spec fn store_all(
    entries: Map<Seq<char>, Seq<u8>>,
    stored: Seq<(RequestModel, Seq<u8>)>,
) -> Map<Seq<char>, Seq<u8>>
    decreases stored.len(),
{
    if stored.len() == 0 {
        entries
    } else {
        store_all(entries, stored.drop_last()).insert(stored.last().0.key(), stored.last().1)
    }
}

/// Looks `request` up in the cache.
pub fn begin(request: &ImageRequest, cache: &ResultCache) -> (step: Step)
    ensures
        step@ == next_step(cache@, request@),
{
    let key = request.cache_key();
    match cache.get(key.as_str()) {
        Some(bytes) => Step::Respond(bytes),
        None => Step::Fetch(request.source_url.clone()),
    }
}

/// Whether `r` and the cache are what the outcome of a transformation leads to: a
/// finished image is cached under the request's key and returned, a failure is returned
/// and leaves the cache as it was.
pub open spec fn settled(
    request: RequestModel,
    outcome: Result<EncodedImage, ConvertError>,
    before: Map<Seq<char>, Seq<u8>>,
    after: Map<Seq<char>, Seq<u8>>,
    r: Result<Vec<u8>, ConvertError>,
) -> bool {
    match outcome {
        Ok(image) => {
            &&& r is Ok
            &&& r->Ok_0@ == image.bytes@
            &&& after == before.insert(request.key(), image.bytes@)
        },
        Err(e) => r == Err::<Vec<u8>, ConvertError>(e) && after == before,
    }
}

/// Ends a request whose transformation came to `outcome`.
pub fn settle(
    request: &ImageRequest,
    outcome: Result<EncodedImage, ConvertError>,
    cache: &mut ResultCache,
) -> (r: Result<Vec<u8>, ConvertError>)
    ensures
        settled(request@, outcome, old(cache)@, final(cache)@, r),
{
    match outcome {
        Ok(image) => {
            let bytes = image.bytes;
            cache.put(request.cache_key(), bytes.clone());
            Ok(bytes)
        },
        Err(e) => Err(e),
    }
}

/// Whether `r` is what a request comes to once the decoder has spoken on its source:
/// what the transformation for the request's dimensions comes to, a failure of it
/// reported as a transform error.
pub open spec fn converts(
    request: RequestModel,
    loaded: Result<image::DynamicImage, image::ImageError>,
    r: Result<EncodedImage, ConvertError>,
) -> bool {
    match r {
        Ok(image) => transforms(
            loaded,
            request.width,
            request.height,
            Ok::<EncodedImage, TransformError>(image),
        ),
        Err(e) => e is Transform && transforms(
            loaded,
            request.width,
            request.height,
            Err::<EncodedImage, TransformError>(e->Transform_0),
        ),
    }
}

/// Transforms the source of `request` once the decoder has spoken on it. A decoder's
/// error fails the request as `DecodeFailed`; a decoded image is transformed for the
/// dimensions that the request asks for, and then the only failure is `EncodeFailed`.
pub fn convert_loaded(
    request: &ImageRequest,
    loaded: Result<image::DynamicImage, image::ImageError>,
) -> (r: Result<EncodedImage, ConvertError>)
    ensures
        converts(request@, loaded, r),
        loaded is Err ==> r == Err::<EncodedImage, ConvertError>(
            ConvertError::Transform(TransformError::DecodeFailed),
        ),
        loaded is Ok && r is Err ==> r == Err::<EncodedImage, ConvertError>(
            ConvertError::Transform(TransformError::EncodeFailed),
        ),
        r matches Ok(image) ==> image.width > 0 && image.height > 0 && (request@.resizes()
            ==> image.width == request@.width && image.height == request@.height),
{
    match transform_loaded(loaded, request.target_width, request.target_height) {
        Ok(image) => Ok(image),
        Err(e) => Err(ConvertError::Transform(e)),
    }
}

/// Transforms what fetching the source of `request` came to, for the dimensions that
/// the request asks for. A failed fetch fails the request with the fetch's error; on
/// fetched bytes the codecs decide, and a failure of theirs is a transform error.
pub fn convert_fetched(request: &ImageRequest, fetched: Result<Vec<u8>, NetworkError>) -> (r:
    Result<EncodedImage, ConvertError>)
    ensures
        fetched matches Err(e) ==> r == Err::<EncodedImage, ConvertError>(
            ConvertError::Network(e),
        ),
        fetched is Ok && r is Err ==> r->Err_0 is Transform,
        r matches Ok(image) ==> image.width > 0 && image.height > 0 && (request@.resizes()
            ==> image.width == request@.width && image.height == request@.height),
{
    match fetched {
        Ok(raw) => convert_loaded(request, load_image(raw.as_slice())),
        Err(e) => Err(ConvertError::Network(e)),
    }
}

/// Ends a request after a cache miss, given what fetching its source came to: the
/// fetched bytes are transformed and the result is cached. Whether they transform is for
/// the codecs to say; whatever they say, only a finished image enters the cache.
pub fn complete(
    request: &ImageRequest,
    fetched: Result<Vec<u8>, NetworkError>,
    cache: &mut ResultCache,
) -> (r: Result<Vec<u8>, ConvertError>)
    ensures
        fetched matches Err(e) ==> r == Err::<Vec<u8>, ConvertError>(ConvertError::Network(e)),
        fetched is Ok && r is Err ==> r->Err_0 is Transform,
        r matches Ok(bytes) ==> final(cache)@ == old(cache)@.insert(request@.key(), bytes@),
        r is Err ==> final(cache)@ == old(cache)@,
{
    settle(request, convert_fetched(request, fetched), cache)
}

/// The HTTP status that reports `error`.
pub open spec fn status_of(error: ConvertError) -> u16 {
    match error {
        ConvertError::Request(RequestError::MissingParameter) => 400,
        ConvertError::Network(NetworkError::FetchFailed) => 502,
        ConvertError::Network(NetworkError::ReadBodyFailed) => 502,
        ConvertError::Transform(TransformError::DecodeFailed) => 422,
        ConvertError::Transform(TransformError::EncodeFailed) => 500,
    }
}

/// The sentence that reports `error` to the client.
pub open spec fn message_of(error: ConvertError) -> Seq<char> {
    match error {
        ConvertError::Request(RequestError::MissingParameter) => "Image URL is required"@,
        ConvertError::Network(NetworkError::FetchFailed) => "Failed to send HTTP request"@,
        ConvertError::Network(NetworkError::ReadBodyFailed) => "Failed to read HTTP response body"@,
        ConvertError::Transform(TransformError::DecodeFailed) => "Failed to load image"@,
        ConvertError::Transform(TransformError::EncodeFailed) => "Failed to convert image to AVIF"@,
    }
}

/// The HTTP status that reports `error`: a client error for a bad request, an error
/// status in every case.
pub fn status_code(error: ConvertError) -> (status: u16)
    ensures
        status == status_of(error),
        400 <= status < 600,
        error is Request ==> status < 500,
{
    match error {
        ConvertError::Request(RequestError::MissingParameter) => 400,
        ConvertError::Network(NetworkError::FetchFailed) => 502,
        ConvertError::Network(NetworkError::ReadBodyFailed) => 502,
        ConvertError::Transform(TransformError::DecodeFailed) => 422,
        ConvertError::Transform(TransformError::EncodeFailed) => 500,
    }
}

/// The sentence that reports `error` to the client.
pub fn message(error: ConvertError) -> (text: &'static str)
    ensures
        text@ == message_of(error),
{
    match error {
        ConvertError::Request(RequestError::MissingParameter) => "Image URL is required",
        ConvertError::Network(NetworkError::FetchFailed) => "Failed to send HTTP request",
        ConvertError::Network(NetworkError::ReadBodyFailed) => "Failed to read HTTP response body",
        ConvertError::Transform(TransformError::DecodeFailed) => "Failed to load image",
        ConvertError::Transform(TransformError::EncodeFailed) => "Failed to convert image to AVIF",
    }
}

/// Different errors are reported with different sentences, so that a client can tell
/// the five kinds apart.
pub proof fn lemma_messages_tell_errors_apart(a: ConvertError, b: ConvertError)
    requires
        a != b,
    ensures
        message_of(a) != message_of(b),
{
    reveal_strlit("Image URL is required");
    reveal_strlit("Failed to send HTTP request");
    reveal_strlit("Failed to read HTTP response body");
    reveal_strlit("Failed to load image");
    reveal_strlit("Failed to convert image to AVIF");
    assert(message_of(a).len() != message_of(b).len());
}

/// An answer to the client.
#[derive(Debug, Clone, PartialEq, Eq)]
pub struct Response {
    pub status: u16,
    pub content_type: &'static str,
    pub body: Vec<u8>,
}

/// Whether `response` is the answer to a request that ended in `result`: the image with
/// status 200, or the error's status with its sentence as plain text.
pub open spec fn answers(result: Result<Vec<u8>, ConvertError>, response: Response) -> bool {
    match result {
        Ok(bytes) => {
            &&& response.status == 200
            &&& response.content_type@ == "image/avif"@
            &&& response.body@ == bytes@
        },
        Err(e) => {
            &&& response.status == status_of(e)
            &&& response.content_type@ == "text/plain; charset=utf-8"@
            &&& response.body@ == encode_utf8(message_of(e))
        },
    }
}

/// The answer to a request that ended in `result`.
pub fn respond(result: Result<Vec<u8>, ConvertError>) -> (response: Response)
    ensures
        answers(result, response),
{
    match result {
        Ok(bytes) => Response { status: 200, content_type: content_type(), body: bytes },
        Err(e) => Response {
            status: status_code(e),
            content_type: "text/plain; charset=utf-8",
            body: message(e).as_bytes_vec(),
        },
    }
}

} // verus!
