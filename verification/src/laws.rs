//! What holds of requests, of the cache and of the dimensions of the encoded picture,
//! whatever the codecs do.

use vstd::prelude::*;
use crate::cache::lookup;
use crate::handler::{
    next_step, settled, status_of, store_all, ConvertError, StepModel,
};
use crate::key::lemma_cache_key_identifies_request;
use crate::numeral::{decimal, lemma_parse_decimal, numeral_value, parsed_u32};
use crate::request::{request_of, RequestError, RequestModel};
use crate::codec::rgba8;
use crate::transform::{output_dimensions, resizes, transforms, EncodedImage, TransformError};

verus! {

/// A query without a URL is no request, whatever else it holds, and is answered with a
/// client error. No step of the handler is reached, so nothing is fetched.
pub proof fn lemma_missing_url_is_a_client_error(
    width: Option<Seq<char>>,
    height: Option<Seq<char>>,
)
    ensures
        request_of(None, width, height) == Err::<RequestModel, RequestError>(
            RequestError::MissingParameter,
        ),
        400 <= status_of(ConvertError::Request(RequestError::MissingParameter)) < 500,
{
}

/// A query with a URL and no dimensions is a request that resamples nothing: a source of
/// any size is encoded at its own size.
pub proof fn lemma_unspecified_dimensions_keep_the_source_size(
    url: Seq<char>,
    source_width: nat,
    source_height: nat,
)
    ensures
        request_of(Some(url), None, None) == Ok::<RequestModel, RequestError>(
            RequestModel { url, width: 0, height: 0 },
        ),
        output_dimensions(source_width, source_height, 0, 0) == (source_width, source_height),
{
}

/// A query that writes both dimensions as positive numbers is a request for exactly those
/// dimensions: a source of any size is encoded at `width` by `height`.
pub proof fn lemma_given_dimensions_are_exact(
    url: Seq<char>,
    width: u32,
    height: u32,
    source_width: nat,
    source_height: nat,
)
    requires
        width > 0,
        height > 0,
    ensures
        request_of(Some(url), Some(decimal(width as nat)), Some(decimal(height as nat))) == Ok::<
            RequestModel,
            RequestError,
        >(RequestModel { url, width, height }),
        output_dimensions(source_width, source_height, width, height) == (
            width as nat,
            height as nat,
        ),
{
    lemma_parse_decimal(width);
    lemma_parse_decimal(height);
}

/// Where a target dimension is unset, a file that comes of a decoded image is that of a
/// picture of the image's own width and height. Where both are set, it is that of a
/// picture of exactly the target width and height, whatever the image's size.
pub proof fn lemma_file_has_the_size_asked_for(
    image: image::DynamicImage,
    width: u32,
    height: u32,
    file: EncodedImage,
)
    requires
        transforms(
            Ok::<image::DynamicImage, image::ImageError>(image),
            width,
            height,
            Ok::<EncodedImage, TransformError>(file),
        ),
    ensures
        !resizes(width, height) ==> file.width == rgba8(image).0 && file.height == rgba8(image).1,
        resizes(width, height) ==> file.width == width && file.height == height,
{
}

/// A dimension whose text is no numeral is read as if the client had written zero, for
/// the width and for the height alike, and then nothing is resampled: a source of any
/// size is encoded at its own size.
pub proof fn lemma_malformed_dimension_reads_as_zero(
    url: Option<Seq<char>>,
    malformed: Seq<char>,
    other: Option<Seq<char>>,
    source_width: nat,
    source_height: nat,
)
    requires
        parsed_u32(malformed) is None,
    ensures
        request_of(url, Some(malformed), other) == request_of(url, Some(seq!['0']), other),
        request_of(url, other, Some(malformed)) == request_of(url, other, Some(seq!['0'])),
        request_of(url, Some(malformed), other) matches Ok(request) ==> !request.resizes()
            && output_dimensions(source_width, source_height, request.width, request.height) == (
            source_width,
            source_height,
        ),
        request_of(url, other, Some(malformed)) matches Ok(request) ==> !request.resizes()
            && output_dimensions(source_width, source_height, request.width, request.height) == (
            source_width,
            source_height,
        ),
{
    let zero = seq!['0'];
    assert(zero.drop_last() =~= Seq::<char>::empty());
    reveal_with_fuel(numeral_value, 2);
    assert(parsed_u32(zero) == Some(0u32));
}

/// A request that ends in a failure, of the fetch or of the codecs, leaves the cache as
/// it was; one that ends in a finished image leaves those bytes under the request's key
/// and changes no other entry.
pub proof fn lemma_only_finished_images_are_cached(
    request: RequestModel,
    outcome: Result<EncodedImage, ConvertError>,
    before: Map<Seq<char>, Seq<u8>>,
    after: Map<Seq<char>, Seq<u8>>,
    r: Result<Vec<u8>, ConvertError>,
    key: Seq<char>,
)
    requires
        settled(request, outcome, before, after, r),
    ensures
        outcome is Err ==> lookup(after, key) == lookup(before, key),
        outcome matches Ok(image) ==> lookup(after, request.key()) == Some(image.bytes@),
        key != request.key() ==> lookup(after, key) == lookup(before, key),
{
}

/// A request that was answered with a finished image is served from the cache when it
/// comes again: the next step is to respond with the same bytes, not to fetch.
pub proof fn lemma_repeat_is_served_from_cache(
    entries: Map<Seq<char>, Seq<u8>>,
    request: RequestModel,
    bytes: Seq<u8>,
)
    ensures
        next_step(entries.insert(request.key(), bytes), request) == StepModel::Respond(bytes),
{
}

/// Putting twice under one key leaves what one `put` of the later bytes leaves.
pub proof fn lemma_last_writer_wins(
    entries: Map<Seq<char>, Seq<u8>>,
    key: Seq<char>,
    first: Seq<u8>,
    second: Seq<u8>,
)
    ensures
        entries.insert(key, first).insert(key, second) == entries.insert(key, second),
{
    assert(entries.insert(key, first).insert(key, second) =~= entries.insert(key, second));
}

/// A result that is cached for one request is not found by another: two requests find
/// each other's entry only if they agree on URL, width and height.
pub proof fn lemma_other_requests_are_undisturbed(
    entries: Map<Seq<char>, Seq<u8>>,
    stored: RequestModel,
    bytes: Seq<u8>,
    other: RequestModel,
)
    requires
        stored != other,
    ensures
        lookup(entries.insert(stored.key(), bytes), other.key()) == lookup(entries, other.key()),
{
    lemma_cache_key_identifies_request(
        stored.url,
        stored.width,
        stored.height,
        other.url,
        other.width,
        other.height,
    );
}

/// After the results of pairwise different requests were cached, in whatever order,
/// each request finds its own bytes.
pub proof fn lemma_distinct_requests_keep_their_bytes(
    entries: Map<Seq<char>, Seq<u8>>,
    stored: Seq<(RequestModel, Seq<u8>)>,
    i: int,
)
    requires
        0 <= i < stored.len(),
        forall|a: int, b: int|
            0 <= a < b < stored.len() ==> (#[trigger] stored[a]).0 != (#[trigger] stored[b]).0,
    ensures
        next_step(store_all(entries, stored), stored[i].0) == StepModel::Respond(stored[i].1),
    decreases stored.len(),
{
    let earlier = stored.drop_last();
    if i < stored.len() - 1 {
        assert forall|a: int, b: int| 0 <= a < b < earlier.len() implies (#[trigger] earlier[a]).0
            != (#[trigger] earlier[b]).0 by {
            assert(earlier[a] == stored[a]);
            assert(earlier[b] == stored[b]);
        }
        lemma_distinct_requests_keep_their_bytes(entries, earlier, i);
        assert(earlier[i] == stored[i]);
        lemma_other_requests_are_undisturbed(
            store_all(entries, earlier),
            stored.last().0,
            stored.last().1,
            stored[i].0,
        );
    }
}

} // verus!
