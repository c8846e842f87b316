use avif_convert::cache::ResultCache;
use avif_convert::handler::{
    begin, complete, message, respond, settle, status_code, ConvertError, NetworkError, Step,
};
use avif_convert::request::{ImageRequest, RequestError};
use avif_convert::transform::{EncodedImage, TransformError};
use std::io::Cursor;

fn png(width: u32, height: u32, shade: u8) -> Vec<u8> {
    let picture = image::RgbaImage::from_pixel(width, height, image::Rgba([shade, 10, 20, 255]));
    let mut file = Cursor::new(Vec::new());
    picture.write_to(&mut file, image::ImageFormat::Png).unwrap();
    file.into_inner()
}

fn request(url: &str, width: &str, height: &str) -> ImageRequest {
    ImageRequest::from_query(Some(url), Some(width), Some(height)).unwrap()
}

fn avif_dimensions(file: &[u8]) -> (u32, u32) {
    let at = file.windows(4).position(|window| window == b"ispe").unwrap() + 8;
    let width = u32::from_be_bytes([file[at], file[at + 1], file[at + 2], file[at + 3]]);
    let height = u32::from_be_bytes([file[at + 4], file[at + 5], file[at + 6], file[at + 7]]);
    (width, height)
}

/// Serves one request as the service does, counting the fetches.
fn serve(
    request: &ImageRequest,
    cache: &mut ResultCache,
    source: &Result<Vec<u8>, NetworkError>,
    fetches: &mut u32,
) -> Result<Vec<u8>, ConvertError> {
    match begin(request, cache) {
        Step::Respond(bytes) => Ok(bytes),
        Step::Fetch(url) => {
            assert_eq!(url, request.source_url);
            *fetches += 1;
            complete(request, source.clone(), cache)
        }
    }
}

#[test]
fn a_miss_asks_for_the_source() {
    let cache = ResultCache::new();
    let step = begin(&request("http://example.com/a.png", "100", "100"), &cache);
    assert_eq!(step, Step::Fetch(String::from("http://example.com/a.png")));
}

#[test]
fn a_hit_answers_from_the_cache() {
    let mut cache = ResultCache::new();
    cache.put(String::from("http://example.com/a.png:100:100"), vec![1, 2, 3]);
    let step = begin(&request("http://example.com/a.png", "100", "100"), &cache);
    assert_eq!(step, Step::Respond(vec![1, 2, 3]));
    let other = begin(&request("http://example.com/a.png", "100", "101"), &cache);
    assert_eq!(other, Step::Fetch(String::from("http://example.com/a.png")));
}

#[test]
fn second_identical_request_is_served_without_a_fetch() {
    let mut cache = ResultCache::new();
    let mut fetches = 0;
    let source = Ok(png(4, 4, 100));
    let asked = request("http://example.com/a.png", "100", "100");
    let first = serve(&asked, &mut cache, &source, &mut fetches).unwrap();
    assert_eq!(fetches, 1);
    assert_eq!(avif_dimensions(&first), (100, 100));
    let gone = Err(NetworkError::FetchFailed);
    let second = serve(&asked, &mut cache, &gone, &mut fetches).unwrap();
    assert_eq!(fetches, 1);
    assert_eq!(first, second);
    assert_eq!(cache.len(), 1);
}

#[test]
fn request_without_dimensions_keeps_the_native_size() {
    let mut cache = ResultCache::new();
    let asked = ImageRequest::from_query(Some("http://example.com/a.png"), None, None).unwrap();
    let bytes = complete(&asked, Ok(png(9, 6, 50)), &mut cache).unwrap();
    assert_eq!(avif_dimensions(&bytes), (9, 6));
    assert_eq!(cache.get("http://example.com/a.png:0:0"), Some(bytes));
}

#[test]
fn request_for_50_by_75_gets_exactly_that() {
    let mut cache = ResultCache::new();
    let asked = request("http://example.com/a.png", "50", "75");
    let bytes = complete(&asked, Ok(png(9, 6, 50)), &mut cache).unwrap();
    assert_eq!(avif_dimensions(&bytes), (50, 75));
    assert_eq!(cache.get("http://example.com/a.png:50:75"), Some(bytes));
}

#[test]
fn malformed_width_means_no_resize() {
    let mut cache = ResultCache::new();
    let asked = request("http://example.com/a.png", "abc", "200");
    let bytes = complete(&asked, Ok(png(9, 6, 50)), &mut cache).unwrap();
    assert_eq!(avif_dimensions(&bytes), (9, 6));
    let zero = request("http://example.com/a.png", "0", "200");
    assert_eq!(begin(&zero, &cache), Step::Respond(bytes));
}

#[test]
fn non_image_bytes_fail_and_leave_the_cache_empty() {
    let mut cache = ResultCache::new();
    let asked = request("http://example.com/page.html", "100", "100");
    let result = complete(&asked, Ok(b"<html>no image</html>".to_vec()), &mut cache);
    assert_eq!(result, Err(ConvertError::Transform(TransformError::DecodeFailed)));
    assert!(cache.is_empty());
    assert_eq!(cache.get(&asked.cache_key()), None);
    assert_eq!(begin(&asked, &cache), Step::Fetch(String::from("http://example.com/page.html")));
}

#[test]
fn a_failed_fetch_fails_the_request_and_caches_nothing() {
    for error in [NetworkError::FetchFailed, NetworkError::ReadBodyFailed] {
        let mut cache = ResultCache::new();
        cache.put(String::from("kept"), vec![1]);
        let asked = request("http://example.com/a.png", "1", "1");
        let result = complete(&asked, Err(error), &mut cache);
        assert_eq!(result, Err(ConvertError::Network(error)));
        assert_eq!(cache.len(), 1);
        assert_eq!(cache.get("kept"), Some(vec![1]));
    }
}

#[test]
fn an_encode_failure_caches_nothing() {
    let mut cache = ResultCache::new();
    let asked = request("http://example.com/a.png", "4294967295", "4294967295");
    let result = complete(&asked, Ok(png(2, 2, 1)), &mut cache);
    assert_eq!(result, Err(ConvertError::Transform(TransformError::EncodeFailed)));
    assert!(cache.is_empty());
}

#[test]
fn a_failure_keeps_an_older_entry() {
    let mut cache = ResultCache::new();
    let asked = request("http://example.com/a.png", "3", "3");
    cache.put(asked.cache_key(), vec![5, 5]);
    let result = complete(&asked, Ok(b"junk".to_vec()), &mut cache);
    assert!(result.is_err());
    assert_eq!(cache.get(&asked.cache_key()), Some(vec![5, 5]));
}

#[test]
fn settle_caches_a_finished_image() {
    let mut cache = ResultCache::new();
    let asked = request("u", "2", "3");
    let image = EncodedImage { bytes: vec![4, 5, 6], width: 2, height: 3 };
    assert_eq!(settle(&asked, Ok(image), &mut cache), Ok(vec![4, 5, 6]));
    assert_eq!(cache.get("u:2:3"), Some(vec![4, 5, 6]));
    assert_eq!(cache.len(), 1);
}

#[test]
fn settle_overwrites_an_older_entry() {
    let mut cache = ResultCache::new();
    let asked = request("u", "2", "3");
    cache.put(String::from("u:2:3"), vec![0]);
    let image = EncodedImage { bytes: vec![4, 5, 6], width: 2, height: 3 };
    assert_eq!(settle(&asked, Ok(image), &mut cache), Ok(vec![4, 5, 6]));
    assert_eq!(cache.get("u:2:3"), Some(vec![4, 5, 6]));
    assert_eq!(cache.len(), 1);
}

#[test]
fn settle_passes_a_failure_on() {
    let errors = [
        ConvertError::Request(RequestError::MissingParameter),
        ConvertError::Network(NetworkError::FetchFailed),
        ConvertError::Network(NetworkError::ReadBodyFailed),
        ConvertError::Transform(TransformError::DecodeFailed),
        ConvertError::Transform(TransformError::EncodeFailed),
    ];
    for error in errors {
        let mut cache = ResultCache::new();
        assert_eq!(settle(&request("u", "2", "3"), Err(error), &mut cache), Err(error));
        assert!(cache.is_empty());
    }
}

#[test]
fn distinct_requests_are_cached_apart() {
    let mut cache = ResultCache::new();
    let mut fetches = 0;
    let mut asked = Vec::new();
    for (i, (url, width, height)) in [
        ("http://example.com/a.png", "1", "1"),
        ("http://example.com/a.png", "1", "2"),
        ("http://example.com/a.png", "2", "1"),
        ("http://example.com/b.png", "1", "1"),
        ("http://example.com/a.png:1", "1", "1"),
        ("http://example.com/a.png", "", ""),
    ]
    .into_iter()
    .enumerate()
    {
        let one = request(url, width, height);
        let source = Ok(png(2, 2, (i * 40) as u8));
        let bytes = serve(&one, &mut cache, &source, &mut fetches).unwrap();
        asked.push((one, bytes));
    }
    assert_eq!(fetches, 6);
    assert_eq!(cache.len(), 6);
    for (one, bytes) in asked.iter().rev() {
        assert_eq!(begin(one, &cache), Step::Respond(bytes.clone()));
        assert_eq!(cache.get(&one.cache_key()), Some(bytes.clone()));
    }
}

#[test]
fn requests_settled_in_any_order_find_their_own_bytes() {
    let all: Vec<(ImageRequest, Vec<u8>)> = (0u8..24)
        .map(|i| (request("u", &(i % 5).to_string(), &(i / 5).to_string()), vec![i; 4]))
        .collect();
    for stride in [1usize, 5, 7, 11, 23] {
        let mut cache = ResultCache::new();
        for n in 0..24 {
            let (one, bytes) = &all[(n * stride) % 24];
            let image = EncodedImage { bytes: bytes.clone(), width: 1, height: 1 };
            assert_eq!(settle(one, Ok(image), &mut cache), Ok(bytes.clone()));
        }
        assert_eq!(cache.len(), 24);
        for (one, bytes) in &all {
            assert_eq!(begin(one, &cache), Step::Respond(bytes.clone()));
        }
    }
}

#[test]
fn every_error_has_its_status_and_sentence() {
    let missing = ConvertError::Request(RequestError::MissingParameter);
    let fetch = ConvertError::Network(NetworkError::FetchFailed);
    let body = ConvertError::Network(NetworkError::ReadBodyFailed);
    let decode = ConvertError::Transform(TransformError::DecodeFailed);
    let encode = ConvertError::Transform(TransformError::EncodeFailed);
    assert_eq!((status_code(missing), message(missing)), (400, "Image URL is required"));
    assert_eq!((status_code(fetch), message(fetch)), (502, "Failed to send HTTP request"));
    assert_eq!((status_code(body), message(body)), (502, "Failed to read HTTP response body"));
    assert_eq!((status_code(decode), message(decode)), (422, "Failed to load image"));
    assert_eq!((status_code(encode), message(encode)), (500, "Failed to convert image to AVIF"));
}

#[test]
fn a_missing_url_is_answered_with_a_client_error() {
    let error = ImageRequest::from_query(None, Some("100"), Some("100")).unwrap_err();
    let response = respond(Err(ConvertError::Request(error)));
    assert_eq!(response.status, 400);
    assert!((400..500).contains(&response.status));
    assert_eq!(response.content_type, "text/plain; charset=utf-8");
    assert_eq!(response.body, b"Image URL is required".to_vec());
}

#[test]
fn a_finished_image_is_answered_as_avif() {
    let response = respond(Ok(vec![1, 2, 3]));
    assert_eq!(response.status, 200);
    assert_eq!(response.content_type, "image/avif");
    assert_eq!(response.body, vec![1, 2, 3]);
}

#[test]
fn a_decode_failure_is_answered_with_an_error() {
    let response = respond(Err(ConvertError::Transform(TransformError::DecodeFailed)));
    assert_eq!(response.status, 422);
    assert_eq!(response.body, b"Failed to load image".to_vec());
}

#[test]
fn convert_fetched_passes_a_fetch_error_on() {
    let asked = request("u", "2", "2");
    assert_eq!(
        avif_convert::handler::convert_fetched(&asked, Err(NetworkError::ReadBodyFailed)),
        Err(ConvertError::Network(NetworkError::ReadBodyFailed))
    );
}

#[test]
fn convert_fetched_transforms_to_the_requested_size() {
    let asked = request("u", "5", "2");
    let image = avif_convert::handler::convert_fetched(&asked, Ok(png(3, 3, 9))).unwrap();
    assert_eq!((image.width, image.height), (5, 2));
    assert_eq!(avif_dimensions(&image.bytes), (5, 2));
}

#[test]
fn convert_loaded_reports_a_decoder_error_as_decode_failure() {
    let loaded = image::load_from_memory(b"no image at all");
    assert!(loaded.is_err());
    let outcome = avif_convert::handler::convert_loaded(&request("u", "50", "75"), loaded);
    assert_eq!(outcome, Err(ConvertError::Transform(TransformError::DecodeFailed)));
}

#[test]
fn convert_loaded_fails_a_decoded_image_only_as_encode_failure() {
    let picture =
        image::DynamicImage::ImageRgb8(image::RgbImage::from_pixel(2, 2, image::Rgb([1, 2, 3])));
    let asked = request("u", "4294967295", "4294967295");
    let outcome = avif_convert::handler::convert_loaded(&asked, Ok(picture));
    assert_eq!(outcome, Err(ConvertError::Transform(TransformError::EncodeFailed)));
}

#[test]
fn convert_loaded_keeps_the_decoded_size_when_a_dimension_is_unset() {
    let picture = || {
        image::DynamicImage::ImageLuma8(image::GrayImage::from_pixel(7, 3, image::Luma([90])))
    };
    for (width, height) in [("", ""), ("0", "9"), ("9", "0"), ("abc", "200")] {
        let asked = request("u", width, height);
        let file = avif_convert::handler::convert_loaded(&asked, Ok(picture())).unwrap();
        assert_eq!((file.width, file.height), (7, 3));
        assert_eq!(avif_dimensions(&file.bytes), (7, 3));
    }
}

#[test]
fn convert_loaded_resizes_to_the_requested_size() {
    let picture =
        image::DynamicImage::ImageLuma8(image::GrayImage::from_pixel(7, 3, image::Luma([90])));
    let file = avif_convert::handler::convert_loaded(&request("u", "50", "75"), Ok(picture)).unwrap();
    assert_eq!((file.width, file.height), (50, 75));
    assert_eq!(avif_dimensions(&file.bytes), (50, 75));
}
