//! What a client asks for: a source URL and optional target dimensions.

use vstd::prelude::*;
use vstd::string::StringExecFns;
use crate::key::{cache_key, cache_key_of};
use crate::numeral::{parse_u32, parsed_u32};

verus! {

/// Why a query cannot be turned into a request.
#[derive(Debug, Clone, Copy, PartialEq, Eq, Structural)]
pub enum RequestError {
    /// The query names no source URL.
    MissingParameter,
}

/// A request to convert the image at `source_url`. A target dimension of zero means that
/// the client did not specify it.
#[derive(Debug, Clone, PartialEq, Eq)]
pub struct ImageRequest {
    pub source_url: String,
    pub target_width: u32,
    pub target_height: u32,
}

/// The mathematical content of an [`ImageRequest`].
pub struct RequestModel {
    pub url: Seq<char>,
    pub width: u32,
    pub height: u32,
}

impl RequestModel {
    /// Whether the image is resampled: only when both target dimensions are given.
    pub open spec fn resizes(self) -> bool {
        self.width > 0 && self.height > 0
    }

    /// The key under which the result of this request is cached.
    pub open spec fn key(self) -> Seq<char> {
        cache_key_of(self.url, self.width, self.height)
    }
}

impl View for ImageRequest {
    type V = RequestModel;

    open spec fn view(&self) -> RequestModel {
        RequestModel {
            url: self.source_url@,
            width: self.target_width,
            height: self.target_height,
        }
    }
}

/// The dimension that a query value stands for. An absent value and one that is no 32-bit
/// numeral both read as zero.
pub open spec fn dimension_of(text: Option<Seq<char>>) -> u32 {
    match text {
        Some(t) => match parsed_u32(t) {
            Some(n) => n,
            None => 0,
        },
        None => 0,
    }
}

/// The request that the three query values `url`, `width` and `height` stand for.
pub open spec fn request_of(
    url: Option<Seq<char>>,
    width: Option<Seq<char>>,
    height: Option<Seq<char>>,
) -> Result<RequestModel, RequestError> {
    match url {
        Some(u) => Ok(RequestModel { url: u, width: dimension_of(width), height: dimension_of(height) }),
        None => Err(RequestError::MissingParameter),
    }
}

/// The text of a query value, if the query has it.
pub open spec fn value_text(value: Option<&str>) -> Option<Seq<char>> {
    match value {
        Some(text) => Some(text@),
        None => None,
    }
}

/// Reads one target dimension from its query value.
pub fn parse_dimension(value: Option<&str>) -> (n: u32)
    ensures
        n == dimension_of(value_text(value)),
{
    match value {
        Some(text) => match parse_u32(text) {
            Some(n) => n,
            None => 0,
        },
        None => 0,
    }
}

impl ImageRequest {
    /// Builds the request from the query values `url`, `width` and `height`.
    pub fn from_query(url: Option<&str>, width: Option<&str>, height: Option<&str>) -> (r: Result<
        ImageRequest,
        RequestError,
    >)
        ensures
            match request_of(value_text(url), value_text(width), value_text(height)) {
                Ok(model) => r matches Ok(request) && request@ == model,
                Err(e) => r == Err::<ImageRequest, RequestError>(e),
            },
    {
        match url {
            Some(u) => Ok(
                ImageRequest {
                    source_url: String::from_str(u),
                    target_width: parse_dimension(width),
                    target_height: parse_dimension(height),
                },
            ),
            None => Err(RequestError::MissingParameter),
        }
    }

    /// Whether the image is resampled to the target dimensions.
    pub fn resizes(&self) -> (b: bool)
        ensures
            b == self@.resizes(),
    {
        self.target_width > 0 && self.target_height > 0
    }

    /// The key under which the result of this request is cached.
    pub fn cache_key(&self) -> (key: String)
        ensures
            key@ == self@.key(),
    {
        cache_key(self.source_url.as_str(), self.target_width, self.target_height)
    }
}

} // verus!
