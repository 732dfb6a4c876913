//! Size limits and response checks of the image download.
use vstd::prelude::*;

use crate::error::{err_view, PipelineError, PipelineErrorView};

verus! {

/// An HTTP status in the success class `2xx`, as `http::StatusCode::is_success`
/// classifies it.
pub open spec fn is_success_status(status: u16) -> bool {
    200 <= status && status < 300
}

/// The verdict on the head of a response to a request for `url`: a
/// status outside `2xx` is refused first, then a `Content-Length` above the
/// limit; `None` where the response is accepted.
pub open spec fn response_error(limit: u64, url: Seq<char>, status: u16, content_length: Option<u64>) -> Option<PipelineErrorView> {
    if !is_success_status(status) {
        Some(PipelineErrorView::UpstreamStatus { status, url })
    } else if content_length matches Some(len) && len > limit {
        Some(PipelineErrorView::PayloadTooLarge { max_bytes: limit })
    } else {
        None
    }
}

/// The verdict on a body of `len` bytes: refused when longer than the
/// limit; `None` where it is accepted.
pub open spec fn body_error(limit: u64, len: nat) -> Option<PipelineErrorView> {
    if len > limit {
        Some(PipelineErrorView::PayloadTooLarge { max_bytes: limit })
    } else {
        None
    }
}

/// The decisions of the image download: which responses are accepted and
/// how many bytes may be kept. The HTTP client itself lives with the
/// caller, which sends the request and reads the body.
pub struct ImageDownloader {
    max_bytes: u64,
}

impl ImageDownloader {
    /// The maximum payload size, in bytes.
    pub closed spec fn limit(&self) -> u64 {
        self.max_bytes
    }

    /// A downloader that keeps at most `max_bytes` bytes.
    pub fn new(max_bytes: u64) -> (r: Self)
        ensures
            r.limit() == max_bytes,
    {
        ImageDownloader { max_bytes }
    }

    /// The maximum payload size, in bytes.
    pub fn max_bytes(&self) -> (r: u64)
        ensures
            r == self.limit(),
    {
        self.max_bytes
    }

    /// Checks the head of the response to a request for `url`: a status
    /// outside `2xx` is refused, then a `Content-Length` above the limit is
    /// rejected early.
    pub fn check_response(&self, url: &str, status: u16, content_length: Option<u64>) -> (r: Result<
        (),
        PipelineError,
    >)
        ensures
            err_view(r) == response_error(self.limit(), url@, status, content_length),
    {
        if !(200 <= status && status < 300) {
            return Err(PipelineError::UpstreamStatus { status, url: url.to_owned() });
        }
        match content_length {
            Some(len) => {
                if len > self.max_bytes {
                    return Err(PipelineError::PayloadTooLarge { max_bytes: self.max_bytes });
                }
            },
            None => {},
        }
        Ok(())
    }

    /// Checks the length of the received body against the limit; the
    /// body is refused when it is longer.
    pub fn check_body(&self, len: usize) -> (r: Result<(), PipelineError>)
        ensures
            err_view(r) == body_error(self.limit(), len as nat),
    {
        if len as u64 > self.max_bytes {
            Err(PipelineError::PayloadTooLarge { max_bytes: self.max_bytes })
        } else {
            Ok(())
        }
    }
}

/// A body is refused exactly when it is longer than the limit, with the
/// limit in the error; whatever is longer than a refused body is refused
/// too, and whatever is shorter than an accepted one is accepted.
pub proof fn lemma_body_refused_iff_over_limit(limit: u64, len: nat, other: nat)
    ensures
        body_error(limit, len) is Some <==> len > limit,
        body_error(limit, len) is Some ==> body_error(limit, len) == Some(
            PipelineErrorView::PayloadTooLarge { max_bytes: limit },
        ),
        body_error(limit, len) is Some && other >= len ==> body_error(limit, other) is Some,
        body_error(limit, len) is None && other <= len ==> body_error(limit, other) is None,
{
}

/// A response is accepted exactly when its status is `2xx` and it
/// announces no more than the limit; a status outside `2xx` is refused with
/// that status and the URL, whatever the length, and an announced length
/// over the limit is refused with the limit.
pub proof fn lemma_response_refusals(
    limit: u64,
    url: Seq<char>,
    status: u16,
    content_length: Option<u64>,
)
    ensures
        response_error(limit, url, status, content_length) is None <==> (200 <= status < 300 && (
        content_length is None || content_length.unwrap() <= limit)),
        !(200 <= status < 300) ==> response_error(limit, url, status, content_length) == Some(
            PipelineErrorView::UpstreamStatus { status, url },
        ),
        (200 <= status < 300 && content_length is Some && content_length.unwrap() > limit) ==> response_error(
            limit,
            url,
            status,
            content_length,
        ) == Some(PipelineErrorView::PayloadTooLarge { max_bytes: limit }),
{
}

} // verus!
