//! Domain errors of the processing pipeline.
use vstd::prelude::*;

verus! {

/// Domain-specific errors for the pipeline. Failures reported by the
/// outside services (HTTP client, image decoder, ONNX runtime, Redis) are
/// carried as their message.
#[derive(Debug)]
pub enum PipelineError {
    /// The image download failed.
    Download(String),
    /// The download exceeded the maximum size of `max_bytes` bytes.
    PayloadTooLarge { max_bytes: u64 },
    /// The upstream server answered with a non-success status.
    UpstreamStatus { status: u16, url: String },
    /// The downloaded bytes could not be decoded as an image.
    ImageDecode(String),
    /// ONNX inference failed.
    Inference(String),
    /// A Redis command failed.
    Redis(String),
    /// Any other failure.
    Other(String),
}

/// The mathematical value of a [`PipelineError`].
pub enum PipelineErrorView {
    Download(Seq<char>),
    PayloadTooLarge { max_bytes: u64 },
    UpstreamStatus { status: u16, url: Seq<char> },
    ImageDecode(Seq<char>),
    Inference(Seq<char>),
    Redis(Seq<char>),
    Other(Seq<char>),
}

impl View for PipelineError {
    type V = PipelineErrorView;

    open spec fn view(&self) -> PipelineErrorView {
        match self {
            PipelineError::Download(m) => PipelineErrorView::Download(m@),
            PipelineError::PayloadTooLarge { max_bytes } => PipelineErrorView::PayloadTooLarge {
                max_bytes: *max_bytes,
            },
            PipelineError::UpstreamStatus { status, url } => PipelineErrorView::UpstreamStatus {
                status: *status,
                url: url@,
            },
            PipelineError::ImageDecode(m) => PipelineErrorView::ImageDecode(m@),
            PipelineError::Inference(m) => PipelineErrorView::Inference(m@),
            PipelineError::Redis(m) => PipelineErrorView::Redis(m@),
            PipelineError::Other(m) => PipelineErrorView::Other(m@),
        }
    }
}

/// The error of a result, by its view; `None` for a success.
pub open spec fn err_view<T>(r: Result<T, PipelineError>) -> Option<PipelineErrorView> {
    match r {
        Ok(_) => None,
        Err(e) => Some(e@),
    }
}

} // verus!
