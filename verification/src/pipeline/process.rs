//! The decisions of one pipeline run, as a state machine.
//!
//! A run processes one image URL:
//! 1. download → 2. decode and hash → 3. cache check → 4. inference →
//! 5. cache write. The caller performs each [`Action`] (HTTP, decoding,
//! Redis, ONNX) and hands the outcome back as an [`Event`]; [`PipelineRun::step`]
//! decides what comes next.
use vstd::prelude::*;

use crate::config::AppConfig;
use crate::error::{PipelineError, PipelineErrorView};
use crate::pipeline::hasher::{decode_image, is_hash_text, PerceptualHasher};
use image::DynamicImage;
use crate::pipeline::cache::{
    cache_key, cache_value, make_cache_key, make_cache_value, split_cache_entry, split_entry,
};

verus! {

/// Where a run stands.
#[derive(Debug)]
pub enum Stage {
    /// Waiting for the download of the image.
    Downloading,
    /// Waiting for the decoded image's perceptual hash.
    Hashing,
    /// Waiting for the cache entry stored under `key`.
    CheckingCache { phash: String, key: String },
    /// Waiting to learn whether the cached score text is a number.
    CheckingScore { phash: String, key: String, score_text: String, label: String },
    /// Waiting for the model's score and label.
    Inferring { phash: String, key: String },
    /// Waiting for the cache write of the new result.
    Storing { phash: String, key: String, score_text: String, label: String },
    /// The run has completed or failed.
    Finished,
}

/// What the caller observed while performing the last action.
#[derive(Debug)]
pub enum Event {
    /// The outcome of the download (the body itself stays with the caller).
    Downloaded(Result<(), PipelineError>),
    /// The perceptual hash of the decoded image, or why decoding failed.
    Hashed(Result<String, PipelineError>),
    /// The cache entry under the requested key (`Ok(None)` when absent), or
    /// the message of a failed cache read.
    CacheRead(Result<Option<String>, String>),
    /// Whether the cached score text parses as a number.
    ScoreChecked(bool),
    /// The model's score (as text) and label, or why inference failed.
    Inferred(Result<(String, String), PipelineError>),
    /// The outcome of the cache write (the message of a failure).
    Stored(Result<(), String>),
}

/// The result of a completed run.
#[derive(Debug)]
pub struct PipelineOutcome {
    /// The original image URL that was processed.
    pub url: String,
    /// Perceptual hash of the image.
    pub phash: String,
    /// The score of the result as text: the cached text on a cache hit,
    /// the model's on a miss.
    pub score_text: String,
    /// Label of the result.
    pub label: String,
    /// Whether the result came from the cache.
    pub cache_hit: bool,
}

/// What the caller must do next.
#[derive(Debug)]
pub enum Action {
    /// Download the image at `url`.
    Download { url: String },
    /// Decode the downloaded bytes and compute the perceptual hash.
    DecodeAndHash,
    /// Read the cache entry stored under `key`.
    CacheGet { key: String },
    /// Check whether `score_text` parses as a number (the cached score).
    ParseScore { score_text: String },
    /// Run the model on the decoded image.
    RunInference,
    /// Store `value` under `key` for `ttl_secs` seconds.
    CacheSet { key: String, value: String, ttl_secs: u64 },
    /// The run completed.
    Complete(PipelineOutcome),
    /// The run failed.
    Fail(PipelineError),
}

/// One pipeline run.
pub struct PipelineRun {
    url: String,
    phash_prefix: String,
    cache_ttl_secs: u64,
    stage: Stage,
}

// ── Mathematical model ──────────────────────────────────────────────────
/// The value of a [`Stage`], strings taken as character sequences.
pub enum StageView {
    Downloading,
    Hashing,
    CheckingCache { phash: Seq<char>, key: Seq<char> },
    CheckingScore { phash: Seq<char>, key: Seq<char>, score_text: Seq<char>, label: Seq<char> },
    Inferring { phash: Seq<char>, key: Seq<char> },
    Storing { phash: Seq<char>, key: Seq<char>, score_text: Seq<char>, label: Seq<char> },
    Finished,
}

/// The value of an [`Event`].
pub enum EventView {
    Downloaded(Result<(), PipelineErrorView>),
    Hashed(Result<Seq<char>, PipelineErrorView>),
    CacheRead(Result<Option<Seq<char>>, Seq<char>>),
    ScoreChecked(bool),
    Inferred(Result<(Seq<char>, Seq<char>), PipelineErrorView>),
    Stored(Result<(), Seq<char>>),
}

/// The value of a [`PipelineOutcome`].
pub struct OutcomeView {
    pub url: Seq<char>,
    pub phash: Seq<char>,
    pub score_text: Seq<char>,
    pub label: Seq<char>,
    pub cache_hit: bool,
}

/// The value of an [`Action`].
pub enum ActionView {
    Download { url: Seq<char> },
    DecodeAndHash,
    CacheGet { key: Seq<char> },
    ParseScore { score_text: Seq<char> },
    RunInference,
    CacheSet { key: Seq<char>, value: Seq<char>, ttl_secs: u64 },
    Complete(OutcomeView),
    Fail(PipelineErrorView),
}

/// The value of a [`PipelineRun`]: its URL, cache settings and stage.
pub struct RunView {
    pub url: Seq<char>,
    pub phash_prefix: Seq<char>,
    pub cache_ttl_secs: u64,
    pub stage: StageView,
}

impl View for Stage {
    type V = StageView;

    open spec fn view(&self) -> StageView {
        match self {
            Stage::Downloading => StageView::Downloading,
            Stage::Hashing => StageView::Hashing,
            Stage::CheckingCache { phash, key } => StageView::CheckingCache {
                phash: phash@,
                key: key@,
            },
            Stage::CheckingScore { phash, key, score_text, label } => StageView::CheckingScore {
                phash: phash@,
                key: key@,
                score_text: score_text@,
                label: label@,
            },
            Stage::Inferring { phash, key } => StageView::Inferring { phash: phash@, key: key@ },
            Stage::Storing { phash, key, score_text, label } => StageView::Storing {
                phash: phash@,
                key: key@,
                score_text: score_text@,
                label: label@,
            },
            Stage::Finished => StageView::Finished,
        }
    }
}

impl View for Event {
    type V = EventView;

    open spec fn view(&self) -> EventView {
        match self {
            Event::Downloaded(r) => EventView::Downloaded(
                match r {
                    Ok(_) => Ok(()),
                    Err(e) => Err(e@),
                },
            ),
            Event::Hashed(r) => EventView::Hashed(
                match r {
                    Ok(p) => Ok(p@),
                    Err(e) => Err(e@),
                },
            ),
            Event::CacheRead(r) => EventView::CacheRead(
                match r {
                    Ok(Some(v)) => Ok(Some(v@)),
                    Ok(None) => Ok(None),
                    Err(m) => Err(m@),
                },
            ),
            Event::ScoreChecked(b) => EventView::ScoreChecked(*b),
            Event::Inferred(r) => EventView::Inferred(
                match r {
                    Ok((s, l)) => Ok((s@, l@)),
                    Err(e) => Err(e@),
                },
            ),
            Event::Stored(r) => EventView::Stored(
                match r {
                    Ok(_) => Ok(()),
                    Err(m) => Err(m@),
                },
            ),
        }
    }
}

impl View for PipelineOutcome {
    type V = OutcomeView;

    open spec fn view(&self) -> OutcomeView {
        OutcomeView {
            url: self.url@,
            phash: self.phash@,
            score_text: self.score_text@,
            label: self.label@,
            cache_hit: self.cache_hit,
        }
    }
}

impl View for Action {
    type V = ActionView;

    open spec fn view(&self) -> ActionView {
        match self {
            Action::Download { url } => ActionView::Download { url: url@ },
            Action::DecodeAndHash => ActionView::DecodeAndHash,
            Action::CacheGet { key } => ActionView::CacheGet { key: key@ },
            Action::ParseScore { score_text } => ActionView::ParseScore {
                score_text: score_text@,
            },
            Action::RunInference => ActionView::RunInference,
            Action::CacheSet { key, value, ttl_secs } => ActionView::CacheSet {
                key: key@,
                value: value@,
                ttl_secs: *ttl_secs,
            },
            Action::Complete(o) => ActionView::Complete(o@),
            Action::Fail(e) => ActionView::Fail(e@),
        }
    }
}

impl View for PipelineRun {
    type V = RunView;

    closed spec fn view(&self) -> RunView {
        RunView {
            url: self.url@,
            phash_prefix: self.phash_prefix@,
            cache_ttl_secs: self.cache_ttl_secs,
            stage: self.stage@,
        }
    }
}

/// The event that a run in `stage` waits for.
pub open spec fn expects(stage: StageView, ev: EventView) -> bool {
    match stage {
        StageView::Downloading => ev is Downloaded,
        StageView::Hashing => ev is Hashed,
        StageView::CheckingCache { .. } => ev is CacheRead,
        StageView::CheckingScore { .. } => ev is ScoreChecked,
        StageView::Inferring { .. } => ev is Inferred,
        StageView::Storing { .. } => ev is Stored,
        StageView::Finished => false,
    }
}

/// `r` in another stage.
pub open spec fn with_stage(r: RunView, stage: StageView) -> RunView {
    RunView { stage, ..r }
}

/// The run that `r` becomes on `ev`, and the action that it asks for.
pub open spec fn next(r: RunView, ev: EventView) -> (RunView, ActionView) {
    match r.stage {
        StageView::Downloading => match ev {
            EventView::Downloaded(Ok(_)) => (
                with_stage(r, StageView::Hashing),
                ActionView::DecodeAndHash,
            ),
            EventView::Downloaded(Err(e)) => (
                with_stage(r, StageView::Finished),
                ActionView::Fail(e),
            ),
            _ => (r, ActionView::Fail(PipelineErrorView::Other(Seq::empty()))),
        },
        StageView::Hashing => match ev {
            EventView::Hashed(Ok(phash)) => {
                let key = cache_key(r.phash_prefix, phash);
                (
                    with_stage(r, StageView::CheckingCache { phash, key }),
                    ActionView::CacheGet { key },
                )
            },
            EventView::Hashed(Err(e)) => (
                with_stage(r, StageView::Finished),
                ActionView::Fail(e),
            ),
            _ => (r, ActionView::Fail(PipelineErrorView::Other(Seq::empty()))),
        },
        StageView::CheckingCache { phash, key } => match ev {
            EventView::CacheRead(read) => {
                let infer = (
                    with_stage(r, StageView::Inferring { phash, key }),
                    ActionView::RunInference,
                );
                match read {
                    Ok(Some(entry)) => match split_entry(entry) {
                        Some((score_text, label)) => (
                            with_stage(r, StageView::CheckingScore { phash, key, score_text, label }),
                            ActionView::ParseScore { score_text },
                        ),
                        None => infer,
                    },
                    _ => infer,
                }
            },
            _ => (r, ActionView::Fail(PipelineErrorView::Other(Seq::empty()))),
        },
        StageView::CheckingScore { phash, key, score_text, label } => match ev {
            EventView::ScoreChecked(true) => (
                with_stage(r, StageView::Finished),
                ActionView::Complete(
                    OutcomeView { url: r.url, phash, score_text, label, cache_hit: true },
                ),
            ),
            EventView::ScoreChecked(false) => (
                with_stage(r, StageView::Inferring { phash, key }),
                ActionView::RunInference,
            ),
            _ => (r, ActionView::Fail(PipelineErrorView::Other(Seq::empty()))),
        },
        StageView::Inferring { phash, key } => match ev {
            EventView::Inferred(Ok((score_text, label))) => (
                with_stage(r, StageView::Storing { phash, key, score_text, label }),
                ActionView::CacheSet {
                    key,
                    value: cache_value(score_text, label),
                    ttl_secs: r.cache_ttl_secs,
                },
            ),
            EventView::Inferred(Err(e)) => (
                with_stage(r, StageView::Finished),
                ActionView::Fail(e),
            ),
            _ => (r, ActionView::Fail(PipelineErrorView::Other(Seq::empty()))),
        },
        StageView::Storing { phash, key, score_text, label } => match ev {
            EventView::Stored(Ok(_)) => (
                with_stage(r, StageView::Finished),
                ActionView::Complete(
                    OutcomeView { url: r.url, phash, score_text, label, cache_hit: false },
                ),
            ),
            EventView::Stored(Err(m)) => (
                with_stage(r, StageView::Finished),
                ActionView::Fail(PipelineErrorView::Redis(m)),
            ),
            _ => (r, ActionView::Fail(PipelineErrorView::Other(Seq::empty()))),
        },
        StageView::Finished => (r, ActionView::Fail(PipelineErrorView::Other(Seq::empty()))),
    }
}

/// Decodes the downloaded bytes and hashes the image with `hasher`: the
/// event that answers [`Action::DecodeAndHash`], and the decoded image,
/// which the model needs if the cache does not answer. The event carries
/// the image's hash, a hash text of the hasher's size, or the decoding
/// error; the image is there exactly when the hash is.
pub fn decode_and_hash(hasher: &PerceptualHasher, bytes: &[u8]) -> (r: (Option<DynamicImage>, Event))
    ensures
        r.1@ is Hashed,
        r.0 is Some <==> r.1@ matches EventView::Hashed(Ok(_)),
        r.1@ matches EventView::Hashed(Ok(p)) ==> is_hash_text(hasher.grid(), p),
        r.1@ matches EventView::Hashed(Err(e)) ==> e is ImageDecode,
{
    match decode_image(bytes) {
        Ok(img) => {
            let phash = hasher.hash(&img);
            (Some(img), Event::Hashed(Ok(phash)))
        },
        Err(e) => (None, Event::Hashed(Err(e))),
    }
}

/// A new run for `url`: it first downloads the image.
pub open spec fn initial(url: Seq<char>, phash_prefix: Seq<char>, cache_ttl_secs: u64) -> RunView {
    RunView { url, phash_prefix, cache_ttl_secs, stage: StageView::Downloading }
}

impl PipelineRun {
    /// Starts a run for `url` under `config` (cache key prefix and TTL);
    /// the first action downloads the image.
    pub fn start(url: &str, config: &AppConfig) -> (r: (PipelineRun, Action))
        ensures
            r.0@ == initial(url@, config.phash_prefix@, config.phash_cache_ttl_secs),
            r.1@ == (ActionView::Download { url: url@ }),
    {
        let run = PipelineRun {
            url: url.to_owned(),
            phash_prefix: config.phash_prefix.clone(),
            cache_ttl_secs: config.phash_cache_ttl_secs,
            stage: Stage::Downloading,
        };
        (run, Action::Download { url: url.to_owned() })
    }

    /// Whether the run waits for `event` (a finished run waits for none).
    pub fn accepts(&self, event: &Event) -> (r: bool)
        ensures
            r == expects(self@.stage, event@),
    {
        match (&self.stage, event) {
            (Stage::Downloading, Event::Downloaded(_)) => true,
            (Stage::Hashing, Event::Hashed(_)) => true,
            (Stage::CheckingCache { .. }, Event::CacheRead(_)) => true,
            (Stage::CheckingScore { .. }, Event::ScoreChecked(_)) => true,
            (Stage::Inferring { .. }, Event::Inferred(_)) => true,
            (Stage::Storing { .. }, Event::Stored(_)) => true,
            _ => false,
        }
    }

    /// Whether the run has completed or failed.
    pub fn is_finished(&self) -> (r: bool)
        ensures
            r == (self@.stage is Finished),
    {
        match self.stage {
            Stage::Finished => true,
            _ => false,
        }
    }

    /// Advances the run on the event that it waits for and returns the next
    /// action.
    pub fn step(&mut self, event: Event) -> (action: Action)
        requires
            expects(old(self)@.stage, event@),
        ensures
            (final(self)@, action@) == next(old(self)@, event@),
    {
        let mut stage = Stage::Finished;
        std::mem::swap(&mut stage, &mut self.stage);
        match stage {
            Stage::Downloading => match event {
                Event::Downloaded(Ok(())) => {
                    self.stage = Stage::Hashing;
                    Action::DecodeAndHash
                },
                Event::Downloaded(Err(e)) => Action::Fail(e),
                _ => {
                    self.stage = Stage::Downloading;
                    Action::Fail(PipelineError::Other(String::new()))
                },
            },
            Stage::Hashing => match event {
                Event::Hashed(Ok(phash)) => {
                    let key = make_cache_key(self.phash_prefix.as_str(), phash.as_str());
                    let get_key = key.clone();
                    self.stage = Stage::CheckingCache { phash, key };
                    Action::CacheGet { key: get_key }
                },
                Event::Hashed(Err(e)) => Action::Fail(e),
                _ => {
                    self.stage = Stage::Hashing;
                    Action::Fail(PipelineError::Other(String::new()))
                },
            },
            Stage::CheckingCache { phash, key } => match event {
                Event::CacheRead(read) => {
                    let split = match read {
                        Ok(Some(entry)) => split_cache_entry(entry.as_str()),
                        _ => None,
                    };
                    match split {
                        Some((score_text, label)) => {
                            let check_text = score_text.clone();
                            self.stage = Stage::CheckingScore { phash, key, score_text, label };
                            Action::ParseScore { score_text: check_text }
                        },
                        None => {
                            self.stage = Stage::Inferring { phash, key };
                            Action::RunInference
                        },
                    }
                },
                _ => {
                    self.stage = Stage::CheckingCache { phash, key };
                    Action::Fail(PipelineError::Other(String::new()))
                },
            },
            Stage::CheckingScore { phash, key, score_text, label } => match event {
                Event::ScoreChecked(true) => Action::Complete(
                    PipelineOutcome {
                        url: self.url.clone(),
                        phash,
                        score_text,
                        label,
                        cache_hit: true,
                    },
                ),
                Event::ScoreChecked(false) => {
                    self.stage = Stage::Inferring { phash, key };
                    Action::RunInference
                },
                _ => {
                    self.stage = Stage::CheckingScore { phash, key, score_text, label };
                    Action::Fail(PipelineError::Other(String::new()))
                },
            },
            Stage::Inferring { phash, key } => match event {
                Event::Inferred(Ok((score_text, label))) => {
                    let value = make_cache_value(score_text.as_str(), label.as_str());
                    let set_key = key.clone();
                    self.stage = Stage::Storing { phash, key, score_text, label };
                    Action::CacheSet { key: set_key, value, ttl_secs: self.cache_ttl_secs }
                },
                Event::Inferred(Err(e)) => Action::Fail(e),
                _ => {
                    self.stage = Stage::Inferring { phash, key };
                    Action::Fail(PipelineError::Other(String::new()))
                },
            },
            Stage::Storing { phash, key, score_text, label } => match event {
                Event::Stored(Ok(())) => Action::Complete(
                    PipelineOutcome {
                        url: self.url.clone(),
                        phash,
                        score_text,
                        label,
                        cache_hit: false,
                    },
                ),
                Event::Stored(Err(m)) => Action::Fail(PipelineError::Redis(m)),
                _ => {
                    self.stage = Stage::Storing { phash, key, score_text, label };
                    Action::Fail(PipelineError::Other(String::new()))
                },
            },
            Stage::Finished => Action::Fail(PipelineError::Other(String::new())),
        }
    }
}

} // verus!
