# Polarizer

Image analysis service: images named on a Redis stream are downloaded,
decoded, perceptually hashed, looked up in a pHash cache and, on a miss,
scored by an ONNX model; results go to an output stream.

## Layout

- `src/` — the library, verified with Verus:
  - `config.rs` — settings from raw environment values, with defaults and
    decimal parsing that follows std's integer grammar;
  - `health.rs` — health state and the liveness / readiness answers;
  - `telemetry.rs` — choice of the log format;
  - `error.rs` — the pipeline's error type;
  - `pipeline/download.rs` — status and size checks of a download;
  - `pipeline/cache.rs` — cache keys and `score:label` entries;
  - `pipeline/hasher.rs` — image decoding and the DCT-based perceptual
    hash (`image`, `image_hasher`);
  - `pipeline/base64.rs` — the unpadded base64 text of a hash;
  - `pipeline/inference.rs` — names of the model's classes;
  - `pipeline/process.rs` — the state machine of one run;
  - `pipeline/guarantees.rs` — properties of whole runs (cache hits never
    run the model, computed results are the model's answer and are cached
    before they are returned, hits return the score and label that the
    cache holds under the image's key).
- `app/` — the service binary: environment, HTTP client and health server,
  Redis, ONNX runtime and image preprocessing, the stream consumer.
- `tests/` — tests of the library.
