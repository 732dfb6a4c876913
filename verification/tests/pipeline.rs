use polarizer::config::{AppConfig, ConfigSource};
use polarizer::error::PipelineError;
use polarizer::pipeline::cache::{make_cache_key, make_cache_value, split_cache_entry};
use polarizer::pipeline::download::ImageDownloader;
use polarizer::pipeline::base64::encode_base64;
use polarizer::pipeline::hasher::{decode_image, PerceptualHasher};
use polarizer::pipeline::inference::class_label;
use polarizer::pipeline::process::{decode_and_hash, Action, Event, PipelineRun};

fn config() -> AppConfig {
    AppConfig::from_source(ConfigSource {
        redis_uri: Some("redis://127.0.0.1".to_string()),
        model_path: Some("model.onnx".to_string()),
        stream_key: None,
        consumer_group: None,
        consumer_name: None,
        batch_size: None,
        block_timeout_ms: None,
        worker_count: None,
        max_download_bytes: None,
        phash_prefix: None,
        phash_cache_ttl_secs: Some("120".to_string()),
        result_stream_key: None,
        health_port: None,
        log_level: None,
        hostname: None,
    })
    .unwrap()
}

fn png_bytes(seed: u8) -> Vec<u8> {
    let img = image::RgbImage::from_fn(40, 30, |x, y| {
        image::Rgb([(x as u8).wrapping_mul(seed), (y as u8).wrapping_mul(7), seed])
    });
    let mut out = std::io::Cursor::new(Vec::new());
    image::DynamicImage::ImageRgb8(img).write_to(&mut out, image::ImageFormat::Png).unwrap();
    out.into_inner()
}

#[test]
fn cache_key_is_prefix_then_hash() {
    assert_eq!(make_cache_key("phash:", "dGVzdA"), "phash:dGVzdA");
    assert_eq!(make_cache_key("", "abc"), "abc");
}

#[test]
fn cache_entry_splits_at_first_colon() {
    assert_eq!(split_cache_entry("0.87:nsfw"), Some(("0.87".to_string(), "nsfw".to_string())));
    assert_eq!(split_cache_entry("0.5:a:b"), Some(("0.5".to_string(), "a:b".to_string())));
    assert_eq!(split_cache_entry(":x"), Some(("".to_string(), "x".to_string())));
    assert_eq!(split_cache_entry("0.5:"), Some(("0.5".to_string(), "".to_string())));
    assert_eq!(split_cache_entry("no colon"), None);
    assert_eq!(split_cache_entry(""), None);
}

#[test]
fn written_cache_value_reads_back() {
    let v = make_cache_value("0.95", "normal");
    assert_eq!(v, "0.95:normal");
    assert_eq!(split_cache_entry(&v), Some(("0.95".to_string(), "normal".to_string())));
}

#[test]
fn downloader_refuses_error_status() {
    let d = ImageDownloader::new(100);
    assert_eq!(d.max_bytes(), 100);
    match d.check_response("http://x/a.png", 404, Some(10)) {
        Err(PipelineError::UpstreamStatus { status, url }) => {
            assert_eq!(status, 404);
            assert_eq!(url, "http://x/a.png");
        }
        other => panic!("unexpected {other:?}"),
    }
    assert!(matches!(d.check_response("u", 199, None), Err(PipelineError::UpstreamStatus { status: 199, .. })));
    assert!(matches!(d.check_response("u", 300, None), Err(PipelineError::UpstreamStatus { status: 300, .. })));
}

#[test]
fn downloader_enforces_the_size_limit() {
    let d = ImageDownloader::new(100);
    assert!(d.check_response("u", 200, None).is_ok());
    assert!(d.check_response("u", 204, Some(100)).is_ok());
    assert!(matches!(
        d.check_response("u", 200, Some(101)),
        Err(PipelineError::PayloadTooLarge { max_bytes: 100 })
    ));
    assert!(d.check_body(100).is_ok());
    assert!(d.check_body(0).is_ok());
    assert!(matches!(d.check_body(101), Err(PipelineError::PayloadTooLarge { max_bytes: 100 })));
}

#[test]
fn class_labels() {
    assert_eq!(class_label(0), Some("normal"));
    assert_eq!(class_label(1), Some("nsfw"));
    assert_eq!(class_label(2), None);
}

#[test]
fn base64_encodes_without_padding() {
    assert_eq!(encode_base64(b""), "");
    assert_eq!(encode_base64(b"f"), "Zg");
    assert_eq!(encode_base64(b"fo"), "Zm8");
    assert_eq!(encode_base64(b"foo"), "Zm9v");
    assert_eq!(encode_base64(b"foob"), "Zm9vYg");
    assert_eq!(encode_base64(b"fooba"), "Zm9vYmE");
    assert_eq!(encode_base64(b"foobar"), "Zm9vYmFy");
    assert_eq!(encode_base64(b"test"), "dGVzdA");
    assert_eq!(encode_base64(&[0xfb, 0xff, 0xbf]), "+/+/");
    assert_eq!(encode_base64(&[0, 0, 0]), "AAAA");
}

fn decoded(seed: u8) -> image::DynamicImage {
    decode_image(&png_bytes(seed)).unwrap()
}

fn image_hasher_dct_phash(img: &image::DynamicImage) -> String {
    image_hasher::HasherConfig::new()
        .hash_alg(image_hasher::HashAlg::DoubleGradient)
        .preproc_dct()
        .hash_size(16, 16)
        .to_hasher()
        .hash_image(img)
        .to_base64()
}

#[test]
fn hash_is_fixed_size_base64() {
    let hasher = PerceptualHasher::new();
    let h1 = hasher.hash(&decoded(3));
    let h2 = PerceptualHasher::new().hash(&decoded(3));
    assert_eq!(h1, h2);
    assert_eq!(h1.len(), 24);
    assert!(h1.chars().all(|c| c.is_ascii_alphanumeric() || c == '+' || c == '/'));
    let other = hasher.hash(&decoded(200));
    assert_eq!(other.len(), 24);
    assert_ne!(h1, other);
    let tiny = image::DynamicImage::ImageLuma8(image::GrayImage::from_raw(1, 1, vec![9]).unwrap());
    assert_eq!(hasher.hash(&tiny).len(), 24);
    let empty = image::DynamicImage::ImageLuma8(image::GrayImage::new(0, 0));
    assert_eq!(hasher.hash(&empty).len(), 24);
}

#[test]
fn hash_is_image_hashers_dct_phash() {
    for seed in [5, 77] {
        let img = decoded(seed);
        assert_eq!(PerceptualHasher::new().hash(&img), image_hasher_dct_phash(&img));
    }
    let pixels: Vec<u8> = (0..20u32 * 10).map(|i| (i * 37 % 251) as u8).collect();
    let gray = image::DynamicImage::ImageLuma8(image::GrayImage::from_raw(20, 10, pixels).unwrap());
    assert_eq!(PerceptualHasher::new().hash(&gray), image_hasher_dct_phash(&gray));
}

#[test]
fn decode_and_hash_builds_the_hash_event() {
    let hasher = PerceptualHasher::new();
    let bytes = png_bytes(9);
    match decode_and_hash(&hasher, &bytes) {
        (Some(img), Event::Hashed(Ok(phash))) => {
            assert_eq!(phash, hasher.hash(&img));
            assert_eq!(phash, hasher.hash(&decode_image(&bytes).unwrap()));
        }
        other => panic!("unexpected {:?}", other.1),
    }
    match decode_and_hash(&hasher, b"not an image") {
        (None, Event::Hashed(Err(PipelineError::ImageDecode(_)))) => {}
        other => panic!("unexpected {:?}", other.1),
    }
}

#[test]
fn undecodable_bytes_give_image_decode_error() {
    match decode_image(b"definitely not an image") {
        Err(PipelineError::ImageDecode(msg)) => assert!(!msg.is_empty()),
        Err(other) => panic!("unexpected error {other:?}"),
        Ok(_) => panic!("decoded garbage"),
    }
}

fn expect_action(action: Action) -> Action {
    action
}

#[test]
fn cache_miss_runs_inference_then_caches_result() {
    let cfg = config();
    let (mut run, action) = PipelineRun::start("http://img/1.png", &cfg);
    assert!(matches!(action, Action::Download { ref url } if url == "http://img/1.png"));
    let action = run.step(Event::Downloaded(Ok(())));
    assert!(matches!(action, Action::DecodeAndHash));
    let action = run.step(Event::Hashed(Ok("HASH".to_string())));
    assert!(matches!(action, Action::CacheGet { ref key } if key == "phash:HASH"));
    let action = run.step(Event::CacheRead(Ok(None)));
    assert!(matches!(action, Action::RunInference));
    let action = run.step(Event::Inferred(Ok(("0.87".to_string(), "nsfw".to_string()))));
    match expect_action(action) {
        Action::CacheSet { key, value, ttl_secs } => {
            assert_eq!(key, "phash:HASH");
            assert_eq!(value, "0.87:nsfw");
            assert_eq!(ttl_secs, 120);
        }
        other => panic!("unexpected {other:?}"),
    }
    assert!(!run.is_finished());
    match run.step(Event::Stored(Ok(()))) {
        Action::Complete(o) => {
            assert_eq!(o.url, "http://img/1.png");
            assert_eq!(o.phash, "HASH");
            assert_eq!(o.score_text, "0.87");
            assert_eq!(o.label, "nsfw");
            assert!(!o.cache_hit);
        }
        other => panic!("unexpected {other:?}"),
    }
    assert!(run.is_finished());
    assert!(!run.accepts(&Event::ScoreChecked(true)));
}

#[test]
fn cache_hit_skips_inference() {
    let cfg = config();
    let (mut run, _) = PipelineRun::start("u", &cfg);
    run.step(Event::Downloaded(Ok(())));
    run.step(Event::Hashed(Ok("H".to_string())));
    match run.step(Event::CacheRead(Ok(Some("0.95:normal".to_string())))) {
        Action::ParseScore { score_text } => assert_eq!(score_text, "0.95"),
        other => panic!("unexpected {other:?}"),
    }
    match run.step(Event::ScoreChecked(true)) {
        Action::Complete(o) => {
            assert_eq!(o.label, "normal");
            assert_eq!(o.score_text, "0.95");
            assert_eq!(o.phash, "H");
            assert!(o.cache_hit);
        }
        other => panic!("unexpected {other:?}"),
    }
    assert!(run.is_finished());
}

#[test]
fn unusable_cache_entries_fall_back_to_inference() {
    let cfg = config();
    for read in [Err("connection reset".to_string()), Ok(Some("garbage".to_string()))] {
        let (mut run, _) = PipelineRun::start("u", &cfg);
        run.step(Event::Downloaded(Ok(())));
        run.step(Event::Hashed(Ok("H".to_string())));
        assert!(matches!(run.step(Event::CacheRead(read)), Action::RunInference));
    }
    let (mut run, _) = PipelineRun::start("u", &cfg);
    run.step(Event::Downloaded(Ok(())));
    run.step(Event::Hashed(Ok("H".to_string())));
    assert!(matches!(run.step(Event::CacheRead(Ok(Some("abc:nsfw".to_string())))), Action::ParseScore { .. }));
    assert!(matches!(run.step(Event::ScoreChecked(false)), Action::RunInference));
    assert!(run.accepts(&Event::Inferred(Err(PipelineError::Inference("x".to_string())))));
    match run.step(Event::Inferred(Ok(("0.61".to_string(), "nsfw".to_string())))) {
        Action::CacheSet { value, .. } => assert_eq!(value, "0.61:nsfw"),
        other => panic!("unexpected {other:?}"),
    }
    match run.step(Event::Stored(Ok(()))) {
        Action::Complete(o) => {
            assert_eq!(o.score_text, "0.61");
            assert_eq!(o.label, "nsfw");
            assert!(!o.cache_hit);
        }
        other => panic!("unexpected {other:?}"),
    }
}

#[test]
fn failures_end_the_run() {
    let cfg = config();
    let (mut run, _) = PipelineRun::start("u", &cfg);
    let a = run.step(Event::Downloaded(Err(PipelineError::PayloadTooLarge { max_bytes: 5 })));
    assert!(matches!(a, Action::Fail(PipelineError::PayloadTooLarge { max_bytes: 5 })));
    assert!(run.is_finished());

    let (mut run, _) = PipelineRun::start("u", &cfg);
    run.step(Event::Downloaded(Ok(())));
    let a = run.step(Event::Hashed(Err(PipelineError::ImageDecode("bad".to_string()))));
    assert!(matches!(a, Action::Fail(PipelineError::ImageDecode(_))));

    let (mut run, _) = PipelineRun::start("u", &cfg);
    run.step(Event::Downloaded(Ok(())));
    run.step(Event::Hashed(Ok("H".to_string())));
    run.step(Event::CacheRead(Ok(None)));
    run.step(Event::Inferred(Ok(("0.1".to_string(), "normal".to_string()))));
    match run.step(Event::Stored(Err("READONLY".to_string()))) {
        Action::Fail(PipelineError::Redis(m)) => assert_eq!(m, "READONLY"),
        other => panic!("unexpected {other:?}"),
    }
    assert!(run.is_finished());
}

#[test]
fn entry_written_by_one_run_serves_the_next() {
    let cfg = config();
    let (mut first, _) = PipelineRun::start("http://img/a.png", &cfg);
    first.step(Event::Downloaded(Ok(())));
    first.step(Event::Hashed(Ok("SAME".to_string())));
    first.step(Event::CacheRead(Ok(None)));
    let (key, value) = match first.step(Event::Inferred(Ok(("0.42".to_string(), "normal".to_string())))) {
        Action::CacheSet { key, value, .. } => (key, value),
        other => panic!("unexpected {other:?}"),
    };
    let (mut second, _) = PipelineRun::start("http://img/b.png", &cfg);
    second.step(Event::Downloaded(Ok(())));
    match second.step(Event::Hashed(Ok("SAME".to_string()))) {
        Action::CacheGet { key: read_key } => assert_eq!(read_key, key),
        other => panic!("unexpected {other:?}"),
    }
    match second.step(Event::CacheRead(Ok(Some(value)))) {
        Action::ParseScore { score_text } => assert_eq!(score_text, "0.42"),
        other => panic!("unexpected {other:?}"),
    }
    match second.step(Event::ScoreChecked(true)) {
        Action::Complete(o) => {
            assert!(o.cache_hit);
            assert_eq!(o.score_text, "0.42");
            assert_eq!(o.label, "normal");
            assert_eq!(o.url, "http://img/b.png");
        }
        other => panic!("unexpected {other:?}"),
    }
}
