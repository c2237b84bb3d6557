use pixelsprayer::client::{ClientError, Step, WriteEvent};
use pixelsprayer::color::Color;
use pixelsprayer::image::{ColorType, DecodedFrame, Image};
use pixelsprayer::position::Position;
use pixelsprayer::protocol::encode;
use pixelsprayer::rng::Rng;
use pixelsprayer::worker::{Reconnect, Settings, Supervision, Worker};

fn settings(reconnect: Reconnect) -> Settings {
    Settings {
        offset: Position { x: 100, y: 200 },
        min_bytes_for_sending: 20,
        disable_grayscale_support: false,
        reconnect,
    }
}

fn patchwork() -> Image {
    let mut bytes: Vec<u8> = Vec::new();
    for y in 0..4u8 {
        for x in 0..4u8 {
            let v: u8 = if (x + y) % 2 == 0 { 255 } else { 16 * y + x };
            bytes.extend_from_slice(&[v, v, 16 * y + x, if x == 3 { 0 } else { 255 }]);
        }
    }
    let frame_size: usize = bytes.len();
    Image::from_frame(DecodedFrame {
        width: 4,
        height: 4,
        color_type: ColorType::Rgba,
        frame_size,
        bytes,
    })
    .unwrap()
}

#[test]
fn worker_starts_with_nothing_pending() {
    let worker = Worker::start(5);
    assert_eq!(worker.id(), 5);
    assert_eq!(worker.failures(), 0);
    assert!(worker.pending().is_empty());
}

#[test]
fn round_queues_the_sampled_pixel() {
    let image = patchwork();
    let config = settings(Reconnect::Always);
    let mut worker = Worker::start(11);
    let mut rng = Rng::with_seed(11);
    let mut expected: Vec<u8> = Vec::new();
    for _ in 0..200 {
        assert_eq!(worker.enqueue_sample(&image, config), Ok(()));
        let position = image.get_random_position(&mut rng);
        let color: Color = image.get_color(position).unwrap().normalize(false);
        expected.extend_from_slice(&encode(position.add(config.offset), color));
    }
    assert_eq!(worker.pending(), &expected[..]);
    assert!(expected.starts_with(b"PX 10"));
    assert!(expected.ends_with(b"\n"));
}

#[test]
fn round_skips_transparent_pixels() {
    let bytes: Vec<u8> = vec![1, 2, 3, 0];
    let image = Image::from_frame(DecodedFrame {
        width: 1,
        height: 1,
        color_type: ColorType::Rgba,
        frame_size: 4,
        bytes,
    })
    .unwrap();
    let mut worker = Worker::start(0);
    for _ in 0..10 {
        assert_eq!(worker.enqueue_sample(&image, settings(Reconnect::Never)), Ok(()));
    }
    assert!(worker.pending().is_empty());
}

#[test]
fn round_expands_gray_when_disabled() {
    let image = Image::from_frame(DecodedFrame {
        width: 1,
        height: 1,
        color_type: ColorType::Grayscale,
        frame_size: 1,
        bytes: vec![9],
    })
    .unwrap();
    let mut config = settings(Reconnect::Never);
    let mut worker = Worker::start(0);
    worker.enqueue_sample(&image, config).unwrap();
    assert_eq!(worker.pending(), b"PX 100 200 09\n");
    config.disable_grayscale_support = true;
    let mut worker = Worker::start(0);
    worker.enqueue_sample(&image, config).unwrap();
    assert_eq!(worker.pending(), b"PX 100 200 090909\n");
}

#[test]
fn same_id_reproduces_the_same_bytes() {
    let image = patchwork();
    let config = settings(Reconnect::Always);
    let mut first = Worker::start(3);
    let mut second = Worker::start(3);
    for _ in 0..500 {
        first.enqueue_sample(&image, config).unwrap();
        second.enqueue_sample(&image, config).unwrap();
    }
    assert!(!first.pending().is_empty());
    assert_eq!(first.pending(), second.pending());
}

#[test]
fn distinct_ids_produce_distinct_bytes() {
    let image = patchwork();
    let config = settings(Reconnect::Always);
    let mut first = Worker::start(0);
    let mut second = Worker::start(1);
    for _ in 0..500 {
        first.enqueue_sample(&image, config).unwrap();
        second.enqueue_sample(&image, config).unwrap();
    }
    assert_ne!(first.pending(), second.pending());
}

#[test]
fn worker_flushes_at_the_threshold() {
    let image = Image::from_frame(DecodedFrame {
        width: 1,
        height: 1,
        color_type: ColorType::Grayscale,
        frame_size: 1,
        bytes: vec![9],
    })
    .unwrap();
    let config = settings(Reconnect::Never);
    let mut worker = Worker::start(0);
    worker.enqueue_sample(&image, config).unwrap();
    // 14 bytes are pending: below the threshold of 20.
    assert_eq!(worker.progress(config, WriteEvent::Begin), Ok(Step::Idle));
    worker.enqueue_sample(&image, config).unwrap();
    assert_eq!(worker.pending().len(), 28);
    assert_eq!(worker.progress(config, WriteEvent::Begin), Ok(Step::Write));
    assert_eq!(worker.progress(config, WriteEvent::Written(5)), Ok(Step::Write));
    assert_eq!(worker.progress(config, WriteEvent::Written(5)), Ok(Step::Idle));
    assert_eq!(worker.pending(), b" 09\nPX 100 200 09\n");
    assert_eq!(worker.progress(config, WriteEvent::Written(0)), Err(ClientError::Connection));
}

#[test]
fn failed_worker_starts_over_from_its_seed() {
    let image = patchwork();
    let config = settings(Reconnect::Always);
    let mut worker = Worker::start(8);
    for _ in 0..50 {
        worker.enqueue_sample(&image, config).unwrap();
    }
    let before: Vec<u8> = worker.pending().to_vec();
    assert_eq!(worker.fail(config), Supervision::Restart);
    assert_eq!(worker.failures(), 1);
    assert_eq!(worker.id(), 8);
    assert!(worker.pending().is_empty());
    for _ in 0..50 {
        worker.enqueue_sample(&image, config).unwrap();
    }
    assert_eq!(worker.pending(), &before[..]);
}

#[test]
fn never_reconnect_ends_the_worker() {
    let mut worker = Worker::start(1);
    assert_eq!(worker.fail(settings(Reconnect::Never)), Supervision::Terminate);
    assert_eq!(worker.failures(), 1);
}

#[test]
fn bounded_reconnect_counts_failures() {
    let config = settings(Reconnect::Bounded(2));
    let mut worker = Worker::start(1);
    assert_eq!(worker.fail(config), Supervision::Restart);
    assert_eq!(worker.fail(config), Supervision::Restart);
    assert_eq!(worker.fail(config), Supervision::Terminate);
    assert_eq!(worker.fail(config), Supervision::Terminate);
    assert_eq!(worker.failures(), 4);
}

#[test]
fn reconnect_policy_verdicts() {
    assert_eq!(Reconnect::Always.after_failure(u64::MAX), Supervision::Restart);
    assert_eq!(Reconnect::Never.after_failure(1), Supervision::Terminate);
    assert_eq!(Reconnect::Bounded(0).after_failure(1), Supervision::Terminate);
    assert_eq!(Reconnect::Bounded(3).after_failure(3), Supervision::Restart);
    assert_eq!(Reconnect::Bounded(3).after_failure(4), Supervision::Terminate);
    assert_eq!(Reconnect::Bounded(u32::MAX).after_failure(u32::MAX as u64 + 1), Supervision::Terminate);
}
