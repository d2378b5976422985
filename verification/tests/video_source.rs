use pano_monitor::pipeline::BuildAction;
use pano_monitor::video_source::{
    BusMessage, Flow, Sample, VideoSource, VideoSourceConfig, VideoSourceState,
};

fn config() -> VideoSourceConfig {
    VideoSourceConfig { rtsp_url: "rtsp://camera/1".to_string(), use_hw_decoder: false }
}

fn connected() -> VideoSource<u32> {
    let mut source = VideoSource::new();
    source.connect(&config());
    assert_eq!(source.attach(Ok(42), Ok(())), Ok(()));
    source
}

fn sample(data: Vec<u8>, width: i32, height: i32) -> Sample {
    Sample::Readable { data, width, height }
}

#[test]
fn a_new_source_is_disconnected() {
    for source in [VideoSource::<u32>::new(), VideoSource::<u32>::default()] {
        assert_eq!(source.get_state(), VideoSourceState::Disconnected);
        assert!(!source.is_running());
        assert!(source.get_latest_frame().is_none());
    }
}

#[test]
fn connecting_starts_a_build() {
    let mut source: VideoSource<u32> = VideoSource::new();
    let build = source.connect(&config());
    assert_eq!(source.get_state(), VideoSourceState::Connecting);
    assert!(source.is_running());
    match build.action() {
        BuildAction::MakeElement { factory, .. } => assert_eq!(factory, "rtspsrc"),
        other => panic!("{:?}", other),
    }
}

#[test]
fn a_failed_build_is_handed_back() {
    let mut source: VideoSource<u32> = VideoSource::new();
    source.connect(&config());
    let outcome = source.attach(Err("no source".to_string()), Ok(()));
    assert_eq!(outcome, Err("no source".to_string()));
    assert_eq!(source.get_state(), VideoSourceState::Connecting);
    assert!(source.is_running());
    assert_eq!(source.disconnect(), None);
}

#[test]
fn a_pipeline_that_does_not_start_is_an_error() {
    let mut source: VideoSource<u32> = VideoSource::new();
    source.connect(&config());
    let outcome = source.attach(Ok(42), Err("cannot play".to_string()));
    assert_eq!(outcome, Err("cannot play".to_string()));
    assert_eq!(source.disconnect(), Some(42));
}

#[test]
fn the_error_of_the_build_comes_first() {
    let mut source: VideoSource<u32> = VideoSource::new();
    source.connect(&config());
    let outcome = source.attach(Err("no source".to_string()), Err("cannot play".to_string()));
    assert_eq!(outcome, Err("no source".to_string()));
    assert_eq!(source.disconnect(), None);
}

#[test]
fn a_source_that_takes_frames_plays() {
    let mut source = connected();
    assert!(source.is_connecting());
    source.bus_message(BusMessage::StateChanged);
    source.new_sample(Sample::Unreadable);
    assert_eq!(source.get_state(), VideoSourceState::Connecting);
    source.new_sample(sample(vec![1, 2, 3], 1, 1));
    assert_eq!(source.get_state(), VideoSourceState::Playing);
    assert!(!source.is_connecting());
    source.new_sample(sample(vec![4, 5, 6], 1, 1));
    source.bus_message(BusMessage::Warning);
    assert_eq!(source.get_state(), VideoSourceState::Playing);
}

#[test]
fn a_frame_hides_no_error() {
    let mut source = connected();
    source.bus_message(BusMessage::Error("lost".to_string()));
    assert_eq!(source.new_sample(sample(vec![1], 1, 1)), Flow::Continue);
    assert_eq!(source.get_state(), VideoSourceState::Error("错误：lost".to_string()));
    assert_eq!(source.get_latest_frame().unwrap().data, vec![1]);
}

#[test]
fn disconnecting_returns_the_pipeline_and_clears() {
    let mut source = connected();
    assert_eq!(source.new_sample(sample(vec![1, 2, 3], 1, 1)), Flow::Continue);
    assert_eq!(source.disconnect(), Some(42));
    assert_eq!(source.get_state(), VideoSourceState::Disconnected);
    assert!(!source.is_running());
    assert!(source.get_latest_frame().is_none());
    assert_eq!(source.disconnect(), None);
}

#[test]
fn the_latest_frame_is_the_last_sample() {
    let mut source = connected();
    assert_eq!(source.new_sample(sample(vec![1, 2, 3], 1, 1)), Flow::Continue);
    assert_eq!(source.new_sample(sample(vec![4, 5, 6, 7, 8, 9], 2, 1)), Flow::Continue);
    let frame = source.get_latest_frame().unwrap();
    assert_eq!(frame.data, vec![4, 5, 6, 7, 8, 9]);
    assert_eq!((frame.width, frame.height), (2, 1));
    assert_eq!(source.get_latest_frame().unwrap().data, frame.data);
}

#[test]
fn negative_sizes_wrap() {
    let mut source = connected();
    source.new_sample(sample(vec![], -1, i32::MIN));
    let frame = source.get_latest_frame().unwrap();
    assert_eq!((frame.width, frame.height), (u32::MAX, 0x8000_0000));
}

#[test]
fn samples_that_cannot_be_read() {
    let mut source = connected();
    source.new_sample(sample(vec![1], 1, 1));
    assert_eq!(source.new_sample(Sample::Missing), Flow::Error);
    assert_eq!(source.new_sample(Sample::Unreadable), Flow::Continue);
    assert_eq!(source.get_latest_frame().unwrap().data, vec![1]);
}

#[test]
fn a_stopped_source_flushes() {
    let mut source = connected();
    source.disconnect();
    assert_eq!(source.new_sample(sample(vec![1], 1, 1)), Flow::Flushing);
    assert_eq!(source.new_sample(Sample::Missing), Flow::Flushing);
    assert!(source.get_latest_frame().is_none());
}

#[test]
fn errors_on_the_bus() {
    let mut source = connected();
    let expected = VideoSourceState::Error("错误：lost".to_string());
    assert_eq!(source.bus_message(BusMessage::Error("lost".to_string())), Some(expected.clone()));
    assert_eq!(source.get_state(), expected);
    assert!(source.is_running());
}

#[test]
fn the_end_of_the_stream() {
    let mut source = connected();
    let moved = source.bus_message(BusMessage::EndOfStream);
    assert_eq!(moved, Some(VideoSourceState::Disconnected));
    assert_eq!(source.get_state(), VideoSourceState::Disconnected);
    assert!(source.is_running());

    let mut stopped = connected();
    stopped.disconnect();
    stopped.bus_message(BusMessage::Error("late".to_string()));
    assert_eq!(stopped.bus_message(BusMessage::EndOfStream), None);
    assert_eq!(stopped.get_state(), VideoSourceState::Error("错误：late".to_string()));
}

#[test]
fn other_messages_change_nothing() {
    let mut source = connected();
    for message in [BusMessage::Warning, BusMessage::StateChanged, BusMessage::Other] {
        assert_eq!(source.bus_message(message), None);
        assert_eq!(source.get_state(), VideoSourceState::Connecting);
    }
}

#[test]
fn samples_and_messages_in_either_order() {
    let mut a = connected();
    a.new_sample(sample(vec![7], 1, 1));
    a.bus_message(BusMessage::EndOfStream);
    let mut b = connected();
    b.bus_message(BusMessage::EndOfStream);
    b.new_sample(sample(vec![7], 1, 1));
    assert_eq!(a.get_state(), b.get_state());
    assert_eq!(a.get_latest_frame().unwrap().data, b.get_latest_frame().unwrap().data);
    assert_eq!(a.is_running(), b.is_running());
}
