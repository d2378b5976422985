use pano_monitor::app::{
    status_line_text, ButtonPress, FrameUpdate, RtspPlayerApp, QUEUE_CAPACITY,
};
use pano_monitor::image::Rgba;
use pano_monitor::video_source::{BusMessage, Flow, Sample, VideoSourceConfig, VideoSourceState};

type Player = RtspPlayerApp<u32, &'static str>;

fn config() -> VideoSourceConfig {
    VideoSourceConfig { rtsp_url: "rtsp://camera/1".to_string(), use_hw_decoder: false }
}

fn connected() -> Player {
    let mut player = Player::new();
    player.set_rtsp_url("rtsp://camera/1".to_string());
    let wanted = player.try_connect().unwrap();
    player.connect(&wanted);
    assert_eq!(player.attach(Ok(42), Ok(())), Ok(()));
    player
}

/// A sample of one pixel, its red channel `n`.
fn pixel(n: u8) -> Sample {
    Sample::Readable { data: vec![n, 0, 0, 0], width: 1, height: 1 }
}

/// The red channel of the next frame.
fn next_red(player: &mut Player) -> Option<u8> {
    match player.refresh_frame() {
        FrameUpdate::Show { image, .. } => Some(image.pixels[0].r),
        FrameUpdate::Waiting => None,
        other => panic!("{:?}", other),
    }
}

#[test]
fn a_new_player() {
    for player in [Player::new(), Player::default()] {
        assert!(!player.is_connected());
        assert_eq!(player.status_text(), "未连接");
        assert_eq!(player.rtsp_url(), "");
        assert!(!player.use_hw_decoder());
        assert_eq!(player.last_frame_size(), None);
        assert_eq!(player.frame_count(), 0);
        assert_eq!(player.current_state(), VideoSourceState::Disconnected);
        assert!(player.texture().is_none());
        assert_eq!(player.resolution_text(), "分辨率：(0, 0)");
        assert_eq!(player.button_label(), "连接");
        assert!(!player.video_source().is_running());
    }
}

#[test]
fn a_blank_address_is_refused() {
    for url in ["", "   ", "\t\n", "\u{3000}"] {
        let mut player = Player::new();
        player.set_rtsp_url(url.to_string());
        assert!(player.try_connect().is_none());
        assert_eq!(player.status_text(), "请输入 RTSP 地址");
        assert!(!player.is_connected());
    }
}

#[test]
fn the_address_is_passed_on_as_typed() {
    let mut player = Player::new();
    player.set_rtsp_url(" rtsp://camera/1 ".to_string());
    player.set_use_hw_decoder(true);
    let wanted = player.try_connect().unwrap();
    assert_eq!(wanted.rtsp_url, " rtsp://camera/1 ");
    assert!(wanted.use_hw_decoder);
    assert!(player.is_connected());
    assert_eq!(player.status_text(), "正在连接...");
    assert_eq!(player.button_label(), "断开");
}

#[test]
fn connecting_is_announced() {
    let mut player = Player::new();
    player.connect(&config());
    assert_eq!(player.current_state(), VideoSourceState::Disconnected);
    player.update_status();
    assert_eq!(player.current_state(), VideoSourceState::Connecting);
    assert_eq!(player.status_text(), "正在连接...");
    assert!(player.video_source().is_running());
}

#[test]
fn a_build_error_is_handed_on() {
    let mut player = Player::new();
    player.connect(&config());
    assert_eq!(player.attach(Err("broken".to_string()), Ok(())), Err("broken".to_string()));
    assert_eq!(player.disconnect(), None);
}

#[test]
fn a_start_error_is_handed_on() {
    let mut player = Player::new();
    player.connect(&config());
    assert_eq!(player.attach(Ok(42), Err("stuck".to_string())), Err("stuck".to_string()));
    assert_eq!(player.disconnect(), Some(42));
}

#[test]
fn the_status_without_news() {
    let mut player = connected();
    player.disconnect();
    assert_eq!(player.status_text(), "已断开");
    player.update_status();
    assert_eq!(player.status_text(), "未连接");
    player.update_status();
    assert_eq!(player.status_text(), "未连接");
}

#[test]
fn a_bus_error_is_shown() {
    let mut player = connected();
    player.bus_message(BusMessage::Error("lost".to_string()));
    player.update_status();
    assert_eq!(player.status_text(), "错误：错误：lost");
    assert_eq!(player.current_state(), VideoSourceState::Error("错误：lost".to_string()));
    assert!(player.is_connected());
}

#[test]
fn the_newest_state_wins_even_when_the_queue_overflows() {
    let mut player = connected();
    for n in 0..3 * QUEUE_CAPACITY {
        player.bus_message(BusMessage::Error(format!("{}", n)));
    }
    player.bus_message(BusMessage::EndOfStream);
    player.update_status();
    assert_eq!(player.current_state(), VideoSourceState::Disconnected);
    assert_eq!(player.status_text(), "未连接");
    player.update_status();
    assert_eq!(player.current_state(), VideoSourceState::Disconnected);
}

#[test]
fn messages_without_a_state_are_not_announced() {
    let mut player = connected();
    player.update_status();
    player.bus_message(BusMessage::Warning);
    player.bus_message(BusMessage::StateChanged);
    player.bus_message(BusMessage::Other);
    player.update_status();
    assert_eq!(player.current_state(), VideoSourceState::Connecting);
}

#[test]
fn the_newest_frame_is_shown() {
    let mut player = connected();
    assert_eq!(player.new_sample(pixel(1)), Flow::Continue);
    assert_eq!(player.new_sample(pixel(2)), Flow::Continue);
    assert_eq!(next_red(&mut player), Some(2));
    assert_eq!(next_red(&mut player), None);
    player.new_sample(pixel(3));
    assert_eq!(next_red(&mut player), Some(3));
}

#[test]
fn the_newest_frame_is_shown_even_when_the_queue_overflows() {
    let mut player = connected();
    for n in 1..=5 {
        player.new_sample(pixel(n));
    }
    assert_eq!(player.video_source().get_latest_frame().unwrap().data, vec![5, 0, 0, 0]);
    assert_eq!(next_red(&mut player), Some(5));
    assert_eq!(next_red(&mut player), None);
}

#[test]
fn shown_frames_are_counted() {
    let mut player = connected();
    player.new_sample(pixel(1));
    player.update_status();
    assert_eq!(player.status_text(), "播放中 | 帧数：0");
    for n in 2..=12 {
        player.new_sample(pixel(n));
        next_red(&mut player);
    }
    assert_eq!(next_red(&mut player), None);
    assert_eq!(player.frame_count(), 11);
    player.update_status();
    assert_eq!(player.status_text(), "播放中 | 帧数：11");
    player.disconnect();
    assert_eq!(player.frame_count(), 0);
}

#[test]
fn playing_is_announced_with_the_first_frame() {
    let mut player = connected();
    player.update_status();
    assert_eq!(player.current_state(), VideoSourceState::Connecting);
    player.new_sample(pixel(1));
    assert_eq!(player.video_source().get_state(), VideoSourceState::Playing);
    player.update_status();
    assert_eq!(player.current_state(), VideoSourceState::Playing);
    player.bus_message(BusMessage::EndOfStream);
    player.new_sample(pixel(2));
    player.update_status();
    assert_eq!(player.current_state(), VideoSourceState::Disconnected);
}

#[test]
fn a_late_error_is_still_shown() {
    let mut player = connected();
    player.disconnect();
    player.bus_message(BusMessage::Error("late".to_string()));
    player.update_status();
    assert_eq!(player.status_text(), "错误：错误：late");
    assert_eq!(next_red(&mut player), None);
}

#[test]
fn samples_that_hold_no_frame_are_not_queued() {
    let mut player = connected();
    assert_eq!(player.new_sample(Sample::Missing), Flow::Error);
    assert_eq!(player.new_sample(Sample::Unreadable), Flow::Continue);
    assert_eq!(next_red(&mut player), None);
    player.new_sample(pixel(9));
    player.new_sample(Sample::Unreadable);
    assert_eq!(next_red(&mut player), Some(9));
    assert_eq!(next_red(&mut player), None);
}

#[test]
fn a_frame_as_an_image() {
    let mut player = connected();
    player.new_sample(Sample::Readable { data: vec![1, 2, 3, 0], width: 1, height: 1 });
    player.new_sample(Sample::Readable { data: vec![4, 5, 6, 0], width: 1, height: 1 });
    let (image, size) = player.get_frame_as_color_image().unwrap();
    assert_eq!(size, (1, 1));
    assert_eq!(image.size, [1, 1]);
    assert_eq!(image.pixels, vec![Rgba { r: 4, g: 5, b: 6, a: 255 }]);
    assert!(player.get_frame_as_color_image().is_none());
}

#[test]
fn the_texture_is_created_once() {
    let mut player = connected();
    player.new_sample(pixel(1));
    assert!(matches!(player.refresh_frame(), FrameUpdate::Show { create_texture: true, .. }));
    player.set_texture("video_frame");
    player.new_sample(pixel(2));
    assert!(matches!(player.refresh_frame(), FrameUpdate::Show { create_texture: false, .. }));
    assert_eq!(player.texture(), &Some("video_frame"));
}

#[test]
fn the_resolution_of_the_last_frame() {
    let mut player = connected();
    player.new_sample(Sample::Readable { data: vec![0; 16], width: 4, height: 12 });
    assert!(matches!(player.refresh_frame(), FrameUpdate::Show { size: (4, 12), .. }));
    assert_eq!(player.last_frame_size(), Some((4, 12)));
    assert_eq!(player.resolution_text(), "分辨率：(4, 12)");
    assert!(matches!(player.refresh_frame(), FrameUpdate::Waiting));
    assert_eq!(player.resolution_text(), "分辨率：(4, 12)");
}

#[test]
fn a_frame_that_does_not_fit_its_size() {
    let mut player = connected();
    player.new_sample(Sample::Readable { data: vec![0; 8], width: 1, height: 1 });
    match player.refresh_frame() {
        FrameUpdate::Undrawable(frame) => assert_eq!(frame.data.len(), 8),
        other => panic!("{:?}", other),
    }
    assert_eq!(player.last_frame_size(), None);
    assert_eq!(player.frame_count(), 0);
    assert!(matches!(player.refresh_frame(), FrameUpdate::Waiting));
}

#[test]
fn disconnecting_clears_everything_but_the_input() {
    let mut player = connected();
    player.set_use_hw_decoder(true);
    player.new_sample(pixel(1));
    player.new_sample(pixel(2));
    next_red(&mut player);
    player.set_texture("video_frame");
    player.bus_message(BusMessage::Error("lost".to_string()));
    assert_eq!(player.disconnect(), Some(42));
    assert!(!player.is_connected());
    assert_eq!(player.status_text(), "已断开");
    assert_eq!(player.last_frame_size(), None);
    assert!(player.texture().is_none());
    assert_eq!(player.current_state(), VideoSourceState::Disconnected);
    assert_eq!(player.rtsp_url(), "rtsp://camera/1");
    assert!(player.use_hw_decoder());
    assert_eq!(next_red(&mut player), None);
    player.update_status();
    assert_eq!(player.current_state(), VideoSourceState::Disconnected);
    assert_eq!(player.disconnect(), None);
}

#[test]
fn nothing_is_taken_after_disconnecting() {
    let mut player = connected();
    player.disconnect();
    assert_eq!(player.new_sample(pixel(1)), Flow::Flushing);
    player.bus_message(BusMessage::EndOfStream);
    player.update_status();
    assert_eq!(next_red(&mut player), None);
    assert_eq!(player.current_state(), VideoSourceState::Disconnected);
}

#[test]
fn the_button() {
    let mut player = Player::new();
    assert!(matches!(player.press_button(), ButtonPress::Nothing));
    assert_eq!(player.status_text(), "请输入 RTSP 地址");
    player.set_rtsp_url("rtsp://camera/1".to_string());
    match player.press_button() {
        ButtonPress::Start(config) => assert_eq!(config.rtsp_url, "rtsp://camera/1"),
        other => panic!("{:?}", other),
    }
    player.connect(&config());
    assert_eq!(player.attach(Ok(7), Ok(())), Ok(()));
    assert!(matches!(player.press_button(), ButtonPress::Stop(Some(7))));
    assert!(!player.is_connected());
}

#[test]
fn playing_counts_as_connected() {
    let mut player = Player::new();
    player.announce(VideoSourceState::Error("first".to_string()));
    player.update_status();
    assert_eq!(player.status_text(), "错误：first");
    assert!(!player.is_connected());
    player.announce(VideoSourceState::Playing);
    player.update_status();
    assert_eq!(player.current_state(), VideoSourceState::Playing);
    assert_eq!(player.status_text(), "播放中 | 帧数：0");
    assert!(player.is_connected());
}

#[test]
fn status_lines() {
    assert_eq!(status_line_text(&VideoSourceState::Disconnected, 5), "未连接");
    assert_eq!(status_line_text(&VideoSourceState::Connecting, 5), "正在连接...");
    assert_eq!(status_line_text(&VideoSourceState::Playing, 1507), "播放中 | 帧数：1507");
    assert_eq!(status_line_text(&VideoSourceState::Error("x".to_string()), 5), "错误：x");
}
