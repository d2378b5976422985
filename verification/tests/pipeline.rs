use pano_monitor::pipeline::{links_new_pad, BuildAction, PipelineBuild, Property, PropertyValue};
use pano_monitor::video_source::VideoSourceConfig;

fn build(use_hw_decoder: bool) -> PipelineBuild {
    PipelineBuild::new(&VideoSourceConfig {
        rtsp_url: "rtsp://camera/1".to_string(),
        use_hw_decoder,
    })
}

/// A build after `n` steps that went well.
fn build_after(use_hw_decoder: bool, n: usize) -> PipelineBuild {
    let mut build = build(use_hw_decoder);
    for _ in 0..n {
        build.report(Ok(()));
    }
    build
}

fn element(factory: &'static str, properties: Vec<Property>) -> BuildAction {
    BuildAction::MakeElement { factory, properties }
}

fn property(name: &'static str, value: PropertyValue) -> Property {
    Property { name, value }
}

fn message_after_failure_at(n: usize) -> String {
    let mut build = build_after(false, n);
    build.report(Err("E".to_string()));
    match build.action() {
        BuildAction::Fail(message) => message,
        other => panic!("{:?}", other),
    }
}

#[test]
fn a_build_without_trouble() {
    let expected = vec![
        element(
            "rtspsrc",
            vec![
                property("location", PropertyValue::Text("rtsp://camera/1".to_string())),
                property("is-live", PropertyValue::Flag(true)),
                property("tcp-timeout", PropertyValue::Number(5000)),
                property("latency", PropertyValue::Number(0)),
            ],
        ),
        element("rtph264depay", vec![]),
        element("avdec_h264", vec![]),
        element("videoconvert", vec![]),
        element(
            "capsfilter",
            vec![property("caps", PropertyValue::Caps { media: "video/x-raw", format: "RGB" })],
        ),
        element(
            "appsink",
            vec![
                property("drop", PropertyValue::Flag(true)),
                property("max-buffers", PropertyValue::Number(1)),
                property("emit-signals", PropertyValue::Flag(true)),
            ],
        ),
        BuildAction::CastSink,
        BuildAction::AddElements(vec![
            "rtspsrc",
            "rtph264depay",
            "avdec_h264",
            "videoconvert",
            "capsfilter",
            "appsink",
        ]),
        BuildAction::LinkElements(vec![
            "rtph264depay",
            "avdec_h264",
            "videoconvert",
            "capsfilter",
            "appsink",
        ]),
        BuildAction::ConnectNewSample,
        BuildAction::FindSinkPad,
        BuildAction::ConnectPadAdded,
        BuildAction::Finish,
    ];
    let mut build = build(false);
    for action in expected {
        assert_eq!(build.action(), action);
        build.report(Ok(()));
    }
    assert_eq!(build.action(), BuildAction::Finish);
}

#[test]
fn hardware_decoders_are_tried_in_order() {
    let order = ["nvh264dec", "vaapih264dec", "vtdec_h264", "avdec_h264"];
    for chosen in 0..order.len() {
        let mut build = build_after(true, 2);
        for factory in &order[..chosen] {
            assert_eq!(build.action(), element(factory, vec![]));
            build.report(Err("missing".to_string()));
        }
        assert_eq!(build.action(), element(order[chosen], vec![]));
        for _ in 0..6 {
            build.report(Ok(()));
        }
        assert_eq!(
            build.action(),
            BuildAction::LinkElements(vec![
                "rtph264depay",
                order[chosen],
                "videoconvert",
                "capsfilter",
                "appsink",
            ])
        );
    }
}

#[test]
fn no_decoder_with_hardware_decoding_fails() {
    let mut build = build_after(true, 2);
    for _ in 0..3 {
        build.report(Err("missing".to_string()));
    }
    build.report(Err("gone".to_string()));
    let failed = BuildAction::Fail("无法创建 avdec_h264 解码器：gone".to_string());
    assert_eq!(build.action(), failed);
    build.report(Ok(()));
    assert_eq!(build.action(), failed);
}

#[test]
fn the_fallback_to_software_is_known() {
    let mut hardware = build_after(true, 2);
    for _ in 0..3 {
        assert!(!hardware.falls_back_to_software());
        hardware.report(Err("missing".to_string()));
    }
    assert!(hardware.falls_back_to_software());
    hardware.report(Ok(()));
    assert!(!hardware.falls_back_to_software());
    assert!(!build_after(false, 2).falls_back_to_software());
}

#[test]
fn each_failure_has_its_message() {
    assert_eq!(message_after_failure_at(0), "无法创建 rtspsrc 元素：E");
    assert_eq!(message_after_failure_at(1), "无法创建 rtph264depay 元素：E");
    assert_eq!(message_after_failure_at(2), "无法创建 avdec_h264 解码器：E");
    assert_eq!(message_after_failure_at(3), "无法创建 videoconvert 元素：E");
    assert_eq!(message_after_failure_at(4), "无法创建 capsfilter 元素：E");
    assert_eq!(message_after_failure_at(5), "无法创建 appsink 元素：E");
    assert_eq!(message_after_failure_at(6), "无法将 appsink 转换为 AppSink 类型");
    assert_eq!(message_after_failure_at(7), "添加元素到管道失败：E");
    assert_eq!(message_after_failure_at(8), "链接静态元素失败：E");
    assert_eq!(message_after_failure_at(10), "rtph264depay 没有 sink pad");
}

#[test]
fn connecting_a_signal_cannot_fail() {
    let mut build = build_after(false, 9);
    assert_eq!(build.action(), BuildAction::ConnectNewSample);
    build.report(Err("ignored".to_string()));
    assert_eq!(build.action(), BuildAction::FindSinkPad);
    build.report(Ok(()));
    assert_eq!(build.action(), BuildAction::ConnectPadAdded);
    build.report(Err("ignored".to_string()));
    assert_eq!(build.action(), BuildAction::Finish);
}

#[test]
fn a_failed_build_stays_failed() {
    let mut build = build_after(false, 3);
    build.report(Err("first".to_string()));
    build.report(Err("second".to_string()));
    build.report(Ok(()));
    assert_eq!(
        build.action(),
        BuildAction::Fail("无法创建 videoconvert 元素：first".to_string())
    );
}

#[test]
fn every_build_is_over_after_fifteen_reports() {
    for pattern in 0..(1u32 << 15) {
        for use_hw_decoder in [false, true] {
            let mut build = build(use_hw_decoder);
            for bit in 0..15 {
                if (pattern >> bit) & 1 == 0 {
                    build.report(Ok(()));
                } else {
                    build.report(Err(String::new()));
                }
            }
            assert!(matches!(build.action(), BuildAction::Finish | BuildAction::Fail(_)));
        }
    }
}

#[test]
fn a_linked_pad_is_left_alone() {
    assert!(links_new_pad(false));
    assert!(!links_new_pad(true));
}
