//! What the operations of the library come to, said of their inputs and results directly: the fields
//! of a sample, the characters of an address, the bytes of a frame, the names of the elements.

use vstd::prelude::*;

use crate::app::{
    config_view, is_picture_of, resolution_line, status_line, PlayerModel, QUEUE_CAPACITY,
};
use crate::frame::{frame_view, FrameModel, VideoFrame};
use crate::image::{black, drawable, opaque_rgb, pixels_of, ColorImage, Rgba};
use crate::pipeline::{
    names_view, outcome_view, properties_view, ActionModel, BuildAction, BuildModel, Decoder,
    Property, PropertyModel, PropertyValue, Stage,
};
use crate::queue::{pushed, pushed_all};
use crate::text::{blank, decimal, white_space};
use crate::video_source::{
    connect_outcome, state_after, state_view, BusMessage, ConfigModel, Flow, Sample, SourceModel,
    StateModel, VideoSourceConfig, VideoSourceState,
};

verus! {

// Text

/// The last digit of a number in decimal is its remainder by ten, and the digits before it are the
/// rest of the number; a number below ten is one digit.
pub proof fn decimal_digits_are_the_remainders(n: nat)
    ensures
        decimal(n).len() > 0,
        decimal(n).last() as int == '0' as int + n % 10,
        n < 10 ==> decimal(n).len() == 1,
        n >= 10 ==> decimal(n).drop_last() == decimal(n / 10),
{
    if n >= 10 {
        assert(decimal(n).drop_last() =~= decimal(n / 10));
    }
}

/// Different numbers have different decimal texts.
pub proof fn decimal_texts_differ(a: nat, b: nat)
    requires
        decimal(a) == decimal(b),
    ensures
        a == b,
    decreases a,
{
    decimal_digits_are_the_remainders(a);
    decimal_digits_are_the_remainders(b);
    if a >= 10 {
        decimal_digits_are_the_remainders(a / 10);
        if b >= 10 {
            decimal_texts_differ(a / 10, b / 10);
        } else {
            assert(decimal(a).drop_last().len() > 0);
        }
    } else if b >= 10 {
        decimal_digits_are_the_remainders(b / 10);
        assert(decimal(b).drop_last().len() > 0);
    }
}

/// A decimal text holds nothing but digits, and starts with a zero only for zero.
pub proof fn decimal_texts_are_digits(n: nat, i: int)
    requires
        0 <= i < decimal(n).len(),
    ensures
        '0' <= decimal(n)[i] <= '9',
        n > 0 ==> decimal(n)[0] != '0',
    decreases n,
{
    decimal_digits_are_the_remainders(n);
    if n >= 10 {
        decimal_digits_are_the_remainders(n / 10);
        decimal_texts_are_digits(n / 10, 0);
        assert(decimal(n)[0] == decimal(n).drop_last()[0]);
        if i < decimal(n).len() - 1 {
            decimal_texts_are_digits(n / 10, i);
            assert(decimal(n)[i] == decimal(n).drop_last()[i]);
        }
    }
}

/// The characters that are white space, one by one.
pub proof fn white_space_is_these_characters(c: char)
    ensures
        white_space(c) <==> {
            ||| c == ' ' || c == '\t' || c == '\n' || c == '\u{b}' || c == '\u{c}' || c == '\r'
            ||| c == '\u{85}' || c == '\u{a0}' || c == '\u{1680}'
            ||| c == '\u{2000}' || c == '\u{2001}' || c == '\u{2002}' || c == '\u{2003}'
            ||| c == '\u{2004}' || c == '\u{2005}' || c == '\u{2006}' || c == '\u{2007}'
            ||| c == '\u{2008}' || c == '\u{2009}' || c == '\u{200a}'
            ||| c == '\u{2028}' || c == '\u{2029}' || c == '\u{202f}'
            ||| c == '\u{205f}' || c == '\u{3000}'
        },
{
}

/// Text with one character that is not white space is not blank.
pub proof fn one_visible_character_is_enough(text: Seq<char>, i: int)
    requires
        0 <= i < text.len(),
        !white_space(text[i]),
    ensures
        !blank(text),
{
}

/// Text without a visible character is blank.
pub proof fn white_space_alone_is_blank(text: Seq<char>)
    requires
        forall|i: int| 0 <= i < text.len() ==> white_space(#[trigger] text[i]),
    ensures
        blank(text),
{
}

/// White space around text does not matter to whether it is blank.
pub proof fn white_space_around_text_does_not_matter(
    before: Seq<char>,
    text: Seq<char>,
    after: Seq<char>,
)
    requires
        forall|i: int| 0 <= i < before.len() ==> white_space(#[trigger] before[i]),
        forall|i: int| 0 <= i < after.len() ==> white_space(#[trigger] after[i]),
    ensures
        blank(before + text + after) == blank(text),
{
    let whole = before + text + after;
    if blank(whole) {
        assert forall|i: int| 0 <= i < text.len() implies white_space(#[trigger] text[i]) by {
            assert(whole[before.len() + i] == text[i]);
        }
    }
}

// Queues

/// A push adds the item at the end and keeps all the others, but for the oldest of a full queue.
pub proof fn a_push_adds_at_the_end<A>(items: Seq<A>, capacity: nat, item: A)
    ensures
        items.len() < capacity ==> pushed(items, capacity, item) == items + seq![item],
        items.len() >= capacity && items.len() > 0 ==> pushed(items, capacity, item) == items.skip(1)
            + seq![item],
{
    assert(items.push(item) =~= items + seq![item]);
    if items.len() > 0 {
        assert(items.push(item).drop_first() =~= items.skip(1) + seq![item]);
    }
}

/// A run of pushes is its pushes one after another.
pub proof fn pushes_come_one_by_one<A>(items: Seq<A>, capacity: nat, run: Seq<A>, item: A)
    ensures
        pushed_all(items, capacity, seq![]) == items,
        pushed_all(items, capacity, run.push(item)) == pushed(
            pushed_all(items, capacity, run),
            capacity,
            item,
        ),
{
    assert(run.push(item).drop_last() =~= run);
}

// Frames and images

/// The model of a frame holds the frame's own bytes, width and height.
pub proof fn a_frame_is_its_fields(frame: VideoFrame)
    ensures
        frame@.data == frame.data@,
        frame@.width == frame.width,
        frame@.height == frame.height,
        frame_view(Some(frame)) == Some(frame@),
        frame_view(None) is None,
{
}

/// The channels of an opaque colour are those that it was made of, with full alpha.
pub proof fn an_opaque_colour_is_its_channels(r: u8, g: u8, b: u8)
    ensures
        opaque_rgb(r, g, b) == (Rgba { r, g, b, a: 255 }),
        black() == (Rgba { r: 0, g: 0, b: 0, a: 255 }),
{
}

proof fn lemma_rows(n: int, d: int, y: int)
    requires
        n >= 0,
        d > 0,
    ensures
        y < n / d <==> (y + 1) * d <= n,
{
    let rows = n / d;
    assert(rows * d <= n < rows * d + d) by (nonlinear_arith)
        requires
            rows == n / d,
            d > 0,
    ;
    if y < rows {
        assert((y + 1) * d <= rows * d) by (nonlinear_arith)
            requires
                y + 1 <= rows,
                d > 0,
        ;
    } else {
        assert((y + 1) * d >= rows * d + d) by (nonlinear_arith)
            requires
                y >= rows,
                d > 0,
        ;
    }
}

/// A frame can be drawn exactly if it has columns, if its bytes do not fill one row more than it is
/// high, and if this machine can address a row of its bytes and hold its pixels.
pub proof fn a_frame_is_drawable_if_its_bytes_fit(frame: FrameModel)
    ensures
        drawable(frame) <==> {
            &&& frame.width > 0
            &&& 4 * frame.width <= usize::MAX
            &&& 4 * (frame.width * frame.height) <= isize::MAX
            &&& frame.data.len() < (frame.height + 1) * (4 * frame.width)
        },
{
    if frame.width > 0 {
        lemma_rows(frame.data.len() as int, 4 * frame.width, frame.height as int);
    }
}

/// Every row of which the bytes hold all four for each pixel is drawn, and no other: the pixel in
/// column `x` of row `y` has the first three of its own bytes as its channels when the bytes reach
/// to the end of that row, and is black when they do not.
pub proof fn every_row_that_has_its_bytes_is_drawn(frame: FrameModel, x: int, y: int)
    requires
        drawable(frame),
        0 <= x < frame.width,
        0 <= y,
    ensures
        pixels_of(frame).len() == frame.width * frame.height,
        ({
            let at = y * frame.width + x;
            let start = y * (4 * frame.width) + 4 * x;
            let has_bytes = (y + 1) * (4 * frame.width) <= frame.data.len();
            &&& has_bytes ==> {
                &&& y < frame.height
                &&& 0 <= at < pixels_of(frame).len()
                &&& 0 <= start
                &&& start + 4 <= frame.data.len()
                &&& pixels_of(frame)[at] == Rgba {
                    r: frame.data[start],
                    g: frame.data[start + 1],
                    b: frame.data[start + 2],
                    a: 255,
                }
            }
            &&& !has_bytes && y < frame.height ==> {
                &&& 0 <= at < pixels_of(frame).len()
                &&& pixels_of(frame)[at] == Rgba { r: 0, g: 0, b: 0, a: 255 }
            }
        }),
{
    let w = frame.width as int;
    let h = frame.height as int;
    let n = frame.data.len() as int;
    let rows = n / (4 * w);
    lemma_rows(n, 4 * w, y);
    assert(w * h >= 0) by (nonlinear_arith)
        requires
            w >= 0,
            h >= 0,
    ;
    assert(4 * (y * w + x) == y * (4 * w) + 4 * x) by (nonlinear_arith);
    assert((y + 1) * (4 * w) == y * (4 * w) + 4 * w) by (nonlinear_arith);
    assert(0 <= y * w && 0 <= y * (4 * w)) by (nonlinear_arith)
        requires
            0 <= y,
            0 < w,
    ;
    if y < h {
        assert(y * w + x < w * h) by (nonlinear_arith)
            requires
                0 <= x < w,
                0 <= y < h,
        ;
    }
    if y < rows {
        assert(y * w + x < rows * w) by (nonlinear_arith)
            requires
                0 <= x < w,
                0 <= y < rows,
        ;
    } else {
        assert(y * w + x >= rows * w) by (nonlinear_arith)
            requires
                0 <= x,
                0 < w,
                y >= rows,
        ;
    }
}

/// The picture of a frame has the frame's size and, pixel by pixel, the frame's bytes.
pub proof fn a_picture_shows_the_bytes_of_its_frame(
    image: ColorImage,
    frame: FrameModel,
    x: int,
    y: int,
)
    requires
        is_picture_of(image, frame),
        drawable(frame),
        0 <= x < frame.width,
        0 <= y,
    ensures
        image.size@.len() == 2,
        image.size@[0] == frame.width,
        image.size@[1] == frame.height,
        image.pixels@.len() == frame.width * frame.height,
        ({
            let start = y * (4 * frame.width) + 4 * x;
            let pixel = image.pixels@[y * frame.width + x];
            &&& (y + 1) * (4 * frame.width) <= frame.data.len() ==> {
                &&& pixel.r == frame.data[start]
                &&& pixel.g == frame.data[start + 1]
                &&& pixel.b == frame.data[start + 2]
                &&& pixel.a == 255
            }
            &&& (y + 1) * (4 * frame.width) > frame.data.len() && y < frame.height ==> {
                &&& pixel.r == 0
                &&& pixel.g == 0
                &&& pixel.b == 0
                &&& pixel.a == 255
            }
        }),
{
    every_row_that_has_its_bytes_is_drawn(frame, x, y);
    assert(4 * frame.width <= usize::MAX && frame.width <= usize::MAX);
    assert(frame.height * frame.width == frame.width * frame.height) by (nonlinear_arith);
    assert(frame.height <= frame.width * frame.height) by (nonlinear_arith)
        requires
            frame.width > 0,
    ;
}

// The pipeline

/// The model of a property value holds the value itself.
pub proof fn a_property_is_its_value(
    text: String,
    flag: bool,
    number: u32,
    media: &'static str,
    format: &'static str,
)
    ensures
        PropertyValue::Text(text)@ == PropertyModel::Text(text@),
        PropertyValue::Flag(flag)@ == PropertyModel::Flag(flag),
        PropertyValue::Number(number)@ == PropertyModel::Number(number),
        (PropertyValue::Caps { media, format })@ == (PropertyModel::Caps {
            media: media@,
            format: format@,
        }),
{
}

/// The models of lists keep their length and order: the `i`th is that of the `i`th.
pub proof fn lists_keep_their_order(
    properties: Seq<Property>,
    names: Seq<&'static str>,
    i: int,
)
    ensures
        properties_view(properties).len() == properties.len(),
        0 <= i < properties.len() ==> properties_view(properties)[i] == (
            properties[i].name@,
            properties[i].value@,
        ),
        names_view(names).len() == names.len(),
        0 <= i < names.len() ==> names_view(names)[i] == names[i]@,
{
}

/// The model of an action is the same action, with the same names, properties and texts.
pub proof fn an_action_is_its_parts(
    factory: &'static str,
    properties: Vec<Property>,
    names: Vec<&'static str>,
    message: String,
)
    ensures
        (BuildAction::MakeElement { factory, properties })@ == (ActionModel::MakeElement {
            factory: factory@,
            properties: properties_view(properties@),
        }),
        BuildAction::CastSink@ == ActionModel::CastSink,
        BuildAction::AddElements(names)@ == ActionModel::AddElements(names_view(names@)),
        BuildAction::LinkElements(names)@ == ActionModel::LinkElements(names_view(names@)),
        BuildAction::ConnectNewSample@ == ActionModel::ConnectNewSample,
        BuildAction::FindSinkPad@ == ActionModel::FindSinkPad,
        BuildAction::ConnectPadAdded@ == ActionModel::ConnectPadAdded,
        BuildAction::Finish@ == ActionModel::Finish,
        BuildAction::Fail(message)@ == ActionModel::Fail(message@),
{
}

/// The model of an outcome is the same outcome, with the text of its error.
pub proof fn an_outcome_is_its_text(detail: String)
    ensures
        outcome_view(Ok(())) == Ok::<(), Seq<char>>(()),
        outcome_view(Err(detail)) == Err::<(), Seq<char>>(detail@),
{
}

/// Whatever decoder is asked for, a build starts with a source for the whole address.
pub proof fn a_build_starts_with_a_source_for_the_address(config: ConfigModel)
    ensures
        BuildModel::started(config).config == config,
        BuildModel::started(config).stage == Stage::MakeSource,
        BuildModel::started(config).decoder == (if config.use_hw_decoder {
            Decoder::Nvidia
        } else {
            Decoder::Software
        }),
        BuildModel::started(config).message == Seq::<char>::empty(),
        BuildModel::started(config).action() == (ActionModel::MakeElement {
            factory: "rtspsrc"@,
            properties: seq![
                ("location"@, PropertyModel::Text(config.rtsp_url)),
                ("is-live"@, PropertyModel::Flag(true)),
                ("tcp-timeout"@, PropertyModel::Number(5000)),
                ("latency"@, PropertyModel::Number(0)),
            ],
        }),
{
}

/// The address of the source does not depend on the decoder that is asked for.
pub proof fn the_source_does_not_depend_on_the_decoder(a: ConfigModel, b: ConfigModel)
    requires
        a.rtsp_url == b.rtsp_url,
    ensures
        BuildModel::started(a).action() == BuildModel::started(b).action(),
{
}

/// Builds for different addresses start differently.
pub proof fn different_addresses_have_different_sources(a: ConfigModel, b: ConfigModel)
    requires
        BuildModel::started(a).action() == BuildModel::started(b).action(),
    ensures
        a.rtsp_url == b.rtsp_url,
{
    let first = BuildModel::started(a).action()->properties[0];
    assert(first.1 == PropertyModel::Text(a.rtsp_url));
    assert(first.1 == PropertyModel::Text(b.rtsp_url));
}

/// A run is its outcomes, reported one after another.
pub proof fn reports_come_one_by_one(
    build: BuildModel,
    outcomes: Seq<Result<(), Seq<char>>>,
    outcome: Result<(), Seq<char>>,
)
    ensures
        build.run(seq![]) == build,
        build.run(outcomes.push(outcome)) == build.run(outcomes).reported(outcome),
{
    assert(outcomes.push(outcome).drop_last() =~= outcomes);
}

/// Nothing that is reported changes what a build is for: whatever happens, it keeps the address and
/// the choice of decoder that it was started with.
pub proof fn a_build_keeps_its_config(
    config: ConfigModel,
    outcomes: Seq<Result<(), Seq<char>>>,
)
    ensures
        BuildModel::started(config).run(outcomes).config == config,
    decreases outcomes.len(),
{
    if outcomes.len() > 0 {
        a_build_keeps_its_config(config, outcomes.drop_last());
    }
}

/// The name by which each decoder is asked for.
pub proof fn each_decoder_has_its_name(build: BuildModel)
    requires
        build.stage == Stage::MakeDecoder,
    ensures
        build.action() == (ActionModel::MakeElement {
            factory: match build.decoder {
                Decoder::Nvidia => "nvh264dec"@,
                Decoder::Vaapi => "vaapih264dec"@,
                Decoder::Apple => "vtdec_h264"@,
                Decoder::Software => "avdec_h264"@,
            },
            properties: Seq::<(Seq<char>, PropertyModel)>::empty(),
        }),
{
}

/// What each other stage of a build asks for. The elements are added from the network to the
/// application with the decoder that was made among them, and all but the source are linked in that
/// order.
pub proof fn each_stage_asks_for_its_step(build: BuildModel)
    ensures
        ({
            let none = Seq::<(Seq<char>, PropertyModel)>::empty();
            let decoder = match build.decoder {
                Decoder::Nvidia => "nvh264dec"@,
                Decoder::Vaapi => "vaapih264dec"@,
                Decoder::Apple => "vtdec_h264"@,
                Decoder::Software => "avdec_h264"@,
            };
            match build.stage {
                Stage::MakeSource => build.action() == (ActionModel::MakeElement {
                    factory: "rtspsrc"@,
                    properties: seq![
                        ("location"@, PropertyModel::Text(build.config.rtsp_url)),
                        ("is-live"@, PropertyModel::Flag(true)),
                        ("tcp-timeout"@, PropertyModel::Number(5000)),
                        ("latency"@, PropertyModel::Number(0)),
                    ],
                }),
                Stage::MakeDepay => build.action() == (ActionModel::MakeElement {
                    factory: "rtph264depay"@,
                    properties: none,
                }),
                Stage::MakeDecoder => build.action() == (ActionModel::MakeElement {
                    factory: decoder,
                    properties: none,
                }),
                Stage::MakeConvert => build.action() == (ActionModel::MakeElement {
                    factory: "videoconvert"@,
                    properties: none,
                }),
                Stage::MakeFilter => build.action() == (ActionModel::MakeElement {
                    factory: "capsfilter"@,
                    properties: seq![
                        (
                            "caps"@,
                            PropertyModel::Caps { media: "video/x-raw"@, format: "RGB"@ },
                        ),
                    ],
                }),
                Stage::MakeSink => build.action() == (ActionModel::MakeElement {
                    factory: "appsink"@,
                    properties: seq![
                        ("drop"@, PropertyModel::Flag(true)),
                        ("max-buffers"@, PropertyModel::Number(1)),
                        ("emit-signals"@, PropertyModel::Flag(true)),
                    ],
                }),
                Stage::CastSink => build.action() == ActionModel::CastSink,
                Stage::AddElements => build.action() == ActionModel::AddElements(
                    seq![
                        "rtspsrc"@,
                        "rtph264depay"@,
                        decoder,
                        "videoconvert"@,
                        "capsfilter"@,
                        "appsink"@,
                    ],
                ),
                Stage::LinkElements => build.action() == ActionModel::LinkElements(
                    seq!["rtph264depay"@, decoder, "videoconvert"@, "capsfilter"@, "appsink"@],
                ),
                Stage::ConnectNewSample => build.action() == ActionModel::ConnectNewSample,
                Stage::FindSinkPad => build.action() == ActionModel::FindSinkPad,
                Stage::ConnectPadAdded => build.action() == ActionModel::ConnectPadAdded,
                Stage::Finished => build.action() == ActionModel::Finish,
                Stage::Failed => build.action() == ActionModel::Fail(build.message),
            }
        }),
{
    if build.stage == Stage::LinkElements {
        assert(build.action()->LinkElements_0 =~= seq![
            "rtph264depay"@,
            match build.decoder {
                Decoder::Nvidia => "nvh264dec"@,
                Decoder::Vaapi => "vaapih264dec"@,
                Decoder::Apple => "vtdec_h264"@,
                Decoder::Software => "avdec_h264"@,
            },
            "videoconvert"@,
            "capsfilter"@,
            "appsink"@,
        ]);
    }
}

/// A step that went well leads to the one after it, and changes nothing else of the build.
pub proof fn success_leads_to_the_next_step(build: BuildModel)
    ensures
        build.reported(Ok(())) == (BuildModel {
            stage: match build.stage {
                Stage::MakeSource => Stage::MakeDepay,
                Stage::MakeDepay => Stage::MakeDecoder,
                Stage::MakeDecoder => Stage::MakeConvert,
                Stage::MakeConvert => Stage::MakeFilter,
                Stage::MakeFilter => Stage::MakeSink,
                Stage::MakeSink => Stage::CastSink,
                Stage::CastSink => Stage::AddElements,
                Stage::AddElements => Stage::LinkElements,
                Stage::LinkElements => Stage::ConnectNewSample,
                Stage::ConnectNewSample => Stage::FindSinkPad,
                Stage::FindSinkPad => Stage::ConnectPadAdded,
                Stage::ConnectPadAdded => Stage::Finished,
                Stage::Finished => Stage::Finished,
                Stage::Failed => Stage::Failed,
            },
            ..build
        }),
{
}

/// A decoder that cannot be made leads to the next one, and the build stays where it is; after the
/// software decoder there is none, and the build fails.
pub proof fn a_missing_decoder_leads_to_the_next(build: BuildModel, detail: Seq<char>)
    requires
        build.stage == Stage::MakeDecoder,
    ensures
        build.reported(Err(detail)) == (match build.decoder {
            Decoder::Nvidia => BuildModel { decoder: Decoder::Vaapi, ..build },
            Decoder::Vaapi => BuildModel { decoder: Decoder::Apple, ..build },
            Decoder::Apple => BuildModel { decoder: Decoder::Software, ..build },
            Decoder::Software => BuildModel {
                stage: Stage::Failed,
                message: "无法创建 avdec_h264 解码器："@ + detail,
                ..build
            },
        }),
{
}

/// What the failure of each other step comes to: an error that names the step, with the reason
/// behind it where one is given. Signals can always be connected, and a build that is over stays.
pub proof fn each_failure_names_its_step(build: BuildModel, detail: Seq<char>)
    requires
        build.stage != Stage::MakeDecoder,
    ensures
        ({
            let message = match build.stage {
                Stage::MakeSource => Some("无法创建 rtspsrc 元素："@ + detail),
                Stage::MakeDepay => Some("无法创建 rtph264depay 元素："@ + detail),
                Stage::MakeConvert => Some("无法创建 videoconvert 元素："@ + detail),
                Stage::MakeFilter => Some("无法创建 capsfilter 元素："@ + detail),
                Stage::MakeSink => Some("无法创建 appsink 元素："@ + detail),
                Stage::CastSink => Some("无法将 appsink 转换为 AppSink 类型"@),
                Stage::AddElements => Some("添加元素到管道失败："@ + detail),
                Stage::LinkElements => Some("链接静态元素失败："@ + detail),
                Stage::FindSinkPad => Some("rtph264depay 没有 sink pad"@),
                _ => None,
            };
            match message {
                Some(message) => build.reported(Err(detail)) == (BuildModel {
                    stage: Stage::Failed,
                    message,
                    ..build
                }),
                None => build.reported(Err(detail)) == build.reported(Ok(())),
            }
        }),
{
}

/// A build falls back to software exactly when it was to use hardware and is about to make the
/// software decoder after all.
pub proof fn only_hardware_builds_fall_back(build: BuildModel)
    ensures
        build.falls_back_to_software() <==> {
            &&& build.config.use_hw_decoder
            &&& build.stage == Stage::MakeDecoder
            &&& build.decoder == Decoder::Software
        },
{
}

// The video source

/// The model of a state is the same state, with the same message.
pub proof fn a_state_is_itself(state: VideoSourceState, message: String)
    ensures
        VideoSourceState::Disconnected@ == StateModel::Disconnected,
        VideoSourceState::Connecting@ == StateModel::Connecting,
        VideoSourceState::Playing@ == StateModel::Playing,
        VideoSourceState::Error(message)@ == StateModel::Error(message@),
        state_view(Some(state)) == Some(state@),
        state_view(None) is None,
{
}

/// The model of a configuration holds its own address and choice of decoder.
pub proof fn a_config_is_its_fields(config: VideoSourceConfig)
    ensures
        config@.rtsp_url == config.rtsp_url@,
        config@.use_hw_decoder == config.use_hw_decoder,
        config_view(Some(config)) == Some(config@),
        config_view(None) is None,
{
}

/// A source that nothing has happened to, or that was disconnected, does not run, has no pipeline
/// and no frame, and is disconnected.
pub proof fn a_fresh_source_has_nothing<P>()
    ensures
        SourceModel::<P>::fresh().pipeline is None,
        SourceModel::<P>::fresh().latest_frame is None,
        !SourceModel::<P>::fresh().is_running,
        SourceModel::<P>::fresh().state == StateModel::Disconnected,
{
}

/// A source that connects runs and says so; its pipeline and its frame are not touched.
pub proof fn a_connecting_source_runs<P>(source: SourceModel<P>)
    ensures
        source.connecting().is_running,
        source.connecting().state == StateModel::Connecting,
        source.connecting().pipeline == source.pipeline,
        source.connecting().latest_frame == source.latest_frame,
{
}

/// The pipeline that was built replaces the one before it, and nothing else changes.
pub proof fn the_pipeline_that_was_built_is_held<P>(
    source: SourceModel<P>,
    pipeline: P,
    error: String,
)
    ensures
        source.attached(Ok(pipeline)) == (SourceModel { pipeline: Some(pipeline), ..source }),
        source.attached(Err(error)) == source,
{
}

/// Connecting comes to the error of the build, or else to that of the start, or else to a success.
pub proof fn the_first_error_is_handed_back<P>(pipeline: P, build: String, start: String)
    ensures
        connect_outcome(Ok(pipeline), Ok(())) is Ok,
        connect_outcome(Ok(pipeline), Err(start)) == Err::<(), String>(start),
        connect_outcome::<P>(Err(build), Ok(())) == Err::<(), String>(build),
        connect_outcome::<P>(Err(build), Err(start)) == Err::<(), String>(build),
{
}

/// A running source turns a sample into a frame with the very bytes, the width and the height of
/// the sample, and keeps it as its latest.
pub proof fn a_frame_has_the_size_of_its_sample<P>(
    source: SourceModel<P>,
    data: Vec<u8>,
    width: i32,
    height: i32,
)
    requires
        source.is_running,
        width >= 0,
        height >= 0,
    ensures
        ({
            let after = source.sampled(Sample::Readable { data, width, height });
            &&& after.latest_frame matches Some(frame)
            &&& frame.data == data@
            &&& frame.width == width
            &&& frame.height == height
            &&& after.is_running
            &&& after.pipeline == source.pipeline
            &&& source.state == StateModel::Connecting ==> after.state == StateModel::Playing
            &&& source.state != StateModel::Connecting ==> after.state == source.state
        }),
{
}

/// A size below zero is taken for the unsigned number of the same bits; the other side and the
/// bytes are as in the sample all the same.
pub proof fn a_negative_size_wraps<P>(
    source: SourceModel<P>,
    data: Vec<u8>,
    width: i32,
    height: i32,
)
    requires
        source.is_running,
    ensures
        ({
            let after = source.sampled(Sample::Readable { data, width, height });
            &&& after.latest_frame matches Some(frame)
            &&& frame.data == data@
            &&& frame.width == (if width < 0 {
                width + 0x1_0000_0000
            } else {
                width as int
            })
            &&& frame.height == (if height < 0 {
                height + 0x1_0000_0000
            } else {
                height as int
            })
            &&& after.is_running
            &&& after.pipeline == source.pipeline
            &&& after.state == (if source.state == StateModel::Connecting {
                StateModel::Playing
            } else {
                source.state
            })
        }),
{
}

/// What the sink is answered, and when a sample leaves the source as it was.
pub proof fn the_sink_is_answered<P>(
    source: SourceModel<P>,
    sample: Sample,
    data: Vec<u8>,
    width: i32,
    height: i32,
)
    ensures
        !source.is_running ==> source.flow(sample) == Flow::Flushing && source.sampled(sample)
            == source,
        source.is_running ==> {
            &&& source.flow(Sample::Missing) == Flow::Error
            &&& source.flow(Sample::Unreadable) == Flow::Continue
            &&& source.flow(Sample::Readable { data, width, height }) == Flow::Continue
        },
        source.sampled(Sample::Missing) == source,
        source.sampled(Sample::Unreadable) == source,
{
}

/// What each message does to the state, and that it does nothing else.
pub proof fn each_message_moves_the_state<P>(source: SourceModel<P>, text: String)
    ensures
        source.told(BusMessage::Error(text)) == (SourceModel {
            state: StateModel::Error("错误："@ + text@),
            ..source
        }),
        source.told(BusMessage::EndOfStream) == (SourceModel {
            state: if source.is_running {
                StateModel::Disconnected
            } else {
                source.state
            },
            ..source
        }),
        source.told(BusMessage::Warning) == source,
        source.told(BusMessage::StateChanged) == source,
        source.told(BusMessage::Other) == source,
{
}

/// The state that a message is said to move a source to is the one that the source then has, and
/// the one that errors and, while it runs, the end of the stream call for.
pub proof fn a_move_is_told_as_it_happens<P>(
    source: SourceModel<P>,
    message: BusMessage,
    text: String,
)
    ensures
        state_after(message, source.is_running) matches Some(state) ==> source.told(message).state
            == state,
        state_after(message, source.is_running) is None ==> source.told(message) == source,
        state_after(BusMessage::Error(text), source.is_running) == Some(
            StateModel::Error("错误："@ + text@),
        ),
        state_after(BusMessage::EndOfStream, source.is_running) == (if source.is_running {
            Some(StateModel::Disconnected)
        } else {
            None
        }),
        state_after(BusMessage::Warning, source.is_running) is None,
        state_after(BusMessage::StateChanged, source.is_running) is None,
        state_after(BusMessage::Other, source.is_running) is None,
{
}

// The player

/// What the status line says of each state.
pub proof fn each_state_has_its_line(count: u64, message: Seq<char>)
    ensures
        status_line(StateModel::Disconnected, count) == "未连接"@,
        status_line(StateModel::Connecting, count) == "正在连接..."@,
        status_line(StateModel::Playing, count) == "播放中 | 帧数："@ + decimal(count as nat),
        status_line(StateModel::Error(message), count) == "错误："@ + message,
{
}

/// What is written of the size of the last frame.
pub proof fn the_size_is_written_out(width: u32, height: u32)
    ensures
        resolution_line(Some((width, height))) == "分辨率："@ + "("@ + decimal(width as nat)
            + ", "@ + decimal(height as nat) + ")"@,
        resolution_line(None) == resolution_line(Some((0u32, 0u32))),
{
}

/// A player that nothing has happened to.
pub proof fn a_fresh_player_has_nothing<P, T>()
    ensures
        ({
            let player = PlayerModel::<P, T>::fresh();
            &&& player.source == SourceModel::<P>::fresh()
            &&& player.frames.len() == 0
            &&& player.states.len() == 0
            &&& player.frame_capacity == 3
            &&& player.state_capacity == 3
            &&& QUEUE_CAPACITY == 3
            &&& player.rtsp_url.len() == 0
            &&& !player.is_connected
            &&& player.status_text == "未连接"@
            &&& !player.use_hw_decoder
            &&& player.frame_count == 0
            &&& player.last_frame_size is None
            &&& player.texture is None
            &&& player.current_state == StateModel::Disconnected
        }),
{
}

/// A player is well formed exactly if its queues have room for three and hold no more.
pub proof fn the_queues_have_room_for_three<P, T>(player: PlayerModel<P, T>)
    ensures
        player.well_formed() <==> {
            &&& player.frame_capacity == 3
            &&& player.state_capacity == 3
            &&& player.frames.len() <= 3
            &&& player.states.len() <= 3
        },
{
}

/// An address with a character that is not white space is accepted: the player counts as connected,
/// says that it connects, and asks for the address and the decoder that were chosen.
pub proof fn an_address_with_a_visible_character_is_accepted<P, T>(
    player: PlayerModel<P, T>,
    i: int,
)
    requires
        0 <= i < player.rtsp_url.len(),
        !white_space(player.rtsp_url[i]),
    ensures
        player.wanted() matches Some(config) && config.rtsp_url == player.rtsp_url
            && config.use_hw_decoder == player.use_hw_decoder,
        player.asked_to_connect() == (PlayerModel {
            is_connected: true,
            status_text: "正在连接..."@,
            ..player
        }),
{
}

/// An address is refused only if each of its characters is white space; the player then asks for
/// one, and nothing else of it changes.
pub proof fn only_white_space_is_refused<P, T>(player: PlayerModel<P, T>)
    ensures
        player.wanted() is None <==> (forall|i: int|
            0 <= i < player.rtsp_url.len() ==> white_space(#[trigger] player.rtsp_url[i])),
        player.wanted() is None ==> player.asked_to_connect() == (PlayerModel {
            status_text: "请输入 RTSP 地址"@,
            ..player
        }),
{
    if player.wanted() is None {
        assert forall|i: int| 0 <= i < player.rtsp_url.len() implies white_space(
            #[trigger] player.rtsp_url[i],
        ) by {
            if !white_space(player.rtsp_url[i]) {
                an_address_with_a_visible_character_is_accepted(player, i);
            }
        }
    }
}

/// A state that is announced is the newest that the player knows of, and is queued behind those
/// that wait; nothing else of the player changes.
pub proof fn an_announced_state_is_the_newest<P, T>(player: PlayerModel<P, T>, state: StateModel)
    requires
        player.well_formed(),
    ensures
        player.announced(state).states.last() == state,
        player.announced(state).newest_state() == state,
        player.announced(state) == (PlayerModel {
            states: pushed(player.states, player.state_capacity, state),
            ..player
        }),
{
}

/// To connect touches the source and announces that it connects.
pub proof fn connecting_is_announced<P, T>(player: PlayerModel<P, T>)
    requires
        player.well_formed(),
    ensures
        player.connecting().newest_state() == StateModel::Connecting,
        player.connecting() == (PlayerModel {
            source: player.source.connecting(),
            states: pushed(player.states, player.state_capacity, StateModel::Connecting),
            ..player
        }),
{
}

/// What came of a build goes to the source, and nothing else of the player changes.
pub proof fn attaching_touches_the_source_alone<P, T>(
    player: PlayerModel<P, T>,
    built: Result<P, String>,
)
    ensures
        player.attached(built) == (PlayerModel { source: player.source.attached(built), ..player }),
{
}

/// What is left of a player that was disconnected: what the user typed and chose, and the room of
/// the queues. The source is as at its start.
pub proof fn a_disconnected_player_has_nothing<P, T>(player: PlayerModel<P, T>)
    ensures
        ({
            let after = player.disconnected();
            &&& after.source.pipeline is None
            &&& after.source.latest_frame is None
            &&& !after.source.is_running
            &&& after.source.state == StateModel::Disconnected
            &&& after.frames.len() == 0
            &&& after.states.len() == 0
            &&& !after.is_connected
            &&& after.status_text == "已断开"@
            &&& after.frame_count == 0
            &&& after.last_frame_size is None
            &&& after.texture is None
            &&& after.current_state == StateModel::Disconnected
            &&& after.rtsp_url == player.rtsp_url
            &&& after.use_hw_decoder == player.use_hw_decoder
            &&& after.frame_capacity == player.frame_capacity
            &&& after.state_capacity == player.state_capacity
        }),
{
}

/// A running player queues each frame with the very bytes, the width and the height of its sample,
/// behind those that wait, and its source keeps the same frame as its latest.
pub proof fn a_queued_frame_has_the_size_of_its_sample<P, T>(
    player: PlayerModel<P, T>,
    data: Vec<u8>,
    width: i32,
    height: i32,
)
    requires
        player.well_formed(),
        player.source.is_running,
        width >= 0,
        height >= 0,
    ensures
        ({
            let after = player.sampled(Sample::Readable { data, width, height });
            let queued = after.frames.last();
            &&& after.frames.len() > 0
            &&& queued.data == data@
            &&& queued.width == width
            &&& queued.height == height
            &&& after.source.latest_frame == Some(queued)
            &&& after.frames == pushed(player.frames, player.frame_capacity, queued)
        }),
{
}

/// What a sample comes to for the player: its source takes it; the frame that the source then has is
/// queued if the source runs and the sample can be read; and that the source plays is announced if
/// it was connecting until then. Nothing else of the player changes.
pub proof fn a_sample_reaches_the_queues<P, T>(player: PlayerModel<P, T>, sample: Sample)
    ensures
        ({
            let source = player.source.sampled(sample);
            let taken = player.source.is_running && sample is Readable;
            player.sampled(sample) == PlayerModel {
                source,
                frames: if taken {
                    pushed(player.frames, player.frame_capacity, source.latest_frame->0)
                } else {
                    player.frames
                },
                states: if taken && player.source.state == StateModel::Connecting {
                    pushed(player.states, player.state_capacity, StateModel::Playing)
                } else {
                    player.states
                },
                ..player
            }
        }),
{
}

/// A run of samples is its samples one after another.
pub proof fn samples_come_one_by_one<P, T>(
    player: PlayerModel<P, T>,
    samples: Seq<Sample>,
    sample: Sample,
)
    ensures
        player.sampled_all(seq![]) == player,
        player.sampled_all(samples.push(sample)) == player.sampled_all(samples).sampled(sample),
{
    assert(samples.push(sample).drop_last() =~= samples);
}

/// The end of a stream reaches the window, however much of it was shown.
pub proof fn the_end_of_a_stream_is_shown<P, T>(player: PlayerModel<P, T>)
    requires
        player.well_formed(),
        player.source.is_running,
    ensures
        ({
            let after = player.told(BusMessage::EndOfStream).status_updated();
            &&& after.current_state == StateModel::Disconnected
            &&& after.status_text == "未连接"@
            &&& after.source.state == StateModel::Disconnected
        }),
{
}

/// Each state to which a message moves the source is the newest that the player knows of and the
/// one that it shows next; a message that moves nothing changes nothing.
pub proof fn every_move_of_the_source_is_announced<P, T>(
    player: PlayerModel<P, T>,
    message: BusMessage,
)
    requires
        player.well_formed(),
    ensures
        ({
            let after = player.told(message);
            let moves = message is Error || (message is EndOfStream && player.source.is_running);
            &&& after.source == player.source.told(message)
            &&& moves ==> {
                &&& after.newest_state() == after.source.state
                &&& after.status_updated().current_state == after.source.state
                &&& after == PlayerModel {
                    source: after.source,
                    states: pushed(player.states, player.state_capacity, after.source.state),
                    ..player
                }
            }
            &&& !moves ==> after == player
        }),
{
}

/// The newest state is the last that waits, or the one that was read last when none does.
pub proof fn the_newest_state_is_the_last<P, T>(player: PlayerModel<P, T>)
    ensures
        player.states.len() > 0 ==> player.newest_state() == player.states.last(),
        player.states.len() == 0 ==> player.newest_state() == player.current_state,
{
}

/// A refresh reads every state that waits: the last one counts, the status line says it, and a
/// source that plays makes the player count as connected. Nothing else of the player changes.
pub proof fn a_refresh_reads_every_state<P, T>(player: PlayerModel<P, T>)
    ensures
        ({
            let state = if player.states.len() > 0 {
                player.states.last()
            } else {
                player.current_state
            };
            player.status_updated() == PlayerModel {
                states: Seq::<StateModel>::empty(),
                current_state: state,
                status_text: match state {
                    StateModel::Disconnected => "未连接"@,
                    StateModel::Connecting => "正在连接..."@,
                    StateModel::Playing => "播放中 | 帧数："@ + decimal(player.frame_count as nat),
                    StateModel::Error(message) => "错误："@ + message,
                },
                is_connected: player.is_connected || state is Playing,
                ..player
            }
        }),
{
}

/// To take the newest frame empties the queue, and to show it notes its size and counts it. Nothing
/// else of the player changes.
pub proof fn showing_a_frame_empties_the_queue<P, T>(player: PlayerModel<P, T>)
    ensures
        player.frame_taken() == (PlayerModel { frames: Seq::<FrameModel>::empty(), ..player }),
        player.frames.len() > 0 ==> player.frame_shown() == (PlayerModel {
            frames: Seq::<FrameModel>::empty(),
            last_frame_size: Some((player.frames.last().width, player.frames.last().height)),
            frame_count: if player.frame_count == u64::MAX {
                u64::MAX
            } else {
                (player.frame_count + 1) as u64
            },
            ..player
        }),
{
}

/// Each setter sets what it is for, and nothing else.
pub proof fn each_setter_sets_one_thing<P, T>(
    player: PlayerModel<P, T>,
    texture: T,
    url: Seq<char>,
    chosen: bool,
)
    ensures
        player.with_texture(texture) == (PlayerModel { texture: Some(texture), ..player }),
        player.with_rtsp_url(url) == (PlayerModel { rtsp_url: url, ..player }),
        player.with_use_hw_decoder(chosen) == (PlayerModel { use_hw_decoder: chosen, ..player }),
{
}

} // verus!
