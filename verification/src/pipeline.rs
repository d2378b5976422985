//! How the playback pipeline is put together.
//!
//! The pipeline is
//! `rtspsrc -> rtph264depay -> decoder -> videoconvert -> capsfilter(RGB) -> appsink`.
//! [`PipelineBuild`] says which step comes next; whoever owns the multimedia framework performs it
//! and reports how it went.

use vstd::prelude::*;
use vstd::string::*;

use crate::text::joined;
use crate::video_source::{ConfigModel, VideoSourceConfig};

verus! {

/// The H.264 decoders, in the order in which they are preferred.
#[derive(Clone, Copy, Debug, PartialEq, Eq, Structural)]
pub enum Decoder {
    Nvidia,
    Vaapi,
    Apple,
    Software,
}

/// The steps of a build, in order, and its two ends.
#[derive(Clone, Copy, Debug, PartialEq, Eq, Structural)]
pub enum Stage {
    MakeSource,
    MakeDepay,
    MakeDecoder,
    MakeConvert,
    MakeFilter,
    MakeSink,
    CastSink,
    AddElements,
    LinkElements,
    ConnectNewSample,
    FindSinkPad,
    ConnectPadAdded,
    /// The pipeline is complete.
    Finished,
    /// The build was given up, with a message for the caller.
    Failed,
}

/// The value of an element's property.
#[derive(Debug, PartialEq)]
pub enum PropertyValue {
    Text(String),
    Flag(bool),
    Number(u32),
    /// Capabilities: a media type with its `format` field.
    Caps { media: &'static str, format: &'static str },
}

/// What a [`PropertyValue`] holds.
#[verifier::ext_equal]
pub enum PropertyModel {
    Text(Seq<char>),
    Flag(bool),
    Number(u32),
    Caps { media: Seq<char>, format: Seq<char> },
}

impl View for PropertyValue {
    type V = PropertyModel;

    open spec fn view(&self) -> PropertyModel {
        match self {
            PropertyValue::Text(text) => PropertyModel::Text(text@),
            PropertyValue::Flag(flag) => PropertyModel::Flag(*flag),
            PropertyValue::Number(number) => PropertyModel::Number(*number),
            PropertyValue::Caps { media, format } => PropertyModel::Caps {
                media: media@,
                format: format@,
            },
        }
    }
}

/// A property to set while an element is made.
#[derive(Debug, PartialEq)]
pub struct Property {
    pub name: &'static str,
    pub value: PropertyValue,
}

/// The name and the value of each property, in the order in which they are set.
pub open spec fn properties_view(properties: Seq<Property>) -> Seq<(Seq<char>, PropertyModel)> {
    properties.map_values(|p: Property| (p.name@, p.value@))
}

/// The names, as text.
pub open spec fn names_view(names: Seq<&'static str>) -> Seq<Seq<char>> {
    names.map_values(|name: &'static str| name@)
}

/// What to do next.
#[derive(Debug, PartialEq)]
pub enum BuildAction {
    /// Make an element with these properties.
    MakeElement { factory: &'static str, properties: Vec<Property> },
    /// Use the sink that was made as an application sink.
    CastSink,
    /// Put the elements with these factories into the pipeline.
    AddElements(Vec<&'static str>),
    /// Link the elements with these factories, each to the one after it.
    LinkElements(Vec<&'static str>),
    /// Have the sink hand over each sample that arrives.
    ConnectNewSample,
    /// Look up the input pad of the depayloader.
    FindSinkPad,
    /// Have the source hand over each pad that appears.
    ConnectPadAdded,
    /// The pipeline is complete.
    Finish,
    /// Give up, with this error.
    Fail(String),
}

/// What a [`BuildAction`] holds.
#[verifier::ext_equal]
pub enum ActionModel {
    MakeElement { factory: Seq<char>, properties: Seq<(Seq<char>, PropertyModel)> },
    CastSink,
    AddElements(Seq<Seq<char>>),
    LinkElements(Seq<Seq<char>>),
    ConnectNewSample,
    FindSinkPad,
    ConnectPadAdded,
    Finish,
    Fail(Seq<char>),
}

impl View for BuildAction {
    type V = ActionModel;

    open spec fn view(&self) -> ActionModel {
        match self {
            BuildAction::MakeElement { factory, properties } => ActionModel::MakeElement {
                factory: factory@,
                properties: properties_view(properties@),
            },
            BuildAction::CastSink => ActionModel::CastSink,
            BuildAction::AddElements(names) => ActionModel::AddElements(names_view(names@)),
            BuildAction::LinkElements(names) => ActionModel::LinkElements(names_view(names@)),
            BuildAction::ConnectNewSample => ActionModel::ConnectNewSample,
            BuildAction::FindSinkPad => ActionModel::FindSinkPad,
            BuildAction::ConnectPadAdded => ActionModel::ConnectPadAdded,
            BuildAction::Finish => ActionModel::Finish,
            BuildAction::Fail(message) => ActionModel::Fail(message@),
        }
    }
}

/// Where a build stands.
#[verifier::ext_equal]
pub struct BuildModel {
    pub config: ConfigModel,
    /// The decoder that is being tried, or that was made.
    pub decoder: Decoder,
    pub stage: Stage,
    /// Why the build was given up; empty until it was.
    pub message: Seq<char>,
}

/// The factory of a decoder.
pub open spec fn decoder_factory(decoder: Decoder) -> Seq<char> {
    match decoder {
        Decoder::Nvidia => "nvh264dec"@,
        Decoder::Vaapi => "vaapih264dec"@,
        Decoder::Apple => "vtdec_h264"@,
        Decoder::Software => "avdec_h264"@,
    }
}

/// The decoder that is tried first.
pub open spec fn first_decoder(use_hw_decoder: bool) -> Decoder {
    if use_hw_decoder {
        Decoder::Nvidia
    } else {
        Decoder::Software
    }
}

/// The decoder that is tried when this one cannot be made.
pub open spec fn next_decoder(decoder: Decoder) -> Option<Decoder> {
    match decoder {
        Decoder::Nvidia => Some(Decoder::Vaapi),
        Decoder::Vaapi => Some(Decoder::Apple),
        Decoder::Apple => Some(Decoder::Software),
        Decoder::Software => None,
    }
}

/// The stage after this one, when it went well. The ends have none but themselves.
pub open spec fn next_stage(stage: Stage) -> Stage {
    match stage {
        Stage::MakeSource => Stage::MakeDepay,
        Stage::MakeDepay => Stage::MakeDecoder,
        Stage::MakeDecoder => Stage::MakeConvert,
        Stage::MakeConvert => Stage::MakeFilter,
        Stage::MakeFilter => Stage::MakeSink,
        Stage::MakeSink => Stage::CastSink,
        Stage::CastSink => Stage::AddElements,
        Stage::AddElements => Stage::LinkElements,
        Stage::LinkElements => Stage::ConnectNewSample,
        Stage::ConnectNewSample => Stage::FindSinkPad,
        Stage::FindSinkPad => Stage::ConnectPadAdded,
        Stage::ConnectPadAdded => Stage::Finished,
        Stage::Finished => Stage::Finished,
        Stage::Failed => Stage::Failed,
    }
}

/// The build is over.
pub open spec fn is_end(stage: Stage) -> bool {
    stage == Stage::Finished || stage == Stage::Failed
}

/// A signal handler can always be connected: these two stages have no way to go wrong.
pub open spec fn cannot_fail(stage: Stage) -> bool {
    stage == Stage::ConnectNewSample || stage == Stage::ConnectPadAdded
}

/// The error of a build whose step at `stage` went wrong, for the reason `detail`.
pub open spec fn failure_message(stage: Stage, detail: Seq<char>) -> Seq<char> {
    match stage {
        Stage::MakeSource => "无法创建 rtspsrc 元素："@ + detail,
        Stage::MakeDepay => "无法创建 rtph264depay 元素："@ + detail,
        Stage::MakeDecoder => "无法创建 avdec_h264 解码器："@ + detail,
        Stage::MakeConvert => "无法创建 videoconvert 元素："@ + detail,
        Stage::MakeFilter => "无法创建 capsfilter 元素："@ + detail,
        Stage::MakeSink => "无法创建 appsink 元素："@ + detail,
        Stage::CastSink => "无法将 appsink 转换为 AppSink 类型"@,
        Stage::AddElements => "添加元素到管道失败："@ + detail,
        Stage::LinkElements => "链接静态元素失败："@ + detail,
        Stage::FindSinkPad => "rtph264depay 没有 sink pad"@,
        _ => detail,
    }
}

/// The factories of a complete pipeline, from the network to the application.
pub open spec fn all_factories(decoder: Decoder) -> Seq<Seq<char>> {
    seq![
        "rtspsrc"@,
        "rtph264depay"@,
        decoder_factory(decoder),
        "videoconvert"@,
        "capsfilter"@,
        "appsink"@,
    ]
}

/// Those that are linked in advance: the source gets its pads only once it is connected.
pub open spec fn static_factories(decoder: Decoder) -> Seq<Seq<char>> {
    all_factories(decoder).skip(1)
}

/// The properties of the RTSP source: a live stream, five seconds until TCP gives up, no latency.
pub open spec fn source_properties(rtsp_url: Seq<char>) -> Seq<(Seq<char>, PropertyModel)> {
    seq![
        ("location"@, PropertyModel::Text(rtsp_url)),
        ("is-live"@, PropertyModel::Flag(true)),
        ("tcp-timeout"@, PropertyModel::Number(5000)),
        ("latency"@, PropertyModel::Number(0)),
    ]
}

/// The property of the filter that lets nothing but RGB pass.
pub open spec fn filter_properties() -> Seq<(Seq<char>, PropertyModel)> {
    seq![("caps"@, PropertyModel::Caps { media: "video/x-raw"@, format: "RGB"@ })]
}

/// The properties of the sink: it keeps the newest frame alone, and announces it.
pub open spec fn sink_properties() -> Seq<(Seq<char>, PropertyModel)> {
    seq![
        ("drop"@, PropertyModel::Flag(true)),
        ("max-buffers"@, PropertyModel::Number(1)),
        ("emit-signals"@, PropertyModel::Flag(true)),
    ]
}

/// An element without properties of its own.
pub open spec fn plain_element(factory: Seq<char>) -> ActionModel {
    ActionModel::MakeElement { factory, properties: seq![] }
}

impl BuildModel {
    /// A build at its start.
    pub open spec fn started(config: ConfigModel) -> BuildModel {
        BuildModel {
            config,
            decoder: first_decoder(config.use_hw_decoder),
            stage: Stage::MakeSource,
            message: seq![],
        }
    }

    /// What is to be done.
    pub open spec fn action(self) -> ActionModel {
        match self.stage {
            Stage::MakeSource => ActionModel::MakeElement {
                factory: "rtspsrc"@,
                properties: source_properties(self.config.rtsp_url),
            },
            Stage::MakeDepay => plain_element("rtph264depay"@),
            Stage::MakeDecoder => plain_element(decoder_factory(self.decoder)),
            Stage::MakeConvert => plain_element("videoconvert"@),
            Stage::MakeFilter => ActionModel::MakeElement {
                factory: "capsfilter"@,
                properties: filter_properties(),
            },
            Stage::MakeSink => ActionModel::MakeElement {
                factory: "appsink"@,
                properties: sink_properties(),
            },
            Stage::CastSink => ActionModel::CastSink,
            Stage::AddElements => ActionModel::AddElements(all_factories(self.decoder)),
            Stage::LinkElements => ActionModel::LinkElements(static_factories(self.decoder)),
            Stage::ConnectNewSample => ActionModel::ConnectNewSample,
            Stage::FindSinkPad => ActionModel::FindSinkPad,
            Stage::ConnectPadAdded => ActionModel::ConnectPadAdded,
            Stage::Finished => ActionModel::Finish,
            Stage::Failed => ActionModel::Fail(self.message),
        }
    }

    /// Hardware decoding was asked for, and only the software decoder is left to try.
    pub open spec fn falls_back_to_software(self) -> bool {
        &&& self.stage == Stage::MakeDecoder
        &&& self.decoder == Decoder::Software
        &&& self.config.use_hw_decoder
    }

    /// The build after its step went well.
    pub open spec fn succeeded(self) -> BuildModel {
        BuildModel { stage: next_stage(self.stage), ..self }
    }

    /// The build after its step went wrong.
    pub open spec fn went_wrong(self, detail: Seq<char>) -> BuildModel {
        if is_end(self.stage) || cannot_fail(self.stage) {
            self.succeeded()
        } else if self.stage == Stage::MakeDecoder && next_decoder(self.decoder) is Some {
            BuildModel { decoder: next_decoder(self.decoder)->0, ..self }
        } else {
            BuildModel {
                stage: Stage::Failed,
                message: failure_message(self.stage, detail),
                ..self
            }
        }
    }

    /// The build after its step had this outcome.
    pub open spec fn reported(self, outcome: Result<(), Seq<char>>) -> BuildModel {
        match outcome {
            Ok(_) => self.succeeded(),
            Err(detail) => self.went_wrong(detail),
        }
    }

    /// The build after a run of outcomes.
    pub open spec fn run(self, outcomes: Seq<Result<(), Seq<char>>>) -> BuildModel
        decreases outcomes.len(),
    {
        if outcomes.len() == 0 {
            self
        } else {
            self.run(outcomes.drop_last()).reported(outcomes.last())
        }
    }
}

/// The outcome of a step, with the text of its error.
pub open spec fn outcome_view(outcome: Result<(), String>) -> Result<(), Seq<char>> {
    match outcome {
        Ok(_) => Ok(()),
        Err(detail) => Err(detail@),
    }
}

/// A pipeline that is being built.
#[derive(Debug)]
pub struct PipelineBuild {
    config: VideoSourceConfig,
    decoder: Decoder,
    stage: Stage,
    message: String,
}

impl View for PipelineBuild {
    type V = BuildModel;

    closed spec fn view(&self) -> BuildModel {
        BuildModel {
            config: self.config@,
            decoder: self.decoder,
            stage: self.stage,
            message: self.message@,
        }
    }
}

/// The factory of a decoder.
fn factory_of(decoder: Decoder) -> (factory: &'static str)
    ensures
        factory@ == decoder_factory(decoder),
{
    match decoder {
        Decoder::Nvidia => "nvh264dec",
        Decoder::Vaapi => "vaapih264dec",
        Decoder::Apple => "vtdec_h264",
        Decoder::Software => "avdec_h264",
    }
}

/// A step that makes an element without properties of its own.
fn make_plain(factory: &'static str) -> (action: BuildAction)
    ensures
        action@ == plain_element(factory@),
{
    let action = BuildAction::MakeElement { factory, properties: Vec::new() };
    assert(action@ =~= plain_element(factory@));
    action
}

/// The step that makes the RTSP source.
fn make_source(rtsp_url: &String) -> (action: BuildAction)
    ensures
        action@ == (ActionModel::MakeElement {
            factory: "rtspsrc"@,
            properties: source_properties(rtsp_url@),
        }),
{
    let properties: Vec<Property> = vec![
        Property { name: "location", value: PropertyValue::Text(rtsp_url.clone()) },
        Property { name: "is-live", value: PropertyValue::Flag(true) },
        Property { name: "tcp-timeout", value: PropertyValue::Number(5000) },
        Property { name: "latency", value: PropertyValue::Number(0) },
    ];
    assert(properties_view(properties@) =~= source_properties(rtsp_url@));
    BuildAction::MakeElement { factory: "rtspsrc", properties }
}

/// The step that makes the filter for RGB.
fn make_filter() -> (action: BuildAction)
    ensures
        action@ == (ActionModel::MakeElement {
            factory: "capsfilter"@,
            properties: filter_properties(),
        }),
{
    let properties: Vec<Property> = vec![
        Property {
            name: "caps",
            value: PropertyValue::Caps { media: "video/x-raw", format: "RGB" },
        },
    ];
    assert(properties_view(properties@) =~= filter_properties());
    BuildAction::MakeElement { factory: "capsfilter", properties }
}

/// The step that makes the sink.
fn make_sink() -> (action: BuildAction)
    ensures
        action@ == (ActionModel::MakeElement {
            factory: "appsink"@,
            properties: sink_properties(),
        }),
{
    let properties: Vec<Property> = vec![
        Property { name: "drop", value: PropertyValue::Flag(true) },
        Property { name: "max-buffers", value: PropertyValue::Number(1) },
        Property { name: "emit-signals", value: PropertyValue::Flag(true) },
    ];
    assert(properties_view(properties@) =~= sink_properties());
    BuildAction::MakeElement { factory: "appsink", properties }
}

impl PipelineBuild {
    /// Starts a build for this configuration.
    pub fn new(config: &VideoSourceConfig) -> (build: PipelineBuild)
        ensures
            build@ == BuildModel::started(config@),
    {
        let decoder = if config.use_hw_decoder {
            Decoder::Nvidia
        } else {
            Decoder::Software
        };
        let build = PipelineBuild {
            config: config.clone(),
            decoder,
            stage: Stage::MakeSource,
            message: String::new(),
        };
        assert(build@ =~= BuildModel::started(config@));
        build
    }

    /// What to do next.
    pub fn action(&self) -> (action: BuildAction)
        ensures
            action@ == self@.action(),
    {
        match self.stage {
            Stage::MakeSource => make_source(&self.config.rtsp_url),
            Stage::MakeDepay => make_plain("rtph264depay"),
            Stage::MakeDecoder => make_plain(factory_of(self.decoder)),
            Stage::MakeConvert => make_plain("videoconvert"),
            Stage::MakeFilter => make_filter(),
            Stage::MakeSink => make_sink(),
            Stage::CastSink => BuildAction::CastSink,
            Stage::AddElements => {
                let names: Vec<&'static str> = vec![
                    "rtspsrc",
                    "rtph264depay",
                    factory_of(self.decoder),
                    "videoconvert",
                    "capsfilter",
                    "appsink",
                ];
                assert(names_view(names@) =~= all_factories(self.decoder));
                BuildAction::AddElements(names)
            },
            Stage::LinkElements => {
                let names: Vec<&'static str> = vec![
                    "rtph264depay",
                    factory_of(self.decoder),
                    "videoconvert",
                    "capsfilter",
                    "appsink",
                ];
                assert(names_view(names@) =~= static_factories(self.decoder));
                BuildAction::LinkElements(names)
            },
            Stage::ConnectNewSample => BuildAction::ConnectNewSample,
            Stage::FindSinkPad => BuildAction::FindSinkPad,
            Stage::ConnectPadAdded => BuildAction::ConnectPadAdded,
            Stage::Finished => BuildAction::Finish,
            Stage::Failed => BuildAction::Fail(self.message.clone()),
        }
    }

    /// Whether the next step is the fallback from hardware to software decoding.
    pub fn falls_back_to_software(&self) -> (falls_back: bool)
        ensures
            falls_back == self@.falls_back_to_software(),
    {
        self.stage == Stage::MakeDecoder && self.decoder == Decoder::Software
            && self.config.use_hw_decoder
    }

    /// Moves to the next stage.
    fn advance(&mut self)
        ensures
            final(self)@ == old(self)@.succeeded(),
    {
        self.stage = match self.stage {
            Stage::MakeSource => Stage::MakeDepay,
            Stage::MakeDepay => Stage::MakeDecoder,
            Stage::MakeDecoder => Stage::MakeConvert,
            Stage::MakeConvert => Stage::MakeFilter,
            Stage::MakeFilter => Stage::MakeSink,
            Stage::MakeSink => Stage::CastSink,
            Stage::CastSink => Stage::AddElements,
            Stage::AddElements => Stage::LinkElements,
            Stage::LinkElements => Stage::ConnectNewSample,
            Stage::ConnectNewSample => Stage::FindSinkPad,
            Stage::FindSinkPad => Stage::ConnectPadAdded,
            Stage::ConnectPadAdded => Stage::Finished,
            Stage::Finished => Stage::Finished,
            Stage::Failed => Stage::Failed,
            };
    }

    /// Gives the build up.
    fn give_up(&mut self, message: String)
        ensures
            final(self)@ == (BuildModel { stage: Stage::Failed, message: message@, ..old(self)@ }),
    {
        self.stage = Stage::Failed;
        self.message = message;
    }

    /// Takes a failure to make the decoder: the next one is tried, as long as there is one.
    fn decoder_missing(&mut self, detail: &str)
        requires
            old(self)@.stage == Stage::MakeDecoder,
        ensures
            final(self)@ == old(self)@.went_wrong(detail@),
    {
        match self.decoder {
            Decoder::Nvidia => {
                self.decoder = Decoder::Vaapi;
            },
            Decoder::Vaapi => {
                self.decoder = Decoder::Apple;
            },
            Decoder::Apple => {
                self.decoder = Decoder::Software;
            },
            Decoder::Software => {
                self.give_up(joined("无法创建 avdec_h264 解码器：", detail));
            },
        }
    }

    /// Takes the outcome of the last action, the error as text.
    pub fn report(&mut self, outcome: Result<(), String>)
        ensures
            final(self)@ == old(self)@.reported(outcome_view(outcome)),
    {
        match outcome {
            Ok(_) => {
                self.advance();
            },
            Err(detail) => {
                let detail = detail.as_str();
                match self.stage {
                    Stage::MakeSource => {
                        self.give_up(joined("无法创建 rtspsrc 元素：", detail));
                    },
                    Stage::MakeDepay => {
                        self.give_up(joined("无法创建 rtph264depay 元素：", detail));
                    },
                    Stage::MakeDecoder => {
                        self.decoder_missing(detail);
                    },
                    Stage::MakeConvert => {
                        self.give_up(joined("无法创建 videoconvert 元素：", detail));
                    },
                    Stage::MakeFilter => {
                        self.give_up(joined("无法创建 capsfilter 元素：", detail));
                    },
                    Stage::MakeSink => {
                        self.give_up(joined("无法创建 appsink 元素：", detail));
                    },
                    Stage::CastSink => {
                        self.give_up("无法将 appsink 转换为 AppSink 类型".to_owned());
                    },
                    Stage::AddElements => {
                        self.give_up(joined("添加元素到管道失败：", detail));
                    },
                    Stage::LinkElements => {
                        self.give_up(joined("链接静态元素失败：", detail));
                    },
                    Stage::FindSinkPad => {
                        self.give_up("rtph264depay 没有 sink pad".to_owned());
                    },
                    _ => {
                        self.advance();
                    },
                }
            },
        }
    }
}

/// Whether to link a pad that the source has just got to the depayloader, whose input pad is linked
/// already or is not. A linked pad is left alone.
pub fn links_new_pad(is_linked: bool) -> (link: bool)
    ensures
        link == !is_linked,
{
    !is_linked
}

/// The decoders in the order in which a build with hardware decoding tries them.
pub open spec fn decoder_order() -> Seq<Decoder> {
    seq![Decoder::Nvidia, Decoder::Vaapi, Decoder::Apple, Decoder::Software]
}

/// The stages of a build in which everything goes well, in order.
pub open spec fn stage_order() -> Seq<Stage> {
    seq![
        Stage::MakeSource,
        Stage::MakeDepay,
        Stage::MakeDecoder,
        Stage::MakeConvert,
        Stage::MakeFilter,
        Stage::MakeSink,
        Stage::CastSink,
        Stage::AddElements,
        Stage::LinkElements,
        Stage::ConnectNewSample,
        Stage::FindSinkPad,
        Stage::ConnectPadAdded,
        Stage::Finished,
    ]
}

/// The steps of a build in which everything goes well, with the decoder that is used.
pub open spec fn plan(config: ConfigModel, decoder: Decoder) -> Seq<ActionModel> {
    seq![
        ActionModel::MakeElement {
            factory: "rtspsrc"@,
            properties: source_properties(config.rtsp_url),
        },
        plain_element("rtph264depay"@),
        plain_element(decoder_factory(decoder)),
        plain_element("videoconvert"@),
        ActionModel::MakeElement { factory: "capsfilter"@, properties: filter_properties() },
        ActionModel::MakeElement { factory: "appsink"@, properties: sink_properties() },
        ActionModel::CastSink,
        ActionModel::AddElements(all_factories(decoder)),
        ActionModel::LinkElements(static_factories(decoder)),
        ActionModel::ConnectNewSample,
        ActionModel::FindSinkPad,
        ActionModel::ConnectPadAdded,
        ActionModel::Finish,
    ]
}

/// Nothing but successes.
pub open spec fn all_well(outcomes: Seq<Result<(), Seq<char>>>) -> bool {
    forall|i: int| 0 <= i < outcomes.len() ==> #[trigger] outcomes[i] is Ok
}

/// Nothing but failures.
pub open spec fn all_wrong(outcomes: Seq<Result<(), Seq<char>>>) -> bool {
    forall|i: int| 0 <= i < outcomes.len() ==> #[trigger] outcomes[i] is Err
}

/// A bound on the steps that a build has before it.
pub open spec fn steps_left(build: BuildModel) -> nat {
    let decoders_left: nat = match build.decoder {
        Decoder::Nvidia => 3,
        Decoder::Vaapi => 2,
        Decoder::Apple => 1,
        Decoder::Software => 0,
    };
    match build.stage {
        Stage::MakeSource => decoders_left + 12,
        Stage::MakeDepay => decoders_left + 11,
        Stage::MakeDecoder => decoders_left + 10,
        Stage::MakeConvert => 9,
        Stage::MakeFilter => 8,
        Stage::MakeSink => 7,
        Stage::CastSink => 6,
        Stage::AddElements => 5,
        Stage::LinkElements => 4,
        Stage::ConnectNewSample => 3,
        Stage::FindSinkPad => 2,
        Stage::ConnectPadAdded => 1,
        Stage::Finished => 0,
        Stage::Failed => 0,
    }
}

/// A run may be cut anywhere: its outcomes one by one lead where they lead together.
pub proof fn runs_compose(
    build: BuildModel,
    first: Seq<Result<(), Seq<char>>>,
    second: Seq<Result<(), Seq<char>>>,
)
    ensures
        build.run(first + second) == build.run(first).run(second),
    decreases second.len(),
{
    if second.len() == 0 {
        assert(first + second =~= first);
    } else {
        runs_compose(build, first, second.drop_last());
        assert((first + second).drop_last() =~= first + second.drop_last());
    }
}

/// Nothing that is reported to a build that is over changes it.
pub proof fn an_ended_build_stays(build: BuildModel, outcome: Result<(), Seq<char>>)
    requires
        is_end(build.stage),
    ensures
        build.reported(outcome) == build,
{
}

/// Every build ends, whatever is reported to it: a report to one that is not over uses up one of
/// the steps that are left.
pub proof fn every_report_uses_a_step(build: BuildModel, outcome: Result<(), Seq<char>>)
    requires
        !is_end(build.stage),
    ensures
        steps_left(build.reported(outcome)) < steps_left(build),
{
}

/// Fifteen reports end any build: twelve steps, and three more decoders to try.
pub proof fn every_build_ends(config: ConfigModel, outcomes: Seq<Result<(), Seq<char>>>)
    requires
        outcomes.len() >= 15,
    ensures
        is_end(BuildModel::started(config).run(outcomes).stage),
{
    lemma_steps_are_used(config, outcomes);
}

proof fn lemma_steps_are_used(config: ConfigModel, outcomes: Seq<Result<(), Seq<char>>>)
    ensures
        ({
            let build = BuildModel::started(config).run(outcomes);
            is_end(build.stage) || steps_left(build) + outcomes.len() <= 15
        }),
    decreases outcomes.len(),
{
    if outcomes.len() > 0 {
        lemma_steps_are_used(config, outcomes.drop_last());
        let build = BuildModel::started(config).run(outcomes.drop_last());
        if is_end(build.stage) {
            an_ended_build_stays(build, outcomes.last());
        } else {
            every_report_uses_a_step(build, outcomes.last());
        }
    }
}

/// While everything goes well, a build follows the plan for its decoder step by step, from whatever
/// stage it is at, until it finishes.
pub proof fn a_smooth_build_follows_the_plan(
    build: BuildModel,
    at: int,
    outcomes: Seq<Result<(), Seq<char>>>,
)
    requires
        0 <= at,
        at + outcomes.len() < stage_order().len(),
        build.stage == stage_order()[at],
        all_well(outcomes),
    ensures
        build.run(outcomes) == (BuildModel { stage: stage_order()[at + outcomes.len()], ..build }),
        build.run(outcomes).action() == plan(build.config, build.decoder)[at + outcomes.len()],
    decreases outcomes.len(),
{
    if outcomes.len() > 0 {
        a_smooth_build_follows_the_plan(build, at, outcomes.drop_last());
        assert(outcomes.last() is Ok);
    }
}

/// With hardware decoding, the decoders are tried in order of preference, and the first one that
/// can be made is used: once the source and the depayloader are made, as many failures as there are
/// decoders before it lead to it, and from its success on the build follows the plan with it.
pub proof fn the_first_available_decoder_is_used(
    config: ConfigModel,
    made: Seq<Result<(), Seq<char>>>,
    tried: Seq<Result<(), Seq<char>>>,
    rest: Seq<Result<(), Seq<char>>>,
)
    requires
        config.use_hw_decoder,
        made.len() == 2,
        all_well(made),
        tried.len() < decoder_order().len(),
        all_wrong(tried),
        rest.len() <= 10,
        all_well(rest),
    ensures
        ({
            let chosen = decoder_order()[tried.len() as int];
            &&& BuildModel::started(config).run(made + tried).action() == plain_element(
                decoder_factory(chosen),
            )
            &&& BuildModel::started(config).run(made + tried + rest).action() == plan(
                config,
                chosen,
            )[2 + rest.len() as int]
        }),
{
    let started = BuildModel::started(config);
    a_smooth_build_follows_the_plan(started, 0, made);
    runs_compose(started, made, tried);
    lemma_decoders_in_order(started.run(made), tried);
    runs_compose(started, made + tried, rest);
    a_smooth_build_follows_the_plan(started.run(made + tried), 2, rest);
}

proof fn lemma_decoders_in_order(build: BuildModel, tried: Seq<Result<(), Seq<char>>>)
    requires
        build.stage == Stage::MakeDecoder,
        build.decoder == Decoder::Nvidia,
        tried.len() < decoder_order().len(),
        all_wrong(tried),
    ensures
        build.run(tried) == (BuildModel { decoder: decoder_order()[tried.len() as int], ..build }),
    decreases tried.len(),
{
    if tried.len() > 0 {
        lemma_decoders_in_order(build, tried.drop_last());
        assert(tried.last() is Err);
    }
}

/// When no decoder at all can be made, the build fails and says why, with hardware decoding as
/// without.
pub proof fn no_decoder_fails_the_build(
    config: ConfigModel,
    made: Seq<Result<(), Seq<char>>>,
    tried: Seq<Result<(), Seq<char>>>,
    detail: Seq<char>,
)
    requires
        made.len() == 2,
        all_well(made),
        tried.len() == (if config.use_hw_decoder {
            3nat
        } else {
            0nat
        }),
        all_wrong(tried),
    ensures
        BuildModel::started(config).run((made + tried).push(Err(detail))).action()
            == ActionModel::Fail(failure_message(Stage::MakeDecoder, detail)),
{
    let started = BuildModel::started(config);
    a_smooth_build_follows_the_plan(started, 0, made);
    runs_compose(started, made, tried);
    if config.use_hw_decoder {
        lemma_decoders_in_order(started.run(made), tried);
    }
    let outcomes = (made + tried).push(Err::<(), Seq<char>>(detail));
    assert(outcomes.drop_last() =~= made + tried);
}

/// Without hardware decoding no other decoder than the software one is ever asked for.
pub proof fn software_builds_use_the_software_decoder(
    config: ConfigModel,
    outcomes: Seq<Result<(), Seq<char>>>,
)
    requires
        !config.use_hw_decoder,
    ensures
        BuildModel::started(config).run(outcomes).config == config,
        BuildModel::started(config).run(outcomes).decoder == Decoder::Software,
    decreases outcomes.len(),
{
    if outcomes.len() > 0 {
        software_builds_use_the_software_decoder(config, outcomes.drop_last());
    }
}

/// The failure of any other step that can fail ends the build with that step's error.
pub proof fn a_failed_step_fails_the_build(build: BuildModel, detail: Seq<char>)
    requires
        !is_end(build.stage),
        !cannot_fail(build.stage),
        build.stage != Stage::MakeDecoder,
    ensures
        build.went_wrong(detail).action() == ActionModel::Fail(
            failure_message(build.stage, detail),
        ),
{
}

} // verus!
