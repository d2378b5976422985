//! The video source: its configuration, its state, and what it does with the samples and messages
//! that the multimedia framework delivers.

use vstd::prelude::*;
use vstd::string::*;

use crate::frame::{frame_view, FrameModel, VideoFrame};
use crate::pipeline::{BuildModel, PipelineBuild};
use crate::text::joined;

verus! {

/// What a video source is doing.
#[derive(Debug, PartialEq)]
pub enum VideoSourceState {
    /// Not connected.
    Disconnected,
    /// Connecting.
    Connecting,
    /// Connected and playing.
    Playing,
    /// Something went wrong.
    Error(String),
}

/// What a [`VideoSourceState`] holds.
#[verifier::ext_equal]
pub enum StateModel {
    Disconnected,
    Connecting,
    Playing,
    Error(Seq<char>),
}

impl View for VideoSourceState {
    type V = StateModel;

    open spec fn view(&self) -> StateModel {
        match self {
            VideoSourceState::Disconnected => StateModel::Disconnected,
            VideoSourceState::Connecting => StateModel::Connecting,
            VideoSourceState::Playing => StateModel::Playing,
            VideoSourceState::Error(message) => StateModel::Error(message@),
        }
    }
}

impl Clone for VideoSourceState {
    /// The copy is the same state, with the same message.
    fn clone(&self) -> (copy: Self)
        ensures
            copy@ == self@,
    {
        match self {
            VideoSourceState::Disconnected => VideoSourceState::Disconnected,
            VideoSourceState::Connecting => VideoSourceState::Connecting,
            VideoSourceState::Playing => VideoSourceState::Playing,
            VideoSourceState::Error(message) => VideoSourceState::Error(message.clone()),
        }
    }
}

/// What to play, and how to decode it.
#[derive(Debug)]
pub struct VideoSourceConfig {
    /// The RTSP address.
    pub rtsp_url: String,
    /// Whether to try the hardware decoders first.
    pub use_hw_decoder: bool,
}

/// What a [`VideoSourceConfig`] holds.
#[verifier::ext_equal]
pub struct ConfigModel {
    pub rtsp_url: Seq<char>,
    pub use_hw_decoder: bool,
}

impl View for VideoSourceConfig {
    type V = ConfigModel;

    open spec fn view(&self) -> ConfigModel {
        ConfigModel { rtsp_url: self.rtsp_url@, use_hw_decoder: self.use_hw_decoder }
    }
}

impl Clone for VideoSourceConfig {
    /// The copy holds the same values.
    fn clone(&self) -> (copy: Self)
        ensures
            copy@ == self@,
    {
        VideoSourceConfig { rtsp_url: self.rtsp_url.clone(), use_hw_decoder: self.use_hw_decoder }
    }
}

/// What the sink gave when it was asked for the sample that it had announced.
#[derive(Debug)]
pub enum Sample {
    /// No sample.
    Missing,
    /// A sample whose buffer could not be read.
    Unreadable,
    /// The bytes of a sample, with the width and the height that its capabilities name.
    Readable { data: Vec<u8>, width: i32, height: i32 },
}

/// The answer to the sink.
#[derive(Clone, Copy, Debug, PartialEq, Eq, Structural)]
pub enum Flow {
    /// Go on.
    Continue,
    /// The source is stopped: no more samples.
    Flushing,
    /// There was no sample.
    Error,
}

/// A message on the pipeline's bus.
#[derive(Debug)]
pub enum BusMessage {
    /// An error, with its text.
    Error(String),
    Warning,
    /// The stream is at its end.
    EndOfStream,
    StateChanged,
    Other,
}

/// The unsigned number of the same 32 bits.
pub open spec fn as_unsigned(n: i32) -> u32 {
    if n >= 0 {
        n as u32
    } else {
        (n + 0x1_0000_0000) as u32
    }
}

/// The frame in a sample.
pub open spec fn frame_of(sample: Sample) -> Option<FrameModel> {
    match sample {
        Sample::Readable { data, width, height } => Some(
            FrameModel { data: data@, width: as_unsigned(width), height: as_unsigned(height) },
        ),
        _ => None,
    }
}

/// The state to which a message moves a source that runs or does not.
pub open spec fn state_after(message: BusMessage, is_running: bool) -> Option<StateModel> {
    match message {
        BusMessage::Error(text) => Some(StateModel::Error("错误："@ + text@)),
        BusMessage::EndOfStream if is_running => Some(StateModel::Disconnected),
        _ => None,
    }
}

/// What an optional state holds.
pub open spec fn state_view(state: Option<VideoSourceState>) -> Option<StateModel> {
    match state {
        Some(state) => Some(state@),
        None => None,
    }
}

/// What came of connecting: the error of the build, or else that of the start.
pub open spec fn connect_outcome<P>(
    built: Result<P, String>,
    started: Result<(), String>,
) -> Result<(), String> {
    match (built, started) {
        (Err(error), _) => Err(error),
        (Ok(_), Err(error)) => Err(error),
        (Ok(_), Ok(_)) => Ok(()),
    }
}

/// What a [`VideoSource`] holds.
#[verifier::ext_equal]
#[verifier::reject_recursive_types(P)]
pub struct SourceModel<P> {
    pub pipeline: Option<P>,
    pub latest_frame: Option<FrameModel>,
    pub is_running: bool,
    pub state: StateModel,
}

impl<P> SourceModel<P> {
    /// A source that nothing has happened to.
    pub open spec fn fresh() -> SourceModel<P> {
        SourceModel {
            pipeline: None,
            latest_frame: None,
            is_running: false,
            state: StateModel::Disconnected,
        }
    }

    /// The source while its pipeline is being built.
    pub open spec fn connecting(self) -> SourceModel<P> {
        SourceModel { is_running: true, state: StateModel::Connecting, ..self }
    }

    /// The source with the pipeline that was built, if one was. A pipeline that did not start is
    /// held too, so that it is shut down with the source.
    pub open spec fn attached(self, built: Result<P, String>) -> SourceModel<P> {
        match built {
            Ok(pipeline) => SourceModel { pipeline: Some(pipeline), ..self },
            Err(_) => self,
        }
    }

    /// The frame that the source takes from a sample: none once it is stopped.
    pub open spec fn accepted(self, sample: Sample) -> Option<FrameModel> {
        if self.is_running {
            frame_of(sample)
        } else {
            None
        }
    }

    /// A frame tells a source that is connecting that it is connected and plays.
    pub open spec fn starts_to_play(self, sample: Sample) -> bool {
        self.accepted(sample) is Some && self.state == StateModel::Connecting
    }

    /// The source after a sample.
    pub open spec fn sampled(self, sample: Sample) -> SourceModel<P> {
        match self.accepted(sample) {
            Some(frame) => SourceModel {
                latest_frame: Some(frame),
                state: if self.state == StateModel::Connecting {
                    StateModel::Playing
                } else {
                    self.state
                },
                ..self
            },
            None => self,
        }
    }

    /// The answer to a sample.
    pub open spec fn flow(self, sample: Sample) -> Flow {
        if !self.is_running {
            Flow::Flushing
        } else if sample is Missing {
            Flow::Error
        } else {
            Flow::Continue
        }
    }

    /// The source after a message.
    pub open spec fn told(self, message: BusMessage) -> SourceModel<P> {
        match state_after(message, self.is_running) {
            Some(state) => SourceModel { state, ..self },
            None => self,
        }
    }
}

/// A video source with a pipeline of type `P`.
pub struct VideoSource<P> {
    pipeline: Option<P>,
    latest_frame: Option<VideoFrame>,
    is_running: bool,
    state: VideoSourceState,
}

impl<P> View for VideoSource<P> {
    type V = SourceModel<P>;

    closed spec fn view(&self) -> SourceModel<P> {
        SourceModel {
            pipeline: self.pipeline,
            latest_frame: frame_view(self.latest_frame),
            is_running: self.is_running,
            state: self.state@,
        }
    }
}

/// The unsigned number of the same 32 bits.
fn to_unsigned(n: i32) -> (unsigned: u32)
    ensures
        unsigned == as_unsigned(n),
{
    assert(n < 0 ==> n as u32 == n + 0x1_0000_0000) by (bit_vector);
    n as u32
}

impl<P> VideoSource<P> {
    /// A source that is not connected.
    pub fn new() -> (source: Self)
        ensures
            source@ == SourceModel::<P>::fresh(),
    {
        VideoSource {
            pipeline: None,
            latest_frame: None,
            is_running: false,
            state: VideoSourceState::Disconnected,
        }
    }

    /// A copy of the newest frame.
    pub fn get_latest_frame(&self) -> (frame: Option<VideoFrame>)
        ensures
            frame_view(frame) == self@.latest_frame,
    {
        match &self.latest_frame {
            Some(frame) => Some(frame.clone()),
            None => None,
        }
    }

    /// The state.
    pub fn get_state(&self) -> (state: VideoSourceState)
        ensures
            state@ == self@.state,
    {
        self.state.clone()
    }

    /// Whether samples are taken.
    pub fn is_running(&self) -> (is: bool)
        ensures
            is == self@.is_running,
    {
        self.is_running
    }

    /// Whether the source is connecting.
    pub fn is_connecting(&self) -> (is: bool)
        ensures
            is == (self@.state == StateModel::Connecting),
    {
        match &self.state {
            VideoSourceState::Connecting => true,
            _ => false,
        }
    }

    /// Replaces the state.
    fn set_state(&mut self, state: VideoSourceState)
        ensures
            final(self)@ == (SourceModel { state: state@, ..old(self)@ }),
    {
        self.state = state;
    }

    /// Starts to connect. The build that comes back says how the pipeline is put together; what
    /// came of it goes to [`VideoSource::attach`].
    pub fn connect(&mut self, config: &VideoSourceConfig) -> (build: PipelineBuild)
        ensures
            final(self)@ == old(self)@.connecting(),
            build@ == BuildModel::started(config@),
    {
        self.set_state(VideoSourceState::Connecting);
        self.is_running = true;
        PipelineBuild::new(config)
    }

    /// Takes the pipeline that was built, and whether it could be set playing. What comes back is
    /// the error of the build, after which the source is as it was, or that of the start, after
    /// which the source holds the pipeline until it is disconnected.
    pub fn attach(&mut self, built: Result<P, String>, started: Result<(), String>) -> (outcome:
        Result<(), String>)
        ensures
            final(self)@ == old(self)@.attached(built),
            outcome == connect_outcome(built, started),
    {
        match built {
            Ok(pipeline) => {
                self.pipeline = Some(pipeline);
                match started {
                    Ok(_) => Ok(()),
                    Err(error) => Err(error),
                }
            },
            Err(error) => Err(error),
        }
    }

    /// Stops the source and forgets its frame. The pipeline that comes back has to be shut down.
    pub fn disconnect(&mut self) -> (pipeline: Option<P>)
        ensures
            pipeline == old(self)@.pipeline,
            final(self)@ == SourceModel::<P>::fresh(),
    {
        self.is_running = false;
        let pipeline = self.pipeline.take();
        self.latest_frame = None;
        self.set_state(VideoSourceState::Disconnected);
        pipeline
    }

    /// Takes a sample, and answers the sink.
    pub fn new_sample(&mut self, sample: Sample) -> (flow: Flow)
        ensures
            final(self)@ == old(self)@.sampled(sample),
            flow == old(self)@.flow(sample),
    {
        if !self.is_running {
            return Flow::Flushing;
        }
        match sample {
            Sample::Missing => Flow::Error,
            Sample::Unreadable => Flow::Continue,
            Sample::Readable { data, width, height } => {
                let frame = VideoFrame {
                    data,
                    width: to_unsigned(width),
                    height: to_unsigned(height),
                };
                self.latest_frame = Some(frame);
                if self.is_connecting() {
                    self.set_state(VideoSourceState::Playing);
                }
                Flow::Continue
            },
        }
    }

    /// Takes a message from the bus. What comes back is the state to which it moved the source, if
    /// it did.
    pub fn bus_message(&mut self, message: BusMessage) -> (moved: Option<VideoSourceState>)
        ensures
            final(self)@ == old(self)@.told(message),
            state_view(moved) == state_after(message, old(self)@.is_running),
    {
        match message {
            BusMessage::Error(text) => {
                self.set_state(VideoSourceState::Error(joined("错误：", text.as_str())));
                Some(self.state.clone())
            },
            BusMessage::EndOfStream => {
                if self.is_running {
                    self.set_state(VideoSourceState::Disconnected);
                    Some(VideoSourceState::Disconnected)
                } else {
                    None
                }
            },
            _ => None,
        }
    }
}

impl<P> Default for VideoSource<P> {
    /// The same as [`VideoSource::new`].
    fn default() -> (source: Self)
        ensures
            source@ == SourceModel::<P>::fresh(),
    {
        VideoSource::new()
    }
}

/// A running source gives back the frame of the last readable sample.
pub proof fn the_last_frame_is_given_back<P>(source: SourceModel<P>, sample: Sample)
    requires
        source.is_running,
        sample is Readable,
    ensures
        source.sampled(sample).latest_frame == frame_of(sample),
        frame_of(sample) is Some,
        source.flow(sample) == Flow::Continue,
{
}

/// A sample without readable bytes leaves the source as it was.
pub proof fn an_unreadable_sample_changes_nothing<P>(source: SourceModel<P>, sample: Sample)
    requires
        !(sample is Readable),
    ensures
        source.sampled(sample) == source,
{
}

/// A source that is stopped takes no frame, whatever the sink still delivers, and tells it so.
pub proof fn a_stopped_source_takes_no_frame<P>(source: SourceModel<P>, sample: Sample)
    requires
        !source.is_running,
    ensures
        source.sampled(sample) == source,
        source.flow(sample) == Flow::Flushing,
{
}

/// An end of stream that arrives once the source is stopped means nothing.
pub proof fn a_late_end_of_stream_means_nothing<P>(source: SourceModel<P>)
    requires
        !source.is_running,
    ensures
        source.told(BusMessage::EndOfStream) == source,
{
}

/// A source that connects and takes a frame plays: it goes on doing so with every sample, and until
/// a message tells of an error or of the end of the stream.
pub proof fn a_source_that_takes_frames_plays<P>(
    source: SourceModel<P>,
    built: Result<P, String>,
    sample: Sample,
    later: Sample,
    message: BusMessage,
)
    requires
        sample is Readable,
        !(message is Error),
        !(message is EndOfStream),
    ensures
        ({
            let playing = source.connecting().attached(built).sampled(sample);
            &&& playing.state == StateModel::Playing
            &&& playing.sampled(later).state == StateModel::Playing
            &&& playing.told(message).state == StateModel::Playing
        }),
{
}

/// A frame never hides an error or the end of the stream: only a source that is connecting starts
/// to play.
pub proof fn a_frame_hides_no_error<P>(source: SourceModel<P>, sample: Sample)
    requires
        source.state != StateModel::Connecting,
    ensures
        source.sampled(sample).state == source.state,
{
}

/// Samples and messages may come in either order. Samples touch neither the pipeline nor whether
/// the source runs, and of the state only that a source which was connecting plays; messages touch
/// nothing but the state.
pub proof fn samples_and_messages_do_not_mix<P>(
    source: SourceModel<P>,
    sample: Sample,
    message: BusMessage,
)
    ensures
        source.sampled(sample).told(message) == source.told(message).sampled(sample),
        source.sampled(sample).state == (if source.starts_to_play(sample) {
            StateModel::Playing
        } else {
            source.state
        }),
        source.sampled(sample).pipeline == source.pipeline,
        source.sampled(sample).is_running == source.is_running,
        source.told(message).latest_frame == source.latest_frame,
        source.told(message).pipeline == source.pipeline,
        source.told(message).is_running == source.is_running,
{
}

/// A pipeline that was built is held whether or not it could be started, so that disconnecting
/// hands it back to be shut down; connecting succeeds only when it was built and started.
pub proof fn a_built_pipeline_is_held<P>(
    source: SourceModel<P>,
    built: Result<P, String>,
    started: Result<(), String>,
)
    ensures
        built matches Ok(pipeline) ==> source.attached(built).pipeline == Some(pipeline),
        built is Err ==> source.attached(built) == source,
        connect_outcome(built, started) is Ok <==> built is Ok && started is Ok,
{
}

} // verus!
