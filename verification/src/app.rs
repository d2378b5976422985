//! The player behind the user interface: what it shows, and what it does when it is asked to
//! connect, to disconnect or to refresh.

use crossbeam::queue::ArrayQueue;
use vstd::prelude::*;
use vstd::string::*;

use crate::frame::{frame_view, FrameModel, VideoFrame};
use crate::image::{convert_rgbx_to_color_image, drawable, is_drawable, pixels_of, ColorImage};
use crate::pipeline::{BuildModel, PipelineBuild};
use crate::queue::{
    frame_capacity, frames_in, new_frame_queue, new_state_queue, pop_frame, pop_state, push_frame,
    push_state, pushed, pushed_all, state_capacity, states_in, the_newest_items_are_kept,
};
use crate::text::{blank, decimal, decimal_text, is_blank, joined};
use crate::video_source::{
    BusMessage, ConfigModel, Flow, Sample, SourceModel, StateModel, VideoSource, VideoSourceConfig,
    VideoSourceState, connect_outcome, frame_of, state_after,
};

verus! {

/// How many frames, and how many states, wait for the user interface.
pub const QUEUE_CAPACITY: usize = 3;

/// The status line for a state.
pub open spec fn status_line(state: StateModel, frame_count: u64) -> Seq<char> {
    match state {
        StateModel::Disconnected => "未连接"@,
        StateModel::Connecting => "正在连接..."@,
        StateModel::Playing => "播放中 | 帧数："@ + decimal(frame_count as nat),
        StateModel::Error(message) => "错误："@ + message,
    }
}

/// The line that tells the size of the last frame, or zeros before there was one.
pub open spec fn resolution_line(size: Option<(u32, u32)>) -> Seq<char> {
    let (width, height) = match size {
        Some(size) => size,
        None => (0u32, 0u32),
    };
    "分辨率："@ + "("@ + decimal(width as nat) + ", "@ + decimal(height as nat) + ")"@
}

/// What a [`RtspPlayerApp`] holds.
#[verifier::ext_equal]
#[verifier::reject_recursive_types(P)]
#[verifier::reject_recursive_types(T)]
pub struct PlayerModel<P, T> {
    pub source: SourceModel<P>,
    /// The frames that wait to be shown, the oldest first.
    pub frames: Seq<FrameModel>,
    pub frame_capacity: nat,
    /// The states that wait to be read, the oldest first.
    pub states: Seq<StateModel>,
    pub state_capacity: nat,
    pub rtsp_url: Seq<char>,
    pub is_connected: bool,
    pub status_text: Seq<char>,
    pub use_hw_decoder: bool,
    pub frame_count: u64,
    pub last_frame_size: Option<(u32, u32)>,
    pub texture: Option<T>,
    pub current_state: StateModel,
}

impl<P, T> PlayerModel<P, T> {
    /// Both queues have the room that they were made with, and hold no more than that.
    pub open spec fn well_formed(self) -> bool {
        &&& self.frame_capacity == QUEUE_CAPACITY
        &&& self.frames.len() <= self.frame_capacity
        &&& self.state_capacity == QUEUE_CAPACITY
        &&& self.states.len() <= self.state_capacity
    }

    /// A player that nothing has happened to.
    pub open spec fn fresh() -> PlayerModel<P, T> {
        PlayerModel {
            source: SourceModel::fresh(),
            frames: seq![],
            frame_capacity: QUEUE_CAPACITY as nat,
            states: seq![],
            state_capacity: QUEUE_CAPACITY as nat,
            rtsp_url: seq![],
            is_connected: false,
            status_text: "未连接"@,
            use_hw_decoder: false,
            frame_count: 0,
            last_frame_size: None,
            texture: None,
            current_state: StateModel::Disconnected,
        }
    }

    /// The player after it was asked to connect. Without an address it asks for one; with one it
    /// counts as connected from here on.
    pub open spec fn asked_to_connect(self) -> PlayerModel<P, T> {
        if blank(self.rtsp_url) {
            PlayerModel { status_text: "请输入 RTSP 地址"@, ..self }
        } else {
            PlayerModel { is_connected: true, status_text: "正在连接..."@, ..self }
        }
    }

    /// What the player connects to when it is asked to: the address as it was typed.
    pub open spec fn wanted(self) -> Option<ConfigModel> {
        if blank(self.rtsp_url) {
            None
        } else {
            Some(ConfigModel { rtsp_url: self.rtsp_url, use_hw_decoder: self.use_hw_decoder })
        }
    }

    /// The player after a state was queued for it.
    pub open spec fn announced(self, state: StateModel) -> PlayerModel<P, T> {
        PlayerModel { states: pushed(self.states, self.state_capacity, state), ..self }
    }

    /// The player while the pipeline of its source is being built.
    pub open spec fn connecting(self) -> PlayerModel<P, T> {
        PlayerModel { source: self.source.connecting(), ..self }.announced(StateModel::Connecting)
    }

    /// The player after the build of its source's pipeline.
    pub open spec fn attached(self, built: Result<P, String>) -> PlayerModel<P, T> {
        PlayerModel { source: self.source.attached(built), ..self }
    }

    /// The player after it was disconnected. The address and the decoder option stay.
    pub open spec fn disconnected(self) -> PlayerModel<P, T> {
        PlayerModel {
            source: SourceModel::fresh(),
            frames: seq![],
            states: seq![],
            is_connected: false,
            status_text: "已断开"@,
            frame_count: 0,
            last_frame_size: None,
            texture: None,
            current_state: StateModel::Disconnected,
            ..self
        }
    }

    /// The player after a sample: a frame that its source takes is queued too, and so is the news
    /// that the source plays.
    pub open spec fn sampled(self, sample: Sample) -> PlayerModel<P, T> {
        let sampled = PlayerModel {
            source: self.source.sampled(sample),
            frames: match self.source.accepted(sample) {
                Some(frame) => pushed(self.frames, self.frame_capacity, frame),
                None => self.frames,
            },
            ..self
        };
        if self.source.starts_to_play(sample) {
            sampled.announced(StateModel::Playing)
        } else {
            sampled
        }
    }

    /// The player after a run of samples.
    pub open spec fn sampled_all(self, samples: Seq<Sample>) -> PlayerModel<P, T>
        decreases samples.len(),
    {
        if samples.len() == 0 {
            self
        } else {
            self.sampled_all(samples.drop_last()).sampled(samples.last())
        }
    }

    /// The player after a message from the bus: a state to which it moves the source is queued.
    pub open spec fn told(self, message: BusMessage) -> PlayerModel<P, T> {
        let told = PlayerModel { source: self.source.told(message), ..self };
        match state_after(message, self.source.is_running) {
            Some(state) => told.announced(state),
            None => told,
        }
    }

    /// The newest state that the player knows of.
    pub open spec fn newest_state(self) -> StateModel {
        if self.states.len() > 0 {
            self.states.last()
        } else {
            self.current_state
        }
    }

    /// The player after it read its states: the newest one counts.
    pub open spec fn status_updated(self) -> PlayerModel<P, T> {
        PlayerModel {
            states: seq![],
            current_state: self.newest_state(),
            status_text: status_line(self.newest_state(), self.frame_count),
            is_connected: self.is_connected || self.newest_state() == StateModel::Playing,
            ..self
        }
    }

    /// The player after it took the newest frame out of its queue. The frames before it are late
    /// and go with it.
    pub open spec fn frame_taken(self) -> PlayerModel<P, T> {
        PlayerModel { frames: seq![], ..self }
    }

    /// The player after the newest frame was shown, and counted as far as the counter goes.
    pub open spec fn frame_shown(self) -> PlayerModel<P, T> {
        PlayerModel {
            last_frame_size: Some((self.frames.last().width, self.frames.last().height)),
            frame_count: if self.frame_count < u64::MAX {
                (self.frame_count + 1) as u64
            } else {
                self.frame_count
            },
            ..self.frame_taken()
        }
    }

    /// The player with this texture.
    pub open spec fn with_texture(self, texture: T) -> PlayerModel<P, T> {
        PlayerModel { texture: Some(texture), ..self }
    }

    /// The player with this address.
    pub open spec fn with_rtsp_url(self, url: Seq<char>) -> PlayerModel<P, T> {
        PlayerModel { rtsp_url: url, ..self }
    }

    /// The player with hardware decoding chosen, or not.
    pub open spec fn with_use_hw_decoder(self, chosen: bool) -> PlayerModel<P, T> {
        PlayerModel { use_hw_decoder: chosen, ..self }
    }
}

/// The newest of the frames in a queue, or the one that was held before them.
spec fn newest_frame(frames: Seq<FrameModel>, held: Option<FrameModel>) -> Option<FrameModel> {
    if frames.len() > 0 {
        Some(frames.last())
    } else {
        held
    }
}

/// The picture of a frame.
pub open spec fn is_picture_of(image: ColorImage, frame: FrameModel) -> bool {
    &&& image.size@ == seq![frame.width as usize, frame.height as usize]
    &&& image.pixels@ == pixels_of(frame)
}

/// The status line for a state.
pub fn status_line_text(state: &VideoSourceState, frame_count: u64) -> (text: String)
    ensures
        text@ == status_line(state@, frame_count),
{
    match state {
        VideoSourceState::Disconnected => "未连接".to_owned(),
        VideoSourceState::Connecting => "正在连接...".to_owned(),
        VideoSourceState::Playing => joined("播放中 | 帧数：", decimal_text(frame_count).as_str()),
        VideoSourceState::Error(message) => joined("错误：", message.as_str()),
    }
}

/// What to do in the picture area.
#[derive(Debug)]
pub enum FrameUpdate {
    /// No frame has arrived: show that the player waits.
    Waiting,
    /// Show this image of this size, in a texture that has to be created, or in the one there is.
    Show { image: ColorImage, size: (u32, u32), create_texture: bool },
    /// The frame's bytes do not fit its size: it cannot be drawn.
    Undrawable(VideoFrame),
}

/// What a press of the button calls for.
#[derive(Debug)]
pub enum ButtonPress<P> {
    /// The source was disconnected: shut its pipeline down, if there is one.
    Stop(Option<P>),
    /// Connect with this configuration.
    Start(VideoSourceConfig),
    /// Nothing: there is no address yet.
    Nothing,
}

/// What an optional configuration holds.
pub open spec fn config_view(config: Option<VideoSourceConfig>) -> Option<ConfigModel> {
    match config {
        Some(config) => Some(config@),
        None => None,
    }
}

/// What the frames hold.
spec fn frame_models(frames: Seq<VideoFrame>) -> Seq<FrameModel> {
    frames.map_values(|frame: VideoFrame| frame@)
}

/// What the states hold.
spec fn state_models(states: Seq<VideoSourceState>) -> Seq<StateModel> {
    states.map_values(|state: VideoSourceState| state@)
}

/// An RTSP player, with pipelines of type `P` and textures of type `T`.
pub struct RtspPlayerApp<P, T> {
    video_source: VideoSource<P>,
    frame_queue: ArrayQueue<VideoFrame>,
    state_queue: ArrayQueue<VideoSourceState>,
    rtsp_url: String,
    is_connected: bool,
    status_text: String,
    use_hw_decoder: bool,
    frame_count: u64,
    last_frame_size: Option<(u32, u32)>,
    texture: Option<T>,
    current_state: VideoSourceState,
}

impl<P, T> View for RtspPlayerApp<P, T> {
    type V = PlayerModel<P, T>;

    closed spec fn view(&self) -> PlayerModel<P, T> {
        PlayerModel {
            source: self.video_source@,
            frames: frame_models(frames_in(self.frame_queue)),
            frame_capacity: frame_capacity(self.frame_queue),
            states: state_models(states_in(self.state_queue)),
            state_capacity: state_capacity(self.state_queue),
            rtsp_url: self.rtsp_url@,
            is_connected: self.is_connected,
            status_text: self.status_text@,
            use_hw_decoder: self.use_hw_decoder,
            frame_count: self.frame_count,
            last_frame_size: self.last_frame_size,
            texture: self.texture,
            current_state: self.current_state@,
        }
    }
}

impl<P, T> RtspPlayerApp<P, T> {
    /// A player that is not connected.
    pub fn new() -> (player: Self)
        ensures
            player@ == PlayerModel::<P, T>::fresh(),
            player@.well_formed(),
    {
        let player = RtspPlayerApp {
            video_source: VideoSource::new(),
            frame_queue: new_frame_queue(QUEUE_CAPACITY),
            state_queue: new_state_queue(QUEUE_CAPACITY),
            rtsp_url: String::new(),
            is_connected: false,
            status_text: "未连接".to_owned(),
            use_hw_decoder: false,
            frame_count: 0,
            last_frame_size: None,
            texture: None,
            current_state: VideoSourceState::Disconnected,
        };
        assert(player@ =~= PlayerModel::<P, T>::fresh());
        player
    }

    /// Asks the player to connect to the address that was typed. What comes back is the
    /// configuration to connect with, unless there is no address yet.
    pub fn try_connect(&mut self) -> (config: Option<VideoSourceConfig>)
        ensures
            final(self)@ == old(self)@.asked_to_connect(),
            config_view(config) == old(self)@.wanted(),
    {
        if is_blank(self.rtsp_url.as_str()) {
            self.status_text = "请输入 RTSP 地址".to_owned();
            return None;
        }
        let config = VideoSourceConfig {
            rtsp_url: self.rtsp_url.clone(),
            use_hw_decoder: self.use_hw_decoder,
        };
        self.is_connected = true;
        self.status_text = "正在连接...".to_owned();
        Some(config)
    }

    /// Queues a state for the next refresh.
    pub fn announce(&mut self, state: VideoSourceState)
        ensures
            final(self)@ == old(self)@.announced(state@),
    {
        let ghost before = states_in(self.state_queue);
        let _ = push_state(&mut self.state_queue, state);
        assert(state_models(states_in(self.state_queue)) =~= pushed(
            state_models(before),
            old(self)@.state_capacity,
            state@,
        ));
    }

    /// Starts to connect the source. The build that comes back says how its pipeline is put
    /// together; what came of it goes to [`RtspPlayerApp::attach`].
    pub fn connect(&mut self, config: &VideoSourceConfig) -> (build: PipelineBuild)
        ensures
            final(self)@ == old(self)@.connecting(),
            build@ == BuildModel::started(config@),
    {
        let build = self.video_source.connect(config);
        self.announce(VideoSourceState::Connecting);
        build
    }

    /// Takes the pipeline that was built, and whether it could be set playing. What comes back is
    /// the error of the build or of the start.
    pub fn attach(&mut self, built: Result<P, String>, started: Result<(), String>) -> (outcome:
        Result<(), String>)
        ensures
            final(self)@ == old(self)@.attached(built),
            outcome == connect_outcome(built, started),
    {
        self.video_source.attach(built, started)
    }

    /// Empties the state queue, and keeps the newest state of it.
    fn take_newest_state(&mut self)
        ensures
            final(self)@ == (PlayerModel {
                states: seq![],
                current_state: old(self)@.newest_state(),
                ..old(self)@
            }),
    {
        loop
            invariant_except_break
                self@ == (PlayerModel {
                    states: self@.states,
                    current_state: self@.current_state,
                    ..old(self)@
                }),
                self@.newest_state() == old(self)@.newest_state(),
            ensures
                self@ == (PlayerModel {
                    states: seq![],
                    current_state: old(self)@.newest_state(),
                    ..old(self)@
                }),
            decreases states_in(self.state_queue).len(),
        {
            match pop_state(&mut self.state_queue) {
                Some(state) => {
                    self.current_state = state;
                },
                None => {
                    assert(self@.states =~= seq![]);
                    break;
                },
            }
        }
    }

    /// Disconnects the source and forgets what it has shown. The pipeline that comes back has to be
    /// shut down.
    pub fn disconnect(&mut self) -> (pipeline: Option<P>)
        ensures
            final(self)@ == old(self)@.disconnected(),
            pipeline == old(self)@.source.pipeline,
    {
        let pipeline = self.video_source.disconnect();
        self.is_connected = false;
        self.status_text = "已断开".to_owned();
        self.frame_count = 0;
        self.last_frame_size = None;
        self.texture = None;
        let _ = self.take_newest_frame();
        self.take_newest_state();
        self.current_state = VideoSourceState::Disconnected;
        pipeline
    }

    /// Takes a sample, and answers the sink.
    pub fn new_sample(&mut self, sample: Sample) -> (flow: Flow)
        ensures
            final(self)@ == old(self)@.sampled(sample),
            flow == old(self)@.source.flow(sample),
    {
        let is_frame = self.video_source.is_running() && match &sample {
            Sample::Readable { .. } => true,
            _ => false,
        };
        let starts_to_play = is_frame && self.video_source.is_connecting();
        let flow = self.video_source.new_sample(sample);
        if is_frame {
            if let Some(frame) = self.video_source.get_latest_frame() {
                let ghost before = frames_in(self.frame_queue);
                let _ = push_frame(&mut self.frame_queue, frame);
                assert(frame_models(frames_in(self.frame_queue)) =~= pushed(
                    frame_models(before),
                    old(self)@.frame_capacity,
                    frame@,
                ));
            }
        }
        if starts_to_play {
            self.announce(VideoSourceState::Playing);
        }
        flow
    }

    /// Takes a message from the bus.
    pub fn bus_message(&mut self, message: BusMessage)
        ensures
            final(self)@ == old(self)@.told(message),
    {
        if let Some(state) = self.video_source.bus_message(message) {
            self.announce(state);
        }
    }

    /// Reads the states that were queued, and renews the status line.
    pub fn update_status(&mut self)
        ensures
            final(self)@ == old(self)@.status_updated(),
    {
        self.take_newest_state();
        let playing = match &self.current_state {
            VideoSourceState::Playing => true,
            _ => false,
        };
        self.status_text = status_line_text(&self.current_state, self.frame_count);
        if playing && !self.is_connected {
            self.is_connected = true;
        }
    }

    /// Draws a frame.
    fn draw(frame: VideoFrame) -> (drawn: (ColorImage, (u32, u32)))
        requires
            drawable(frame@),
        ensures
            is_picture_of(drawn.0, frame@),
            drawn.1 == (frame.width, frame.height),
    {
        let size = (frame.width, frame.height);
        (convert_rgbx_to_color_image(frame), size)
    }

    /// Empties the frame queue, and keeps the newest frame of it.
    fn take_newest_frame(&mut self) -> (frame: Option<VideoFrame>)
        ensures
            final(self)@ == old(self)@.frame_taken(),
            frame_view(frame) == (if old(self)@.frames.len() > 0 {
                Some(old(self)@.frames.last())
            } else {
                None
            }),
    {
        let mut newest: Option<VideoFrame> = None;
        loop
            invariant_except_break
                self@ == (PlayerModel { frames: self@.frames, ..old(self)@ }),
                newest_frame(self@.frames, frame_view(newest)) == newest_frame(
                    old(self)@.frames,
                    None,
                ),
            ensures
                self@ == old(self)@.frame_taken(),
                frame_view(newest) == newest_frame(old(self)@.frames, None),
            decreases frames_in(self.frame_queue).len(),
        {
            match pop_frame(&mut self.frame_queue) {
                Some(frame) => {
                    newest = Some(frame);
                },
                None => {
                    assert(self@.frames =~= seq![]);
                    break;
                },
            }
        }
        newest
    }

    /// Takes the newest frame out of the queue, with all that came before it, and draws it, which
    /// it must allow. What comes back is the image and the size of the frame.
    pub fn get_frame_as_color_image(&mut self) -> (drawn: Option<(ColorImage, (u32, u32))>)
        requires
            old(self)@.frames.len() > 0 ==> drawable(old(self)@.frames.last()),
        ensures
            final(self)@ == old(self)@.frame_taken(),
            drawn is Some == (old(self)@.frames.len() > 0),
            drawn matches Some((image, size)) ==> is_picture_of(image, old(self)@.frames.last())
                && size == (old(self)@.frames.last().width, old(self)@.frames.last().height),
    {
        match self.take_newest_frame() {
            Some(frame) => Some(Self::draw(frame)),
            None => None,
        }
    }

    /// Takes the newest frame out of the queue, with all that came before it, and says what to do
    /// in the picture area.
    pub fn refresh_frame(&mut self) -> (update: FrameUpdate)
        ensures
            ({
                let before = old(self)@;
                let newest = before.frames.last();
                if before.frames.len() == 0 {
                    &&& update is Waiting
                    &&& final(self)@ == before
                } else if drawable(newest) {
                    &&& update matches FrameUpdate::Show { image, size, create_texture }
                    &&& is_picture_of(image, newest)
                    &&& size == (newest.width, newest.height)
                    &&& create_texture == (before.texture is None)
                    &&& final(self)@ == before.frame_shown()
                } else {
                    &&& update matches FrameUpdate::Undrawable(frame)
                    &&& frame@ == newest
                    &&& final(self)@ == before.frame_taken()
                }
            }),
    {
        match self.take_newest_frame() {
            Some(frame) => {
                if !is_drawable(&frame) {
                    return FrameUpdate::Undrawable(frame);
                }
                let (image, size) = Self::draw(frame);
                self.last_frame_size = Some(size);
                if self.frame_count < u64::MAX {
                    self.frame_count = self.frame_count + 1;
                }
                FrameUpdate::Show { image, size, create_texture: self.texture.is_none() }
            },
            None => {
                assert(self@ =~= old(self)@);
                FrameUpdate::Waiting
            },
        }
    }

    /// Takes a press of the button, which disconnects a connected player and connects another.
    pub fn press_button(&mut self) -> (press: ButtonPress<P>)
        ensures
            ({
                let before = old(self)@;
                if before.is_connected {
                    &&& press matches ButtonPress::Stop(pipeline)
                    &&& pipeline == before.source.pipeline
                    &&& final(self)@ == before.disconnected()
                } else {
                    &&& final(self)@ == before.asked_to_connect()
                    &&& match before.wanted() {
                        Some(wanted) => {
                            &&& press matches ButtonPress::Start(config)
                            &&& config@ == wanted
                        },
                        None => press is Nothing,
                    }
                }
            }),
    {
        if self.is_connected {
            ButtonPress::Stop(self.disconnect())
        } else {
            match self.try_connect() {
                Some(config) => ButtonPress::Start(config),
                None => ButtonPress::Nothing,
            }
        }
    }

    /// What is written on the button.
    pub fn button_label(&self) -> (label: &'static str)
        ensures
            label@ == (if self@.is_connected {
                "断开"@
            } else {
                "连接"@
            }),
    {
        if self.is_connected {
            "断开"
        } else {
            "连接"
        }
    }

    /// The line that tells the size of the last frame.
    pub fn resolution_text(&self) -> (text: String)
        ensures
            text@ == resolution_line(self@.last_frame_size),
    {
        let (width, height) = match self.last_frame_size {
            Some(size) => size,
            None => (0u32, 0u32),
        };
        let mut text = joined("分辨率：", "(");
        text.append(decimal_text(width as u64).as_str());
        text.append(", ");
        text.append(decimal_text(height as u64).as_str());
        text.append(")");
        text
    }

    /// The texture that shows the video.
    pub fn texture(&self) -> (texture: &Option<T>)
        ensures
            *texture == self@.texture,
    {
        &self.texture
    }

    /// Keeps the texture that was created for the video.
    pub fn set_texture(&mut self, texture: T)
        ensures
            final(self)@ == old(self)@.with_texture(texture),
    {
        self.texture = Some(texture);
    }

    /// The video source.
    pub fn video_source(&self) -> (source: &VideoSource<P>)
        ensures
            source@ == self@.source,
    {
        &self.video_source
    }

    /// Whether the player counts as connected.
    pub fn is_connected(&self) -> (is: bool)
        ensures
            is == self@.is_connected,
    {
        self.is_connected
    }

    /// The status line.
    pub fn status_text(&self) -> (text: &str)
        ensures
            text@ == self@.status_text,
    {
        self.status_text.as_str()
    }

    /// The newest state that was read.
    pub fn current_state(&self) -> (state: VideoSourceState)
        ensures
            state@ == self@.current_state,
    {
        self.current_state.clone()
    }

    /// How many frames were shown since the player was last disconnected.
    pub fn frame_count(&self) -> (count: u64)
        ensures
            count == self@.frame_count,
    {
        self.frame_count
    }

    /// The size of the last frame that was shown.
    pub fn last_frame_size(&self) -> (size: Option<(u32, u32)>)
        ensures
            size == self@.last_frame_size,
    {
        self.last_frame_size
    }

    /// The address that was typed.
    pub fn rtsp_url(&self) -> (url: &str)
        ensures
            url@ == self@.rtsp_url,
    {
        self.rtsp_url.as_str()
    }

    /// Replaces the address.
    pub fn set_rtsp_url(&mut self, url: String)
        ensures
            final(self)@ == old(self)@.with_rtsp_url(url@),
    {
        self.rtsp_url = url;
    }

    /// Whether hardware decoding is chosen.
    pub fn use_hw_decoder(&self) -> (chosen: bool)
        ensures
            chosen == self@.use_hw_decoder,
    {
        self.use_hw_decoder
    }

    /// Chooses hardware decoding, or not.
    pub fn set_use_hw_decoder(&mut self, chosen: bool)
        ensures
            final(self)@ == old(self)@.with_use_hw_decoder(chosen),
    {
        self.use_hw_decoder = chosen;
    }
}

impl<P, T> Default for RtspPlayerApp<P, T> {
    /// The same as [`RtspPlayerApp::new`].
    fn default() -> (player: Self)
        ensures
            player@ == PlayerModel::<P, T>::fresh(),
    {
        RtspPlayerApp::new()
    }
}

/// Every operation keeps the queues within their capacities.
pub proof fn every_operation_keeps_the_player_well_formed<P, T>(
    player: PlayerModel<P, T>,
    sample: Sample,
    message: BusMessage,
    built: Result<P, String>,
    state: StateModel,
    texture: T,
    url: Seq<char>,
    chosen: bool,
)
    requires
        player.well_formed(),
    ensures
        PlayerModel::<P, T>::fresh().well_formed(),
        player.announced(state).well_formed(),
        player.with_texture(texture).well_formed(),
        player.with_rtsp_url(url).well_formed(),
        player.with_use_hw_decoder(chosen).well_formed(),
        player.asked_to_connect().well_formed(),
        player.connecting().well_formed(),
        player.attached(built).well_formed(),
        player.disconnected().well_formed(),
        player.sampled(sample).well_formed(),
        player.told(message).well_formed(),
        player.status_updated().well_formed(),
        player.frame_taken().well_formed(),
        player.frame_shown().well_formed(),
{
}

/// Whatever happened before, a player that was disconnected is, but for what the user typed and
/// chose and for the status line, as it was at the start.
pub proof fn disconnecting_starts_over<P, T>(player: PlayerModel<P, T>)
    requires
        player.well_formed(),
    ensures
        player.disconnected() == (PlayerModel {
            rtsp_url: player.rtsp_url,
            use_hw_decoder: player.use_hw_decoder,
            status_text: "已断开"@,
            ..PlayerModel::<P, T>::fresh()
        }),
{
}

/// To disconnect twice is to disconnect once.
pub proof fn disconnecting_is_idempotent<P, T>(player: PlayerModel<P, T>)
    ensures
        player.disconnected().disconnected() == player.disconnected(),
{
}

/// Connecting and then disconnecting leaves no trace of the attempt, however it went.
pub proof fn disconnecting_undoes_connecting<P, T>(
    player: PlayerModel<P, T>,
    built: Result<P, String>,
)
    ensures
        player.asked_to_connect().connecting().attached(built).disconnected()
            == player.disconnected(),
{
}

/// After a disconnection no frame that the old pipeline still delivers is taken or shown: samples
/// are refused, and an end of stream is ignored. An error on the bus that comes late is another
/// matter: it is still announced, but brings no frame.
pub proof fn no_frame_arrives_after_a_disconnection<P, T>(
    player: PlayerModel<P, T>,
    sample: Sample,
    message: BusMessage,
)
    ensures
        player.disconnected().sampled(sample) == player.disconnected(),
        player.disconnected().source.flow(sample) == Flow::Flushing,
        player.disconnected().told(BusMessage::EndOfStream) == player.disconnected(),
        player.disconnected().told(message).sampled(sample) == player.disconnected().told(message),
        player.disconnected().told(message).frames == Seq::<FrameModel>::empty(),
        player.disconnected().told(message).source.latest_frame is None,
{
}

/// The state that was announced last is the one that the next refresh shows, however many came
/// before it.
pub proof fn the_newest_state_is_shown<P, T>(player: PlayerModel<P, T>, state: StateModel)
    requires
        player.well_formed(),
    ensures
        player.announced(state).status_updated().current_state == state,
        player.announced(state).status_updated().status_text == status_line(
            state,
            player.frame_count,
        ),
{
}

/// A refresh without news changes nothing more.
pub proof fn refreshing_is_idempotent<P, T>(player: PlayerModel<P, T>)
    ensures
        player.status_updated().status_updated() == player.status_updated(),
{
}

/// A player that learns that its source plays counts as connected; no other state changes that.
pub proof fn playing_counts_as_connected<P, T>(player: PlayerModel<P, T>)
    ensures
        player.newest_state() == StateModel::Playing ==> player.status_updated().is_connected,
        player.newest_state() != StateModel::Playing ==> player.status_updated().is_connected
            == player.is_connected,
{
}

/// An error on the bus reaches the status line at the next refresh.
pub proof fn an_error_is_shown<P, T>(player: PlayerModel<P, T>, text: String)
    requires
        player.well_formed(),
    ensures
        player.told(BusMessage::Error(text)).status_updated().status_text == "错误："@ + ("错误："@
            + text@),
{
}

/// Without an address nothing is connected, and nothing but the status line changes.
pub proof fn a_blank_address_connects_nothing<P, T>(player: PlayerModel<P, T>)
    requires
        blank(player.rtsp_url),
    ensures
        player.wanted() is None,
        player.asked_to_connect() == (PlayerModel {
            status_text: "请输入 RTSP 地址"@,
            ..player
        }),
{
}

/// A player whose source was connecting learns from the first frame that it plays: the next refresh
/// says so, with the count of the frames that were shown, and the player counts as connected.
pub proof fn a_playing_source_is_shown<P, T>(player: PlayerModel<P, T>, sample: Sample)
    requires
        player.well_formed(),
        player.source.is_running,
        player.source.state == StateModel::Connecting,
        sample is Readable,
    ensures
        player.sampled(sample).status_updated().current_state == StateModel::Playing,
        player.sampled(sample).status_updated().status_text == "播放中 | 帧数："@ + decimal(
            player.frame_count as nat,
        ),
        player.sampled(sample).status_updated().is_connected,
{
}

/// Each frame that is shown is counted, until the counter is full; a disconnection starts the count
/// anew.
pub proof fn shown_frames_are_counted<P, T>(player: PlayerModel<P, T>)
    ensures
        player.frame_count < u64::MAX ==> player.frame_shown().frame_count == player.frame_count
            + 1,
        player.frame_count == u64::MAX ==> player.frame_shown().frame_count == u64::MAX,
        player.frame_taken().frame_count == player.frame_count,
        player.disconnected().frame_count == 0,
{
}

/// The newest frame that a running player was given is the one that is shown next, however many
/// came before it; once it is shown, none of those is left to be shown after it.
pub proof fn the_newest_frame_is_shown_next<P, T>(player: PlayerModel<P, T>, samples: Seq<Sample>)
    requires
        player.well_formed(),
        player.source.is_running,
        samples.len() > 0,
        forall|i: int| 0 <= i < samples.len() ==> #[trigger] samples[i] is Readable,
    ensures
        ({
            let given = player.sampled_all(samples);
            &&& frame_of(samples.last()) matches Some(frame)
            &&& given.frames.len() > 0
            &&& given.frames.last() == frame
            &&& given.source.latest_frame == Some(frame)
            &&& given.frame_shown().last_frame_size == Some((frame.width, frame.height))
            &&& given.frame_shown().frames.len() == 0
        }),
{
    the_newest_frames_wait(player, samples);
    let frames = samples.map_values(|sample: Sample| frame_of(sample)->0);
    let all = player.frames + frames;
    assert(samples.last() is Readable);
    assert(all.last() == frames.last());
}

/// Of all the frames that a running player was given, the newest wait to be shown, as many as the
/// queue has room for and in the order in which they came; the very last one is the source's.
pub proof fn the_newest_frames_wait<P, T>(player: PlayerModel<P, T>, samples: Seq<Sample>)
    requires
        player.well_formed(),
        player.source.is_running,
        forall|i: int| 0 <= i < samples.len() ==> #[trigger] samples[i] is Readable,
    ensures
        ({
            let all = player.frames + samples.map_values(|sample: Sample| frame_of(sample)->0);
            let after = player.sampled_all(samples);
            &&& after.frames == if all.len() <= player.frame_capacity {
                all
            } else {
                all.skip(all.len() - player.frame_capacity)
            }
            &&& samples.len() > 0 ==> after.source.latest_frame == frame_of(samples.last())
        }),
{
    lemma_samples_are_pushed(player, samples);
    the_newest_items_are_kept(
        player.frames,
        player.frame_capacity,
        samples.map_values(|sample: Sample| frame_of(sample)->0),
    );
}

proof fn lemma_samples_are_pushed<P, T>(player: PlayerModel<P, T>, samples: Seq<Sample>)
    requires
        player.source.is_running,
        forall|i: int| 0 <= i < samples.len() ==> #[trigger] samples[i] is Readable,
    ensures
        player.sampled_all(samples).source.is_running,
        player.sampled_all(samples).frame_capacity == player.frame_capacity,
        player.sampled_all(samples).frames == pushed_all(
            player.frames,
            player.frame_capacity,
            samples.map_values(|sample: Sample| frame_of(sample)->0),
        ),
        samples.len() > 0 ==> player.sampled_all(samples).source.latest_frame == frame_of(
            samples.last(),
        ),
    decreases samples.len(),
{
    if samples.len() > 0 {
        lemma_samples_are_pushed(player, samples.drop_last());
        let frames = samples.map_values(|sample: Sample| frame_of(sample)->0);
        assert(frames.drop_last() =~= samples.drop_last().map_values(
            |sample: Sample| frame_of(sample)->0,
        ));
        assert(samples.last() is Readable);
    }
}

/// The whole address that was typed is used, white space at its ends included.
pub proof fn the_address_is_used_as_typed<P, T>(player: PlayerModel<P, T>)
    requires
        !blank(player.rtsp_url),
    ensures
        player.wanted() == Some(
            ConfigModel {
                rtsp_url: player.rtsp_url,
                use_hw_decoder: player.use_hw_decoder,
            },
        ),
        player.asked_to_connect().is_connected,
{
}

} // verus!
