//! What the display is fed: the latest raw samples and the shaped spectrum of
//! both channels, with the settings that shape them.
//!
//! Both are kept on every update, whichever of the two is on display, so that
//! the smoothing of the spectrum goes on while the raw samples are shown.

use crate::sound_proxy::Clip;
use crate::sound_transformer::Settings;
use crate::sound_transformer::SoundTransformer;
use crate::sound_transformer::shifted_range;
use crate::ContentType;
use crate::DisplayType;
use crate::Sides;
use vstd::prelude::*;

verus! {

/// One bin of a spectrum: its frequency, fixed by the sample rate and the
/// length of the transform, and the magnitude found there, both as bit
/// patterns.
#[derive(Clone, Copy, Debug, PartialEq, Eq, Structural)]
pub struct SpectrumBin {
    pub frequency: u32,
    pub magnitude: u32,
}

/// The direction of one step of the normalisation scale.
#[derive(Clone, Copy, Debug, PartialEq, Eq, Structural)]
pub enum ScaleStep {
    Up,
    Down,
}

/// What the visualizer is told: a change of its settings, or a clip whose
/// samples are the next content.
pub enum VisualizerMessage {
    SwitchDisplayContent,
    ToggleNormalize,
    ToggleSmooth,
    ToggleFlashFlood,
    ShiftMovingAvgRange(i32),
    ScaleUp,
    ScaleDown,
    ToggleOffCenter,
    UpdateContent(Box<Clip>),
}

/// What a message leaves for the caller to do.
#[derive(Clone, Copy, Debug, PartialEq, Eq, Structural)]
pub enum Request {
    Nothing,
    /// Multiply the normalisation scale by one step, and hand the product to
    /// [`Visualizer::set_norm_scale`].
    Scale(ScaleStep),
    /// Transform the raw samples of each channel into its spectrum, and hand
    /// both to [`Visualizer::shape`].
    Transform,
}

/// The content of both channels as sequences.
pub open spec fn sides_view(sides: Sides<Vec<u32>>) -> Sides<Seq<u32>> {
    Sides { left: sides.left@, right: sides.right@ }
}

/// No content on either channel.
pub open spec fn no_content() -> Sides<Seq<u32>> {
    Sides { left: Seq::empty(), right: Seq::empty() }
}

/// The other content type.
pub open spec fn switched(content_type: ContentType) -> ContentType {
    match content_type {
        ContentType::Raw => ContentType::Processed,
        ContentType::Processed => ContentType::Raw,
    }
}

/// The previous output of a bin: what the last spectrum held there, and zero
/// where it held nothing.
pub open spec fn previous_at(previous: Seq<u32>, bin: int) -> u32 {
    if 0 <= bin < previous.len() {
        previous[bin]
    } else {
        0
    }
}

/// `shaped` holds, for each of `bins` in order, an output of `apply` on the
/// bin's previous output, its magnitude and its frequency.
pub open spec fn shaped_by<F: Fn(u32, u32, u32) -> u32>(
    apply: F,
    previous: Seq<u32>,
    bins: Seq<SpectrumBin>,
    shaped: Seq<u32>,
) -> bool {
    &&& shaped.len() == bins.len()
    &&& forall|i: int|
        0 <= i < bins.len() ==> call_ensures(
            apply,
            (previous_at(previous, i), bins[i].magnitude, bins[i].frequency),
            #[trigger] shaped[i],
        )
}

/// The state of a visualizer.
pub struct Screen {
    pub width: u32,
    pub height: u32,
    pub content_type: ContentType,
    pub display_type: DisplayType,
    pub sample_rate: u32,
    pub raw: Sides<Seq<u32>>,
    pub freqs: Sides<Seq<u32>>,
    pub settings: Settings,
    pub off_center: bool,
}

impl Screen {
    /// What is on display: the raw samples or the shaped spectrum.
    pub open spec fn content(self) -> Sides<Seq<u32>> {
        match self.content_type {
            ContentType::Raw => self.raw,
            ContentType::Processed => self.freqs,
        }
    }

    /// The message can be taken: a shift of the moving average's window stays
    /// within the range's type.
    pub open spec fn accepts(self, message: VisualizerMessage) -> bool {
        message matches VisualizerMessage::ShiftMovingAvgRange(val) ==> self.settings.moving_avg_range
            + val <= u32::MAX
    }

    /// The state after a message.
    pub open spec fn after(self, message: VisualizerMessage) -> Screen {
        match message {
            VisualizerMessage::SwitchDisplayContent => Screen {
                content_type: switched(self.content_type),
                ..self
            },
            VisualizerMessage::ToggleNormalize => Screen {
                settings: Settings { norm: !self.settings.norm, ..self.settings },
                ..self
            },
            VisualizerMessage::ToggleSmooth => Screen {
                settings: Settings { smooth: !self.settings.smooth, ..self.settings },
                ..self
            },
            VisualizerMessage::ToggleFlashFlood => Screen {
                settings: Settings { flash_flood: !self.settings.flash_flood, ..self.settings },
                ..self
            },
            VisualizerMessage::ShiftMovingAvgRange(val) => Screen {
                settings: Settings {
                    moving_avg_range: shifted_range(self.settings.moving_avg_range, val) as u32,
                    ..self.settings
                },
                ..self
            },
            VisualizerMessage::ScaleUp => self,
            VisualizerMessage::ScaleDown => self,
            VisualizerMessage::ToggleOffCenter => Screen { off_center: !self.off_center, ..self },
            VisualizerMessage::UpdateContent(clip) => Screen {
                sample_rate: clip.sample_rate,
                raw: Sides { left: clip.left@, right: clip.right@ },
                ..self
            },
        }
    }

    /// The state without content, as it is before the first update.
    pub open spec fn cleared(self) -> Screen {
        Screen { sample_rate: 0, raw: no_content(), freqs: no_content(), ..self }
    }
}

/// What a message leaves for the caller to do.
pub open spec fn request_of(message: VisualizerMessage) -> Request {
    match message {
        VisualizerMessage::ScaleUp => Request::Scale(ScaleStep::Up),
        VisualizerMessage::ScaleDown => Request::Scale(ScaleStep::Down),
        VisualizerMessage::UpdateContent(_) => Request::Transform,
        _ => Request::Nothing,
    }
}

/// The size and kind of the display, the content of both channels, and the
/// shaper's settings.
pub struct Visualizer {
    width: u32,
    height: u32,
    content_type: ContentType,
    display_type: DisplayType,
    sample_rate: u32,
    raw: Sides<Vec<u32>>,
    freqs: Sides<Vec<u32>>,
    sound_transformer: SoundTransformer,
    off_center: bool,
}

impl View for Visualizer {
    type V = Screen;

    closed spec fn view(&self) -> Screen {
        Screen {
            width: self.width,
            height: self.height,
            content_type: self.content_type,
            display_type: self.display_type,
            sample_rate: self.sample_rate,
            raw: sides_view(self.raw),
            freqs: sides_view(self.freqs),
            settings: self.sound_transformer@,
            off_center: self.off_center,
        }
    }
}

/// Shapes the bins of one channel against its previous outputs. The outputs
/// are as many as the bins, whatever the number of previous ones.
pub fn shape_bins<F: Fn(u32, u32, u32) -> u32>(
    previous: &Vec<u32>,
    bins: &Vec<SpectrumBin>,
    apply: &F,
) -> (shaped: Vec<u32>)
    requires
        forall|old_value: u32, magnitude: u32, frequency: u32|
            call_requires(*apply, (old_value, magnitude, frequency)),
    ensures
        shaped_by(*apply, previous@, bins@, shaped@),
{
    let mut shaped: Vec<u32> = Vec::new();
    let mut i: usize = 0;
    while i < bins.len()
        invariant
            i <= bins.len(),
            forall|old_value: u32, magnitude: u32, frequency: u32|
                call_requires(*apply, (old_value, magnitude, frequency)),
            shaped_by(*apply, previous@, bins@.take(i as int), shaped@),
        decreases bins.len() - i,
    {
        let old_value: u32 = if i < previous.len() {
            previous[i]
        } else {
            0
        };
        let bin = bins[i];
        let value: u32 = apply(old_value, bin.magnitude, bin.frequency);
        shaped.push(value);
        i += 1;
    }
    shaped
}

impl Visualizer {
    /// A visualizer without content, with the shaper's initial settings.
    pub fn new(
        width: u32,
        height: u32,
        content_type: ContentType,
        display_type: DisplayType,
        off_center: bool,
    ) -> (visualizer: Visualizer)
        ensures
            visualizer@ == (Screen {
                width,
                height,
                content_type,
                display_type,
                sample_rate: 0,
                raw: no_content(),
                freqs: no_content(),
                settings: Settings::initial(),
                off_center,
            }),
    {
        Visualizer {
            width,
            height,
            content_type,
            display_type,
            sample_rate: 0,
            raw: Sides { left: Vec::new(), right: Vec::new() },
            freqs: Sides { left: Vec::new(), right: Vec::new() },
            sound_transformer: SoundTransformer::default(),
            off_center,
        }
    }

    /// Takes a message. An update of the content replaces the raw samples by
    /// those of the clip and asks for their spectrum; the shaped spectrum stays
    /// as it is until [`Visualizer::shape`] replaces it.
    pub fn update(&mut self, message: VisualizerMessage) -> (request: Request)
        requires
            old(self)@.accepts(message),
        ensures
            final(self)@ == old(self)@.after(message),
            request == request_of(message),
    {
        match message {
            VisualizerMessage::SwitchDisplayContent => {
                self.content_type =
                match self.content_type {
                    ContentType::Raw => ContentType::Processed,
                    ContentType::Processed => ContentType::Raw,
                };
                Request::Nothing
            },
            VisualizerMessage::ToggleNormalize => {
                self.sound_transformer.toggle_norm();
                Request::Nothing
            },
            VisualizerMessage::ToggleSmooth => {
                self.sound_transformer.toggle_smooth();
                Request::Nothing
            },
            VisualizerMessage::ToggleFlashFlood => {
                self.sound_transformer.toggle_flash_flood();
                Request::Nothing
            },
            VisualizerMessage::ShiftMovingAvgRange(val) => {
                self.sound_transformer.shift_moving_avg_range(val);
                Request::Nothing
            },
            VisualizerMessage::ScaleUp => Request::Scale(ScaleStep::Up),
            VisualizerMessage::ScaleDown => Request::Scale(ScaleStep::Down),
            VisualizerMessage::ToggleOffCenter => {
                self.off_center = !self.off_center;
                Request::Nothing
            },
            VisualizerMessage::UpdateContent(clip) => {
                self.sample_rate = clip.sample_rate;
                self.raw = clip.snapshot();
                Request::Transform
            },
        }
    }

    /// Replaces the shaped spectrum of both channels: each bin of `spectrum`
    /// is shaped by `apply` against the output that the bin had before, or
    /// against zero where it had none.
    pub fn shape<F: Fn(u32, u32, u32) -> u32>(
        &mut self,
        spectrum: &Sides<Vec<SpectrumBin>>,
        apply: F,
    )
        requires
            forall|old_value: u32, magnitude: u32, frequency: u32|
                call_requires(apply, (old_value, magnitude, frequency)),
        ensures
            shaped_by(apply, old(self)@.freqs.left, spectrum.left@, final(self)@.freqs.left),
            shaped_by(apply, old(self)@.freqs.right, spectrum.right@, final(self)@.freqs.right),
            final(self)@ == (Screen { freqs: final(self)@.freqs, ..old(self)@ }),
    {
        let left = shape_bins(&self.freqs.left, &spectrum.left, &apply);
        let right = shape_bins(&self.freqs.right, &spectrum.right, &apply);
        self.freqs = Sides { left, right };
    }

    /// Replaces the normalisation scale by `scale`, the bit pattern of the old
    /// scale times the step that was asked for.
    pub fn set_norm_scale(&mut self, scale: u32)
        ensures
            final(self)@ == (Screen {
                settings: Settings { norm_scale: scale, ..old(self)@.settings },
                ..old(self)@
            }),
    {
        self.sound_transformer.set_norm_scale(scale);
    }

    /// Whether [`Visualizer::update`] can take the message.
    pub fn accepts(&self, message: &VisualizerMessage) -> (yes: bool)
        ensures
            yes == self@.accepts(*message),
    {
        match message {
            VisualizerMessage::ShiftMovingAvgRange(val) => {
                self.sound_transformer.can_shift_moving_avg_range(*val)
            },
            _ => true,
        }
    }

    /// Drops the content of both channels, and with it the history that the
    /// next spectrum would have been smoothed against.
    pub fn clear(&mut self)
        ensures
            final(self)@ == old(self)@.cleared(),
    {
        self.sample_rate = 0;
        self.raw = Sides { left: Vec::new(), right: Vec::new() };
        self.freqs = Sides { left: Vec::new(), right: Vec::new() };
    }
}

impl Visualizer {
    pub fn width(&self) -> (width: u32)
        ensures
            width == self@.width,
    {
        self.width
    }

    pub fn height(&self) -> (height: u32)
        ensures
            height == self@.height,
    {
        self.height
    }

    pub fn content_type(&self) -> (content_type: ContentType)
        ensures
            content_type == self@.content_type,
    {
        self.content_type
    }

    pub fn display_type(&self) -> (display_type: DisplayType)
        ensures
            display_type == self@.display_type,
    {
        self.display_type
    }

    pub fn off_center(&self) -> (off_center: bool)
        ensures
            off_center == self@.off_center,
    {
        self.off_center
    }

    /// The sample rate of the clip that the raw content came from.
    pub fn sample_rate(&self) -> (sample_rate: u32)
        ensures
            sample_rate == self@.sample_rate,
    {
        self.sample_rate
    }

    pub fn sound_transformer(&self) -> (shaper: &SoundTransformer)
        ensures
            shaper@ == self@.settings,
    {
        &self.sound_transformer
    }

    /// The latest raw samples.
    pub fn raw(&self) -> (raw: &Sides<Vec<u32>>)
        ensures
            sides_view(*raw) == self@.raw,
    {
        &self.raw
    }

    /// The latest shaped spectrum.
    pub fn freqs(&self) -> (freqs: &Sides<Vec<u32>>)
        ensures
            sides_view(*freqs) == self@.freqs,
    {
        &self.freqs
    }

    /// What is on display.
    pub fn content(&self) -> (content: &Sides<Vec<u32>>)
        ensures
            sides_view(*content) == self@.content(),
    {
        match self.content_type {
            ContentType::Raw => &self.raw,
            ContentType::Processed => &self.freqs,
        }
    }
}

} // verus!
