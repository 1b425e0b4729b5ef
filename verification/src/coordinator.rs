//! The state machine of the pipeline. It takes the messages of the input
//! layer and of the timer, keeps what the display is fed, and tells its caller
//! which outside work each message asks for: scanning for devices, starting
//! and stopping capture, sampling the clip.

use crate::sound_proxy::Clip;
use crate::spectrum_visualization::previous_at;
use crate::spectrum_visualization::shaped_by;
use crate::spectrum_visualization::ScaleStep;
use crate::spectrum_visualization::Screen;
use crate::spectrum_visualization::SpectrumBin;
use crate::spectrum_visualization::Visualizer;
use crate::spectrum_visualization::VisualizerMessage;
use crate::ContentType;
use crate::DisplayType;
use crate::Message;
use crate::Sides;
use vstd::prelude::*;

verus! {

/// Whether capture runs.
#[derive(Clone, Copy, Debug, PartialEq, Eq, Structural)]
pub enum AppState {
    /// No capture runs; a device is to be chosen.
    SelectingSource,
    /// Capture runs, and each tick is processed.
    Displaying,
}

/// The outside work that a message asks of the caller.
#[derive(Clone, Copy, Debug, PartialEq, Eq, Structural)]
pub enum Action {
    Nothing,
    /// List the input devices anew.
    ScanDevices,
    /// Open the device of this index and start capture. If that fails, report
    /// it with [`Coordinator::capture_failed`].
    StartCapture(usize),
    /// Stop capture, if it runs.
    StopCapture,
    /// Multiply the normalisation scale by one step, and hand the product to
    /// [`Coordinator::set_norm_scale`].
    Scale(ScaleStep),
    /// Take the clip as it is now, transform the samples of each channel into
    /// its spectrum, and hand both to [`Coordinator::publish`]. If a transform
    /// fails, leave the tick out.
    Sample,
}

/// The message as the visualizer takes it, if it is one of the visualizer's.
pub open spec fn forwarded(message: Message) -> Option<VisualizerMessage> {
    match message {
        Message::SwitchDisplayContent => Some(VisualizerMessage::SwitchDisplayContent),
        Message::ToggleNormalize => Some(VisualizerMessage::ToggleNormalize),
        Message::ToggleSmooth => Some(VisualizerMessage::ToggleSmooth),
        Message::ToggleFlashFlood => Some(VisualizerMessage::ToggleFlashFlood),
        Message::ShiftMovingAvgRange(val) => Some(VisualizerMessage::ShiftMovingAvgRange(val)),
        Message::ToggleOffCenter => Some(VisualizerMessage::ToggleOffCenter),
        Message::ScaleUp => Some(VisualizerMessage::ScaleUp),
        Message::ScaleDown => Some(VisualizerMessage::ScaleDown),
        _ => None,
    }
}

/// The state of a coordinator.
pub struct Session {
    pub state: AppState,
    pub should_exit: bool,
    pub screen: Screen,
}

impl Session {
    /// The message can be taken: the visualizer accepts its part of it.
    pub open spec fn accepts(self, message: Message) -> bool {
        forwarded(message) matches Some(part) ==> self.screen.accepts(part)
    }

    /// The state after a message.
    pub open spec fn after(self, message: Message) -> Session {
        match message {
            Message::Quit => Session { should_exit: true, ..self },
            Message::SelectDevice(_) => Session { state: AppState::Displaying, ..self },
            Message::UnselectDevice => self.stopped(),
            _ => match forwarded(message) {
                Some(part) => Session { screen: self.screen.after(part), ..self },
                None => self,
            },
        }
    }

    /// The outside work that a message asks for in this state.
    pub open spec fn action(self, message: Message) -> Action {
        match message {
            Message::ScanDevices => Action::ScanDevices,
            Message::SelectDevice(index) => Action::StartCapture(index),
            Message::UnselectDevice => Action::StopCapture,
            Message::ScaleUp => Action::Scale(ScaleStep::Up),
            Message::ScaleDown => Action::Scale(ScaleStep::Down),
            Message::Tick => match self.state {
                AppState::SelectingSource => Action::Nothing,
                AppState::Displaying => Action::Sample,
            },
            _ => Action::Nothing,
        }
    }

    /// The state without a source: no content, and a device to be chosen.
    pub open spec fn stopped(self) -> Session {
        Session { state: AppState::SelectingSource, screen: self.screen.cleared(), ..self }
    }

    /// The state once the samples of `clip` are the raw content; the shaped
    /// spectrum is yet to follow.
    pub open spec fn sampled(self, clip: Box<Clip>) -> Session {
        Session { screen: self.screen.after(VisualizerMessage::UpdateContent(clip)), ..self }
    }

    /// The state after `messages`, taken in order.
    pub open spec fn run(self, messages: Seq<Message>) -> Session
        decreases messages.len(),
    {
        if messages.len() == 0 {
            self
        } else {
            self.run(messages.drop_last()).after(messages.last())
        }
    }

    /// While a device is to be chosen there is no content: nothing that a
    /// first spectrum could be smoothed against.
    pub open spec fn settled(self) -> bool {
        self.state == AppState::SelectingSource ==> self.screen == self.screen.cleared()
    }
}

/// Stopping capture leaves a device to be chosen, whatever the state was, and
/// so it stays under every message but the choice of a device. Until then a
/// tick changes nothing and asks for nothing.
pub proof fn lemma_idle_until_selected(session: Session, messages: Seq<Message>)
    requires
        forall|i: int| 0 <= i < messages.len() ==> !(#[trigger] messages[i] is SelectDevice),
    ensures
        session.after(Message::UnselectDevice).state == AppState::SelectingSource,
        session.after(Message::UnselectDevice).run(messages).state == AppState::SelectingSource,
        session.after(Message::UnselectDevice).run(messages).after(Message::Tick)
            == session.after(Message::UnselectDevice).run(messages),
        session.after(Message::UnselectDevice).run(messages).action(Message::Tick)
            == Action::Nothing,
    decreases messages.len(),
{
    if messages.len() > 0 {
        lemma_idle_until_selected(session, messages.drop_last());
    }
}

/// A state without content for as long as a device is to be chosen stays so
/// under every message.
pub proof fn lemma_settled_is_kept(session: Session, message: Message)
    requires
        session.settled(),
    ensures
        session.after(message).settled(),
{
}

/// The first spectrum after a device was chosen is shaped against zeros: no
/// bin of either channel has a previous output.
pub proof fn lemma_first_spectrum_has_no_history(session: Session, index: usize, bin: int)
    requires
        session.settled(),
        session.state == AppState::SelectingSource,
    ensures
        session.after(Message::SelectDevice(index)).state == AppState::Displaying,
        previous_at(session.after(Message::SelectDevice(index)).screen.freqs.left, bin) == 0,
        previous_at(session.after(Message::SelectDevice(index)).screen.freqs.right, bin) == 0,
{
}

/// The pipeline's coordinator: the state of capture, the wish to exit, and
/// the visualizer that holds content and settings.
pub struct Coordinator {
    state: AppState,
    should_exit: bool,
    visualizer: Visualizer,
}

impl View for Coordinator {
    type V = Session;

    closed spec fn view(&self) -> Session {
        Session { state: self.state, should_exit: self.should_exit, screen: self.visualizer@ }
    }
}

impl Coordinator {
    /// A coordinator that waits for a device to be chosen, and will display
    /// the shaped spectrum as lines off centre.
    pub fn new(width: u32, height: u32) -> (coordinator: Coordinator)
        ensures
            coordinator@.state == AppState::SelectingSource,
            !coordinator@.should_exit,
            coordinator@.screen.width == width,
            coordinator@.screen.height == height,
            coordinator@.screen.content_type == ContentType::Processed,
            coordinator@.screen.display_type == DisplayType::Lines,
            coordinator@.screen.off_center,
            coordinator@.screen.settings == crate::sound_transformer::Settings::initial(),
            coordinator@.settled(),
    {
        Coordinator {
            state: AppState::SelectingSource,
            should_exit: false,
            visualizer: Visualizer::new(
                width,
                height,
                ContentType::Processed,
                DisplayType::Lines,
                true,
            ),
        }
    }

    /// Takes a message and says which outside work it asks for.
    pub fn update(&mut self, message: Message) -> (action: Action)
        requires
            old(self)@.accepts(message),
        ensures
            final(self)@ == old(self)@.after(message),
            action == old(self)@.action(message),
            old(self)@.settled() ==> final(self)@.settled(),
    {
        match message {
            Message::Quit => {
                self.should_exit = true;
                Action::Nothing
            },
            Message::ScanDevices => Action::ScanDevices,
            Message::SelectDevice(index) => {
                self.state = AppState::Displaying;
                Action::StartCapture(index)
            },
            Message::UnselectDevice => {
                self.state = AppState::SelectingSource;
                self.visualizer.clear();
                Action::StopCapture
            },
            Message::SwitchDisplayContent => {
                self.visualizer.update(VisualizerMessage::SwitchDisplayContent);
                Action::Nothing
            },
            Message::ToggleNormalize => {
                self.visualizer.update(VisualizerMessage::ToggleNormalize);
                Action::Nothing
            },
            Message::ToggleSmooth => {
                self.visualizer.update(VisualizerMessage::ToggleSmooth);
                Action::Nothing
            },
            Message::ToggleFlashFlood => {
                self.visualizer.update(VisualizerMessage::ToggleFlashFlood);
                Action::Nothing
            },
            Message::ShiftMovingAvgRange(val) => {
                self.visualizer.update(VisualizerMessage::ShiftMovingAvgRange(val));
                Action::Nothing
            },
            Message::ToggleOffCenter => {
                self.visualizer.update(VisualizerMessage::ToggleOffCenter);
                Action::Nothing
            },
            Message::ScaleUp => Action::Scale(ScaleStep::Up),
            Message::ScaleDown => Action::Scale(ScaleStep::Down),
            Message::Tick => match self.state {
                AppState::SelectingSource => Action::Nothing,
                AppState::Displaying => Action::Sample,
            },
        }
    }

    /// Capture could not be started: a device is to be chosen again.
    pub fn capture_failed(&mut self)
        ensures
            final(self)@ == old(self)@.stopped(),
            final(self)@.state == AppState::SelectingSource,
            final(self)@.settled(),
    {
        self.state = AppState::SelectingSource;
        self.visualizer.clear();
    }

    /// Publishes what a tick sampled: the samples of `clip` become the raw
    /// content, and `spectrum`, shaped bin by bin by `apply` against the
    /// spectrum shaped before it, the processed content. While no capture runs
    /// nothing is taken and nothing changes.
    pub fn publish<F: Fn(u32, u32, u32) -> u32>(
        &mut self,
        clip: Box<Clip>,
        spectrum: &Sides<Vec<SpectrumBin>>,
        apply: F,
    ) -> (taken: bool)
        requires
            forall|old_value: u32, magnitude: u32, frequency: u32|
                call_requires(apply, (old_value, magnitude, frequency)),
        ensures
            taken == (old(self)@.state == AppState::Displaying),
            !taken ==> final(self)@ == old(self)@,
            old(self)@.settled() ==> final(self)@.settled(),
            taken ==> {
                &&& shaped_by(
                    apply,
                    old(self)@.screen.freqs.left,
                    spectrum.left@,
                    final(self)@.screen.freqs.left,
                )
                &&& shaped_by(
                    apply,
                    old(self)@.screen.freqs.right,
                    spectrum.right@,
                    final(self)@.screen.freqs.right,
                )
                &&& final(self)@ == (Session {
                    screen: Screen {
                        freqs: final(self)@.screen.freqs,
                        ..old(self)@.sampled(clip).screen
                    },
                    ..old(self)@
                })
            },
    {
        match self.state {
            AppState::SelectingSource => false,
            AppState::Displaying => {
                self.visualizer.update(VisualizerMessage::UpdateContent(clip));
                self.visualizer.shape(spectrum, apply);
                true
            },
        }
    }

    /// Replaces the normalisation scale by `scale`, the bit pattern of the old
    /// scale times the step that was asked for.
    pub fn set_norm_scale(&mut self, scale: u32)
        ensures
            final(self)@ == (Session {
                screen: Screen {
                    settings: crate::sound_transformer::Settings {
                        norm_scale: scale,
                        ..old(self)@.screen.settings
                    },
                    ..old(self)@.screen
                },
                ..old(self)@
            }),
            old(self)@.settled() ==> final(self)@.settled(),
    {
        self.visualizer.set_norm_scale(scale);
    }
}

impl Coordinator {
    /// Whether [`Coordinator::update`] can take the message.
    pub fn accepts(&self, message: Message) -> (yes: bool)
        ensures
            yes == self@.accepts(message),
    {
        match message {
            Message::ShiftMovingAvgRange(val) => self.visualizer.accepts(
                &VisualizerMessage::ShiftMovingAvgRange(val),
            ),
            _ => true,
        }
    }

    pub fn state(&self) -> (state: AppState)
        ensures
            state == self@.state,
    {
        self.state
    }

    pub fn should_exit(&self) -> (yes: bool)
        ensures
            yes == self@.should_exit,
    {
        self.should_exit
    }

    /// Whether the timer is to send ticks: only while capture runs.
    pub fn wants_ticks(&self) -> (yes: bool)
        ensures
            yes == (self@.state == AppState::Displaying),
    {
        match self.state {
            AppState::SelectingSource => false,
            AppState::Displaying => true,
        }
    }

    pub fn visualizer(&self) -> (visualizer: &Visualizer)
        ensures
            visualizer@ == self@.screen,
    {
        &self.visualizer
    }
}

} // verus!
