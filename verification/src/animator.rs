//! The animator: which text to show for each frame of an animation, for how
//! long, and when to stop.
//!
//! Decoding a frame, writing the text and sleeping are left to the caller.
//! The animator is the state machine between them: the caller hands it what
//! the decoder gave, and does what the returned action says.

use vstd::prelude::*;
use crate::bitmap::{Image, Raster};
use crate::config::{ImageType, MediaKind, RenderMode, ResizeType};
use crate::grid::GridError;
use crate::render::{render, rendered};
use crate::sampler::{resize_and_sample, sampled};

verus! {

/// How long a frame is shown: a number of milliseconds as a fraction, with
/// a denominator that is never zero.
#[derive(Clone, Copy, Debug)]
pub struct Delay {
    numer: u32,
    denom: u32,
}

/// A fraction of milliseconds in whole microseconds, rounded down.
pub open spec fn delay_micros(numer: u32, denom: u32) -> int {
    1000 * numer / (denom as int)
}

impl Delay {
    #[verifier::type_invariant]
    spec fn inv(self) -> bool {
        self.denom != 0
    }

    /// The numerator, in milliseconds.
    pub closed spec fn numer(self) -> u32 {
        self.numer
    }

    /// The denominator. It is not zero for any delay that exists at run
    /// time.
    pub closed spec fn denom(self) -> u32 {
        self.denom
    }

    /// The delay of `numerator / denominator` milliseconds. There is none
    /// with a denominator of zero.
    pub fn from_numer_denom_ms(numerator: u32, denominator: u32) -> (out: Option<Delay>)
        ensures
            out is Some <==> denominator != 0,
            out matches Some(delay) ==> delay.numer() == numerator && delay.denom()
                == denominator,
    {
        if denominator == 0 {
            None
        } else {
            Some(Delay { numer: numerator, denom: denominator })
        }
    }

    /// The numerator and the denominator, in milliseconds.
    pub fn numer_denom_ms(&self) -> (out: (u32, u32))
        ensures
            out == (self.numer(), self.denom()),
            out.1 != 0,
    {
        proof {
            use_type_invariant(self);
        }
        (self.numer, self.denom)
    }

    /// The delay in whole microseconds, rounded down. A delay of zero or of
    /// less than a microsecond is zero; nothing is rounded up to a minimum.
    pub fn micros(&self) -> (us: u64)
        ensures
            us == delay_micros(self.numer(), self.denom()),
    {
        proof {
            use_type_invariant(self);
        }
        let scaled: u64 = 1000 * (self.numer as u64);
        scaled / (self.denom as u64)
    }
}

/// One frame of an animation: an image and how long it is shown.
#[derive(Debug)]
pub struct Frame {
    pub image: Image,
    pub delay: Delay,
}

/// What the decoder handed over when asked for the next frame.
#[derive(Debug)]
pub enum FrameEvent {
    /// The next frame.
    Decoded(Frame),
    /// The next frame could not be decoded.
    Failed,
    /// There are no more frames.
    End,
}

/// Why an animation stopped before its end.
#[derive(Clone, Copy, Debug, PartialEq, Eq, Structural)]
pub enum PlayError {
    /// A frame could not be decoded.
    Decode,
    /// A frame could not be sampled into a grid.
    Grid(GridError),
}

/// Where an animation stands.
#[derive(Clone, Copy, Debug, PartialEq, Eq, Structural)]
pub enum Phase {
    /// Frames are still being shown.
    Playing,
    /// The last frame was shown.
    Finished,
    /// A frame failed; no further frame is shown.
    Failed(PlayError),
}

/// What the caller is to do next.
#[derive(Debug)]
pub enum Action {
    /// Write `text` in one piece, sleep for `pause_micros` microseconds,
    /// then hand over the next frame.
    Show { text: String, pause_micros: u64 },
    /// Stop: the animation has been played to its end.
    Finish,
    /// Stop: the animation failed.
    Abort(PlayError),
}

/// The text that a frame is shown as, or the reason it cannot be shown.
///
/// Animations are drawn in the render mode of their kind of file.
pub open spec fn frame_shown(
    image: Raster,
    target_width: u32,
    target_height: u32,
    policy: ResizeType,
    color_mode: ImageType,
) -> Result<Seq<char>, GridError> {
    match sampled(image, target_width, target_height, policy, color_mode) {
        Ok(grid) => Ok(rendered(grid, RenderMode::of_media(MediaKind::Animation))),
        Err(e) => Err(e),
    }
}

/// Samples one frame's image and renders it.
pub fn frame_text(
    image: &Image,
    target_width: u32,
    target_height: u32,
    policy: ResizeType,
    color_mode: ImageType,
) -> (out: Result<String, GridError>)
    ensures
        out matches Ok(text) ==> frame_shown(
            image@,
            target_width,
            target_height,
            policy,
            color_mode,
        ) == Ok::<Seq<char>, GridError>(text@),
        out matches Err(e) ==> frame_shown(image@, target_width, target_height, policy, color_mode)
            == Err::<Seq<char>, GridError>(e),
{
    match resize_and_sample(image, target_width, target_height, policy, color_mode) {
        Ok(grid) => Ok(render(&grid, RenderMode::for_media(MediaKind::Animation))),
        Err(e) => Err(e),
    }
}

/// Plays an animation once, frame by frame.
#[derive(Debug)]
pub struct Animator {
    /// The width of the grid sampled for each frame.
    pub target_width: u32,
    /// The height of the grid sampled for each frame.
    pub target_height: u32,
    /// How each frame is fitted to the grid.
    pub policy: ResizeType,
    /// Which colours are shown.
    pub color_mode: ImageType,
    /// Where the animation stands.
    pub phase: Phase,
}

impl Animator {
    /// An animator that has shown no frame yet.
    pub fn new(
        target_width: u32,
        target_height: u32,
        policy: ResizeType,
        color_mode: ImageType,
    ) -> (animator: Animator)
        ensures
            animator.target_width == target_width,
            animator.target_height == target_height,
            animator.policy == policy,
            animator.color_mode == color_mode,
            animator.phase == Phase::Playing,
    {
        Animator { target_width, target_height, policy, color_mode, phase: Phase::Playing }
    }

    /// Takes what the decoder handed over and says what to do next.
    ///
    /// While playing, every decoded frame is shown, in the order in which
    /// the frames arrive, and followed by a pause of the frame's delay, a
    /// delay of zero included. The end of the frames finishes the animation.
    /// A frame that cannot be decoded or sampled aborts it: that frame and
    /// the frames after it are not shown. Once the animation has stopped,
    /// the answer stays the same and no frame is looked at.
    pub fn step(&mut self, event: FrameEvent) -> (action: Action)
        ensures
            final(self).target_width == old(self).target_width,
            final(self).target_height == old(self).target_height,
            final(self).policy == old(self).policy,
            final(self).color_mode == old(self).color_mode,
            old(self).phase == Phase::Finished ==> action is Finish && final(self).phase
                == Phase::Finished,
            old(self).phase matches Phase::Failed(e) ==> action matches Action::Abort(a) && a == e
                && final(self).phase == old(self).phase,
            old(self).phase == Phase::Playing ==> match event {
                FrameEvent::End => action is Finish && final(self).phase == Phase::Finished,
                FrameEvent::Failed => {
                    &&& action matches Action::Abort(a)
                    &&& a == PlayError::Decode
                    &&& final(self).phase == Phase::Failed(PlayError::Decode)
                },
                FrameEvent::Decoded(frame) => match frame_shown(
                    frame.image@,
                    old(self).target_width,
                    old(self).target_height,
                    old(self).policy,
                    old(self).color_mode,
                ) {
                    Ok(shown) => {
                        &&& action matches Action::Show { text, pause_micros }
                        &&& text@ == shown
                        &&& pause_micros == delay_micros(frame.delay.numer(), frame.delay.denom())
                        &&& final(self).phase == Phase::Playing
                    },
                    Err(e) => {
                        &&& action matches Action::Abort(a)
                        &&& a == PlayError::Grid(e)
                        &&& final(self).phase == Phase::Failed(PlayError::Grid(e))
                    },
                },
            },
    {
        match self.phase {
            Phase::Finished => Action::Finish,
            Phase::Failed(e) => Action::Abort(e),
            Phase::Playing => match event {
                FrameEvent::End => {
                    self.phase = Phase::Finished;
                    Action::Finish
                },
                FrameEvent::Failed => {
                    self.phase = Phase::Failed(PlayError::Decode);
                    Action::Abort(PlayError::Decode)
                },
                FrameEvent::Decoded(frame) => {
                    let shown = frame_text(
                        &frame.image,
                        self.target_width,
                        self.target_height,
                        self.policy,
                        self.color_mode,
                    );
                    match shown {
                        Ok(text) => Action::Show { text, pause_micros: frame.delay.micros() },
                        Err(e) => {
                            self.phase = Phase::Failed(PlayError::Grid(e));
                            Action::Abort(PlayError::Grid(e))
                        },
                    }
                },
            },
        }
    }
}

} // verus!
