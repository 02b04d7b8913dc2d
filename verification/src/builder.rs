//! The settings a simulation is built from.

use vstd::prelude::*;

use crate::renderer::{OriginPosition, RenderMode, Renderer};
use crate::scalar::{is_number, is_zero, Real};
use crate::objects::Shape;
use crate::renderer::DEFAULT_RESOLUTION;
use crate::simulator::{Simulator, NANOS_PER_SECOND};
use crate::window::Window;

verus! {

/// The number of frames per second that a simulation aims at unless told
/// otherwise.
pub const DEFAULT_FRAME_RATE: u16 = 60;

/// The width and the height of the window unless told otherwise.
pub const DEFAULT_SIZE: u32 = 512;

/// Collects the settings of a simulation before it is built.
#[derive(Copy, Clone, Debug, PartialEq, Eq, Structural)]
pub struct SimulationBuilder {
    pub restrict_frame_rate: bool,
    pub use_object_clearing: bool,
    pub target_frame_rate: u16,
    pub render_mode: RenderMode,
    pub width: u32,
    pub height: u32,
    pub origin: OriginPosition,
    pub allow_3d_rotation: bool,
}

impl SimulationBuilder {
    /// A flat scene with its origin in the middle of the window, repainted in
    /// full for each frame, at an unrestricted frame rate.
    pub fn new() -> (builder: Self)
        ensures
            builder == (SimulationBuilder {
                restrict_frame_rate: false,
                use_object_clearing: false,
                target_frame_rate: DEFAULT_FRAME_RATE,
                render_mode: RenderMode::R2D,
                width: DEFAULT_SIZE,
                height: DEFAULT_SIZE,
                origin: OriginPosition::MIDDLEMIDDLE,
                allow_3d_rotation: true,
            }),
    {
        Self {
            restrict_frame_rate: false,
            use_object_clearing: false,
            target_frame_rate: DEFAULT_FRAME_RATE,
            render_mode: RenderMode::R2D,
            width: DEFAULT_SIZE,
            height: DEFAULT_SIZE,
            origin: OriginPosition::MIDDLEMIDDLE,
            allow_3d_rotation: true,
        }
    }

    /// Holds the frame rate down to the target.
    pub fn restrict_frame_rate(self) -> (builder: Self)
        ensures
            builder == (SimulationBuilder { restrict_frame_rate: true, ..self }),
    {
        let mut builder = self;
        builder.ref_restrict_frame_rate();
        builder
    }

    /// Holds the frame rate down to the target.
    pub fn ref_restrict_frame_rate(&mut self) -> (same: &mut Self)
        ensures
            *same == (SimulationBuilder { restrict_frame_rate: true, ..*old(self) }),
            *final(self) == *final(same),
    {
        self.restrict_frame_rate = true;
        self
    }

    /// Lets frames follow each other as fast as they are drawn.
    pub fn release_frame_rate(self) -> (builder: Self)
        ensures
            builder == (SimulationBuilder { restrict_frame_rate: false, ..self }),
    {
        let mut builder = self;
        builder.ref_release_frame_rate();
        builder
    }

    /// Lets frames follow each other as fast as they are drawn.
    pub fn ref_release_frame_rate(&mut self) -> (same: &mut Self)
        ensures
            *same == (SimulationBuilder { restrict_frame_rate: false, ..*old(self) }),
            *final(self) == *final(same),
    {
        self.restrict_frame_rate = false;
        self
    }

    /// Sets the number of frames per second to aim at.
    pub fn set_target_frame_rate(self, target: u16) -> (builder: Self)
        ensures
            builder == (SimulationBuilder { target_frame_rate: target, ..self }),
    {
        let mut builder = self;
        builder.ref_set_target_frame_rate(target);
        builder
    }

    /// Sets the number of frames per second to aim at.
    pub fn ref_set_target_frame_rate(&mut self, target: u16) -> (same: &mut Self)
        ensures
            *same == (SimulationBuilder { target_frame_rate: target, ..*old(self) }),
            *final(self) == *final(same),
    {
        self.target_frame_rate = target;
        self
    }

    /// Holds the frame rate down to `target` frames per second.
    pub fn lock_frame_rate(self, target: u16) -> (builder: Self)
        ensures
            builder == (SimulationBuilder { restrict_frame_rate: true, target_frame_rate: target, ..self }),
    {
        let mut builder = self;
        builder.ref_lock_frame_rate(target);
        builder
    }

    /// Holds the frame rate down to `target` frames per second.
    pub fn ref_lock_frame_rate(&mut self, target: u16) -> (same: &mut Self)
        ensures
            *same
                == (SimulationBuilder { restrict_frame_rate: true, target_frame_rate: target, ..*old(self) }),
            *final(self) == *final(same),
    {
        self.ref_restrict_frame_rate();
        self.ref_set_target_frame_rate(target);
        self
    }

    pub fn set_render_mode(self, mode: RenderMode) -> (builder: Self)
        ensures
            builder == (SimulationBuilder { render_mode: mode, ..self }),
    {
        let mut builder = self;
        builder.ref_set_render_mode(mode);
        builder
    }

    pub fn ref_set_render_mode(&mut self, mode: RenderMode) -> (same: &mut Self)
        ensures
            *same == (SimulationBuilder { render_mode: mode, ..*old(self) }),
            *final(self) == *final(same),
    {
        self.render_mode = mode;
        self
    }

    pub fn use_3d(self) -> (builder: Self)
        ensures
            builder == (SimulationBuilder { render_mode: RenderMode::R3D, ..self }),
    {
        let mut builder = self;
        builder.ref_use_3d();
        builder
    }

    pub fn ref_use_3d(&mut self) -> (same: &mut Self)
        ensures
            *same == (SimulationBuilder { render_mode: RenderMode::R3D, ..*old(self) }),
            *final(self) == *final(same),
    {
        self.render_mode = RenderMode::R3D;
        self
    }

    pub fn use_2d(self) -> (builder: Self)
        ensures
            builder == (SimulationBuilder { render_mode: RenderMode::R2D, ..self }),
    {
        let mut builder = self;
        builder.ref_use_2d();
        builder
    }

    pub fn ref_use_2d(&mut self) -> (same: &mut Self)
        ensures
            *same == (SimulationBuilder { render_mode: RenderMode::R2D, ..*old(self) }),
            *final(self) == *final(same),
    {
        self.render_mode = RenderMode::R2D;
        self
    }

    /// Erases each object where it was drawn last, in place of repainting the background.
    pub fn use_object_clearing(self) -> (builder: Self)
        ensures
            builder == (SimulationBuilder { use_object_clearing: true, ..self }),
    {
        let mut builder = self;
        builder.ref_use_object_clearing();
        builder
    }

    /// Erases each object where it was drawn last, in place of repainting the background.
    pub fn ref_use_object_clearing(&mut self) -> (same: &mut Self)
        ensures
            *same == (SimulationBuilder { use_object_clearing: true, ..*old(self) }),
            *final(self) == *final(same),
    {
        self.use_object_clearing = true;
        self
    }

    pub fn toggle_object_clearing(self) -> (builder: Self)
        ensures
            builder == (SimulationBuilder { use_object_clearing: !self.use_object_clearing, ..self }),
    {
        let mut builder = self;
        builder.ref_toggle_object_clearing();
        builder
    }

    pub fn ref_toggle_object_clearing(&mut self) -> (same: &mut Self)
        ensures
            *same
                == (SimulationBuilder { use_object_clearing: !old(self).use_object_clearing, ..*old(self) }),
            *final(self) == *final(same),
    {
        self.use_object_clearing = !self.use_object_clearing;
        self
    }

    /// Repaints the whole background before each frame.
    pub fn use_background_fill(self) -> (builder: Self)
        ensures
            builder == (SimulationBuilder { use_object_clearing: false, ..self }),
    {
        let mut builder = self;
        builder.ref_use_background_fill();
        builder
    }

    /// Repaints the whole background before each frame.
    pub fn ref_use_background_fill(&mut self) -> (same: &mut Self)
        ensures
            *same == (SimulationBuilder { use_object_clearing: false, ..*old(self) }),
            *final(self) == *final(same),
    {
        self.use_object_clearing = false;
        self
    }

    pub fn set_origin(self, origin: OriginPosition) -> (builder: Self)
        ensures
            builder == (SimulationBuilder { origin: origin, ..self }),
    {
        let mut builder = self;
        builder.ref_set_origin(origin);
        builder
    }

    pub fn ref_set_origin(&mut self, origin: OriginPosition) -> (same: &mut Self)
        ensures
            *same == (SimulationBuilder { origin: origin, ..*old(self) }),
            *final(self) == *final(same),
    {
        self.origin = origin;
        self
    }

    pub fn allow_3d_rotation(self) -> (builder: Self)
        ensures
            builder == (SimulationBuilder { allow_3d_rotation: true, ..self }),
    {
        let mut builder = self;
        builder.ref_allow_3d_rotation();
        builder
    }

    pub fn ref_allow_3d_rotation(&mut self) -> (same: &mut Self)
        ensures
            *same == (SimulationBuilder { allow_3d_rotation: true, ..*old(self) }),
            *final(self) == *final(same),
    {
        self.allow_3d_rotation = true;
        self
    }

    pub fn disable_3d_rotation(self) -> (builder: Self)
        ensures
            builder == (SimulationBuilder { allow_3d_rotation: false, ..self }),
    {
        let mut builder = self;
        builder.ref_disable_3d_rotation();
        builder
    }

    pub fn ref_disable_3d_rotation(&mut self) -> (same: &mut Self)
        ensures
            *same == (SimulationBuilder { allow_3d_rotation: false, ..*old(self) }),
            *final(self) == *final(same),
    {
        self.allow_3d_rotation = false;
        self
    }

    pub fn toggle_3d_rotation(self) -> (builder: Self)
        ensures
            builder == (SimulationBuilder { allow_3d_rotation: !self.allow_3d_rotation, ..self }),
    {
        let mut builder = self;
        builder.ref_toggle_3d_rotation();
        builder
    }

    pub fn ref_toggle_3d_rotation(&mut self) -> (same: &mut Self)
        ensures
            *same == (SimulationBuilder { allow_3d_rotation: !old(self).allow_3d_rotation, ..*old(self) }),
            *final(self) == *final(same),
    {
        self.allow_3d_rotation = !self.allow_3d_rotation;
        self
    }
    /// `simulator` is a simulator that these settings may build around
    /// `window`: it has no objects yet, a clock at zero, and a renderer with
    /// the default camera and these settings' mode, origin and turns.
    pub open spec fn is_built<T: Real>(&self, window: Window, simulator: &Simulator<T>) -> bool {
        &&& simulator.well_formed()
        &&& simulator@ == Map::<usize, Shape<T>>::empty()
        &&& simulator.spec_ids() == Seq::<usize>::empty()
        &&& simulator.spec_objects() == Seq::<Shape<T>>::empty()
        &&& simulator.spec_window() == window
        &&& simulator.spec_uses_object_clearing() == self.use_object_clearing
        &&& simulator.spec_restricts_frame_rate() == self.restrict_frame_rate
        &&& simulator.spec_frame_delay() == NANOS_PER_SECOND / (self.target_frame_rate as u64)
        &&& is_zero(simulator.spec_time().spec_delta_time())
        &&& simulator.spec_renderer().mode == self.render_mode
        &&& simulator.spec_renderer().origin == self.origin
        &&& simulator.spec_renderer().allow_3d_rotation == self.allow_3d_rotation
        &&& simulator.spec_renderer().camera.is_default()
        &&& is_number(DEFAULT_RESOLUTION.0, simulator.spec_renderer().resolution_x)
        &&& is_number(DEFAULT_RESOLUTION.1, simulator.spec_renderer().resolution_y)
    }

    /// Builds the simulator around `window`.
    pub fn build<T: Real>(self, window: Window) -> (simulator: Simulator<T>)
        requires
            self.target_frame_rate != 0,
        ensures
            self.is_built(window, &simulator),
    {
        self.ref_build(window)
    }

    /// Builds the simulator around `window` and keeps the settings.
    pub fn ref_build<T: Real>(&self, window: Window) -> (simulator: Simulator<T>)
        requires
            self.target_frame_rate != 0,
        ensures
            self.is_built(window, &simulator),
    {
        Simulator::new(
            Renderer::new(self.render_mode, self.origin, self.allow_3d_rotation),
            window,
            self.use_object_clearing,
            self.restrict_frame_rate,
            self.target_frame_rate,
        )
    }
}

} // verus!
