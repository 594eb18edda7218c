use vstd::prelude::*;
use crate::frame::{Command, frame_commands, plan_frame};
use crate::pipeline::{PipelineDesc, Program, pipeline_desc, pipeline_layouts_spec};
use crate::record::PlacementRecord;
use crate::resources::{
    ColorFormat,
    ImageDesc,
    SamplerDesc,
    offscreen_target_desc,
    offscreen_target_spec,
    shared_sampler,
    shared_sampler_spec,
};
use crate::surface::{AcquireError, ImageSize, SurfaceConfig, SurfaceState};
use crate::uniforms::UniformStore;

verus! {

/// What the window reports.
#[derive(Clone, Copy, Debug, PartialEq, Eq, Structural)]
pub enum WindowEvent {
    CloseRequested,
    RedrawRequested,
    Resized { width: u32, height: u32 },
    Other,
}

/// What the host must do in answer to an event.
#[derive(Debug)]
pub enum Action {
    /// Leave the event loop.
    Exit,
    /// Run these commands against an image of this size, then ask for the next redraw.
    Render { image: ImageSize, commands: Vec<Command> },
    /// No image could be acquired: the frame fails.
    FrameFailed(AcquireError),
    /// Apply this configuration to the surface.
    Reconfigure(SurfaceConfig),
    /// Nothing to do.
    Nothing,
}

/// The renderer once all its resources are planned: the surface, the
/// per-object uniforms, both pipelines, the offscreen target and the sampler.
pub struct RunningRenderer {
    pub surface: SurfaceState,
    pub uniforms: UniformStore,
    pub framebuffer_pipeline: PipelineDesc,
    pub post_process_pipeline: PipelineDesc,
    pub offscreen: ImageDesc,
    pub sampler: SamplerDesc,
}

impl RunningRenderer {
    /// The resources fit together: both pipelines draw in the surface's format
    /// into the offscreen target's format, and there is one binding set per
    /// uniform buffer.
    pub open spec fn wf(&self) -> bool {
        &&& self.uniforms.wf()
        &&& self.framebuffer_pipeline.program == Program::Framebuffer
        &&& self.framebuffer_pipeline.layouts@ == pipeline_layouts_spec(Program::Framebuffer)
        &&& self.framebuffer_pipeline.color_target == self.surface.format
        &&& self.post_process_pipeline.program == Program::PostProcess
        &&& self.post_process_pipeline.layouts@ == pipeline_layouts_spec(Program::PostProcess)
        &&& self.post_process_pipeline.color_target == self.surface.format
        &&& self.offscreen == offscreen_target_spec(self.surface.format)
        &&& self.sampler == shared_sampler_spec()
    }

    /// Plans every resource for a window of the given size whose surface
    /// offers `format` and that draws `objects`, and configures the surface
    /// when the window has an area.
    pub fn activate(width: u32, height: u32, format: ColorFormat, objects: &[PlacementRecord]) -> (r:
        RunningRenderer)
        ensures
            r.wf(),
            r.surface == SurfaceState::new_spec(width, height, format).resized(width, height),
            r.uniforms.holds(objects@),
    {
        let mut surface = SurfaceState::new(width, height, format);
        surface.resize(width, height);
        RunningRenderer {
            surface,
            uniforms: UniformStore::build_object_bindings(objects),
            framebuffer_pipeline: pipeline_desc(Program::Framebuffer, format),
            post_process_pipeline: pipeline_desc(Program::PostProcess, format),
            offscreen: offscreen_target_desc(format),
            sampler: shared_sampler(),
        }
    }

    /// Decides what an event asks of the host. Only a resize changes the
    /// renderer, and only its surface.
    pub fn on_event(&mut self, event: WindowEvent) -> (a: Action)
        requires
            old(self).wf(),
        ensures
            final(self).wf(),
            final(self).uniforms == old(self).uniforms,
            final(self).offscreen == old(self).offscreen,
            final(self).framebuffer_pipeline == old(self).framebuffer_pipeline,
            final(self).post_process_pipeline == old(self).post_process_pipeline,
            match event {
                WindowEvent::Resized { width, height } => final(self).surface == old(
                    self,
                ).surface.resized(width, height),
                _ => final(self).surface == old(self).surface,
            },
            match event {
                WindowEvent::CloseRequested => a is Exit,
                WindowEvent::RedrawRequested => match old(self).surface.acquire_spec() {
                    Ok(size) => a matches Action::Render { image, commands } && image == size
                        && commands@ == frame_commands(old(self).uniforms.bindings@.len()),
                    Err(e) => a == Action::FrameFailed(e),
                },
                WindowEvent::Resized { width, height } => if width > 0 && height > 0 {
                    a == Action::Reconfigure(final(self).surface.config.unwrap())
                } else {
                    a is Nothing
                },
                WindowEvent::Other => a is Nothing,
            },
    {
        match event {
            WindowEvent::CloseRequested => Action::Exit,
            WindowEvent::RedrawRequested => match self.surface.acquire() {
                Ok(image) => Action::Render {
                    image,
                    commands: plan_frame(self.uniforms.bindings.len()),
                },
                Err(e) => Action::FrameFailed(e),
            },
            WindowEvent::Resized { width, height } => match self.surface.resize(width, height) {
                Some(c) => Action::Reconfigure(c),
                None => Action::Nothing,
            },
            WindowEvent::Other => Action::Nothing,
        }
    }
}

} // verus!
