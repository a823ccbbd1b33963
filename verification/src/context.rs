//! The rendering context: the surface's size and configuration, the camera's
//! aspect ratio and the mesh, with the operations of a session on them.
//!
//! The context decides; the caller owns the GPU handles and the camera's
//! floating-point state and carries out, in order, the steps and commands that
//! each operation returns.

use vstd::prelude::*;
use crate::camera::{Aspect, Camera};
use crate::geometry::{Mesh, pentagon_indices, pentagon_vertices};
use crate::pipeline::{background, frame_commands, record_frame, Command};
use crate::surface::{
    preferred_format,
    PhysicalSize,
    SurfaceCapabilities,
    SurfaceConfiguration,
    SurfaceError,
    FRAME_LATENCY,
};

verus! {

/// One piece of work that the caller does for the context.
#[derive(Clone, Copy, Debug, PartialEq, Eq, Structural)]
pub enum Step {
    /// Configure the surface against the device.
    ConfigureSurface(SurfaceConfiguration),
    /// Set the camera's aspect ratio.
    SetAspect(Aspect),
    /// Move the eye by one step times `forward` along the normalised direction
    /// from the eye to the target, then by one step times `strafe` along the
    /// cross product of that direction and the up vector. Target and up vector
    /// stay.
    MoveEye { forward: i8, strafe: i8 },
    /// Compute the view-projection matrix of the camera and write it to the
    /// uniform buffer.
    WriteCameraUniform,
}

/// What follows the size of the surface, kept together so that it changes
/// together.
#[derive(Clone, Copy, Debug, PartialEq, Eq)]
struct Target {
    size: PhysicalSize,
    config: SurfaceConfiguration,
    aspect: Aspect,
}

/// The state of the rendering context.
#[derive(Debug, PartialEq, Eq)]
pub struct WgpuContext {
    target: Target,
    mesh: Mesh,
}

/// The steps that bring the surface and the uniform buffer in line with a
/// configuration: configure, set the aspect ratio, write the uniform.
pub open spec fn reconfigure_steps(config: SurfaceConfiguration) -> Seq<Step> {
    seq![
        Step::ConfigureSurface(config),
        Step::SetAspect(Aspect { width: config.width, height: config.height }),
        Step::WriteCameraUniform,
    ]
}

/// The steps of one update: move the eye, then write the uniform.
pub open spec fn update_steps(input: [i8; 2]) -> Seq<Step> {
    seq![Step::MoveEye { forward: input[0], strafe: input[1] }, Step::WriteCameraUniform]
}

impl WgpuContext {
    /// The size is not empty, the surface is configured at that size, the aspect
    /// ratio is that of the size, and the mesh is well formed.
    #[verifier::type_invariant]
    pub closed spec fn wf(&self) -> bool {
        &&& self.target.size.width > 0
        &&& self.target.size.height > 0
        &&& self.target.config.width == self.target.size.width
        &&& self.target.config.height == self.target.size.height
        &&& self.target.aspect == (Aspect {
            width: self.target.size.width,
            height: self.target.size.height,
        })
        &&& self.mesh.wf()
    }

    pub closed spec fn spec_size(&self) -> PhysicalSize {
        self.target.size
    }

    pub closed spec fn spec_config(&self) -> SurfaceConfiguration {
        self.target.config
    }

    pub closed spec fn spec_aspect(&self) -> Aspect {
        self.target.aspect
    }

    pub closed spec fn spec_mesh(&self) -> Mesh {
        self.mesh
    }

    /// The context after a resize to `new_size`: unchanged where a dimension is
    /// zero; else size, configured size and aspect ratio follow `new_size`.
    pub closed spec fn resized(self, new_size: PhysicalSize) -> WgpuContext {
        if new_size.width == 0 || new_size.height == 0 {
            self
        } else {
            WgpuContext {
                target: Target {
                    size: new_size,
                    config: SurfaceConfiguration {
                        width: new_size.width,
                        height: new_size.height,
                        ..self.target.config
                    },
                    aspect: Aspect { width: new_size.width, height: new_size.height },
                },
                mesh: self.mesh,
            }
        }
    }

    /// What a render returns: the error of the acquisition, or the commands of a
    /// frame that draws every index of the mesh.
    pub open spec fn rendered(self, acquired: Result<(), SurfaceError>) -> Result<
        Seq<Command>,
        SurfaceError,
    > {
        match acquired {
            Ok(_) => Ok(frame_commands(self.spec_mesh().indices@.len() as u32)),
            Err(e) => Err(e),
        }
    }

    /// A context for a surface of `width` by `height` pixels, and the camera as
    /// it starts. The surface gets the preferred format and the first present
    /// and alpha mode of `caps`; the mesh is the pentagon.
    pub fn new(caps: &SurfaceCapabilities, height: u32, width: u32) -> (r: (WgpuContext, Camera))
        requires
            caps.usable(),
            width > 0,
            height > 0,
        ensures
            r.0.wf(),
            r.0.size() == (PhysicalSize { width, height }),
            preferred_format(caps.srgb_formats@, r.0.config().format as int),
            r.0.config().width == width,
            r.0.config().height == height,
            r.0.config().present_mode == 0,
            r.0.config().alpha_mode == 0,
            r.0.config().desired_maximum_frame_latency == FRAME_LATENCY,
            r.0.aspect() == (Aspect { width, height }),
            r.0.aspect().is_ratio(width as int, height as int),
            r.0.spec_mesh().vertices@ == pentagon_vertices(),
            r.0.spec_mesh().indices@ == pentagon_indices(),
            r.1 == Camera::spec_new(width, height),
    {
        let config = SurfaceConfiguration::new(caps, width, height);
        let camera = Camera::new(width, height);
        let target = Target { size: PhysicalSize { width, height }, config, aspect: camera.aspect };
        let context = WgpuContext { target, mesh: Mesh::pentagon() };
        (context, camera)
    }

    /// The size in pixels.
    #[verifier::when_used_as_spec(spec_size)]
    pub fn size(&self) -> (r: PhysicalSize)
        ensures
            r == self.size(),
            r.width > 0,
            r.height > 0,
    {
        proof {
            use_type_invariant(self);
        }
        self.target.size
    }

    /// The configuration of the surface.
    #[verifier::when_used_as_spec(spec_config)]
    pub fn config(&self) -> (r: SurfaceConfiguration)
        ensures
            r == self.config(),
            r.width == self.size().width,
            r.height == self.size().height,
    {
        proof {
            use_type_invariant(self);
        }
        self.target.config
    }

    /// The aspect ratio of the camera.
    #[verifier::when_used_as_spec(spec_aspect)]
    pub fn aspect(&self) -> (r: Aspect)
        ensures
            r == self.aspect(),
            r == (Aspect { width: self.size().width, height: self.size().height }),
    {
        proof {
            use_type_invariant(self);
        }
        self.target.aspect
    }

    /// The mesh that a frame draws.
    pub fn mesh(&self) -> (r: &Mesh)
        ensures
            *r == self.spec_mesh(),
            r.wf(),
    {
        proof {
            use_type_invariant(self);
        }
        &self.mesh
    }

    /// Takes a new size. Where a dimension is zero nothing changes and nothing is
    /// to be done. Otherwise the size, the configured size and the aspect ratio
    /// become those of `new_size`, and the caller configures the surface, sets
    /// the aspect ratio and writes the uniform.
    pub fn resize(&mut self, new_size: PhysicalSize) -> (steps: Vec<Step>)
        ensures
            *final(self) == old(self).resized(new_size),
            final(self).spec_mesh() == old(self).spec_mesh(),
            new_size.width == 0 || new_size.height == 0 ==> *final(self) == *old(self)
                && steps@.len() == 0,
            new_size.width > 0 && new_size.height > 0 ==> {
                &&& final(self).size() == new_size
                &&& final(self).config() == (SurfaceConfiguration {
                    width: new_size.width,
                    height: new_size.height,
                    ..old(self).config()
                })
                &&& final(self).aspect() == (Aspect {
                    width: new_size.width,
                    height: new_size.height,
                })
                &&& final(self).aspect().is_ratio(new_size.width as int, new_size.height as int)
                &&& steps@ == reconfigure_steps(final(self).config())
            },
    {
        proof {
            use_type_invariant(&*self);
        }
        if new_size.width > 0 && new_size.height > 0 {
            let config = SurfaceConfiguration {
                format: self.target.config.format,
                width: new_size.width,
                height: new_size.height,
                present_mode: self.target.config.present_mode,
                alpha_mode: self.target.config.alpha_mode,
                desired_maximum_frame_latency: self.target.config.desired_maximum_frame_latency,
            };
            let aspect = Aspect { width: new_size.width, height: new_size.height };
            self.target = Target { size: new_size, config, aspect };
            let steps = vec![
                Step::ConfigureSurface(config),
                Step::SetAspect(aspect),
                Step::WriteCameraUniform,
            ];
            assert(steps@ =~= reconfigure_steps(config));
            steps
        } else {
            Vec::new()
        }
    }

    /// Takes the direction of one tick. The context stays as it is; the caller
    /// moves the eye and writes the uniform.
    pub fn update(&mut self, input: [i8; 2]) -> (steps: Vec<Step>)
        ensures
            *final(self) == *old(self),
            steps@ == update_steps(input),
    {
        let steps = vec![
            Step::MoveEye { forward: input[0], strafe: input[1] },
            Step::WriteCameraUniform,
        ];
        assert(steps@ =~= update_steps(input));
        steps
    }

    /// Renders one frame on what the acquisition of the surface's next image
    /// gave. An error of the acquisition is handed on as it is and nothing is
    /// recorded; else the commands of the frame are returned. The context stays
    /// as it is.
    pub fn render(&mut self, acquired: Result<(), SurfaceError>) -> (r: Result<
        Vec<Command>,
        SurfaceError,
    >)
        ensures
            *final(self) == *old(self),
            acquired.is_ok() <==> r.is_ok(),
            acquired.is_err() ==> r == Err::<Vec<Command>, SurfaceError>(acquired.unwrap_err()),
            r.is_ok() ==> Ok::<Seq<Command>, SurfaceError>(r.unwrap()@) == old(self).rendered(
                acquired,
            ),
    {
        proof {
            use_type_invariant(&*self);
        }
        match acquired {
            Err(e) => Err(e),
            Ok(_) => Ok(record_frame(self.mesh.index_count())),
        }
    }
}

/// The context after one resize for each size of `sizes`, in order.
pub open spec fn resized_all(ctx: WgpuContext, sizes: Seq<PhysicalSize>) -> WgpuContext
    decreases sizes.len(),
{
    if sizes.len() == 0 {
        ctx
    } else {
        resized_all(ctx, sizes.drop_last()).resized(sizes.last())
    }
}

/// A resize to a size with a zero dimension changes nothing.
pub proof fn lemma_resize_zero_is_noop(ctx: WgpuContext, new_size: PhysicalSize)
    requires
        new_size.width == 0 || new_size.height == 0,
    ensures
        ctx.resized(new_size) == ctx,
{
}

/// After a resize to a size without a zero dimension the context holds that
/// size, the surface is configured at it with nothing else of the configuration
/// changed, the aspect ratio is width by height, and the mesh is the same.
pub proof fn lemma_resize_takes_size(ctx: WgpuContext, new_size: PhysicalSize)
    requires
        ctx.wf(),
        new_size.width > 0,
        new_size.height > 0,
    ensures
        ctx.resized(new_size).wf(),
        ctx.resized(new_size).size() == new_size,
        ctx.resized(new_size).config() == (SurfaceConfiguration {
            width: new_size.width,
            height: new_size.height,
            ..ctx.config()
        }),
        ctx.resized(new_size).aspect().is_ratio(new_size.width as int, new_size.height as int),
        ctx.resized(new_size).spec_mesh() == ctx.spec_mesh(),
{
}

/// Of two resizes in a row, the first leaves no trace if the second has no zero
/// dimension.
pub proof fn lemma_resize_last_wins(ctx: WgpuContext, first: PhysicalSize, second: PhysicalSize)
    requires
        second.width > 0,
        second.height > 0,
    ensures
        ctx.resized(first).resized(second) == ctx.resized(second),
{
}

/// No resize touches the mesh.
pub proof fn lemma_resizes_keep_mesh(ctx: WgpuContext, sizes: Seq<PhysicalSize>)
    ensures
        resized_all(ctx, sizes).spec_mesh() == ctx.spec_mesh(),
    decreases sizes.len(),
{
    if sizes.len() > 0 {
        lemma_resizes_keep_mesh(ctx, sizes.drop_last());
    }
}

/// After any sequence of resizes that ends in a size without a zero dimension,
/// the context is well formed, its size and configured size are the last size and
/// its aspect ratio is the last width by the last height.
pub proof fn lemma_resize_sequence(ctx: WgpuContext, sizes: Seq<PhysicalSize>)
    requires
        ctx.wf(),
        sizes.len() > 0,
        sizes.last().width > 0,
        sizes.last().height > 0,
    ensures
        resized_all(ctx, sizes).wf(),
        resized_all(ctx, sizes).size() == sizes.last(),
        resized_all(ctx, sizes).config().width == sizes.last().width,
        resized_all(ctx, sizes).config().height == sizes.last().height,
        resized_all(ctx, sizes).aspect().is_ratio(
            sizes.last().width as int,
            sizes.last().height as int,
        ),
{
    lemma_resizes_keep_mesh(ctx, sizes.drop_last());
}

/// A resize to the size that the context has already changes nothing, and a
/// render on an acquired image then records the frame.
pub proof fn lemma_reconfigure_in_place(ctx: WgpuContext)
    requires
        ctx.wf(),
    ensures
        ctx.resized(ctx.size()) == ctx,
        ctx.resized(ctx.size()).rendered(Ok(())) == Ok::<Seq<Command>, SurfaceError>(
            frame_commands(ctx.spec_mesh().indices@.len() as u32),
        ),
{
}

/// A context that holds the pentagon draws all nine indices once in each frame,
/// in a single pass that clears to the background.
pub proof fn lemma_pentagon_frame(ctx: WgpuContext)
    requires
        ctx.spec_mesh().indices@ == pentagon_indices(),
    ensures
        ctx.rendered(Ok(())) == Ok::<Seq<Command>, SurfaceError>(frame_commands(9)),
        frame_commands(9)[0] == (Command::BeginRenderPass { clear: background() }),
        frame_commands(9)[5] == (Command::DrawIndexed {
            first_index: 0,
            index_count: 9,
            base_vertex: 0,
            first_instance: 0,
            instance_count: 1,
        }),
{
}

} // verus!
