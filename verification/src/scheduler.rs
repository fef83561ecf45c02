use vstd::prelude::*;
use crate::command::{GpuCommand, Storage, Uniform};
use crate::error::FluidError;
use crate::frame::{
    advect_color, advect_velocity, confine_vorticity, diffuse, enforce_boundaries, frame, inject,
    lemma_frame_commands, lemma_frame_fits, lemma_frame_hazard_free, show, solve_pressure,
    subtract_gradient,
    Fields, Injection, Parameters, Passes, COLOR_SCRATCH_SLOT, COLOR_SLOT, DIVERGENCE_SLOT,
    PRESSURE_SCRATCH_SLOT, PRESSURE_SLOT, VELOCITY_SCRATCH_SLOT, VELOCITY_SLOT,
};
use crate::render::{
    all_hazard_free, draw_commands, lemma_schedule_concat, lemma_schedule_single, rejection,
    schedule_commands, Draw,
};
use crate::render_fluid::{
    advection, boundary, color, diffusion, divergence, force, jacobi_draws, jacobi_method,
    present, subtract, vorticity_confinement, Applied, Operator,
};
use crate::scalar::Scalar;
use crate::texture::{
    create_commands, create_seeded_commands, delete_commands, texel_values, FieldPair, FloatSupport,
    Framebuffer, Seeded,
};
use crate::trace::{lemma_observed_schedule, observed};

verus! {

fn issue(
    r: Result<Applied, FluidError>,
    commands: &mut Vec<GpuCommand>,
    Ghost(declared): Ghost<Seq<Uniform>>,
    Ghost(names): Ghost<Seq<Uniform>>,
    Ghost(d): Ghost<Draw>,
) -> (roles: FieldPair)
    requires
        rejection(declared, names) is None,
        match r {
            Ok(applied) => applied.commands@ == draw_commands(d),
            Err(e) => rejection(declared, names) == Some(e),
        },
    ensures
        final(commands)@ == old(commands)@ + schedule_commands(seq![d]),
        r matches Ok(applied) && roles == (FieldPair { src: applied.src, dst: applied.dst }),
{
    proof {
        lemma_schedule_single(d);
    }
    let Applied { commands: mut issued, src, dst } = r.unwrap();
    commands.append(&mut issued);
    FieldPair { src, dst }
}

fn issue_plain(
    r: Result<Vec<GpuCommand>, FluidError>,
    commands: &mut Vec<GpuCommand>,
    Ghost(declared): Ghost<Seq<Uniform>>,
    Ghost(names): Ghost<Seq<Uniform>>,
    Ghost(d): Ghost<Draw>,
)
    requires
        rejection(declared, names) is None,
        match r {
            Ok(issued) => issued@ == draw_commands(d),
            Err(e) => rejection(declared, names) == Some(e),
        },
    ensures
        final(commands)@ == old(commands)@ + schedule_commands(seq![d]),
{
    proof {
        lemma_schedule_single(d);
    }
    let mut issued = r.unwrap();
    commands.append(&mut issued);
}

fn issue_relaxation(
    r: Result<Applied, FluidError>,
    commands: &mut Vec<GpuCommand>,
    Ghost(declared): Ghost<Seq<Uniform>>,
    Ghost(draws): Ghost<Seq<Draw>>,
) -> (roles: FieldPair)
    requires
        rejection(declared, Operator::Jacobi.names()) is None,
        match r {
            Ok(applied) => applied.commands@ == schedule_commands(draws),
            Err(e) => rejection(declared, Operator::Jacobi.names()) == Some(e),
        },
    ensures
        final(commands)@ == old(commands)@ + schedule_commands(draws),
        r matches Ok(applied) && roles == (FieldPair { src: applied.src, dst: applied.dst }),
{
    let Applied { commands: mut issued, src, dst } = r.unwrap();
    commands.append(&mut issued);
    FieldPair { src, dst }
}

/// The stretches of a step, each issued after the one before it.
impl Passes {
    fn run_advect_velocity(
        &self,
        f: Fields,
        params: &Parameters,
        commands: &mut Vec<GpuCommand>,
    ) -> (next: Fields)
        requires
            self.adequate(),
        ensures
            final(commands)@ == old(commands)@ + schedule_commands(
                advect_velocity(self, f, *params).draws,
            ),
            next == advect_velocity(self, f, *params).fields,
    {
        let p = *params;
        let r = advection(
            &self.advect,
            p.delta_x,
            p.delta_t,
            f.velocity.src,
            &f.velocity.src,
            f.velocity.dst,
        );
        let velocity = issue(
            r,
            commands,
            Ghost(self.advect.declared()),
            Ghost(Operator::Advect.names()),
            Ghost(advect_velocity(self, f, p).draws[0]),
        );
        assert(advect_velocity(self, f, p).draws =~= seq![
            advect_velocity(self, f, p).draws[0],
        ]);
        Fields { velocity, ..f }
    }

    fn run_diffuse(
        &self,
        f: Fields,
        params: &Parameters,
        commands: &mut Vec<GpuCommand>,
    ) -> (next: Fields)
        requires
            self.adequate(),
        ensures
            final(commands)@ == old(commands)@ + schedule_commands(
                diffuse(self, f, *params).draws,
            ),
            next == diffuse(self, f, *params).fields,
    {
        let p = *params;
        let r = diffusion(
            &self.jacobi,
            p.iterations,
            p.delta_x,
            p.diffusion_alpha,
            p.diffusion_r_beta,
            f.velocity.src,
            f.velocity.dst,
        );
        let velocity = issue_relaxation(
            r,
            commands,
            Ghost(self.jacobi.declared()),
            Ghost(diffuse(self, f, p).draws),
        );
        Fields { velocity, ..f }
    }

    fn run_inject(
        &self,
        f: Fields,
        params: &Parameters,
        injection: Option<Injection>,
        commands: &mut Vec<GpuCommand>,
    ) -> (next: Fields)
        requires
            self.adequate(),
        ensures
            final(commands)@ == old(commands)@ + schedule_commands(
                inject(self, f, *params, injection).draws,
            ),
            next == inject(self, f, *params, injection).fields,
    {
        let p = *params;
        match injection {
            Some(i) => {
                let r = force(
                    &self.force,
                    p.delta_t,
                    p.rho,
                    &i.force,
                    &i.impulse_pos,
                    f.velocity.src,
                    f.velocity.dst,
                );
                let ghost before = commands@;
                let ghost d_force = inject(self, f, p, injection).draws[0];
                let ghost d_color = inject(self, f, p, injection).draws[1];
                let velocity = issue(
                    r,
                    commands,
                    Ghost(self.force.declared()),
                    Ghost(Operator::Force.names()),
                    Ghost(d_force),
                );
                let r = color(
                    &self.color,
                    p.delta_t,
                    p.rho,
                    &i.color,
                    &i.impulse_pos,
                    f.color.src,
                    f.color.dst,
                );
                let color = issue(
                    r,
                    commands,
                    Ghost(self.color.declared()),
                    Ghost(Operator::Color.names()),
                    Ghost(d_color),
                );
                proof {
                    lemma_schedule_concat(seq![d_force], seq![d_color]);
                    assert(inject(self, f, p, injection).draws =~= seq![d_force] + seq![
                        d_color,
                    ]);
                    assert(commands@ =~= before + schedule_commands(
                        inject(self, f, p, injection).draws,
                    ));
                }
                Fields { velocity, color, ..f }
            },
            None => {
                assert(commands@ =~= commands@ + schedule_commands(
                    inject(self, f, p, injection).draws,
                ));
                f
            },
        }
    }

    fn run_solve_pressure(
        &self,
        f: Fields,
        params: &Parameters,
        commands: &mut Vec<GpuCommand>,
    ) -> (next: Fields)
        requires
            self.adequate(),
        ensures
            final(commands)@ == old(commands)@ + schedule_commands(
                solve_pressure(self, f, *params).draws,
            ),
            next == solve_pressure(self, f, *params).fields,
    {
        let p = *params;
        let ghost before = commands@;
        let ghost d_divergence = solve_pressure(self, f, p).draws[0];
        let r = divergence(&self.divergence, p.delta_x, &f.velocity.src, &f.divergence);
        issue_plain(
            r,
            commands,
            Ghost(self.divergence.declared()),
            Ghost(Operator::Divergence.names()),
            Ghost(d_divergence),
        );
        let ghost relaxation = jacobi_draws(
            &self.jacobi,
            p.iterations as nat,
            p.delta_x,
            p.pressure_alpha,
            Scalar::quarter(),
            f.pressure.src,
            Some(f.divergence),
            f.pressure.dst,
        );
        let r = jacobi_method(
            &self.jacobi,
            p.iterations,
            p.delta_x,
            p.pressure_alpha,
            Scalar::quarter(),
            f.pressure.src,
            &f.divergence,
            f.pressure.dst,
        );
        let pressure = issue_relaxation(
            r,
            commands,
            Ghost(self.jacobi.declared()),
            Ghost(relaxation),
        );
        proof {
            lemma_schedule_concat(seq![d_divergence], relaxation);
            assert(solve_pressure(self, f, p).draws =~= seq![d_divergence] + relaxation);
            assert(commands@ =~= before + schedule_commands(solve_pressure(self, f, p).draws));
        }
        Fields { pressure, ..f }
    }

    fn run_subtract_gradient(
        &self,
        f: Fields,
        params: &Parameters,
        commands: &mut Vec<GpuCommand>,
    ) -> (next: Fields)
        requires
            self.adequate(),
        ensures
            final(commands)@ == old(commands)@ + schedule_commands(
                subtract_gradient(self, f, *params).draws,
            ),
            next == subtract_gradient(self, f, *params).fields,
    {
        let p = *params;
        let r = subtract(
            &self.subtract,
            p.delta_x,
            &f.pressure.src,
            f.velocity.src,
            f.velocity.dst,
        );
        let velocity = issue(
            r,
            commands,
            Ghost(self.subtract.declared()),
            Ghost(Operator::Subtract.names()),
            Ghost(subtract_gradient(self, f, p).draws[0]),
        );
        assert(subtract_gradient(self, f, p).draws =~= seq![
            subtract_gradient(self, f, p).draws[0],
        ]);
        Fields { velocity, ..f }
    }

    fn run_enforce_boundaries(
        &self,
        f: Fields,
        params: &Parameters,
        commands: &mut Vec<GpuCommand>,
    ) -> (next: Fields)
        requires
            self.adequate(),
        ensures
            final(commands)@ == old(commands)@ + schedule_commands(
                enforce_boundaries(self, f, *params).draws,
            ),
            next == enforce_boundaries(self, f, *params).fields,
    {
        let p = *params;
        let ghost before = commands@;
        let ghost d_velocity = enforce_boundaries(self, f, p).draws[0];
        let ghost d_pressure = enforce_boundaries(self, f, p).draws[1];
        let r = boundary(
            &self.boundary,
            p.delta_x,
            Scalar::neg_one(),
            f.velocity.src,
            f.velocity.dst,
        );
        let velocity = issue(
            r,
            commands,
            Ghost(self.boundary.declared()),
            Ghost(Operator::Boundary.names()),
            Ghost(d_velocity),
        );
        let r = boundary(
            &self.boundary,
            p.delta_x,
            Scalar::one(),
            f.pressure.src,
            f.pressure.dst,
        );
        let pressure = issue(
            r,
            commands,
            Ghost(self.boundary.declared()),
            Ghost(Operator::Boundary.names()),
            Ghost(d_pressure),
        );
        proof {
            lemma_schedule_concat(seq![d_velocity], seq![d_pressure]);
            assert(enforce_boundaries(self, f, p).draws =~= seq![d_velocity] + seq![
                d_pressure,
            ]);
            assert(commands@ =~= before + schedule_commands(
                enforce_boundaries(self, f, p).draws,
            ));
        }
        Fields { velocity, pressure, ..f }
    }

    fn run_confine_vorticity(
        &self,
        f: Fields,
        params: &Parameters,
        commands: &mut Vec<GpuCommand>,
    ) -> (next: Fields)
        requires
            self.adequate(),
        ensures
            final(commands)@ == old(commands)@ + schedule_commands(
                confine_vorticity(self, f, *params).draws,
            ),
            next == confine_vorticity(self, f, *params).fields,
    {
        let p = *params;
        let r = vorticity_confinement(
            &self.vorticity,
            p.delta_t,
            p.delta_x,
            p.vorticity,
            f.velocity.src,
            f.velocity.dst,
        );
        let velocity = issue(
            r,
            commands,
            Ghost(self.vorticity.declared()),
            Ghost(Operator::Vorticity.names()),
            Ghost(confine_vorticity(self, f, p).draws[0]),
        );
        assert(confine_vorticity(self, f, p).draws =~= seq![
            confine_vorticity(self, f, p).draws[0],
        ]);
        Fields { velocity, ..f }
    }

    fn run_advect_color(
        &self,
        f: Fields,
        params: &Parameters,
        commands: &mut Vec<GpuCommand>,
    ) -> (next: Fields)
        requires
            self.adequate(),
        ensures
            final(commands)@ == old(commands)@ + schedule_commands(
                advect_color(self, f, *params).draws,
            ),
            next == advect_color(self, f, *params).fields,
    {
        let p = *params;
        let r = advection(
            &self.advect,
            p.delta_x,
            p.delta_t,
            f.color.src,
            &f.velocity.src,
            f.color.dst,
        );
        let color = issue(
            r,
            commands,
            Ghost(self.advect.declared()),
            Ghost(Operator::Advect.names()),
            Ghost(advect_color(self, f, p).draws[0]),
        );
        assert(advect_color(self, f, p).draws =~= seq![advect_color(self, f, p).draws[0]]);
        Fields { color, ..f }
    }

    fn run_show(&self, f: Fields, commands: &mut Vec<GpuCommand>)
        requires
            self.adequate(),
        ensures
            final(commands)@ == old(commands)@ + schedule_commands(show(self, f).draws),
    {
        let r = present(&self.quad, &f.color.src);
        issue_plain(
            r,
            commands,
            Ghost(self.quad.declared()),
            Ghost(Operator::Quad.names()),
            Ghost(show(self, f).draws[0]),
        );
        assert(show(self, f).draws =~= seq![show(self, f).draws[0]]);
    }
}

/// What setting up a simulation hands back.
pub struct Setup {
    pub scheduler: Scheduler,
    /// Creation of the seeded velocity field.
    pub velocity: Seeded,
    /// Creation of the seeded colour field.
    pub color: Seeded,
    /// Creation of the five fields that start out empty.
    pub scratch: Vec<GpuCommand>,
}

/// Owns the fields and passes of one simulation and issues its steps.
pub struct Scheduler {
    passes: Passes,
    fields: Fields,
    width: i32,
    height: i32,
    support: FloatSupport,
    cur_vector: i32,
    cur_color: i32,
}

/// The error that setting up a simulation ends in, if any: an inadequate
/// pass first, then a velocity seed of the wrong size, then a colour seed of
/// the wrong size.
pub open spec fn setup_rejection(
    passes: &Passes,
    width: i32,
    height: i32,
    velocity_len: usize,
    color_len: usize,
) -> Option<FluidError> {
    if passes.first_rejection() is Some {
        passes.first_rejection()
    } else if velocity_len != texel_values(width as int, height as int) {
        Some(FluidError::DataSizeMismatch { width, height, actual: velocity_len })
    } else if color_len != texel_values(width as int, height as int) {
        Some(FluidError::DataSizeMismatch { width, height, actual: color_len })
    } else {
        None
    }
}

/// Creation of the five fields that start out empty.
pub open spec fn scratch_commands(fields: Fields) -> Seq<GpuCommand> {
    create_commands(fields.velocity.dst) + create_commands(fields.pressure.src) + create_commands(
        fields.pressure.dst,
    ) + create_commands(fields.divergence) + create_commands(fields.color.dst)
}

/// Replacement of the current velocity by a seeded field, and of the
/// current pressure by an empty one.
pub open spec fn reseed_velocity_commands(fields: Fields) -> Seq<GpuCommand> {
    delete_commands(fields.velocity.src) + delete_commands(fields.pressure.src)
        + create_seeded_commands(fields.velocity.src) + create_commands(fields.pressure.src)
}

/// Replacement of the current colour by a seeded field.
pub open spec fn reseed_color_commands(fields: Fields) -> Seq<GpuCommand> {
    delete_commands(fields.color.src) + create_seeded_commands(fields.color.src)
}

impl Scheduler {
    #[verifier::type_invariant]
    spec fn consistent(self) -> bool {
        &&& self.passes.adequate()
        &&& self.fields.same_buffers(
            Fields::initial(self.width, self.height, self.support.spec_storage()),
        )
    }

    /// The render passes.
    pub closed spec fn passes(&self) -> Passes {
        self.passes
    }

    /// The current roles of the fields.
    pub closed spec fn fields(&self) -> Fields {
        self.fields
    }

    /// Width of the grid.
    pub closed spec fn width(&self) -> i32 {
        self.width
    }

    /// Height of the grid.
    pub closed spec fn height(&self) -> i32 {
        self.height
    }

    /// Storage of the fields.
    pub closed spec fn storage(&self) -> Storage {
        self.support.spec_storage()
    }

    /// Index of the pattern that the velocity was last seeded with.
    pub closed spec fn cur_vector(&self) -> i32 {
        self.cur_vector
    }

    /// Index of the pattern that the colour was last seeded with.
    pub closed spec fn cur_color(&self) -> i32 {
        self.cur_color
    }

    /// Sets up a simulation on a `width` x `height` grid: the velocity
    /// starts out as `velocity_seed`, the colour as `color_seed`, pressure
    /// and divergence empty, both patterns at index 0.
    ///
    /// Fails, creating nothing, if a pass lacks a uniform that its operator
    /// sets, or if a seed does not hold `width * height * 4` values.
    pub fn new(
        width: i32,
        height: i32,
        support: FloatSupport,
        passes: Passes,
        velocity_seed: Vec<Scalar>,
        color_seed: Vec<Scalar>,
    ) -> (r: Result<Setup, FluidError>)
        ensures
            r is Ok <==> setup_rejection(
                &passes,
                width,
                height,
                velocity_seed.len(),
                color_seed.len(),
            ) is None,
            r matches Err(e) ==> setup_rejection(
                &passes,
                width,
                height,
                velocity_seed.len(),
                color_seed.len(),
            ) == Some(e),
            r matches Ok(setup) ==> {
                let fields = Fields::initial(width, height, support.spec_storage());
                &&& setup.scheduler.passes() == passes
                &&& setup.scheduler.fields() == fields
                &&& setup.scheduler.width() == width
                &&& setup.scheduler.height() == height
                &&& setup.scheduler.storage() == support.spec_storage()
                &&& setup.scheduler.cur_vector() == 0
                &&& setup.scheduler.cur_color() == 0
                &&& setup.velocity.framebuffer == fields.velocity.src
                &&& setup.velocity.commands@ == create_seeded_commands(fields.velocity.src)
                &&& setup.velocity.pixels@ == velocity_seed@
                &&& setup.color.framebuffer == fields.color.src
                &&& setup.color.commands@ == create_seeded_commands(fields.color.src)
                &&& setup.color.pixels@ == color_seed@
                &&& setup.scratch@ == scratch_commands(fields)
            },
    {
        match passes.validate() {
            Ok(()) => {},
            Err(e) => {
                return Err(e);
            },
        }
        let velocity = match Framebuffer::create_with_data(
            VELOCITY_SLOT,
            width,
            height,
            &support,
            velocity_seed,
        ) {
            Ok(seeded) => seeded,
            Err(e) => {
                return Err(e);
            },
        };
        let color = match Framebuffer::create_with_data(
            COLOR_SLOT,
            width,
            height,
            &support,
            color_seed,
        ) {
            Ok(seeded) => seeded,
            Err(e) => {
                return Err(e);
            },
        };
        let (velocity_scratch, mut scratch) = Framebuffer::new(
            VELOCITY_SCRATCH_SLOT,
            width,
            height,
            &support,
        );
        let (pressure, mut created) = Framebuffer::new(PRESSURE_SLOT, width, height, &support);
        scratch.append(&mut created);
        let (pressure_scratch, mut created) = Framebuffer::new(
            PRESSURE_SCRATCH_SLOT,
            width,
            height,
            &support,
        );
        scratch.append(&mut created);
        let (divergence, mut created) = Framebuffer::new(DIVERGENCE_SLOT, width, height, &support);
        scratch.append(&mut created);
        let (color_scratch, mut created) = Framebuffer::new(
            COLOR_SCRATCH_SLOT,
            width,
            height,
            &support,
        );
        scratch.append(&mut created);
        let fields = Fields {
            velocity: FieldPair { src: velocity.framebuffer, dst: velocity_scratch },
            pressure: FieldPair { src: pressure, dst: pressure_scratch },
            color: FieldPair { src: color.framebuffer, dst: color_scratch },
            divergence,
        };
        let scheduler = Scheduler {
            passes,
            fields,
            width,
            height,
            support,
            cur_vector: 0,
            cur_color: 0,
        };
        Ok(Setup { scheduler, velocity, color, scratch })
    }

    /// The current roles of the fields.
    pub fn current_fields(&self) -> (fields: Fields)
        ensures
            fields == self.fields(),
            fields.slots_distinct(),
            fields.same_buffers(Fields::initial(self.width(), self.height(), self.storage())),
    {
        proof {
            use_type_invariant(self);
        }
        self.fields
    }

    /// Whether the velocity pattern `selected` differs from the one that
    /// the velocity was last seeded with.
    pub fn velocity_pattern_changed(&self, selected: i32) -> (changed: bool)
        ensures
            changed == (selected != self.cur_vector()),
    {
        selected != self.cur_vector
    }

    /// Whether the colour pattern `selected` differs from the one that the
    /// colour was last seeded with.
    pub fn color_pattern_changed(&self, selected: i32) -> (changed: bool)
        ensures
            changed == (selected != self.cur_color()),
    {
        selected != self.cur_color
    }

    /// Replaces the current velocity by `texture_data`, the pattern of
    /// index `selected`, and the current pressure by an empty field. The
    /// pixels handed back are `texture_data` unchanged.
    ///
    /// Data that does not hold `width * height * 4` values is turned down:
    /// nothing is deleted or created, and the scheduler stays as it was.
    pub fn reseed_velocity(
        &mut self,
        selected: i32,
        texture_data: Vec<Scalar>,
    ) -> (r: Result<Seeded, FluidError>)
        ensures
            final(self).passes() == old(self).passes(),
            final(self).fields() == old(self).fields(),
            final(self).width() == old(self).width(),
            final(self).height() == old(self).height(),
            final(self).storage() == old(self).storage(),
            final(self).cur_color() == old(self).cur_color(),
            texture_data.len() == texel_values(old(self).width() as int, old(self).height() as int)
                ==> {
                &&& r matches Ok(seeded)
                &&& seeded.framebuffer == old(self).fields().velocity.src
                &&& seeded.commands@ == reseed_velocity_commands(old(self).fields())
                &&& seeded.pixels@ == texture_data@
                &&& final(self).cur_vector() == selected
            },
            texture_data.len() != texel_values(old(self).width() as int, old(self).height() as int)
                ==> {
                &&& r == Err::<Seeded, FluidError>(
                    FluidError::DataSizeMismatch {
                        width: old(self).width(),
                        height: old(self).height(),
                        actual: texture_data.len(),
                    },
                )
                &&& final(self).cur_vector() == old(self).cur_vector()
            },
    {
        proof {
            use_type_invariant(&*self);
        }
        let velocity = self.fields.velocity.src;
        let pressure = self.fields.pressure.src;
        let seeded = match Framebuffer::create_with_data(
            velocity.slot,
            self.width,
            self.height,
            &self.support,
            texture_data,
        ) {
            Ok(seeded) => seeded,
            Err(e) => {
                return Err(e);
            },
        };
        let (_, mut emptied) = Framebuffer::new(
            pressure.slot,
            self.width,
            self.height,
            &self.support,
        );
        let Seeded { framebuffer, commands: mut created, pixels } = seeded;
        let mut commands = velocity.delete_buffers();
        let mut deleted = pressure.delete_buffers();
        commands.append(&mut deleted);
        commands.append(&mut created);
        commands.append(&mut emptied);
        self.cur_vector = selected;
        Ok(Seeded { framebuffer, commands, pixels })
    }

    /// Replaces the current colour by `texture_data`, the pattern of index
    /// `selected`. The pixels handed back are `texture_data` unchanged.
    ///
    /// Data that does not hold `width * height * 4` values is turned down:
    /// nothing is deleted or created, and the scheduler stays as it was.
    pub fn reseed_color(
        &mut self,
        selected: i32,
        texture_data: Vec<Scalar>,
    ) -> (r: Result<Seeded, FluidError>)
        ensures
            final(self).passes() == old(self).passes(),
            final(self).fields() == old(self).fields(),
            final(self).width() == old(self).width(),
            final(self).height() == old(self).height(),
            final(self).storage() == old(self).storage(),
            final(self).cur_vector() == old(self).cur_vector(),
            texture_data.len() == texel_values(old(self).width() as int, old(self).height() as int)
                ==> {
                &&& r matches Ok(seeded)
                &&& seeded.framebuffer == old(self).fields().color.src
                &&& seeded.commands@ == reseed_color_commands(old(self).fields())
                &&& seeded.pixels@ == texture_data@
                &&& final(self).cur_color() == selected
            },
            texture_data.len() != texel_values(old(self).width() as int, old(self).height() as int)
                ==> {
                &&& r == Err::<Seeded, FluidError>(
                    FluidError::DataSizeMismatch {
                        width: old(self).width(),
                        height: old(self).height(),
                        actual: texture_data.len(),
                    },
                )
                &&& final(self).cur_color() == old(self).cur_color()
            },
    {
        proof {
            use_type_invariant(&*self);
        }
        let current = self.fields.color.src;
        let seeded = match Framebuffer::create_with_data(
            current.slot,
            self.width,
            self.height,
            &self.support,
            texture_data,
        ) {
            Ok(seeded) => seeded,
            Err(e) => {
                return Err(e);
            },
        };
        let Seeded { framebuffer, commands: mut created, pixels } = seeded;
        let mut commands = current.delete_buffers();
        commands.append(&mut created);
        self.cur_color = selected;
        Ok(Seeded { framebuffer, commands, pixels })
    }

    /// Issues one step: the commands of every draw of the step, in order,
    /// ending with the presentation of the colour. Afterwards the roles of
    /// the fields are those that the step leaves. A context that receives
    /// the commands makes exactly the draws of the step, and none of them
    /// samples the field it writes.
    pub fn step(
        &mut self,
        params: &Parameters,
        injection: Option<Injection>,
    ) -> (commands: Vec<GpuCommand>)
        ensures
            commands@ == schedule_commands(
                frame(&old(self).passes(), old(self).fields(), *params, injection).draws,
            ),
            final(self).fields() == frame(
                &old(self).passes(),
                old(self).fields(),
                *params,
                injection,
            ).fields,
            all_hazard_free(
                frame(&old(self).passes(), old(self).fields(), *params, injection).draws,
            ),
            observed(commands@) == frame(
                &old(self).passes(),
                old(self).fields(),
                *params,
                injection,
            ).draws,
            final(self).passes() == old(self).passes(),
            final(self).width() == old(self).width(),
            final(self).height() == old(self).height(),
            final(self).storage() == old(self).storage(),
            final(self).cur_vector() == old(self).cur_vector(),
            final(self).cur_color() == old(self).cur_color(),
    {
        proof {
            use_type_invariant(&*self);
            lemma_frame_commands(&self.passes, self.fields, *params, injection);
            lemma_frame_hazard_free(&self.passes, self.fields, *params, injection);
            lemma_frame_fits(&self.passes, self.fields, *params, injection);
            lemma_observed_schedule(frame(&self.passes, self.fields, *params, injection).draws);
        }
        let p = *params;
        let passes = &self.passes;
        let mut commands: Vec<GpuCommand> = Vec::new();
        let f = passes.run_advect_velocity(self.fields, &p, &mut commands);
        let f = passes.run_diffuse(f, &p, &mut commands);
        let f = passes.run_inject(f, &p, injection, &mut commands);
        let f = passes.run_solve_pressure(f, &p, &mut commands);
        let f = passes.run_subtract_gradient(f, &p, &mut commands);
        let f = passes.run_enforce_boundaries(f, &p, &mut commands);
        let f = passes.run_confine_vorticity(f, &p, &mut commands);
        let f = passes.run_advect_color(f, &p, &mut commands);
        passes.run_show(f, &mut commands);
        self.fields = f;
        commands
    }
}

} // verus!
