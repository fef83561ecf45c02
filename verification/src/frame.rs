use vstd::prelude::*;
use crate::command::Storage;
use crate::error::FluidError;
use crate::render::{
    all_hazard_free, lemma_schedule_concat, rejection, schedule_commands, Draw, RenderPass,
};
use crate::render_fluid::{
    advection_draw, boundary_draw, color_draw, divergence_draw, force_draw, jacobi_draws,
    present_draw, subtract_draw, vorticity_draw, Operator,
};
use crate::scalar::{Scalar, Vector2, Vector3};
use crate::texture::{FieldPair, Framebuffer};
use crate::trace::fits;

verus! {

/// Slot of the field that holds the velocity when the simulation starts.
pub const VELOCITY_SLOT: usize = 0;

/// Slot of the velocity's scratch field.
pub const VELOCITY_SCRATCH_SLOT: usize = 1;

/// Slot of the field that holds the pressure when the simulation starts.
pub const PRESSURE_SLOT: usize = 2;

/// Slot of the pressure's scratch field.
pub const PRESSURE_SCRATCH_SLOT: usize = 3;

/// Slot of the divergence field.
pub const DIVERGENCE_SLOT: usize = 4;

/// Slot of the field that holds the colour when the simulation starts.
pub const COLOR_SLOT: usize = 5;

/// Slot of the colour's scratch field.
pub const COLOR_SCRATCH_SLOT: usize = 6;

/// The render passes of the solver, one per operator.
#[derive(Debug)]
pub struct Passes {
    pub advect: RenderPass,
    pub quad: RenderPass,
    pub jacobi: RenderPass,
    pub divergence: RenderPass,
    pub subtract: RenderPass,
    pub boundary: RenderPass,
    pub force: RenderPass,
    pub color: RenderPass,
    pub vorticity: RenderPass,
}

impl Passes {
    /// The error for the first uniform that an operator sets and its pass
    /// lacks, the passes taken in the order of their fields.
    pub open spec fn first_rejection(&self) -> Option<FluidError> {
        if rejection(self.advect.declared(), Operator::Advect.names()) is Some {
            rejection(self.advect.declared(), Operator::Advect.names())
        } else if rejection(self.quad.declared(), Operator::Quad.names()) is Some {
            rejection(self.quad.declared(), Operator::Quad.names())
        } else if rejection(self.jacobi.declared(), Operator::Jacobi.names()) is Some {
            rejection(self.jacobi.declared(), Operator::Jacobi.names())
        } else if rejection(self.divergence.declared(), Operator::Divergence.names()) is Some {
            rejection(self.divergence.declared(), Operator::Divergence.names())
        } else if rejection(self.subtract.declared(), Operator::Subtract.names()) is Some {
            rejection(self.subtract.declared(), Operator::Subtract.names())
        } else if rejection(self.boundary.declared(), Operator::Boundary.names()) is Some {
            rejection(self.boundary.declared(), Operator::Boundary.names())
        } else if rejection(self.force.declared(), Operator::Force.names()) is Some {
            rejection(self.force.declared(), Operator::Force.names())
        } else if rejection(self.color.declared(), Operator::Color.names()) is Some {
            rejection(self.color.declared(), Operator::Color.names())
        } else {
            rejection(self.vorticity.declared(), Operator::Vorticity.names())
        }
    }

    /// Every pass declares the uniforms that its operator sets.
    pub open spec fn adequate(&self) -> bool {
        &&& rejection(self.advect.declared(), Operator::Advect.names()) is None
        &&& rejection(self.quad.declared(), Operator::Quad.names()) is None
        &&& rejection(self.jacobi.declared(), Operator::Jacobi.names()) is None
        &&& rejection(self.divergence.declared(), Operator::Divergence.names()) is None
        &&& rejection(self.subtract.declared(), Operator::Subtract.names()) is None
        &&& rejection(self.boundary.declared(), Operator::Boundary.names()) is None
        &&& rejection(self.force.declared(), Operator::Force.names()) is None
        &&& rejection(self.color.declared(), Operator::Color.names()) is None
        &&& rejection(self.vorticity.declared(), Operator::Vorticity.names()) is None
    }

    /// Checks, pass by pass, that the uniforms which the operator sets are
    /// declared.
    pub fn validate(&self) -> (r: Result<(), FluidError>)
        ensures
            r is Ok <==> self.adequate(),
            r is Ok <==> self.first_rejection() is None,
            r matches Err(e) ==> self.first_rejection() == Some(e),
    {
        match self.advect.check_uniforms(&Operator::Advect.uniforms()) {
            Ok(()) => {},
            Err(e) => {
                return Err(e);
            },
        }
        match self.quad.check_uniforms(&Operator::Quad.uniforms()) {
            Ok(()) => {},
            Err(e) => {
                return Err(e);
            },
        }
        match self.jacobi.check_uniforms(&Operator::Jacobi.uniforms()) {
            Ok(()) => {},
            Err(e) => {
                return Err(e);
            },
        }
        match self.divergence.check_uniforms(&Operator::Divergence.uniforms()) {
            Ok(()) => {},
            Err(e) => {
                return Err(e);
            },
        }
        match self.subtract.check_uniforms(&Operator::Subtract.uniforms()) {
            Ok(()) => {},
            Err(e) => {
                return Err(e);
            },
        }
        match self.boundary.check_uniforms(&Operator::Boundary.uniforms()) {
            Ok(()) => {},
            Err(e) => {
                return Err(e);
            },
        }
        match self.force.check_uniforms(&Operator::Force.uniforms()) {
            Ok(()) => {},
            Err(e) => {
                return Err(e);
            },
        }
        match self.color.check_uniforms(&Operator::Color.uniforms()) {
            Ok(()) => {},
            Err(e) => {
                return Err(e);
            },
        }
        self.vorticity.check_uniforms(&Operator::Vorticity.uniforms())
    }
}

/// The scalars of one step. They are fixed while the step runs.
#[derive(Clone, Copy, PartialEq, Eq, Structural, Debug)]
pub struct Parameters {
    /// Relaxation steps of the diffusion and of the pressure solve.
    pub iterations: usize,
    /// Grid spacing, the reciprocal of the grid width.
    pub delta_x: Scalar,
    /// Time step.
    pub delta_t: Scalar,
    /// Weight of the right-hand side in the diffusion stencil: the squared
    /// grid spacing over viscosity times time step.
    pub diffusion_alpha: Scalar,
    /// Normalisation of the diffusion stencil: the reciprocal of four plus
    /// the weight.
    pub diffusion_r_beta: Scalar,
    /// Weight of the right-hand side in the pressure stencil: minus the
    /// squared grid spacing.
    pub pressure_alpha: Scalar,
    /// Density by which injected force and dye are divided.
    pub rho: Scalar,
    /// Strength of the vorticity confinement.
    pub vorticity: Scalar,
}

/// What a pressed pointer injects in one step.
#[derive(Clone, Copy, PartialEq, Eq, Structural, Debug)]
pub struct Injection {
    /// The force, along the pointer's displacement.
    pub force: Vector2,
    /// The pointer's normalized position, origin bottom-left.
    pub impulse_pos: Vector2,
    /// The dye's colour.
    pub color: Vector3,
}

/// Which field plays which role.
#[derive(Clone, Copy, PartialEq, Eq, Structural, Debug)]
pub struct Fields {
    pub velocity: FieldPair,
    pub pressure: FieldPair,
    pub color: FieldPair,
    pub divergence: Framebuffer,
}

impl Fields {
    /// No two of the seven fields share a slot.
    pub open spec fn slots_distinct(self) -> bool {
        let v = self.velocity.src.slot;
        let vs = self.velocity.dst.slot;
        let p = self.pressure.src.slot;
        let ps = self.pressure.dst.slot;
        let c = self.color.src.slot;
        let cs = self.color.dst.slot;
        let d = self.divergence.slot;
        &&& v != vs && v != p && v != ps && v != c && v != cs && v != d
        &&& vs != p && vs != ps && vs != c && vs != cs && vs != d
        &&& p != ps && p != c && p != cs && p != d
        &&& ps != c && ps != cs && ps != d
        &&& c != cs && c != d
        &&& cs != d
    }

    /// Every field is the same as in `other`, up to the roles within each
    /// pair.
    pub open spec fn same_buffers(self, other: Fields) -> bool {
        &&& self.velocity == other.velocity || self.velocity == other.velocity.swapped()
        &&& self.pressure == other.pressure || self.pressure == other.pressure.swapped()
        &&& self.color == other.color || self.color == other.color.swapped()
        &&& self.divergence == other.divergence
    }

    /// The fields that a simulation starts with.
    pub open spec fn initial(width: i32, height: i32, storage: Storage) -> Fields {
        Fields {
            velocity: FieldPair {
                src: Framebuffer { width, height, slot: VELOCITY_SLOT, storage },
                dst: Framebuffer { width, height, slot: VELOCITY_SCRATCH_SLOT, storage },
            },
            pressure: FieldPair {
                src: Framebuffer { width, height, slot: PRESSURE_SLOT, storage },
                dst: Framebuffer { width, height, slot: PRESSURE_SCRATCH_SLOT, storage },
            },
            color: FieldPair {
                src: Framebuffer { width, height, slot: COLOR_SLOT, storage },
                dst: Framebuffer { width, height, slot: COLOR_SCRATCH_SLOT, storage },
            },
            divergence: Framebuffer { width, height, slot: DIVERGENCE_SLOT, storage },
        }
    }
}

/// A stretch of a step: its draws in order, and the roles of the fields
/// once they are issued.
pub struct Frame {
    pub draws: Seq<Draw>,
    pub fields: Fields,
}

impl Frame {
    /// This stretch followed by `next`.
    pub open spec fn followed_by(self, next: Frame) -> Frame {
        Frame { draws: self.draws + next.draws, fields: next.fields }
    }
}

/// The velocity is transported along itself.
pub open spec fn advect_velocity(passes: &Passes, f: Fields, p: Parameters) -> Frame {
    Frame {
        draws: seq![
            advection_draw(
                &passes.advect,
                p.delta_x,
                p.delta_t,
                f.velocity.src,
                f.velocity.src,
                f.velocity.dst,
            ),
        ],
        fields: Fields { velocity: f.velocity.swapped(), ..f },
    }
}

/// Viscous diffusion of the velocity.
pub open spec fn diffuse(passes: &Passes, f: Fields, p: Parameters) -> Frame {
    Frame {
        draws: jacobi_draws(
            &passes.jacobi,
            p.iterations as nat,
            p.delta_x,
            p.diffusion_alpha,
            p.diffusion_r_beta,
            f.velocity.src,
            None,
            f.velocity.dst,
        ),
        fields: Fields { velocity: f.velocity.after(p.iterations as nat), ..f },
    }
}

/// While the pointer is pressed, force goes into the velocity and dye into
/// the colour.
pub open spec fn inject(
    passes: &Passes,
    f: Fields,
    p: Parameters,
    injection: Option<Injection>,
) -> Frame {
    match injection {
        Some(i) => Frame {
            draws: seq![
                force_draw(
                    &passes.force,
                    p.delta_t,
                    p.rho,
                    i.force,
                    i.impulse_pos,
                    f.velocity.src,
                    f.velocity.dst,
                ),
                color_draw(
                    &passes.color,
                    p.delta_t,
                    p.rho,
                    i.color,
                    i.impulse_pos,
                    f.color.src,
                    f.color.dst,
                ),
            ],
            fields: Fields { velocity: f.velocity.swapped(), color: f.color.swapped(), ..f },
        },
        None => Frame { draws: Seq::empty(), fields: f },
    }
}

/// The divergence of the velocity is the right-hand side of the pressure
/// solve, whose stencil averages the four neighbours.
pub open spec fn solve_pressure(passes: &Passes, f: Fields, p: Parameters) -> Frame {
    Frame {
        draws: seq![
            divergence_draw(&passes.divergence, p.delta_x, f.velocity.src, f.divergence),
        ] + jacobi_draws(
            &passes.jacobi,
            p.iterations as nat,
            p.delta_x,
            p.pressure_alpha,
            Scalar::spec_quarter(),
            f.pressure.src,
            Some(f.divergence),
            f.pressure.dst,
        ),
        fields: Fields { pressure: f.pressure.after(p.iterations as nat), ..f },
    }
}

/// The pressure gradient is taken from the velocity.
pub open spec fn subtract_gradient(passes: &Passes, f: Fields, p: Parameters) -> Frame {
    Frame {
        draws: seq![
            subtract_draw(
                &passes.subtract,
                p.delta_x,
                f.pressure.src,
                f.velocity.src,
                f.velocity.dst,
            ),
        ],
        fields: Fields { velocity: f.velocity.swapped(), ..f },
    }
}

/// Walls: the velocity is reflected, the pressure is continued.
pub open spec fn enforce_boundaries(passes: &Passes, f: Fields, p: Parameters) -> Frame {
    Frame {
        draws: seq![
            boundary_draw(
                &passes.boundary,
                p.delta_x,
                Scalar::spec_neg_one(),
                f.velocity.src,
                f.velocity.dst,
            ),
            boundary_draw(
                &passes.boundary,
                p.delta_x,
                Scalar::spec_one(),
                f.pressure.src,
                f.pressure.dst,
            ),
        ],
        fields: Fields { velocity: f.velocity.swapped(), pressure: f.pressure.swapped(), ..f },
    }
}

/// Vorticity confinement of the velocity.
pub open spec fn confine_vorticity(passes: &Passes, f: Fields, p: Parameters) -> Frame {
    Frame {
        draws: seq![
            vorticity_draw(
                &passes.vorticity,
                p.delta_t,
                p.delta_x,
                p.vorticity,
                f.velocity.src,
                f.velocity.dst,
            ),
        ],
        fields: Fields { velocity: f.velocity.swapped(), ..f },
    }
}

/// The colour is transported along the velocity.
pub open spec fn advect_color(passes: &Passes, f: Fields, p: Parameters) -> Frame {
    Frame {
        draws: seq![
            advection_draw(
                &passes.advect,
                p.delta_x,
                p.delta_t,
                f.color.src,
                f.velocity.src,
                f.color.dst,
            ),
        ],
        fields: Fields { color: f.color.swapped(), ..f },
    }
}

/// The colour goes to the screen.
pub open spec fn show(passes: &Passes, f: Fields) -> Frame {
    Frame { draws: seq![present_draw(&passes.quad, f.color.src)], fields: f }
}

/// One step of the simulation: advection of the velocity, diffusion,
/// injection, pressure solve, gradient subtraction, boundaries, vorticity
/// confinement, advection of the colour, presentation. Every stretch starts
/// from the roles that the stretch before it left.
pub open spec fn frame(
    passes: &Passes,
    fields: Fields,
    params: Parameters,
    injection: Option<Injection>,
) -> Frame {
    let advected = advect_velocity(passes, fields, params);
    let diffused = advected.followed_by(diffuse(passes, advected.fields, params));
    let injected = diffused.followed_by(inject(passes, diffused.fields, params, injection));
    let solved = injected.followed_by(solve_pressure(passes, injected.fields, params));
    let projected = solved.followed_by(subtract_gradient(passes, solved.fields, params));
    let bounded = projected.followed_by(enforce_boundaries(passes, projected.fields, params));
    let confined = bounded.followed_by(confine_vorticity(passes, bounded.fields, params));
    let colored = confined.followed_by(advect_color(passes, confined.fields, params));
    colored.followed_by(show(passes, colored.fields))
}

/// The program of each draw, in order.
pub open spec fn programs(draws: Seq<Draw>) -> Seq<usize> {
    Seq::new(draws.len(), |i: int| draws[i].program)
}

/// `program`, `n` times.
pub open spec fn repeated(program: usize, n: nat) -> Seq<usize> {
    Seq::new(n, |i: int| program)
}

/// The commands of a step are those of its stretches, one after the other.
pub proof fn lemma_frame_commands(
    passes: &Passes,
    fields: Fields,
    params: Parameters,
    injection: Option<Injection>,
)
    ensures
        ({
            let advected = advect_velocity(passes, fields, params);
            let diffused = diffuse(passes, advected.fields, params);
            let injected = inject(passes, diffused.fields, params, injection);
            let solved = solve_pressure(passes, injected.fields, params);
            let projected = subtract_gradient(passes, solved.fields, params);
            let bounded = enforce_boundaries(passes, projected.fields, params);
            let confined = confine_vorticity(passes, bounded.fields, params);
            let colored = advect_color(passes, confined.fields, params);
            let shown = show(passes, colored.fields);
            &&& frame(passes, fields, params, injection).fields == shown.fields
            &&& schedule_commands(frame(passes, fields, params, injection).draws)
                == schedule_commands(advected.draws) + schedule_commands(diffused.draws)
                + schedule_commands(injected.draws) + schedule_commands(solved.draws)
                + schedule_commands(projected.draws) + schedule_commands(bounded.draws)
                + schedule_commands(confined.draws) + schedule_commands(colored.draws)
                + schedule_commands(shown.draws)
        }),
{
    let s1 = advect_velocity(passes, fields, params);
    let s2 = diffuse(passes, s1.fields, params);
    let s3 = inject(passes, s2.fields, params, injection);
    let s4 = solve_pressure(passes, s3.fields, params);
    let s5 = subtract_gradient(passes, s4.fields, params);
    let s6 = enforce_boundaries(passes, s5.fields, params);
    let s7 = confine_vorticity(passes, s6.fields, params);
    let s8 = advect_color(passes, s7.fields, params);
    let s9 = show(passes, s8.fields);
    lemma_schedule_concat(s1.draws, s2.draws);
    lemma_schedule_concat(s1.draws + s2.draws, s3.draws);
    lemma_schedule_concat(s1.draws + s2.draws + s3.draws, s4.draws);
    lemma_schedule_concat(s1.draws + s2.draws + s3.draws + s4.draws, s5.draws);
    lemma_schedule_concat(s1.draws + s2.draws + s3.draws + s4.draws + s5.draws, s6.draws);
    lemma_schedule_concat(
        s1.draws + s2.draws + s3.draws + s4.draws + s5.draws + s6.draws,
        s7.draws,
    );
    lemma_schedule_concat(
        s1.draws + s2.draws + s3.draws + s4.draws + s5.draws + s6.draws + s7.draws,
        s8.draws,
    );
    lemma_schedule_concat(
        s1.draws + s2.draws + s3.draws + s4.draws + s5.draws + s6.draws + s7.draws + s8.draws,
        s9.draws,
    );
}

/// No draw of a step has more than two samplers.
pub proof fn lemma_frame_fits(
    passes: &Passes,
    fields: Fields,
    params: Parameters,
    injection: Option<Injection>,
)
    ensures
        forall|i: int|
            0 <= i < frame(passes, fields, params, injection).draws.len() ==> fits(
                #[trigger] frame(passes, fields, params, injection).draws[i],
            ) && frame(passes, fields, params, injection).draws[i].samplers.len() <= 2,
{
    let s1 = advect_velocity(passes, fields, params);
    let s2 = diffuse(passes, s1.fields, params);
    let s3 = inject(passes, s2.fields, params, injection);
    let s4 = solve_pressure(passes, s3.fields, params);
    let s5 = subtract_gradient(passes, s4.fields, params);
    let s6 = enforce_boundaries(passes, s5.fields, params);
    let s7 = confine_vorticity(passes, s6.fields, params);
    let s8 = advect_color(passes, s7.fields, params);
    let s9 = show(passes, s8.fields);
    let small = |draws: Seq<Draw>|
        forall|i: int| 0 <= i < draws.len() ==> (#[trigger] draws[i]).samplers.len() <= 2;
    assert(small(s1.draws));
    assert(small(s2.draws));
    assert(small(s3.draws));
    assert(small(s4.draws));
    assert(small(s5.draws));
    assert(small(s6.draws));
    assert(small(s7.draws));
    assert(small(s8.draws));
    assert(small(s9.draws));
}

/// No draw of a step samples the field it writes, and the step hands every
/// pair back as the same two fields: where the seven fields are kept under
/// different slots before a step, they still are after it.
pub proof fn lemma_frame_hazard_free(
    passes: &Passes,
    fields: Fields,
    params: Parameters,
    injection: Option<Injection>,
)
    requires
        fields.slots_distinct(),
    ensures
        all_hazard_free(frame(passes, fields, params, injection).draws),
        frame(passes, fields, params, injection).fields.same_buffers(fields),
        frame(passes, fields, params, injection).fields.slots_distinct(),
{
    let s1 = advect_velocity(passes, fields, params);
    let s2 = diffuse(passes, s1.fields, params);
    let s3 = inject(passes, s2.fields, params, injection);
    let s4 = solve_pressure(passes, s3.fields, params);
    let s5 = subtract_gradient(passes, s4.fields, params);
    let s6 = enforce_boundaries(passes, s5.fields, params);
    let s7 = confine_vorticity(passes, s6.fields, params);
    let s8 = advect_color(passes, s7.fields, params);
    let s9 = show(passes, s8.fields);
    assert(all_hazard_free(s1.draws));
    assert(all_hazard_free(s2.draws));
    assert(all_hazard_free(s3.draws));
    assert(all_hazard_free(s4.draws));
    assert(all_hazard_free(s5.draws));
    assert(all_hazard_free(s6.draws));
    assert(all_hazard_free(s7.draws));
    assert(all_hazard_free(s8.draws));
    assert(all_hazard_free(s9.draws));
}

/// How often a step exchanges the roles of each pair: the velocity is
/// written by advection, by every diffusion step, by the force if there is
/// an injection, by the gradient subtraction, the boundary and the vorticity
/// confinement; the pressure by every step of its solve and by the
/// boundary; the colour by the dye if there is an injection and by
/// advection. The divergence field keeps its role.
pub proof fn lemma_frame_roles(
    passes: &Passes,
    fields: Fields,
    params: Parameters,
    injection: Option<Injection>,
)
    ensures
        ({
            let n = params.iterations as nat;
            let i: nat = if injection is Some {
                1
            } else {
                0
            };
            frame(passes, fields, params, injection).fields == (Fields {
                velocity: fields.velocity.after(4 + n + i),
                pressure: fields.pressure.after(n + 1),
                color: fields.color.after(1 + i),
                divergence: fields.divergence,
            })
        }),
{
}

/// The order of the operators within a step: diffusion comes before the
/// pressure solve, both boundaries come after the gradient subtraction and
/// before the vorticity confinement, the colour is advected after every
/// change to the velocity and along the velocity as the step leaves it, and
/// what goes to the screen last is the colour as the step leaves it.
pub proof fn lemma_frame_order(
    passes: &Passes,
    fields: Fields,
    params: Parameters,
    injection: Option<Injection>,
)
    ensures
        ({
            let n = params.iterations as nat;
            let result = frame(passes, fields, params, injection);
            let injected = if injection is Some {
                seq![passes.force.program(), passes.color.program()]
            } else {
                Seq::<usize>::empty()
            };
            let len = result.draws.len() as int;
            &&& len == 8 + 2 * n + injected.len()
            &&& programs(result.draws) == seq![passes.advect.program()] + repeated(
                passes.jacobi.program(),
                n,
            ) + injected + seq![passes.divergence.program()] + repeated(
                passes.jacobi.program(),
                n,
            ) + seq![
                passes.subtract.program(),
                passes.boundary.program(),
                passes.boundary.program(),
                passes.vorticity.program(),
                passes.advect.program(),
                passes.quad.program(),
            ]
            &&& result.draws[len - 1] == present_draw(&passes.quad, result.fields.color.src)
            &&& result.draws[len - 2] == advection_draw(
                &passes.advect,
                params.delta_x,
                params.delta_t,
                result.fields.color.dst,
                result.fields.velocity.src,
                result.fields.color.src,
            )
        }),
{
    let s1 = advect_velocity(passes, fields, params);
    let s2 = diffuse(passes, s1.fields, params);
    let s3 = inject(passes, s2.fields, params, injection);
    let s4 = solve_pressure(passes, s3.fields, params);
    let s5 = subtract_gradient(passes, s4.fields, params);
    let s6 = enforce_boundaries(passes, s5.fields, params);
    let s7 = confine_vorticity(passes, s6.fields, params);
    let s8 = advect_color(passes, s7.fields, params);
    let s9 = show(passes, s8.fields);
    let n = params.iterations as nat;
    let result = frame(passes, fields, params, injection);
    let injected = if injection is Some {
        seq![passes.force.program(), passes.color.program()]
    } else {
        Seq::<usize>::empty()
    };
    let expected = seq![passes.advect.program()] + repeated(
        passes.jacobi.program(),
        n,
    ) + injected + seq![passes.divergence.program()] + repeated(
        passes.jacobi.program(),
        n,
    ) + seq![
        passes.subtract.program(),
        passes.boundary.program(),
        passes.boundary.program(),
        passes.vorticity.program(),
        passes.advect.program(),
        passes.quad.program(),
    ];
    assert(result.draws.len() == 8 + 2 * n + injected.len());
    assert(programs(result.draws) =~= expected);
}

} // verus!
