use vstd::prelude::*;
use crate::command::{GpuCommand, SamplerBinding, Uniform, UniformBinding, UniformValue};
use crate::error::FluidError;
use crate::render::{
    all_hazard_free, draw_commands, draw_names, issues, rejection, schedule_commands, Draw,
    RenderPass,
};
use crate::scalar::{Scalar, Vector2, Vector3};
use crate::texture::{FieldPair, Framebuffer};

verus! {

/// The operators of the solver, one shader program each.
#[derive(Clone, Copy, PartialEq, Eq, Structural, Debug)]
pub enum Operator {
    Advect,
    Quad,
    Jacobi,
    Divergence,
    Subtract,
    Boundary,
    Force,
    Color,
    Vorticity,
}

impl Operator {
    /// The uniforms that the operator sets on its pass, in the order in
    /// which it sets them: scalars and vectors first, samplers last.
    pub open spec fn names(self) -> Seq<Uniform> {
        match self {
            Operator::Advect => seq![
                Uniform::DeltaX,
                Uniform::DeltaT,
                Uniform::ColorFieldTexture,
                Uniform::VecFieldTexture,
            ],
            Operator::Quad => seq![Uniform::QTexture],
            Operator::Jacobi => seq![
                Uniform::DeltaX,
                Uniform::Alpha,
                Uniform::RBeta,
                Uniform::X,
                Uniform::B,
            ],
            Operator::Divergence => seq![Uniform::DeltaX, Uniform::W],
            Operator::Subtract => seq![Uniform::DeltaX, Uniform::P, Uniform::W],
            Operator::Boundary => seq![Uniform::DeltaX, Uniform::Scale, Uniform::X],
            Operator::Force => seq![
                Uniform::DeltaT,
                Uniform::Rho,
                Uniform::Force,
                Uniform::ImpulsePos,
                Uniform::VelocityFieldTexture,
            ],
            Operator::Color => seq![
                Uniform::DeltaT,
                Uniform::Rho,
                Uniform::Color,
                Uniform::ImpulsePos,
                Uniform::ColorFieldTexture,
            ],
            Operator::Vorticity => seq![
                Uniform::DeltaT,
                Uniform::DeltaX,
                Uniform::Vorticity,
                Uniform::V,
            ],
        }
    }

    /// The uniforms that the operator's pass has to declare.
    pub fn uniforms(self) -> (names: Vec<Uniform>)
        ensures
            names@ == self.names(),
    {
        let mut names: Vec<Uniform> = Vec::new();
        match self {
            Operator::Advect => {
                names.push(Uniform::DeltaX);
                names.push(Uniform::DeltaT);
                names.push(Uniform::ColorFieldTexture);
                names.push(Uniform::VecFieldTexture);
            },
            Operator::Quad => {
                names.push(Uniform::QTexture);
            },
            Operator::Jacobi => {
                names.push(Uniform::DeltaX);
                names.push(Uniform::Alpha);
                names.push(Uniform::RBeta);
                names.push(Uniform::X);
                names.push(Uniform::B);
            },
            Operator::Divergence => {
                names.push(Uniform::DeltaX);
                names.push(Uniform::W);
            },
            Operator::Subtract => {
                names.push(Uniform::DeltaX);
                names.push(Uniform::P);
                names.push(Uniform::W);
            },
            Operator::Boundary => {
                names.push(Uniform::DeltaX);
                names.push(Uniform::Scale);
                names.push(Uniform::X);
            },
            Operator::Force => {
                names.push(Uniform::DeltaT);
                names.push(Uniform::Rho);
                names.push(Uniform::Force);
                names.push(Uniform::ImpulsePos);
                names.push(Uniform::VelocityFieldTexture);
            },
            Operator::Color => {
                names.push(Uniform::DeltaT);
                names.push(Uniform::Rho);
                names.push(Uniform::Color);
                names.push(Uniform::ImpulsePos);
                names.push(Uniform::ColorFieldTexture);
            },
            Operator::Vorticity => {
                names.push(Uniform::DeltaT);
                names.push(Uniform::DeltaX);
                names.push(Uniform::Vorticity);
                names.push(Uniform::V);
            },
        }
        assert(names@ =~= self.names());
        names
    }
}

/// What an operator hands back: the commands of its draws and the roles of
/// the two fields afterwards. `src` holds the newest state; `dst` is free to
/// be written next.
pub struct Applied {
    pub commands: Vec<GpuCommand>,
    pub src: Framebuffer,
    pub dst: Framebuffer,
}

/// What an operator gives that draws `d` from `src` into `dst` and then
/// exchanges their roles: the commands of `d` and the new roles when `pass`
/// declares every one of `names`, and otherwise the error for the first name
/// that it lacks.
pub open spec fn applies(
    pass: &RenderPass,
    names: Seq<Uniform>,
    d: Draw,
    src: Framebuffer,
    dst: Framebuffer,
    r: Result<Applied, FluidError>,
) -> bool {
    match r {
        Ok(applied) => {
            &&& rejection(pass.declared(), names) is None
            &&& applied.commands@ == draw_commands(d)
            &&& applied.src == dst
            &&& applied.dst == src
        },
        Err(e) => rejection(pass.declared(), names) == Some(e),
    }
}

/// A float uniform.
pub open spec fn float(name: Uniform, x: Scalar) -> UniformBinding {
    UniformBinding { name, value: UniformValue::Float(x) }
}

/// A two-component uniform.
pub open spec fn float2(name: Uniform, v: Vector2) -> UniformBinding {
    UniformBinding { name, value: UniformValue::Float2(v.x, v.y) }
}

/// A three-component uniform.
pub open spec fn float3(name: Uniform, v: Vector3) -> UniformBinding {
    UniformBinding { name, value: UniformValue::Float3(v.x, v.y, v.z) }
}

/// A sampler that reads `field`.
pub open spec fn sampler(name: Uniform, field: Framebuffer) -> SamplerBinding {
    SamplerBinding { name, texture: field.slot }
}

fn float_binding(name: Uniform, x: Scalar) -> (b: UniformBinding)
    ensures
        b == float(name, x),
{
    UniformBinding { name, value: UniformValue::Float(x) }
}

fn float2_binding(name: Uniform, v: &Vector2) -> (b: UniformBinding)
    ensures
        b == float2(name, *v),
{
    UniformBinding { name, value: UniformValue::Float2(v.x, v.y) }
}

fn float3_binding(name: Uniform, v: &Vector3) -> (b: UniformBinding)
    ensures
        b == float3(name, *v),
{
    UniformBinding { name, value: UniformValue::Float3(v.x, v.y, v.z) }
}

fn sampler_binding(name: Uniform, field: &Framebuffer) -> (b: SamplerBinding)
    ensures
        b == sampler(name, *field),
{
    SamplerBinding { name, texture: field.get_texture() }
}

fn swap_roles(
    issued: Result<Vec<GpuCommand>, FluidError>,
    src: Framebuffer,
    dst: Framebuffer,
    Ghost(pass): Ghost<&RenderPass>,
    Ghost(names): Ghost<Seq<Uniform>>,
    Ghost(d): Ghost<Draw>,
) -> (r: Result<Applied, FluidError>)
    requires
        issues(pass, names, d, issued),
    ensures
        applies(pass, names, d, src, dst, r),
{
    match issued {
        Ok(commands) => Ok(Applied { commands, src: dst, dst: src }),
        Err(e) => Err(e),
    }
}

/// Semi-Lagrangian transport of `color` along `velocity`: every cell of
/// `dst` takes the value that `color` holds one time step back along the
/// flow.
pub open spec fn advection_draw(
    pass: &RenderPass,
    delta_x: Scalar,
    delta_t: Scalar,
    color: Framebuffer,
    velocity: Framebuffer,
    dst: Framebuffer,
) -> Draw {
    pass.draw_of(
        Some(dst.slot),
        seq![
            float(Uniform::DeltaX, delta_x),
            float(Uniform::DeltaT, delta_t),
        ],
        seq![
            sampler(Uniform::ColorFieldTexture, color),
            sampler(Uniform::VecFieldTexture, velocity),
        ],
    )
}

/// Transports `src_color_field` along `vector_field` into
/// `dst_color_field`, which then holds the newest state. Passing the
/// velocity as both fields advects the velocity along itself.
pub fn advection(
    advect_pass: &RenderPass,
    delta_x: Scalar,
    delta_t: Scalar,
    src_color_field: Framebuffer,
    vector_field: &Framebuffer,
    dst_color_field: Framebuffer,
) -> (r: Result<Applied, FluidError>)
    ensures
        applies(
            advect_pass,
            Operator::Advect.names(),
            advection_draw(
                advect_pass,
                delta_x,
                delta_t,
                src_color_field,
                *vector_field,
                dst_color_field,
            ),
            src_color_field,
            dst_color_field,
            r,
        ),
{
    let ghost d = advection_draw(
        advect_pass,
        delta_x,
        delta_t,
        src_color_field,
        *vector_field,
        dst_color_field,
    );
    let mut uniforms: Vec<UniformBinding> = Vec::new();
    uniforms.push(float_binding(Uniform::DeltaX, delta_x));
    uniforms.push(float_binding(Uniform::DeltaT, delta_t));
    let mut samplers: Vec<SamplerBinding> = Vec::new();
    samplers.push(sampler_binding(Uniform::ColorFieldTexture, &src_color_field));
    samplers.push(sampler_binding(Uniform::VecFieldTexture, vector_field));
    assert(uniforms@ =~= d.uniforms);
    assert(samplers@ =~= d.samplers);
    assert(draw_names(d) =~= Operator::Advect.names());
    let issued = advect_pass.draw(Some(dst_color_field.slot), &uniforms, &samplers);
    swap_roles(
        issued,
        src_color_field,
        dst_color_field,
        Ghost(advect_pass),
        Ghost(Operator::Advect.names()),
        Ghost(d),
    )
}

/// One relaxation step `x' = (x_left + x_right + x_up + x_down + alpha * b)
/// * r_beta`, read from `x` and `b` and written to `dst`.
pub open spec fn jacobi_draw(
    pass: &RenderPass,
    delta_x: Scalar,
    alpha: Scalar,
    r_beta: Scalar,
    x: Framebuffer,
    b: Framebuffer,
    dst: Framebuffer,
) -> Draw {
    pass.draw_of(
        Some(dst.slot),
        seq![
            float(Uniform::DeltaX, delta_x),
            float(Uniform::Alpha, alpha),
            float(Uniform::RBeta, r_beta),
        ],
        seq![
            sampler(Uniform::X, x),
            sampler(Uniform::B, b),
        ],
    )
}

/// One relaxation step from the estimate `x` and the right-hand side `b`
/// into `dst`.
pub fn jacobi_iteration(
    jacobi_pass: &RenderPass,
    delta_x: Scalar,
    alpha: Scalar,
    r_beta: Scalar,
    x: &Framebuffer,
    b: &Framebuffer,
    dst: &Framebuffer,
) -> (r: Result<Vec<GpuCommand>, FluidError>)
    ensures
        issues(
            jacobi_pass,
            Operator::Jacobi.names(),
            jacobi_draw(
                jacobi_pass,
                delta_x,
                alpha,
                r_beta,
                *x,
                *b,
                *dst,
            ),
            r,
        ),
{
    let ghost d = jacobi_draw(
        jacobi_pass,
        delta_x,
        alpha,
        r_beta,
        *x,
        *b,
        *dst,
    );
    let mut uniforms: Vec<UniformBinding> = Vec::new();
    uniforms.push(float_binding(Uniform::DeltaX, delta_x));
    uniforms.push(float_binding(Uniform::Alpha, alpha));
    uniforms.push(float_binding(Uniform::RBeta, r_beta));
    let mut samplers: Vec<SamplerBinding> = Vec::new();
    samplers.push(sampler_binding(Uniform::X, x));
    samplers.push(sampler_binding(Uniform::B, b));
    assert(uniforms@ =~= d.uniforms);
    assert(samplers@ =~= d.samplers);
    assert(draw_names(d) =~= Operator::Jacobi.names());
    jacobi_pass.draw(Some(dst.slot), &uniforms, &samplers)
}

/// Step `k` of a relaxation that alternates between `x` and `dst`: even
/// steps read `x` and write `dst`, odd steps the other way round. The
/// right-hand side is `b`, or, where there is none, the field that the step
/// reads.
pub open spec fn jacobi_step(
    pass: &RenderPass,
    delta_x: Scalar,
    alpha: Scalar,
    r_beta: Scalar,
    x: Framebuffer,
    b: Option<Framebuffer>,
    dst: Framebuffer,
    k: int,
) -> Draw {
    let from = if k % 2 == 0 {
        x
    } else {
        dst
    };
    let to = if k % 2 == 0 {
        dst
    } else {
        x
    };
    let rhs = match b {
        Some(b) => b,
        None => from,
    };
    jacobi_draw(pass, delta_x, alpha, r_beta, from, rhs, to)
}

/// The draws of `iter` consecutive relaxation steps.
pub open spec fn jacobi_draws(
    pass: &RenderPass,
    iter: nat,
    delta_x: Scalar,
    alpha: Scalar,
    r_beta: Scalar,
    x: Framebuffer,
    b: Option<Framebuffer>,
    dst: Framebuffer,
) -> Seq<Draw> {
    Seq::new(iter, |k: int| jacobi_step(pass, delta_x, alpha, r_beta, x, b, dst, k))
}

/// What `iter` relaxation steps between `x` and `dst` hand back: the
/// commands of all steps, and as `src` whichever field the last step wrote.
/// With no step there is no command and nothing that the pass has to
/// declare.
pub open spec fn relaxes(
    pass: &RenderPass,
    iter: nat,
    delta_x: Scalar,
    alpha: Scalar,
    r_beta: Scalar,
    x: Framebuffer,
    b: Option<Framebuffer>,
    dst: Framebuffer,
    r: Result<Applied, FluidError>,
) -> bool {
    match r {
        Ok(applied) => {
            &&& iter > 0 ==> rejection(pass.declared(), Operator::Jacobi.names()) is None
            &&& applied.commands@ == schedule_commands(
                jacobi_draws(pass, iter, delta_x, alpha, r_beta, x, b, dst),
            )
            &&& (FieldPair { src: applied.src, dst: applied.dst }) == (FieldPair {
                src: x,
                dst,
            }).after(iter)
        },
        Err(e) => iter > 0 && rejection(pass.declared(), Operator::Jacobi.names()) == Some(e),
    }
}

/// The field that holds the result of a relaxation is the one that its last
/// step wrote: after an odd number of steps the roles of the two fields are
/// exchanged, after an even number they are as before, and no step at all
/// issues nothing and leaves both fields as they were. Every step writes the
/// field that the step before it did not.
pub proof fn lemma_jacobi_parity(
    pass: &RenderPass,
    iter: nat,
    delta_x: Scalar,
    alpha: Scalar,
    r_beta: Scalar,
    x: Framebuffer,
    b: Option<Framebuffer>,
    dst: Framebuffer,
)
    ensures
        ({
            let draws = jacobi_draws(pass, iter, delta_x, alpha, r_beta, x, b, dst);
            let pair = (FieldPair { src: x, dst }).after(iter);
            &&& draws.len() == iter
            &&& iter == 0 ==> pair == (FieldPair { src: x, dst }) && schedule_commands(draws)
                == Seq::<GpuCommand>::empty()
            &&& iter % 2 == 0 ==> pair.src == x && pair.dst == dst
            &&& iter % 2 == 1 ==> pair.src == dst && pair.dst == x
            &&& iter > 0 ==> draws.last().target == Some(pair.src.slot)
            &&& forall|k: int|
                0 <= k < iter ==> (#[trigger] draws[k]).target == Some(
                    (FieldPair { src: x, dst }).after((k + 1) as nat).src.slot,
                )
        }),
{
}

/// A relaxation between two different fields never reads the field it
/// writes, as long as its right-hand side is neither of the two.
pub proof fn lemma_jacobi_hazard_free(
    pass: &RenderPass,
    iter: nat,
    delta_x: Scalar,
    alpha: Scalar,
    r_beta: Scalar,
    x: Framebuffer,
    b: Option<Framebuffer>,
    dst: Framebuffer,
)
    requires
        x.slot != dst.slot,
        b matches Some(rhs) ==> rhs.slot != x.slot && rhs.slot != dst.slot,
    ensures
        all_hazard_free(jacobi_draws(pass, iter, delta_x, alpha, r_beta, x, b, dst)),
{
}

fn relax(
    jacobi_pass: &RenderPass,
    iter: usize,
    delta_x: Scalar,
    alpha: Scalar,
    r_beta: Scalar,
    x: Framebuffer,
    b: Option<Framebuffer>,
    dst: Framebuffer,
) -> (r: Result<Applied, FluidError>)
    ensures
        relaxes(jacobi_pass, iter as nat, delta_x, alpha, r_beta, x, b, dst, r),
{
    let mut commands: Vec<GpuCommand> = Vec::new();
    let mut k: usize = 0;
    while k < iter
        invariant
            k <= iter,
            k > 0 ==> rejection(jacobi_pass.declared(), Operator::Jacobi.names()) is None,
            commands@ == schedule_commands(
                jacobi_draws(jacobi_pass, k as nat, delta_x, alpha, r_beta, x, b, dst),
            ),
        decreases iter - k,
    {
        let from = if k % 2 == 0 {
            x
        } else {
            dst
        };
        let to = if k % 2 == 0 {
            dst
        } else {
            x
        };
        let rhs = match b {
            Some(b) => b,
            None => from,
        };
        match jacobi_iteration(jacobi_pass, delta_x, alpha, r_beta, &from, &rhs, &to) {
            Ok(mut step) => {
                commands.append(&mut step);
            },
            Err(e) => {
                return Err(e);
            },
        }
        proof {
            let so_far = jacobi_draws(jacobi_pass, k as nat, delta_x, alpha, r_beta, x, b, dst);
            let next = jacobi_draws(
                jacobi_pass,
                (k + 1) as nat,
                delta_x,
                alpha,
                r_beta,
                x,
                b,
                dst,
            );
            assert(next.drop_last() =~= so_far);
            assert(next.last() == jacobi_step(
                jacobi_pass,
                delta_x,
                alpha,
                r_beta,
                x,
                b,
                dst,
                k as int,
            ));
        }
        k += 1;
    }
    if iter % 2 == 0 {
        Ok(Applied { commands, src: x, dst })
    } else {
        Ok(Applied { commands, src: dst, dst: x })
    }
}

/// Runs `iter` relaxation steps toward the solution of a Poisson equation
/// with right-hand side `b`, alternating between `x` and `dst`: every step
/// reads the field that the step before it wrote. The field handed back as
/// `src` is the one that the last step wrote; with `iter == 0` nothing is
/// issued and the roles stay.
pub fn jacobi_method(
    jacobi_pass: &RenderPass,
    iter: usize,
    delta_x: Scalar,
    alpha: Scalar,
    r_beta: Scalar,
    x: Framebuffer,
    b: &Framebuffer,
    dst: Framebuffer,
) -> (r: Result<Applied, FluidError>)
    ensures
        relaxes(jacobi_pass, iter as nat, delta_x, alpha, r_beta, x, Some(*b), dst, r),
{
    relax(jacobi_pass, iter, delta_x, alpha, r_beta, x, Some(*b), dst)
}

/// Viscous diffusion: `iter` relaxation steps in which every step takes the
/// field it reads as its own right-hand side. The field handed back as
/// `src` is the one that the last step wrote.
pub fn diffusion(
    jacobi_pass: &RenderPass,
    iter: usize,
    delta_x: Scalar,
    alpha: Scalar,
    r_beta: Scalar,
    x: Framebuffer,
    dst: Framebuffer,
) -> (r: Result<Applied, FluidError>)
    ensures
        relaxes(jacobi_pass, iter as nat, delta_x, alpha, r_beta, x, None, dst, r),
{
    relax(jacobi_pass, iter, delta_x, alpha, r_beta, x, None, dst)
}

/// Central-difference divergence of `w`, written to `dst`.
pub open spec fn divergence_draw(
    pass: &RenderPass,
    delta_x: Scalar,
    w: Framebuffer,
    dst: Framebuffer,
) -> Draw {
    pass.draw_of(
        Some(dst.slot),
        seq![
            float(Uniform::DeltaX, delta_x),
        ],
        seq![
            sampler(Uniform::W, w),
        ],
    )
}

/// Writes the divergence of the vector field `w` into `dst`.
pub fn divergence(
    divergence_pass: &RenderPass,
    delta_x: Scalar,
    w: &Framebuffer,
    dst: &Framebuffer,
) -> (r: Result<Vec<GpuCommand>, FluidError>)
    ensures
        issues(
            divergence_pass,
            Operator::Divergence.names(),
            divergence_draw(
                divergence_pass,
                delta_x,
                *w,
                *dst,
            ),
            r,
        ),
{
    let ghost d = divergence_draw(
        divergence_pass,
        delta_x,
        *w,
        *dst,
    );
    let mut uniforms: Vec<UniformBinding> = Vec::new();
    uniforms.push(float_binding(Uniform::DeltaX, delta_x));
    let mut samplers: Vec<SamplerBinding> = Vec::new();
    samplers.push(sampler_binding(Uniform::W, w));
    assert(uniforms@ =~= d.uniforms);
    assert(samplers@ =~= d.samplers);
    assert(draw_names(d) =~= Operator::Divergence.names());
    divergence_pass.draw(Some(dst.slot), &uniforms, &samplers)
}

/// `w` minus the central-difference gradient of `p`, written to `dst`.
pub open spec fn subtract_draw(
    pass: &RenderPass,
    delta_x: Scalar,
    p: Framebuffer,
    w: Framebuffer,
    dst: Framebuffer,
) -> Draw {
    pass.draw_of(
        Some(dst.slot),
        seq![
            float(Uniform::DeltaX, delta_x),
        ],
        seq![
            sampler(Uniform::P, p),
            sampler(Uniform::W, w),
        ],
    )
}

/// Subtracts the gradient of the pressure `p` from the vector field `w`
/// into `dst`, which then holds the newest state.
pub fn subtract(
    subtract_pass: &RenderPass,
    delta_x: Scalar,
    p: &Framebuffer,
    w: Framebuffer,
    dst: Framebuffer,
) -> (r: Result<Applied, FluidError>)
    ensures
        applies(
            subtract_pass,
            Operator::Subtract.names(),
            subtract_draw(
                subtract_pass,
                delta_x,
                *p,
                w,
                dst,
            ),
            w,
            dst,
            r,
        ),
{
    let ghost d = subtract_draw(
        subtract_pass,
        delta_x,
        *p,
        w,
        dst,
    );
    let mut uniforms: Vec<UniformBinding> = Vec::new();
    uniforms.push(float_binding(Uniform::DeltaX, delta_x));
    let mut samplers: Vec<SamplerBinding> = Vec::new();
    samplers.push(sampler_binding(Uniform::P, p));
    samplers.push(sampler_binding(Uniform::W, &w));
    assert(uniforms@ =~= d.uniforms);
    assert(samplers@ =~= d.samplers);
    assert(draw_names(d) =~= Operator::Subtract.names());
    let issued = subtract_pass.draw(Some(dst.slot), &uniforms, &samplers);
    swap_roles(
        issued,
        w,
        dst,
        Ghost(subtract_pass),
        Ghost(Operator::Subtract.names()),
        Ghost(d),
    )
}

/// Edge cells of `dst` take `scale` times the nearest interior value of
/// `x`; interior cells are copied.
pub open spec fn boundary_draw(
    pass: &RenderPass,
    delta_x: Scalar,
    scale: Scalar,
    x: Framebuffer,
    dst: Framebuffer,
) -> Draw {
    pass.draw_of(
        Some(dst.slot),
        seq![
            float(Uniform::DeltaX, delta_x),
            float(Uniform::Scale, scale),
        ],
        seq![
            sampler(Uniform::X, x),
        ],
    )
}

/// Enforces the boundary condition on `x` into `dst`, which then holds the
/// newest state: `scale` is `-1` for the velocity at a free-slip wall and
/// `1` for the pressure.
pub fn boundary(
    boundary_pass: &RenderPass,
    delta_x: Scalar,
    scale: Scalar,
    x: Framebuffer,
    dst: Framebuffer,
) -> (r: Result<Applied, FluidError>)
    ensures
        applies(
            boundary_pass,
            Operator::Boundary.names(),
            boundary_draw(
                boundary_pass,
                delta_x,
                scale,
                x,
                dst,
            ),
            x,
            dst,
            r,
        ),
{
    let ghost d = boundary_draw(
        boundary_pass,
        delta_x,
        scale,
        x,
        dst,
    );
    let mut uniforms: Vec<UniformBinding> = Vec::new();
    uniforms.push(float_binding(Uniform::DeltaX, delta_x));
    uniforms.push(float_binding(Uniform::Scale, scale));
    let mut samplers: Vec<SamplerBinding> = Vec::new();
    samplers.push(sampler_binding(Uniform::X, &x));
    assert(uniforms@ =~= d.uniforms);
    assert(samplers@ =~= d.samplers);
    assert(draw_names(d) =~= Operator::Boundary.names());
    let issued = boundary_pass.draw(Some(dst.slot), &uniforms, &samplers);
    swap_roles(
        issued,
        x,
        dst,
        Ghost(boundary_pass),
        Ghost(Operator::Boundary.names()),
        Ghost(d),
    )
}

/// A Gaussian impulse `force / rho` around `impulse_pos`, added to the
/// velocity and written to `dst`.
pub open spec fn force_draw(
    pass: &RenderPass,
    delta_t: Scalar,
    rho: Scalar,
    force: Vector2,
    impulse_pos: Vector2,
    velocity: Framebuffer,
    dst: Framebuffer,
) -> Draw {
    pass.draw_of(
        Some(dst.slot),
        seq![
            float(Uniform::DeltaT, delta_t),
            float(Uniform::Rho, rho),
            float2(Uniform::Force, force),
            float2(Uniform::ImpulsePos, impulse_pos),
        ],
        seq![
            sampler(Uniform::VelocityFieldTexture, velocity),
        ],
    )
}

/// Adds the localized force `impulse` to the velocity at the normalized
/// position `impulse_pos`, into `dst`, which then holds the newest state.
pub fn force(
    force_pass: &RenderPass,
    delta_t: Scalar,
    rho: Scalar,
    impulse: &Vector2,
    impulse_pos: &Vector2,
    velocity_field_texture: Framebuffer,
    dst: Framebuffer,
) -> (r: Result<Applied, FluidError>)
    ensures
        applies(
            force_pass,
            Operator::Force.names(),
            force_draw(
                force_pass,
                delta_t,
                rho,
                *impulse,
                *impulse_pos,
                velocity_field_texture,
                dst,
            ),
            velocity_field_texture,
            dst,
            r,
        ),
{
    let ghost d = force_draw(
        force_pass,
        delta_t,
        rho,
        *impulse,
        *impulse_pos,
        velocity_field_texture,
        dst,
    );
    let mut uniforms: Vec<UniformBinding> = Vec::new();
    uniforms.push(float_binding(Uniform::DeltaT, delta_t));
    uniforms.push(float_binding(Uniform::Rho, rho));
    uniforms.push(float2_binding(Uniform::Force, impulse));
    uniforms.push(float2_binding(Uniform::ImpulsePos, impulse_pos));
    let mut samplers: Vec<SamplerBinding> = Vec::new();
    samplers.push(sampler_binding(Uniform::VelocityFieldTexture, &velocity_field_texture));
    assert(uniforms@ =~= d.uniforms);
    assert(samplers@ =~= d.samplers);
    assert(draw_names(d) =~= Operator::Force.names());
    let issued = force_pass.draw(Some(dst.slot), &uniforms, &samplers);
    swap_roles(
        issued,
        velocity_field_texture,
        dst,
        Ghost(force_pass),
        Ghost(Operator::Force.names()),
        Ghost(d),
    )
}

/// A Gaussian blob of `color` around `impulse_pos`, added to the colour
/// field and written to `dst`.
pub open spec fn color_draw(
    pass: &RenderPass,
    delta_t: Scalar,
    rho: Scalar,
    color: Vector3,
    impulse_pos: Vector2,
    field: Framebuffer,
    dst: Framebuffer,
) -> Draw {
    pass.draw_of(
        Some(dst.slot),
        seq![
            float(Uniform::DeltaT, delta_t),
            float(Uniform::Rho, rho),
            float3(Uniform::Color, color),
            float2(Uniform::ImpulsePos, impulse_pos),
        ],
        seq![
            sampler(Uniform::ColorFieldTexture, field),
        ],
    )
}

/// Injects dye of the colour `dye` at the normalized position
/// `impulse_pos`, into `dst`, which then holds the newest state.
pub fn color(
    color_pass: &RenderPass,
    delta_t: Scalar,
    rho: Scalar,
    dye: &Vector3,
    impulse_pos: &Vector2,
    color_field_texture: Framebuffer,
    dst: Framebuffer,
) -> (r: Result<Applied, FluidError>)
    ensures
        applies(
            color_pass,
            Operator::Color.names(),
            color_draw(
                color_pass,
                delta_t,
                rho,
                *dye,
                *impulse_pos,
                color_field_texture,
                dst,
            ),
            color_field_texture,
            dst,
            r,
        ),
{
    let ghost d = color_draw(
        color_pass,
        delta_t,
        rho,
        *dye,
        *impulse_pos,
        color_field_texture,
        dst,
    );
    let mut uniforms: Vec<UniformBinding> = Vec::new();
    uniforms.push(float_binding(Uniform::DeltaT, delta_t));
    uniforms.push(float_binding(Uniform::Rho, rho));
    uniforms.push(float3_binding(Uniform::Color, dye));
    uniforms.push(float2_binding(Uniform::ImpulsePos, impulse_pos));
    let mut samplers: Vec<SamplerBinding> = Vec::new();
    samplers.push(sampler_binding(Uniform::ColorFieldTexture, &color_field_texture));
    assert(uniforms@ =~= d.uniforms);
    assert(samplers@ =~= d.samplers);
    assert(draw_names(d) =~= Operator::Color.names());
    let issued = color_pass.draw(Some(dst.slot), &uniforms, &samplers);
    swap_roles(
        issued,
        color_field_texture,
        dst,
        Ghost(color_pass),
        Ghost(Operator::Color.names()),
        Ghost(d),
    )
}

/// The velocity `v` pushed along the gradient of the magnitude of its curl,
/// scaled by `vorticity`, written to `dst`.
pub open spec fn vorticity_draw(
    pass: &RenderPass,
    delta_t: Scalar,
    delta_x: Scalar,
    vorticity: Scalar,
    v: Framebuffer,
    dst: Framebuffer,
) -> Draw {
    pass.draw_of(
        Some(dst.slot),
        seq![
            float(Uniform::DeltaT, delta_t),
            float(Uniform::DeltaX, delta_x),
            float(Uniform::Vorticity, vorticity),
        ],
        seq![
            sampler(Uniform::V, v),
        ],
    )
}

/// Restores the small-scale rotation that numerical diffusion took from the
/// velocity `v`, into `dst`, which then holds the newest state.
pub fn vorticity_confinement(
    vorticity_pass: &RenderPass,
    delta_t: Scalar,
    delta_x: Scalar,
    vorticity: Scalar,
    v: Framebuffer,
    dst: Framebuffer,
) -> (r: Result<Applied, FluidError>)
    ensures
        applies(
            vorticity_pass,
            Operator::Vorticity.names(),
            vorticity_draw(
                vorticity_pass,
                delta_t,
                delta_x,
                vorticity,
                v,
                dst,
            ),
            v,
            dst,
            r,
        ),
{
    let ghost d = vorticity_draw(
        vorticity_pass,
        delta_t,
        delta_x,
        vorticity,
        v,
        dst,
    );
    let mut uniforms: Vec<UniformBinding> = Vec::new();
    uniforms.push(float_binding(Uniform::DeltaT, delta_t));
    uniforms.push(float_binding(Uniform::DeltaX, delta_x));
    uniforms.push(float_binding(Uniform::Vorticity, vorticity));
    let mut samplers: Vec<SamplerBinding> = Vec::new();
    samplers.push(sampler_binding(Uniform::V, &v));
    assert(uniforms@ =~= d.uniforms);
    assert(samplers@ =~= d.samplers);
    assert(draw_names(d) =~= Operator::Vorticity.names());
    let issued = vorticity_pass.draw(Some(dst.slot), &uniforms, &samplers);
    swap_roles(
        issued,
        v,
        dst,
        Ghost(vorticity_pass),
        Ghost(Operator::Vorticity.names()),
        Ghost(d),
    )
}

/// The field `color` drawn to the screen.
pub open spec fn present_draw(
    pass: &RenderPass,
    color: Framebuffer,
) -> Draw {
    pass.draw_of(
        None,
        Seq::empty(),
        seq![
            sampler(Uniform::QTexture, color),
        ],
    )
}

/// Composites the colour field onto the visible surface.
pub fn present(
    quad_pass: &RenderPass,
    color: &Framebuffer,
) -> (r: Result<Vec<GpuCommand>, FluidError>)
    ensures
        issues(
            quad_pass,
            Operator::Quad.names(),
            present_draw(
                quad_pass,
                *color,
            ),
            r,
        ),
{
    let ghost d = present_draw(
        quad_pass,
        *color,
    );
    let uniforms: Vec<UniformBinding> = Vec::new();
    let mut samplers: Vec<SamplerBinding> = Vec::new();
    samplers.push(sampler_binding(Uniform::QTexture, color));
    assert(uniforms@ =~= d.uniforms);
    assert(samplers@ =~= d.samplers);
    assert(draw_names(d) =~= Operator::Quad.names());
    quad_pass.draw(None, &uniforms, &samplers)
}

} // verus!
