use fluid_sim::command::{GpuCommand, Storage, Uniform};
use fluid_sim::error::FluidError;
use fluid_sim::render::RenderPass;
use fluid_sim::render_fluid::Operator;
use fluid_sim::scalar::{Scalar, Vector2, Vector3};
use fluid_sim::frame::{
    Fields, Injection, Parameters, Passes, COLOR_SCRATCH_SLOT, COLOR_SLOT, DIVERGENCE_SLOT,
    PRESSURE_SCRATCH_SLOT, PRESSURE_SLOT, VELOCITY_SCRATCH_SLOT, VELOCITY_SLOT,
};
use fluid_sim::scheduler::{Scheduler, Setup};
use fluid_sim::texture::{
    make_checkerboard_array, make_constant_vector_field, FieldPair, FloatSupport, Framebuffer,
};

const ADVECT: usize = 10;
const QUAD: usize = 11;
const JACOBI: usize = 12;
const DIVERGENCE: usize = 13;
const SUBTRACT: usize = 14;
const BOUNDARY: usize = 15;
const FORCE: usize = 16;
const COLOR: usize = 17;
const VORTICITY: usize = 18;

fn located(
    program: usize,
    names: Vec<Uniform>,
    vertex_buffer: usize,
    index_buffer: usize,
    attrib_location: i32,
) -> RenderPass {
    let uniforms = names.into_iter().map(|name| (name, true)).collect();
    match RenderPass::new(program, uniforms, vertex_buffer, index_buffer, attrib_location) {
        Ok(pass) => pass,
        Err(e) => panic!("a located uniform was turned down: {:?}", e),
    }
}

fn scalar(x: f32) -> Scalar {
    Scalar { bits: x.to_bits() }
}

fn pass_for(op: Operator, program: usize) -> RenderPass {
    located(program, op.uniforms(), 0, 1, 0)
}

fn passes() -> Passes {
    Passes {
        advect: pass_for(Operator::Advect, ADVECT),
        quad: pass_for(Operator::Quad, QUAD),
        jacobi: pass_for(Operator::Jacobi, JACOBI),
        divergence: pass_for(Operator::Divergence, DIVERGENCE),
        subtract: pass_for(Operator::Subtract, SUBTRACT),
        boundary: pass_for(Operator::Boundary, BOUNDARY),
        force: pass_for(Operator::Force, FORCE),
        color: pass_for(Operator::Color, COLOR),
        vorticity: pass_for(Operator::Vorticity, VORTICITY),
    }
}

fn parameters(iterations: usize) -> Parameters {
    Parameters {
        iterations,
        delta_x: scalar(1.0 / 64.0),
        delta_t: scalar(1.0 / 60.0),
        diffusion_alpha: scalar(14.6),
        diffusion_r_beta: scalar(0.05),
        pressure_alpha: scalar(-1.0 / 4096.0),
        rho: scalar(1e-3),
        vorticity: scalar(0.3),
    }
}

fn injection() -> Injection {
    Injection {
        force: Vector2 { x: scalar(2.0), y: scalar(-1.0) },
        impulse_pos: Vector2 { x: scalar(0.25), y: scalar(0.75) },
        color: Vector3 { x: scalar(1.0), y: scalar(0.5), z: scalar(0.0) },
    }
}

fn setup(width: i32, height: i32) -> Setup {
    match Scheduler::new(
        width,
        height,
        FloatSupport::Supported,
        passes(),
        make_constant_vector_field(width, height),
        make_checkerboard_array(width, height),
    ) {
        Ok(setup) => setup,
        Err(e) => panic!("set-up failed: {:?}", e),
    }
}

fn field(slot: usize, side: i32) -> Framebuffer {
    Framebuffer { width: side, height: side, slot, storage: Storage::Float32 }
}

fn initial(side: i32) -> Fields {
    Fields {
        velocity: FieldPair {
            src: field(VELOCITY_SLOT, side),
            dst: field(VELOCITY_SCRATCH_SLOT, side),
        },
        pressure: FieldPair {
            src: field(PRESSURE_SLOT, side),
            dst: field(PRESSURE_SCRATCH_SLOT, side),
        },
        color: FieldPair { src: field(COLOR_SLOT, side), dst: field(COLOR_SCRATCH_SLOT, side) },
        divergence: field(DIVERGENCE_SLOT, side),
    }
}

fn swapped(pair: FieldPair) -> FieldPair {
    FieldPair { src: pair.dst, dst: pair.src }
}

/// Target, program and sampled textures of every draw, found by following
/// the binds of the command stream.
fn draws_of(commands: &[GpuCommand]) -> Vec<(Option<usize>, usize, Vec<usize>)> {
    let mut seen = Vec::new();
    let mut target = None;
    let mut program = usize::MAX;
    let mut textures: Vec<usize> = Vec::new();
    let mut unit = usize::MAX;
    for command in commands {
        match *command {
            GpuCommand::BindFramebuffer { target: t } => target = t,
            GpuCommand::UseProgram { program: p } => {
                program = p;
                textures.clear();
            }
            GpuCommand::ActiveTexture { unit: u } => unit = u,
            GpuCommand::BindTexture { texture: Some(t) } => {
                assert_eq!(unit, textures.len());
                textures.push(t);
            }
            GpuCommand::DrawElements { .. } => seen.push((target, program, textures.clone())),
            _ => {}
        }
    }
    assert_eq!(target, None);
    seen
}

fn programs(draws: &[(Option<usize>, usize, Vec<usize>)]) -> Vec<usize> {
    draws.iter().map(|d| d.1).collect()
}

#[test]
fn slots_are_seven_different_ones() {
    let mut slots = vec![
        VELOCITY_SLOT,
        VELOCITY_SCRATCH_SLOT,
        PRESSURE_SLOT,
        PRESSURE_SCRATCH_SLOT,
        DIVERGENCE_SLOT,
        COLOR_SLOT,
        COLOR_SCRATCH_SLOT,
    ];
    slots.sort();
    slots.dedup();
    assert_eq!(slots.len(), 7);
}

#[test]
fn set_up_creates_two_seeded_and_five_empty_fields() {
    let velocity = make_constant_vector_field(16, 16);
    let colour = make_checkerboard_array(16, 16);
    let setup = setup(16, 16);
    assert_eq!(setup.scheduler.current_fields(), initial(16));
    assert_eq!(setup.velocity.framebuffer, field(VELOCITY_SLOT, 16));
    assert_eq!(setup.velocity.pixels, velocity);
    assert_eq!(setup.color.framebuffer, field(COLOR_SLOT, 16));
    assert_eq!(setup.color.pixels, colour);
    let created = |commands: &[GpuCommand]| -> Vec<usize> {
        commands
            .iter()
            .filter_map(|c| match c {
                GpuCommand::CreateFramebuffer { slot } => Some(*slot),
                _ => None,
            })
            .collect()
    };
    assert_eq!(created(&setup.velocity.commands), vec![VELOCITY_SLOT]);
    assert_eq!(created(&setup.color.commands), vec![COLOR_SLOT]);
    assert_eq!(
        created(&setup.scratch),
        vec![
            VELOCITY_SCRATCH_SLOT,
            PRESSURE_SLOT,
            PRESSURE_SCRATCH_SLOT,
            DIVERGENCE_SLOT,
            COLOR_SCRATCH_SLOT
        ]
    );
    let (_, one) = Framebuffer::new(VELOCITY_SCRATCH_SLOT, 16, 16, &FloatSupport::Supported);
    assert_eq!(setup.scratch.len(), 5 * one.len());
    assert_eq!(&setup.scratch[..one.len()], &one[..]);
    assert!(!setup.scheduler.velocity_pattern_changed(0));
    assert!(setup.scheduler.velocity_pattern_changed(1));
    assert!(!setup.scheduler.color_pattern_changed(0));
    assert!(setup.scheduler.color_pattern_changed(3));
}

#[test]
fn set_up_without_float_textures_falls_back_for_every_field() {
    let r = Scheduler::new(
        16,
        16,
        FloatSupport::Unsupported("OES_texture_float".to_string()),
        passes(),
        make_constant_vector_field(16, 16),
        make_checkerboard_array(16, 16),
    );
    let setup = match r {
        Ok(setup) => setup,
        Err(e) => panic!("set-up failed: {:?}", e),
    };
    let fields = setup.scheduler.current_fields();
    for fb in [
        fields.velocity.src,
        fields.velocity.dst,
        fields.pressure.src,
        fields.pressure.dst,
        fields.color.src,
        fields.color.dst,
        fields.divergence,
    ] {
        assert_eq!(fb.storage, Storage::Unsigned8);
    }
}

#[test]
fn set_up_turns_down_a_pass_that_lacks_a_uniform() {
    let mut lacking = passes();
    lacking.subtract = located(SUBTRACT, vec![Uniform::DeltaX, Uniform::W], 0, 1, 0);
    let r = Scheduler::new(
        16,
        16,
        FloatSupport::Supported,
        lacking,
        make_constant_vector_field(16, 16),
        make_checkerboard_array(16, 16),
    );
    assert!(matches!(r, Err(FluidError::UnknownUniform(Uniform::P))));
}

#[test]
fn set_up_reports_the_first_inadequate_pass() {
    let mut lacking = passes();
    lacking.vorticity = located(VORTICITY, vec![], 0, 1, 0);
    lacking.quad = located(QUAD, vec![], 0, 1, 0);
    assert_eq!(lacking.validate(), Err(FluidError::UnknownUniform(Uniform::QTexture)));
    let r = Scheduler::new(16, 16, FloatSupport::Supported, lacking, vec![], vec![]);
    assert!(matches!(r, Err(FluidError::UnknownUniform(Uniform::QTexture))));
    assert_eq!(passes().validate(), Ok(()));
}

#[test]
fn set_up_turns_down_a_velocity_seed_of_the_wrong_size() {
    let mut short = make_constant_vector_field(16, 16);
    short.pop();
    let r = Scheduler::new(
        16,
        16,
        FloatSupport::Supported,
        passes(),
        short,
        make_checkerboard_array(16, 15),
    );
    assert!(matches!(
        r,
        Err(FluidError::DataSizeMismatch { width: 16, height: 16, actual: 1023 })
    ));
}

#[test]
fn set_up_turns_down_a_colour_seed_of_the_wrong_size() {
    let r = Scheduler::new(
        16,
        16,
        FloatSupport::Supported,
        passes(),
        make_constant_vector_field(16, 16),
        make_checkerboard_array(16, 15),
    );
    assert!(matches!(
        r,
        Err(FluidError::DataSizeMismatch { width: 16, height: 16, actual: 960 })
    ));
}

#[test]
fn a_step_runs_the_operators_in_order() {
    let mut scheduler = setup(16, 16).scheduler;
    let commands = scheduler.step(&parameters(2), None);
    let draws = draws_of(&commands);
    assert_eq!(
        programs(&draws),
        vec![
            ADVECT, JACOBI, JACOBI, DIVERGENCE, JACOBI, JACOBI, SUBTRACT, BOUNDARY, BOUNDARY,
            VORTICITY, ADVECT, QUAD
        ]
    );
    let (v, vs, p, ps, d, c, cs) = (
        VELOCITY_SLOT,
        VELOCITY_SCRATCH_SLOT,
        PRESSURE_SLOT,
        PRESSURE_SCRATCH_SLOT,
        DIVERGENCE_SLOT,
        COLOR_SLOT,
        COLOR_SCRATCH_SLOT,
    );
    let expected: Vec<(Option<usize>, Vec<usize>)> = vec![
        (Some(vs), vec![v, v]),
        (Some(v), vec![vs, vs]),
        (Some(vs), vec![v, v]),
        (Some(d), vec![vs]),
        (Some(ps), vec![p, d]),
        (Some(p), vec![ps, d]),
        (Some(v), vec![p, vs]),
        (Some(vs), vec![v]),
        (Some(ps), vec![p]),
        (Some(v), vec![vs]),
        (Some(cs), vec![c, v]),
        (None, vec![cs]),
    ];
    let got: Vec<(Option<usize>, Vec<usize>)> =
        draws.iter().map(|d| (d.0, d.2.clone())).collect();
    assert_eq!(got, expected);
    let after = scheduler.current_fields();
    assert_eq!(after.velocity, initial(16).velocity);
    assert_eq!(after.pressure, swapped(initial(16).pressure));
    assert_eq!(after.color, swapped(initial(16).color));
    assert_eq!(after.divergence, initial(16).divergence);
}

#[test]
fn a_pressed_pointer_injects_force_and_dye_after_diffusion() {
    let mut scheduler = setup(16, 16).scheduler;
    let commands = scheduler.step(&parameters(1), Some(injection()));
    let draws = draws_of(&commands);
    assert_eq!(
        programs(&draws),
        vec![
            ADVECT, JACOBI, FORCE, COLOR, DIVERGENCE, JACOBI, SUBTRACT, BOUNDARY, BOUNDARY,
            VORTICITY, ADVECT, QUAD
        ]
    );
    assert!(commands.contains(&GpuCommand::Uniform2f {
        name: Uniform::Force,
        x: scalar(2.0),
        y: scalar(-1.0)
    }));
    assert!(commands.contains(&GpuCommand::Uniform3f {
        name: Uniform::Color,
        x: scalar(1.0),
        y: scalar(0.5),
        z: scalar(0.0)
    }));
    assert_eq!(
        commands
            .iter()
            .filter(|c| **c
                == GpuCommand::Uniform2f {
                    name: Uniform::ImpulsePos,
                    x: scalar(0.25),
                    y: scalar(0.75)
                })
            .count(),
        2
    );
    let after = scheduler.current_fields();
    assert_eq!(after.velocity, initial(16).velocity);
    assert_eq!(after.pressure, initial(16).pressure);
    assert_eq!(after.color, initial(16).color);
}

#[test]
fn a_step_routes_each_coefficient_to_its_solve() {
    let mut scheduler = setup(16, 16).scheduler;
    let p = parameters(1);
    let commands = scheduler.step(&p, None);
    let alphas: Vec<Scalar> = commands
        .iter()
        .filter_map(|c| match c {
            GpuCommand::Uniform1f { name: Uniform::Alpha, x } => Some(*x),
            _ => None,
        })
        .collect();
    let r_betas: Vec<Scalar> = commands
        .iter()
        .filter_map(|c| match c {
            GpuCommand::Uniform1f { name: Uniform::RBeta, x } => Some(*x),
            _ => None,
        })
        .collect();
    let scales: Vec<Scalar> = commands
        .iter()
        .filter_map(|c| match c {
            GpuCommand::Uniform1f { name: Uniform::Scale, x } => Some(*x),
            _ => None,
        })
        .collect();
    assert_eq!(alphas, vec![p.diffusion_alpha, p.pressure_alpha]);
    assert_eq!(r_betas, vec![p.diffusion_r_beta, scalar(0.25)]);
    assert_eq!(scales, vec![scalar(-1.0), scalar(1.0)]);
    assert!(commands.contains(&GpuCommand::Uniform1f {
        name: Uniform::Vorticity,
        x: p.vorticity
    }));
}

#[test]
fn a_step_without_relaxation_still_projects_and_presents() {
    let mut scheduler = setup(16, 16).scheduler;
    let commands = scheduler.step(&parameters(0), None);
    let draws = draws_of(&commands);
    assert_eq!(
        programs(&draws),
        vec![ADVECT, DIVERGENCE, SUBTRACT, BOUNDARY, BOUNDARY, VORTICITY, ADVECT, QUAD]
    );
    let after = scheduler.current_fields();
    assert_eq!(after.velocity, initial(16).velocity);
    assert_eq!(after.pressure, swapped(initial(16).pressure));
    assert_eq!(after.color, swapped(initial(16).color));
}

#[test]
fn no_draw_samples_the_field_it_writes() {
    let mut scheduler = setup(16, 16).scheduler;
    for frame in 0..12usize {
        let pointer = if frame % 3 == 0 { Some(injection()) } else { None };
        let commands = scheduler.step(&parameters(frame % 5), pointer);
        for (target, _, textures) in draws_of(&commands) {
            if let Some(t) = target {
                assert!(!textures.contains(&t));
            }
        }
    }
}

#[test]
fn roles_follow_the_number_of_writes() {
    for iterations in 0..5usize {
        for pressed in [false, true] {
            let mut scheduler = setup(16, 16).scheduler;
            let pointer = if pressed { Some(injection()) } else { None };
            scheduler.step(&parameters(iterations), pointer);
            let after = scheduler.current_fields();
            let before = initial(16);
            let i = if pressed { 1 } else { 0 };
            let expect = |pair: FieldPair, writes: usize| {
                if writes % 2 == 0 {
                    pair
                } else {
                    swapped(pair)
                }
            };
            assert_eq!(after.velocity, expect(before.velocity, 4 + iterations + i));
            assert_eq!(after.pressure, expect(before.pressure, iterations + 1));
            assert_eq!(after.color, expect(before.color, 1 + i));
            assert_eq!(after.divergence, before.divergence);
        }
    }
}

#[test]
fn the_screen_shows_the_colour_that_was_advected_last() {
    let mut scheduler = setup(16, 16).scheduler;
    for frame in 0..4usize {
        let pointer = if frame == 2 { Some(injection()) } else { None };
        let commands = scheduler.step(&parameters(3), pointer);
        let draws = draws_of(&commands);
        let after = scheduler.current_fields();
        let shown = &draws[draws.len() - 1];
        let advected = &draws[draws.len() - 2];
        assert_eq!(shown.0, None);
        assert_eq!(shown.1, QUAD);
        assert_eq!(shown.2, vec![after.color.src.slot]);
        assert_eq!(advected.0, Some(after.color.src.slot));
        assert_eq!(advected.1, ADVECT);
        assert_eq!(advected.2, vec![after.color.dst.slot, after.velocity.src.slot]);
    }
}

fn rotational(width: i32, height: i32) -> Vec<Scalar> {
    let (w, h) = (width as f32, height as f32);
    let mut data = Vec::new();
    for r in 0..height {
        for c in 0..width {
            let x = (c as f32 - w / 2.0) / (w / 2.0);
            let y = (h - r as f32 - h / 2.0) / (h / 2.0);
            data.push(scalar((-2.0 * std::f32::consts::PI * y).sin()));
            data.push(scalar((2.0 * std::f32::consts::PI * x).sin()));
            data.push(scalar(0.0));
            data.push(scalar(1.0));
        }
    }
    data
}

#[test]
fn a_hundred_steps_on_a_64_grid_with_twenty_iterations() {
    let velocity = rotational(64, 64);
    let colour = make_checkerboard_array(64, 64);
    let setup = match Scheduler::new(
        64,
        64,
        FloatSupport::Supported,
        passes(),
        velocity.clone(),
        colour.clone(),
    ) {
        Ok(setup) => setup,
        Err(e) => panic!("set-up failed: {:?}", e),
    };
    assert_eq!(setup.velocity.pixels, velocity);
    assert_eq!(setup.color.pixels, colour);
    assert!(setup.velocity.pixels.iter().all(|s| f32::from_bits(s.bits).is_finite()));
    let mut scheduler = setup.scheduler;
    let mut p = parameters(20);
    p.delta_t = scalar(1.0 / 60.0);
    p.delta_x = scalar(1.0 / 64.0);
    let viscosity = 1e-6_f32;
    let alpha = (1.0_f32 / 64.0).powf(2.0) / (viscosity * (1.0 / 60.0));
    p.diffusion_alpha = scalar(alpha);
    p.diffusion_r_beta = scalar(1.0 / (4.0 + alpha));
    p.pressure_alpha = scalar(-(1.0_f32 / 64.0).powf(2.0));
    for _ in 0..100 {
        let commands = scheduler.step(&p, None);
        let draws = draws_of(&commands);
        assert_eq!(draws.len(), 8 + 2 * 20);
        for (target, _, textures) in &draws {
            if let Some(t) = target {
                assert!(!textures.contains(t));
            }
        }
        assert_eq!(
            commands.iter().filter(|c| matches!(c, GpuCommand::Clear)).count(),
            draws.len()
        );
        for command in &commands {
            match command {
                GpuCommand::Uniform1f { x, .. } => assert!(f32::from_bits(x.bits).is_finite()),
                _ => {}
            }
        }
    }
    let after = scheduler.current_fields();
    assert_eq!(after.velocity, initial(64).velocity);
    assert_eq!(after.pressure, initial(64).pressure);
    assert_eq!(after.color, initial(64).color);
}

#[test]
fn reseeding_the_velocity_also_empties_the_pressure() {
    let mut scheduler = setup(16, 16).scheduler;
    scheduler.step(&parameters(1), None);
    let fields = scheduler.current_fields();
    let data = make_constant_vector_field(16, 16);
    let reseeded = match scheduler.reseed_velocity(2, data.clone()) {
        Ok(reseeded) => reseeded,
        Err(e) => panic!("reseeding failed: {:?}", e),
    };
    assert_eq!(reseeded.pixels, data);
    assert_eq!(reseeded.framebuffer, fields.velocity.src);
    let v = fields.velocity.src.slot;
    let p = fields.pressure.src.slot;
    assert_eq!(
        &reseeded.commands[..4],
        &[
            GpuCommand::DeleteTexture { slot: v },
            GpuCommand::DeleteFramebuffer { slot: v },
            GpuCommand::DeleteTexture { slot: p },
            GpuCommand::DeleteFramebuffer { slot: p },
        ]
    );
    let seeded =
        Framebuffer::create_with_data(v, 16, 16, &FloatSupport::Supported, data).unwrap();
    let (_, emptied) = Framebuffer::new(p, 16, 16, &FloatSupport::Supported);
    let mut expected = reseeded.commands[..4].to_vec();
    expected.extend(seeded.commands);
    expected.extend(emptied);
    assert_eq!(reseeded.commands, expected);
    assert_eq!(scheduler.current_fields(), fields);
    assert!(!scheduler.velocity_pattern_changed(2));
    assert!(scheduler.velocity_pattern_changed(0));
    assert!(!scheduler.color_pattern_changed(0));
}

#[test]
fn reseeding_the_colour_replaces_the_current_colour() {
    let mut scheduler = setup(16, 16).scheduler;
    scheduler.step(&parameters(1), None);
    let fields = scheduler.current_fields();
    assert_eq!(fields.color.src.slot, COLOR_SCRATCH_SLOT);
    let data = make_checkerboard_array(16, 16);
    let reseeded = match scheduler.reseed_color(1, data.clone()) {
        Ok(reseeded) => reseeded,
        Err(e) => panic!("reseeding failed: {:?}", e),
    };
    assert_eq!(reseeded.pixels, data);
    assert_eq!(reseeded.framebuffer, fields.color.src);
    let seeded = Framebuffer::create_with_data(
        COLOR_SCRATCH_SLOT,
        16,
        16,
        &FloatSupport::Supported,
        data,
    )
    .unwrap();
    let mut expected = fields.color.src.delete_buffers();
    expected.extend(seeded.commands);
    assert_eq!(reseeded.commands, expected);
    assert_eq!(scheduler.current_fields(), fields);
    assert!(!scheduler.color_pattern_changed(1));
    assert!(!scheduler.velocity_pattern_changed(0));
}

#[test]
fn a_seed_of_the_wrong_size_keeps_the_previous_field() {
    let mut scheduler = setup(16, 16).scheduler;
    let before = scheduler.current_fields();
    let mut short = make_constant_vector_field(16, 16);
    short.pop();
    let r = scheduler.reseed_velocity(4, short.clone());
    assert!(matches!(
        r,
        Err(FluidError::DataSizeMismatch { width: 16, height: 16, actual: 1023 })
    ));
    assert_eq!(scheduler.current_fields(), before);
    assert!(scheduler.velocity_pattern_changed(4));
    assert!(!scheduler.velocity_pattern_changed(0));
    let r = scheduler.reseed_color(4, short);
    assert!(matches!(
        r,
        Err(FluidError::DataSizeMismatch { width: 16, height: 16, actual: 1023 })
    ));
    assert_eq!(scheduler.current_fields(), before);
    assert!(scheduler.color_pattern_changed(4));
    assert!(!scheduler.color_pattern_changed(0));
    let commands = scheduler.step(&parameters(0), None);
    assert_eq!(draws_of(&commands).len(), 8);
}
