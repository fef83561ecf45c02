use fluid_sim::command::{GpuCommand, Storage, TextureParameter};
use fluid_sim::error::FluidError;
use fluid_sim::scalar::Scalar;
use fluid_sim::texture::{
    create_texture, data_fits, float_texture_support, get_rainbow_array, make_checkerboard_array,
    make_constant_vector_field, make_rainbow_array, FloatSupport, Framebuffer, PaletteColor,
    RAINBOW_LEN, RAMP_STEPS,
};

fn pattern(len: usize) -> Vec<Scalar> {
    (0..len).map(|i| Scalar { bits: (i as f32 * 0.5).to_bits() }).collect()
}

fn sampling() -> Vec<GpuCommand> {
    vec![
        GpuCommand::TexParameter { parameter: TextureParameter::MinFilterLinear },
        GpuCommand::TexParameter { parameter: TextureParameter::WrapSClampToEdge },
        GpuCommand::TexParameter { parameter: TextureParameter::WrapTClampToEdge },
    ]
}

fn rgb(red: u8, green: u8, blue: u8) -> PaletteColor {
    PaletteColor { red, green, blue }
}

#[test]
fn float_textures_need_both_extensions() {
    assert_eq!(float_texture_support(true, true), FloatSupport::Supported);
    assert_eq!(
        float_texture_support(false, true),
        FloatSupport::Unsupported("OES_texture_float".to_string())
    );
    assert_eq!(
        float_texture_support(false, false),
        FloatSupport::Unsupported("OES_texture_float".to_string())
    );
    assert_eq!(
        float_texture_support(true, false),
        FloatSupport::Unsupported("OES_texture_float_linear".to_string())
    );
}

#[test]
fn storage_falls_back_to_eight_bits() {
    assert_eq!(FloatSupport::Supported.storage(), Storage::Float32);
    assert_eq!(FloatSupport::Unsupported("x".to_string()).storage(), Storage::Unsigned8);
}

#[test]
fn requiring_float_textures_names_the_missing_extension() {
    assert_eq!(FloatSupport::Supported.require(), Ok(()));
    assert_eq!(
        float_texture_support(true, false).require(),
        Err(FluidError::UnsupportedCapability("OES_texture_float_linear".to_string()))
    );
}

#[test]
fn data_fits_four_values_per_texel() {
    assert!(data_fits(64, 64, 64 * 64 * 4));
    assert!(!data_fits(64, 64, 64 * 64 * 4 - 1));
    assert!(!data_fits(64, 64, 64 * 64 * 4 + 1));
    assert!(data_fits(0, 5, 0));
    assert!(data_fits(3, 1, 12));
    assert!(!data_fits(-1, 4, 0));
    assert!(!data_fits(-1, 4, 16));
    assert!(data_fits(-2, -3, 24));
    assert!(!data_fits(i32::MAX, i32::MAX, 4));
    assert!(!data_fits(i32::MIN, i32::MIN, 0));
}

#[test]
fn an_empty_field_is_created_bound_and_attached() {
    let (fb, commands) = Framebuffer::new(3, 16, 8, &FloatSupport::Supported);
    assert_eq!(fb, Framebuffer { width: 16, height: 8, slot: 3, storage: Storage::Float32 });
    let mut expected = vec![
        GpuCommand::CreateFramebuffer { slot: 3 },
        GpuCommand::BindFramebuffer { target: Some(3) },
        GpuCommand::CreateTexture { slot: 3 },
        GpuCommand::BindTexture { texture: Some(3) },
        GpuCommand::TexImage { width: 16, height: 8, storage: Storage::Float32, seeded: false },
    ];
    expected.extend(sampling());
    expected.extend(vec![
        GpuCommand::BindTexture { texture: None },
        GpuCommand::AttachColorTexture { slot: 3 },
        GpuCommand::BindFramebuffer { target: None },
    ]);
    assert_eq!(commands, expected);
}

#[test]
fn an_empty_field_without_float_support_has_eight_bit_storage() {
    let support = float_texture_support(false, false);
    let (fb, commands) = Framebuffer::new(0, 4, 4, &support);
    assert_eq!(fb.storage, Storage::Unsigned8);
    assert!(commands.contains(&GpuCommand::TexImage {
        width: 4,
        height: 4,
        storage: Storage::Unsigned8,
        seeded: false
    }));
}

#[test]
fn a_seeded_field_hands_the_pattern_back_unchanged() {
    let data = pattern(4 * 3 * 4);
    let seeded =
        Framebuffer::create_with_data(5, 4, 3, &FloatSupport::Supported, data.clone()).unwrap();
    assert_eq!(
        seeded.framebuffer,
        Framebuffer { width: 4, height: 3, slot: 5, storage: Storage::Float32 }
    );
    assert_eq!(seeded.pixels, data);
    let mut expected = vec![
        GpuCommand::CreateFramebuffer { slot: 5 },
        GpuCommand::CreateTexture { slot: 5 },
        GpuCommand::BindTexture { texture: Some(5) },
        GpuCommand::TexImage { width: 4, height: 3, storage: Storage::Float32, seeded: true },
    ];
    expected.extend(sampling());
    expected.extend(vec![
        GpuCommand::BindTexture { texture: None },
        GpuCommand::BindFramebuffer { target: Some(5) },
        GpuCommand::AttachColorTexture { slot: 5 },
        GpuCommand::BindFramebuffer { target: None },
    ]);
    assert_eq!(seeded.commands, expected);
}

#[test]
fn a_seed_that_is_one_value_short_is_turned_down() {
    let data = pattern(64 * 64 * 4 - 1);
    let r = Framebuffer::create_with_data(0, 64, 64, &FloatSupport::Supported, data);
    match r {
        Err(e) => assert_eq!(
            e,
            FluidError::DataSizeMismatch { width: 64, height: 64, actual: 64 * 64 * 4 - 1 }
        ),
        Ok(_) => panic!("a short seed was accepted"),
    }
}

#[test]
fn a_seed_that_is_too_long_is_turned_down() {
    let r = Framebuffer::create_with_data(0, 2, 2, &FloatSupport::Supported, pattern(17));
    assert!(matches!(r, Err(FluidError::DataSizeMismatch { width: 2, height: 2, actual: 17 })));
}

#[test]
fn create_texture_checks_the_size_before_it_creates() {
    let data = pattern(2 * 2 * 4);
    let mut expected = vec![
        GpuCommand::CreateTexture { slot: 1 },
        GpuCommand::BindTexture { texture: Some(1) },
        GpuCommand::TexImage { width: 2, height: 2, storage: Storage::Unsigned8, seeded: true },
    ];
    expected.extend(sampling());
    expected.push(GpuCommand::BindTexture { texture: None });
    assert_eq!(create_texture(1, 2, 2, Storage::Unsigned8, &data), Ok(expected));
    assert_eq!(
        create_texture(1, 2, 3, Storage::Unsigned8, &data),
        Err(FluidError::DataSizeMismatch { width: 2, height: 3, actual: 16 })
    );
    assert_eq!(
        create_texture(1, 0, 0, Storage::Float32, &vec![]).map(|c| c.len()),
        Ok(7)
    );
}

#[test]
fn release_deletes_texture_and_framebuffer() {
    let fb = Framebuffer { width: 1, height: 1, slot: 6, storage: Storage::Float32 };
    assert_eq!(
        fb.delete_buffers(),
        vec![GpuCommand::DeleteTexture { slot: 6 }, GpuCommand::DeleteFramebuffer { slot: 6 }]
    );
}

#[test]
fn bind_and_unbind_redirect_the_draws() {
    let fb = Framebuffer { width: 1, height: 1, slot: 2, storage: Storage::Float32 };
    assert_eq!(fb.bind(), GpuCommand::BindFramebuffer { target: Some(2) });
    assert_eq!(fb.unbind(), GpuCommand::BindFramebuffer { target: None });
    assert_eq!(fb.get_texture(), 2);
}

#[test]
fn checkerboard_of_64_has_blocks_of_six() {
    let data = make_checkerboard_array(64, 64);
    assert_eq!(data.len(), 64 * 64 * 4);
    let texel = |x: usize, y: usize, channel: usize| {
        f32::from_bits(data[(x * 64 + y) * 4 + channel].bits)
    };
    for channel in 0..3 {
        assert_eq!(texel(0, 0, channel), 1.0);
        assert_eq!(texel(5, 5, channel), 1.0);
        assert_eq!(texel(6, 0, channel), 0.0);
        assert_eq!(texel(0, 6, channel), 0.0);
        assert_eq!(texel(6, 6, channel), 1.0);
        assert_eq!(texel(11, 5, channel), 0.0);
        assert_eq!(texel(12, 5, channel), 1.0);
        assert_eq!(texel(63, 63, channel), 1.0);
        assert_eq!(texel(63, 0, channel), 1.0);
        assert_eq!(texel(59, 0, channel), 0.0);
    }
    for x in 0..64 {
        for y in 0..64 {
            assert_eq!(texel(x, y, 3), 1.0);
            let bright = (x / 6 + y / 6) % 2 == 0;
            assert_eq!(texel(x, y, 0), if bright { 1.0 } else { 0.0 });
        }
    }
}

#[test]
fn checkerboard_is_laid_out_first_index_outermost() {
    let data = make_checkerboard_array(20, 3);
    assert_eq!(data.len(), 20 * 3 * 4);
    let red = |x: usize, y: usize| f32::from_bits(data[(x * 3 + y) * 4].bits);
    assert_eq!(red(0, 0), 1.0);
    assert_eq!(red(1, 2), 0.0);
    assert_eq!(red(1, 1), 1.0);
    assert_eq!(red(2, 0), 0.0);
    assert_eq!(red(2, 2), 1.0);
    assert_eq!(red(3, 2), 1.0);
    assert_eq!(red(4, 2), 0.0);
}

#[test]
fn checkerboard_without_cells_is_empty() {
    assert!(make_checkerboard_array(0, 64).is_empty());
    assert!(make_checkerboard_array(64, 0).is_empty());
    assert!(make_checkerboard_array(-3, 5).is_empty());
    assert!(make_checkerboard_array(5, -3).is_empty());
}

#[test]
fn constant_field_points_along_the_first_axis() {
    let data = make_constant_vector_field(3, 2);
    assert_eq!(data.len(), 24);
    for cell in 0..6 {
        assert_eq!(f32::from_bits(data[cell * 4].bits), 1.0);
        assert_eq!(f32::from_bits(data[cell * 4 + 1].bits), 0.0);
        assert_eq!(f32::from_bits(data[cell * 4 + 2].bits), 0.0);
        assert_eq!(f32::from_bits(data[cell * 4 + 3].bits), 1.0);
    }
    assert!(make_constant_vector_field(0, 2).is_empty());
    assert!(make_constant_vector_field(2, -1).is_empty());
}

#[test]
fn rainbow_runs_through_six_ramps() {
    let colors = get_rainbow_array();
    assert_eq!(colors.len(), 595);
    assert_eq!(RAINBOW_LEN, 595);
    assert_eq!(RAMP_STEPS, 99);
    assert_eq!(colors[0], rgb(100, 0, 0));
    assert_eq!(colors[1], rgb(100, 1, 0));
    assert_eq!(colors[99], rgb(100, 99, 0));
    assert_eq!(colors[100], rgb(99, 99, 0));
    assert_eq!(colors[198], rgb(1, 99, 0));
    assert_eq!(colors[199], rgb(1, 99, 1));
    assert_eq!(colors[297], rgb(1, 99, 99));
    assert_eq!(colors[298], rgb(1, 98, 99));
    assert_eq!(colors[396], rgb(1, 0, 99));
    assert_eq!(colors[397], rgb(2, 0, 99));
    assert_eq!(colors[495], rgb(100, 0, 99));
    assert_eq!(colors[496], rgb(100, 0, 98));
    assert_eq!(colors[594], rgb(100, 0, 0));
}

#[test]
fn rainbow_changes_one_channel_by_one_hundredth_a_step() {
    let colors = get_rainbow_array();
    for k in 1..colors.len() {
        let (a, b) = (colors[k - 1], colors[k]);
        let change = (a.red as i32 - b.red as i32).abs()
            + (a.green as i32 - b.green as i32).abs()
            + (a.blue as i32 - b.blue as i32).abs();
        assert_eq!(change, 1);
    }
}

#[test]
fn rainbow_field_runs_along_the_diagonals() {
    let data = make_rainbow_array(4, 3);
    assert_eq!(data.len(), 12);
    let cell = |r: usize, c: usize| data[r * 3 + c];
    assert_eq!(cell(0, 0), 0);
    assert_eq!(cell(0, 2), 2);
    assert_eq!(cell(1, 1), 0);
    assert_eq!(cell(1, 0), 594);
    assert_eq!(cell(3, 0), 592);
    assert_eq!(cell(3, 2), 594);
    assert_eq!(cell(2, 2), 0);
}

#[test]
fn rainbow_field_wraps_around_the_palette() {
    let data = make_rainbow_array(2, 700);
    assert_eq!(data.len(), 1400);
    assert_eq!(data[594], 594);
    assert_eq!(data[595], 0);
    assert_eq!(data[699], 104);
    assert_eq!(data[700], 594);
    assert_eq!(data[700 + 596], 0);
    assert!(data.iter().all(|index| *index < get_rainbow_array().len()));
    assert!(make_rainbow_array(0, 5).is_empty());
    assert!(make_rainbow_array(5, 0).is_empty());
    assert!(make_rainbow_array(-1, -1).is_empty());
}
