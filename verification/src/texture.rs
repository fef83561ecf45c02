use vstd::prelude::*;
use vstd::arithmetic::div_mod::{
    lemma_fundamental_div_mod_converse, lemma_mod_add_multiples_vanish,
};
use crate::command::{GpuCommand, Storage, TextureParameter};
use crate::error::FluidError;
use crate::scalar::Scalar;

verus! {

/// Whether the context can render to, and linearly sample, float textures.
#[derive(Debug, PartialEq, Eq)]
pub enum FloatSupport {
    Supported,
    /// Carries the name of the extension that is missing.
    Unsupported(String),
}

/// The extension that makes float textures available.
pub open spec fn float_extension() -> Seq<char> {
    "OES_texture_float"@
}

/// The extension that makes float textures linearly filterable.
pub open spec fn float_linear_extension() -> Seq<char> {
    "OES_texture_float_linear"@
}

/// Turns the answers of the two extension queries into a typed result.
/// Float textures are supported when both extensions are present; otherwise
/// the result names the first that is missing.
pub fn float_texture_support(has_float: bool, has_float_linear: bool) -> (support: FloatSupport)
    ensures
        has_float && has_float_linear ==> support is Supported,
        !has_float ==> (support matches FloatSupport::Unsupported(name) && name@
            == float_extension()),
        has_float && !has_float_linear ==> (support matches FloatSupport::Unsupported(name)
            && name@ == float_linear_extension()),
{
    if !has_float {
        FloatSupport::Unsupported("OES_texture_float".to_owned())
    } else if !has_float_linear {
        FloatSupport::Unsupported("OES_texture_float_linear".to_owned())
    } else {
        FloatSupport::Supported
    }
}

impl FloatSupport {
    /// The storage that fields get: floats where they are supported, 8-bit
    /// channels otherwise.
    pub open spec fn spec_storage(&self) -> Storage {
        if self is Supported {
            Storage::Float32
        } else {
            Storage::Unsigned8
        }
    }

    /// The storage that fields get: floats where they are supported, 8-bit
    /// channels otherwise.
    pub fn storage(&self) -> (storage: Storage)
        ensures
            storage == self.spec_storage(),
    {
        match self {
            FloatSupport::Supported => Storage::Float32,
            FloatSupport::Unsupported(_) => Storage::Unsigned8,
        }
    }

    /// For a host that will not run at reduced precision: an error naming
    /// the missing extension, unless float textures are supported.
    pub fn require(self) -> (r: Result<(), FluidError>)
        ensures
            self is Supported ==> r is Ok,
            self matches FloatSupport::Unsupported(name) ==> r == Err::<(), FluidError>(
                FluidError::UnsupportedCapability(name),
            ),
    {
        match self {
            FloatSupport::Supported => Ok(()),
            FloatSupport::Unsupported(name) => Err(FluidError::UnsupportedCapability(name)),
        }
    }
}

/// Number of values in the pixel buffer of a `width` x `height` field: four
/// channels per texel.
pub open spec fn texel_values(width: int, height: int) -> int {
    width * height * 4
}

/// Whether a buffer of `len` values fills a `width` x `height` field.
pub fn data_fits(width: i32, height: i32, len: usize) -> (fits: bool)
    ensures
        fits == (len as int == texel_values(width as int, height as int)),
{
    let w: i128 = width as i128;
    let h: i128 = height as i128;
    assert(-0x4000_0000_0000_0000 <= w * h <= 0x4000_0000_0000_0000) by (nonlinear_arith)
        requires
            -0x8000_0000 <= w <= 0x8000_0000,
            -0x8000_0000 <= h <= 0x8000_0000,
    ;
    let texels: i128 = w * h;
    texels * 4 == len as i128
}

/// An off-screen colour target: a texture and the framebuffer object that
/// owns it, both kept by the context under `slot`.
#[derive(Clone, Copy, PartialEq, Eq, Structural, Debug)]
pub struct Framebuffer {
    pub width: i32,
    pub height: i32,
    pub slot: usize,
    pub storage: Storage,
}

/// Sampling set-up shared by every field texture: linear filtering, both
/// axes clamped to the edge.
pub open spec fn sampling_commands() -> Seq<GpuCommand> {
    seq![
        GpuCommand::TexParameter { parameter: TextureParameter::MinFilterLinear },
        GpuCommand::TexParameter { parameter: TextureParameter::WrapSClampToEdge },
        GpuCommand::TexParameter { parameter: TextureParameter::WrapTClampToEdge },
    ]
}

/// Creation of the texture of `slot`; `seeded` says that the caller's pixels
/// are uploaded into it.
pub open spec fn texture_commands(
    slot: usize,
    width: i32,
    height: i32,
    storage: Storage,
    seeded: bool,
) -> Seq<GpuCommand> {
    seq![
        GpuCommand::CreateTexture { slot },
        GpuCommand::BindTexture { texture: Some(slot) },
        GpuCommand::TexImage { width, height, storage, seeded },
    ] + sampling_commands() + seq![GpuCommand::BindTexture { texture: None }]
}

/// Creation of an empty field.
pub open spec fn create_commands(fb: Framebuffer) -> Seq<GpuCommand> {
    seq![
        GpuCommand::CreateFramebuffer { slot: fb.slot },
        GpuCommand::BindFramebuffer { target: Some(fb.slot) },
    ] + texture_commands(fb.slot, fb.width, fb.height, fb.storage, false) + seq![
        GpuCommand::AttachColorTexture { slot: fb.slot },
        GpuCommand::BindFramebuffer { target: None },
    ]
}

/// Creation of a field from the caller's pixels.
pub open spec fn create_seeded_commands(fb: Framebuffer) -> Seq<GpuCommand> {
    seq![GpuCommand::CreateFramebuffer { slot: fb.slot }] + texture_commands(
        fb.slot,
        fb.width,
        fb.height,
        fb.storage,
        true,
    ) + seq![
        GpuCommand::BindFramebuffer { target: Some(fb.slot) },
        GpuCommand::AttachColorTexture { slot: fb.slot },
        GpuCommand::BindFramebuffer { target: None },
    ]
}

/// Release of a field's texture and framebuffer object.
pub open spec fn delete_commands(fb: Framebuffer) -> Seq<GpuCommand> {
    seq![
        GpuCommand::DeleteTexture { slot: fb.slot },
        GpuCommand::DeleteFramebuffer { slot: fb.slot },
    ]
}

/// A field that was created from the caller's pixels.
pub struct Seeded {
    pub framebuffer: Framebuffer,
    /// The commands that create the field.
    pub commands: Vec<GpuCommand>,
    /// The pixels that the seeded `TexImage` command uploads.
    pub pixels: Vec<Scalar>,
}

fn push_sampling(commands: &mut Vec<GpuCommand>)
    ensures
        final(commands)@ == old(commands)@ + sampling_commands(),
{
    commands.push(GpuCommand::TexParameter { parameter: TextureParameter::MinFilterLinear });
    commands.push(GpuCommand::TexParameter { parameter: TextureParameter::WrapSClampToEdge });
    commands.push(GpuCommand::TexParameter { parameter: TextureParameter::WrapTClampToEdge });
    assert(commands@ =~= old(commands)@ + sampling_commands());
}

/// The commands that create the texture of `slot` and fill it with `data`,
/// four values per texel, with linear filtering and edge clamping.
///
/// Fails, creating nothing, unless `data` holds `width * height * 4` values.
pub fn create_texture(
    slot: usize,
    width: i32,
    height: i32,
    storage: Storage,
    data: &Vec<Scalar>,
) -> (r: Result<Vec<GpuCommand>, FluidError>)
    ensures
        data.len() == texel_values(width as int, height as int) ==> r is Ok && r.unwrap()@
            == texture_commands(slot, width, height, storage, true),
        data.len() != texel_values(width as int, height as int) ==> r == Err::<
            Vec<GpuCommand>,
            FluidError,
        >(FluidError::DataSizeMismatch { width, height, actual: data.len() }),
{
    if !data_fits(width, height, data.len()) {
        return Err(FluidError::DataSizeMismatch { width, height, actual: data.len() });
    }
    let mut commands: Vec<GpuCommand> = Vec::new();
    commands.push(GpuCommand::CreateTexture { slot });
    commands.push(GpuCommand::BindTexture { texture: Some(slot) });
    commands.push(GpuCommand::TexImage { width, height, storage, seeded: true });
    push_sampling(&mut commands);
    commands.push(GpuCommand::BindTexture { texture: None });
    assert(commands@ =~= texture_commands(slot, width, height, storage, true));
    Ok(commands)
}

impl Framebuffer {
    /// An empty `width` x `height` field under `slot`, with the commands
    /// that create it: linear filtering, edge clamping, float storage where
    /// `support` allows it and 8-bit storage otherwise.
    pub fn new(
        slot: usize,
        width: i32,
        height: i32,
        support: &FloatSupport,
    ) -> (r: (Framebuffer, Vec<GpuCommand>))
        ensures
            r.0 == (Framebuffer { width, height, slot, storage: support.spec_storage() }),
            r.1@ == create_commands(r.0),
    {
        let storage = support.storage();
        let fb = Framebuffer { width, height, slot, storage };
        let mut commands: Vec<GpuCommand> = Vec::new();
        commands.push(GpuCommand::CreateFramebuffer { slot });
        commands.push(fb.bind());
        let mut texture = Framebuffer::create_float_texture(slot, width, height, storage);
        commands.append(&mut texture);
        commands.push(GpuCommand::AttachColorTexture { slot });
        commands.push(fb.unbind());
        assert(commands@ =~= create_commands(fb));
        (fb, commands)
    }

    /// The commands that release the field's texture and framebuffer object.
    /// The field must not be used afterwards.
    pub fn delete_buffers(&self) -> (commands: Vec<GpuCommand>)
        ensures
            commands@ == delete_commands(*self),
    {
        let mut commands: Vec<GpuCommand> = Vec::new();
        commands.push(GpuCommand::DeleteTexture { slot: self.slot });
        commands.push(GpuCommand::DeleteFramebuffer { slot: self.slot });
        assert(commands@ =~= delete_commands(*self));
        commands
    }

    /// A `width` x `height` field under `slot` that starts out as
    /// `texture_data`, with the commands that create it and the pixels they
    /// upload, which are `texture_data` unchanged.
    ///
    /// Fails, creating nothing, unless `texture_data` holds
    /// `width * height * 4` values.
    pub fn create_with_data(
        slot: usize,
        width: i32,
        height: i32,
        support: &FloatSupport,
        texture_data: Vec<Scalar>,
    ) -> (r: Result<Seeded, FluidError>)
        ensures
            texture_data.len() == texel_values(width as int, height as int) ==> {
                &&& r matches Ok(seeded)
                &&& seeded.framebuffer == (Framebuffer {
                    width,
                    height,
                    slot,
                    storage: support.spec_storage(),
                })
                &&& seeded.commands@ == create_seeded_commands(seeded.framebuffer)
                &&& seeded.pixels@ == texture_data@
            },
            texture_data.len() != texel_values(width as int, height as int) ==> r == Err::<
                Seeded,
                FluidError,
            >(FluidError::DataSizeMismatch { width, height, actual: texture_data.len() }),
    {
        let storage = support.storage();
        let framebuffer = Framebuffer { width, height, slot, storage };
        let mut texture = match create_texture(slot, width, height, storage, &texture_data) {
            Ok(texture) => texture,
            Err(e) => {
                return Err(e);
            },
        };
        let mut commands: Vec<GpuCommand> = Vec::new();
        commands.push(GpuCommand::CreateFramebuffer { slot });
        commands.append(&mut texture);
        commands.push(framebuffer.bind());
        commands.push(GpuCommand::AttachColorTexture { slot });
        commands.push(framebuffer.unbind());
        assert(commands@ =~= create_seeded_commands(framebuffer));
        Ok(Seeded { framebuffer, commands, pixels: texture_data })
    }

    /// Directs the draws that follow into this field.
    pub fn bind(&self) -> (command: GpuCommand)
        ensures
            command == (GpuCommand::BindFramebuffer { target: Some(self.slot) }),
    {
        GpuCommand::BindFramebuffer { target: Some(self.slot) }
    }

    /// Directs the draws that follow to the screen.
    pub fn unbind(&self) -> (command: GpuCommand)
        ensures
            command == (GpuCommand::BindFramebuffer { target: None }),
    {
        GpuCommand::BindFramebuffer { target: None }
    }

    /// The slot of the texture that holds the field's values.
    pub fn get_texture(&self) -> (texture: usize)
        ensures
            texture == self.slot,
    {
        self.slot
    }

    fn create_float_texture(
        slot: usize,
        width: i32,
        height: i32,
        storage: Storage,
    ) -> (commands: Vec<GpuCommand>)
        ensures
            commands@ == texture_commands(slot, width, height, storage, false),
    {
        let mut commands: Vec<GpuCommand> = Vec::new();
        commands.push(GpuCommand::CreateTexture { slot });
        commands.push(GpuCommand::BindTexture { texture: Some(slot) });
        commands.push(GpuCommand::TexImage { width, height, storage, seeded: false });
        push_sampling(&mut commands);
        commands.push(GpuCommand::BindTexture { texture: None });
        assert(commands@ =~= texture_commands(slot, width, height, storage, false));
        commands
    }
}

/// The two fields of one physical quantity: `src` holds the current state,
/// `dst` is where the next operator writes.
#[derive(Clone, Copy, PartialEq, Eq, Structural, Debug)]
pub struct FieldPair {
    pub src: Framebuffer,
    pub dst: Framebuffer,
}

impl FieldPair {
    /// The pair with the roles exchanged.
    pub open spec fn swapped(self) -> FieldPair {
        FieldPair { src: self.dst, dst: self.src }
    }

    /// The pair after `writes` operators, each of which wrote `dst` and then
    /// exchanged the roles.
    pub open spec fn after(self, writes: nat) -> FieldPair {
        if writes % 2 == 0 {
            self
        } else {
            self.swapped()
        }
    }

    /// The two fields are kept under different slots.
    pub open spec fn distinct(self) -> bool {
        self.src.slot != self.dst.slot
    }
}

/// Number of cells that a generator fills: none unless both sides are
/// positive.
pub open spec fn cell_count(width: int, height: int) -> int {
    if width <= 0 || height <= 0 {
        0
    } else {
        width * height
    }
}

/// Cell `x * height + y` of a generated field is the cell that the
/// generator visits in its pass `x`, at place `y`.
pub proof fn lemma_cell_index(height: int, x: int, y: int)
    requires
        0 <= y < height,
    ensures
        (x * height + y) / height == x,
        (x * height + y) % height == y,
{
    lemma_fundamental_div_mod_converse(x * height + y, height, x, y);
}

/// Value of the three colour channels of the checkerboard at `(x, y)`:
/// blocks of side `width / 10`, starting with a bright one.
pub open spec fn checker_value(width: int, x: int, y: int) -> Scalar {
    if (x / (width / 10) + y / (width / 10)) % 2 == 0 {
        Scalar::spec_one()
    } else {
        Scalar::spec_zero()
    }
}

/// Value `i` of the checkerboard: four per cell, the last of them opaque
/// alpha.
pub open spec fn checkerboard_texel(width: int, height: int, i: int) -> Scalar {
    if i % 4 == 3 {
        Scalar::spec_one()
    } else {
        checker_value(width, (i / 4) / height, (i / 4) % height)
    }
}

/// A black-and-white checkerboard with ten blocks across the width, four
/// values per cell. Nothing is generated unless both sides are positive.
pub fn make_checkerboard_array(width: i32, height: i32) -> (data: Vec<Scalar>)
    requires
        width <= 0 || height <= 0 || width >= 10,
    ensures
        data@ == Seq::new(
            (4 * cell_count(width as int, height as int)) as nat,
            |i: int| checkerboard_texel(width as int, height as int, i),
        ),
{
    let mut data: Vec<Scalar> = Vec::new();
    if width <= 0 || height <= 0 {
        assert(data@ =~= Seq::new(
            0,
            |i: int| checkerboard_texel(width as int, height as int, i),
        ));
        return data;
    }
    let block_size: i32 = width / 10;
    let mut x: i32 = 0;
    while x < width
        invariant
            0 <= x <= width,
            height > 0,
            width >= 10,
            block_size == width / 10,
            data@ == Seq::new(
                (4 * (x * height)) as nat,
                |i: int| checkerboard_texel(width as int, height as int, i),
            ),
        decreases width - x,
    {
        let mut y: i32 = 0;
        assert(x * height >= 0) by (nonlinear_arith)
            requires
                x >= 0,
                height > 0,
        ;
        while y < height
            invariant
                0 <= y <= height,
                0 <= x < width,
                x * height >= 0,
                width >= 10,
                block_size == width / 10,
                data@ == Seq::new(
                    (4 * (x * height + y)) as nat,
                    |i: int| checkerboard_texel(width as int, height as int, i),
                ),
            decreases height - y,
        {
            let x_step: i64 = (x / block_size) as i64;
            let y_step: i64 = (y / block_size) as i64;
            let val = if (x_step + y_step) % 2 == 0 {
                Scalar::one()
            } else {
                Scalar::zero()
            };
            proof {
                lemma_cell_index(height as int, x as int, y as int);
            }
            let ghost cell = x * height + y;
            assert(val == checker_value(width as int, x as int, y as int));
            data.push(val);
            data.push(val);
            data.push(val);
            data.push(Scalar::one());
            assert(data@ =~= Seq::new(
                (4 * (cell + 1)) as nat,
                |i: int| checkerboard_texel(width as int, height as int, i),
            ));
            y += 1;
        }
        assert(x * height + height == (x + 1) * height) by (nonlinear_arith);
        x += 1;
    }
    data
}

/// Value `i` of the constant field: every cell holds the vector `(1, 0)`,
/// a zero third channel and opaque alpha.
pub open spec fn constant_texel(i: int) -> Scalar {
    if i % 4 == 0 || i % 4 == 3 {
        Scalar::spec_one()
    } else {
        Scalar::spec_zero()
    }
}

/// A velocity field that points along the first axis everywhere, four
/// values per cell. Nothing is generated unless both sides are positive.
pub fn make_constant_vector_field(width: i32, height: i32) -> (data: Vec<Scalar>)
    ensures
        data@ == Seq::new(
            (4 * cell_count(width as int, height as int)) as nat,
            |i: int| constant_texel(i),
        ),
{
    let mut data: Vec<Scalar> = Vec::new();
    if width <= 0 || height <= 0 {
        assert(data@ =~= Seq::new(0, |i: int| constant_texel(i)));
        return data;
    }
    let mut r: i32 = 0;
    while r < height
        invariant
            0 <= r <= height,
            width > 0,
            data@ == Seq::new((4 * (r * width)) as nat, |i: int| constant_texel(i)),
        decreases height - r,
    {
        let mut c: i32 = 0;
        assert(r * width >= 0) by (nonlinear_arith)
            requires
                r >= 0,
                width > 0,
        ;
        while c < width
            invariant
                0 <= c <= width,
                r * width >= 0,
                data@ == Seq::new((4 * (r * width + c)) as nat, |i: int| constant_texel(i)),
            decreases width - c,
        {
            let ghost cell = r * width + c;
            data.push(Scalar::one());
            data.push(Scalar::zero());
            data.push(Scalar::zero());
            data.push(Scalar::one());
            assert(data@ =~= Seq::new((4 * (cell + 1)) as nat, |i: int| constant_texel(i)));
            c += 1;
        }
        assert(r * width + width == (r + 1) * width) by (nonlinear_arith);
        r += 1;
    }
    assert(height * width == width * height) by (nonlinear_arith);
    data
}

/// A colour whose channels count hundredths: `100` is full intensity.
#[derive(Clone, Copy, PartialEq, Eq, Structural, Debug)]
pub struct PaletteColor {
    pub red: u8,
    pub green: u8,
    pub blue: u8,
}

/// Steps of one ramp of the rainbow.
pub const RAMP_STEPS: usize = 99;

/// Number of colours of the rainbow: red, then six ramps.
pub const RAINBOW_LEN: usize = 595;

/// Colour `k` of the rainbow. It starts at red; then, one hundredth a step,
/// green rises, red falls, blue rises, green falls, red rises and blue
/// falls, each for 99 steps.
pub open spec fn rainbow_color(k: int) -> PaletteColor {
    if k <= 0 {
        PaletteColor { red: 100, green: 0, blue: 0 }
    } else {
        let ramp = (k - 1) / 99;
        let step = (k - 1) % 99 + 1;
        if ramp == 0 {
            PaletteColor { red: 100, green: step as u8, blue: 0 }
        } else if ramp == 1 {
            PaletteColor { red: (100 - step) as u8, green: 99, blue: 0 }
        } else if ramp == 2 {
            PaletteColor { red: 1, green: 99, blue: step as u8 }
        } else if ramp == 3 {
            PaletteColor { red: 1, green: (99 - step) as u8, blue: 99 }
        } else if ramp == 4 {
            PaletteColor { red: (1 + step) as u8, green: 0, blue: 99 }
        } else {
            PaletteColor { red: 100, green: 0, blue: (99 - step) as u8 }
        }
    }
}

/// The colours of the rainbow, in order.
pub fn get_rainbow_array() -> (colors: Vec<PaletteColor>)
    ensures
        colors@ == Seq::new(RAINBOW_LEN as nat, |k: int| rainbow_color(k)),
{
    let mut colors: Vec<PaletteColor> = Vec::new();
    let mut c = PaletteColor { red: 100, green: 0, blue: 0 };
    colors.push(c);
    let mut k: usize = 1;
    assert(colors@ =~= Seq::new(1, |k: int| rainbow_color(k)));
    while k < RAINBOW_LEN
        invariant
            1 <= k <= RAINBOW_LEN,
            c == rainbow_color(k - 1),
            colors@ == Seq::new(k as nat, |k: int| rainbow_color(k)),
        decreases RAINBOW_LEN - k,
    {
        let ramp = (k - 1) / RAMP_STEPS;
        if ramp == 0 {
            c.green = c.green + 1;
        } else if ramp == 1 {
            c.red = c.red - 1;
        } else if ramp == 2 {
            c.blue = c.blue + 1;
        } else if ramp == 3 {
            c.green = c.green - 1;
        } else if ramp == 4 {
            c.red = c.red + 1;
        } else {
            c.blue = c.blue - 1;
        }
        assert(c == rainbow_color(k as int));
        colors.push(c);
        assert(colors@ =~= Seq::new((k + 1) as nat, |k: int| rainbow_color(k)));
        k += 1;
    }
    colors
}

/// Index into the rainbow of cell `i` of the rainbow field: the rainbow runs
/// along the diagonals and starts over at its end.
pub open spec fn rainbow_cell(height: int, i: int) -> int {
    ((i % height) - (i / height)) % (RAINBOW_LEN as int)
}

/// A field of diagonal rainbow stripes: for every cell, the index of its
/// colour in the rainbow. Nothing is generated unless both sides are
/// positive.
pub fn make_rainbow_array(width: i32, height: i32) -> (data: Vec<usize>)
    ensures
        data@ == Seq::new(
            cell_count(width as int, height as int) as nat,
            |i: int| rainbow_cell(height as int, i) as usize,
        ),
        forall|i: int| 0 <= i < data@.len() ==> data@[i] < RAINBOW_LEN,
{
    let mut data: Vec<usize> = Vec::new();
    if width <= 0 || height <= 0 {
        assert(data@ =~= Seq::new(0, |i: int| rainbow_cell(height as int, i) as usize));
        return data;
    }
    let size: i32 = 595;
    let mut r: i32 = 0;
    while r < width
        invariant
            0 <= r <= width,
            height > 0,
            size == RAINBOW_LEN,
            data@ == Seq::new(
                (r * height) as nat,
                |i: int| rainbow_cell(height as int, i) as usize,
            ),
            forall|i: int| 0 <= i < data@.len() ==> data@[i] < RAINBOW_LEN,
        decreases width - r,
    {
        let mut c: i32 = 0;
        assert(r * height >= 0) by (nonlinear_arith)
            requires
                r >= 0,
                height > 0,
        ;
        while c < height
            invariant
                0 <= c <= height,
                0 <= r < width,
                r * height >= 0,
                size == RAINBOW_LEN,
                data@ == Seq::new(
                    (r * height + c) as nat,
                    |i: int| rainbow_cell(height as int, i) as usize,
                ),
                forall|i: int| 0 <= i < data@.len() ==> data@[i] < RAINBOW_LEN,
            decreases height - c,
        {
            let mut sub: i32 = c - r;
            while sub < size
                invariant
                    size == 595,
                    c - r <= sub,
                    sub as int % 595 == (c - r) % 595,
                decreases 2 * size - sub,
            {
                proof {
                    lemma_mod_add_multiples_vanish(sub as int, 595);
                }
                sub += size;
            }
            let index = (sub % size) as usize;
            proof {
                lemma_cell_index(height as int, r as int, c as int);
            }
            let ghost cell = r * height + c;
            assert(index == rainbow_cell(height as int, cell));
            data.push(index);
            assert(data@ =~= Seq::new(
                (cell + 1) as nat,
                |i: int| rainbow_cell(height as int, i) as usize,
            ));
            c += 1;
        }
        assert(r * height + height == (r + 1) * height) by (nonlinear_arith);
        r += 1;
    }
    data
}

} // verus!
