use vstd::prelude::*;
use crate::command::{
    GpuCommand, SamplerBinding, Uniform, UniformBinding, UniformValue, QUAD_INDEX_COUNT,
    QUAD_VERTEX_SIZE,
};
use crate::error::FluidError;
use crate::scalar::Scalar;

verus! {

/// The commands that wipe the bound target: opaque black, far depth, depth
/// test on with less-or-equal, then the clear itself.
pub open spec fn clear_commands() -> Seq<GpuCommand> {
    seq![
        GpuCommand::ClearColor {
            red: Scalar::spec_zero(),
            green: Scalar::spec_zero(),
            blue: Scalar::spec_zero(),
            alpha: Scalar::spec_one(),
        },
        GpuCommand::ClearDepth { depth: Scalar::spec_one() },
        GpuCommand::EnableDepthTest,
        GpuCommand::DepthFuncLequal,
        GpuCommand::Clear,
    ]
}

/// Wipes the bound target and leaves depth testing enabled with
/// less-or-equal comparison.
pub fn clear_framebuffer() -> (commands: Vec<GpuCommand>)
    ensures
        commands@ == clear_commands(),
{
    let mut commands: Vec<GpuCommand> = Vec::new();
    commands.push(
        GpuCommand::ClearColor {
            red: Scalar::zero(),
            green: Scalar::zero(),
            blue: Scalar::zero(),
            alpha: Scalar::one(),
        },
    );
    commands.push(GpuCommand::ClearDepth { depth: Scalar::one() });
    commands.push(GpuCommand::EnableDepthTest);
    commands.push(GpuCommand::DepthFuncLequal);
    commands.push(GpuCommand::Clear);
    assert(commands@ =~= clear_commands());
    commands
}

/// One full-screen draw: which program runs, where it writes, what its
/// uniforms are set to and which textures its samplers read. Sampler `i`
/// reads texture unit `i`.
pub struct Draw {
    pub program: usize,
    pub vertex_buffer: usize,
    pub index_buffer: usize,
    /// The slot of the framebuffer written to; `None` is the screen.
    pub target: Option<usize>,
    pub uniforms: Seq<UniformBinding>,
    pub samplers: Seq<SamplerBinding>,
}

/// The command that sets one non-sampler uniform.
pub open spec fn uniform_command(binding: UniformBinding) -> GpuCommand {
    match binding.value {
        UniformValue::Float(x) => GpuCommand::Uniform1f { name: binding.name, x },
        UniformValue::Float2(x, y) => GpuCommand::Uniform2f { name: binding.name, x, y },
        UniformValue::Float3(x, y, z) => GpuCommand::Uniform3f { name: binding.name, x, y, z },
    }
}

/// Bind the target, wipe it, activate the program.
pub open spec fn draw_prologue(d: Draw) -> Seq<GpuCommand> {
    seq![GpuCommand::BindFramebuffer { target: d.target }] + clear_commands()
        + seq![GpuCommand::UseProgram { program: d.program }]
}

/// One command per non-sampler uniform, in order.
pub open spec fn uniform_commands(uniforms: Seq<UniformBinding>) -> Seq<GpuCommand> {
    Seq::new(uniforms.len(), |i: int| uniform_command(uniforms[i]))
}

/// Sampler `i` is pointed at texture unit `i`.
pub open spec fn sampler_commands(samplers: Seq<SamplerBinding>) -> Seq<GpuCommand> {
    Seq::new(
        samplers.len(),
        |i: int| GpuCommand::Uniform1i { name: samplers[i].name, unit: i as usize },
    )
}

/// For each sampler in order: select its unit, bind its texture there.
pub open spec fn texture_commands(samplers: Seq<SamplerBinding>) -> Seq<GpuCommand> {
    Seq::new(
        2 * samplers.len(),
        |j: int|
            if j % 2 == 0 {
                GpuCommand::ActiveTexture { unit: (j / 2) as usize }
            } else {
                GpuCommand::BindTexture { texture: Some(samplers[j / 2].texture) }
            },
    )
}

/// Bind the quad, issue the one indexed draw, release the target.
pub open spec fn draw_epilogue(d: Draw) -> Seq<GpuCommand> {
    seq![
        GpuCommand::BindArrayBuffer { buffer: d.vertex_buffer },
        GpuCommand::VertexAttribPointer { index: 0, size: QUAD_VERTEX_SIZE },
        GpuCommand::EnableVertexAttribArray { index: 0 },
        GpuCommand::BindElementArrayBuffer { buffer: d.index_buffer },
        GpuCommand::DrawElements { count: QUAD_INDEX_COUNT },
        GpuCommand::BindFramebuffer { target: None },
    ]
}

/// The commands of one draw, in the order in which the context receives
/// them.
pub open spec fn draw_commands(d: Draw) -> Seq<GpuCommand> {
    draw_prologue(d) + uniform_commands(d.uniforms) + sampler_commands(d.samplers)
        + texture_commands(d.samplers) + draw_epilogue(d)
}

/// The commands of a sequence of draws, one draw after the other.
pub open spec fn schedule_commands(draws: Seq<Draw>) -> Seq<GpuCommand>
    decreases draws.len(),
{
    if draws.len() == 0 {
        Seq::empty()
    } else {
        schedule_commands(draws.drop_last()) + draw_commands(draws.last())
    }
}

/// Every uniform that the draw sets, samplers last.
pub open spec fn draw_names(d: Draw) -> Seq<Uniform> {
    Seq::new(d.uniforms.len(), |i: int| d.uniforms[i].name) + Seq::new(
        d.samplers.len(),
        |i: int| d.samplers[i].name,
    )
}

/// The first of `names` that `declared` lacks, if there is one.
pub open spec fn first_undeclared(declared: Seq<Uniform>, names: Seq<Uniform>) -> Option<Uniform>
    decreases names.len(),
{
    if names.len() == 0 {
        None
    } else if !declared.contains(names.first()) {
        Some(names.first())
    } else {
        first_undeclared(declared, names.drop_first())
    }
}

/// The error that setting `names` on a pass that declares `declared` ends
/// in, if any of them is unknown to the pass.
pub open spec fn rejection(declared: Seq<Uniform>, names: Seq<Uniform>) -> Option<FluidError> {
    match first_undeclared(declared, names) {
        Some(name) => Some(FluidError::UnknownUniform(name)),
        None => None,
    }
}

/// Where every name before position `i` is declared and the one at `i` is
/// not, that one is the first undeclared.
pub proof fn lemma_first_undeclared_at(declared: Seq<Uniform>, names: Seq<Uniform>, i: int)
    requires
        0 <= i < names.len(),
        !declared.contains(names[i]),
        forall|j: int| 0 <= j < i ==> declared.contains(#[trigger] names[j]),
    ensures
        first_undeclared(declared, names) == Some(names[i]),
    decreases i,
{
    if i > 0 {
        let rest = names.drop_first();
        assert(declared.contains(names[0]));
        assert forall|j: int| 0 <= j < i - 1 implies declared.contains(#[trigger] rest[j]) by {
            assert(rest[j] == names[j + 1]);
        }
        lemma_first_undeclared_at(declared, rest, i - 1);
    }
}

/// There is no first undeclared name exactly when every name is declared.
pub proof fn lemma_first_undeclared_none(declared: Seq<Uniform>, names: Seq<Uniform>)
    ensures
        first_undeclared(declared, names) is None <==> forall|j: int|
            0 <= j < names.len() ==> declared.contains(#[trigger] names[j]),
    decreases names.len(),
{
    if names.len() > 0 {
        let rest = names.drop_first();
        lemma_first_undeclared_none(declared, rest);
        if declared.contains(names.first()) {
            if first_undeclared(declared, rest) is None {
                assert forall|j: int| 0 <= j < names.len() implies declared.contains(
                    #[trigger] names[j],
                ) by {
                    if j > 0 {
                        assert(rest[j - 1] == names[j]);
                    }
                }
            } else {
                let k = choose|k: int| 0 <= k < rest.len() && !declared.contains(rest[k]);
                assert(names[k + 1] == rest[k]);
            }
        } else {
            assert(names[0] == names.first());
        }
    }
}

/// The draw does not sample the field it writes.
pub open spec fn hazard_free(d: Draw) -> bool {
    d.target matches Some(t) ==> forall|i: int|
        0 <= i < d.samplers.len() ==> (#[trigger] d.samplers[i]).texture != t
}

/// No draw samples the field it writes.
pub open spec fn all_hazard_free(draws: Seq<Draw>) -> bool {
    forall|i: int| 0 <= i < draws.len() ==> hazard_free(#[trigger] draws[i])
}

/// `names` without the later occurrences of a name.
pub open spec fn first_occurrences(names: Seq<Uniform>) -> Seq<Uniform>
    decreases names.len(),
{
    if names.len() == 0 {
        Seq::empty()
    } else {
        let rest = first_occurrences(names.drop_last());
        if rest.contains(names.last()) {
            rest
        } else {
            rest.push(names.last())
        }
    }
}

/// `first_occurrences` keeps every name once.
pub proof fn lemma_first_occurrences(names: Seq<Uniform>)
    ensures
        first_occurrences(names).no_duplicates(),
        forall|u: Uniform| first_occurrences(names).contains(u) <==> names.contains(u),
    decreases names.len(),
{
    if names.len() > 0 {
        let init = names.drop_last();
        let last = names.last();
        lemma_first_occurrences(init);
        let rest = first_occurrences(init);
        let kept = first_occurrences(names);
        assert forall|u: Uniform| kept.contains(u) <==> names.contains(u) by {
            assert(rest.contains(u) <==> init.contains(u));
            if names.contains(u) {
                let i = choose|i: int| 0 <= i < names.len() && names[i] == u;
                if i < init.len() {
                    assert(init[i] == u);
                    assert(init.contains(u));
                    let k = choose|k: int| 0 <= k < rest.len() && rest[k] == u;
                    assert(kept[k] == u);
                } else {
                    assert(u == last);
                    if rest.contains(last) {
                    } else {
                        assert(kept[rest.len() as int] == last);
                    }
                }
                assert(kept.contains(u));
            }
            if kept.contains(u) {
                let k = choose|k: int| 0 <= k < kept.len() && kept[k] == u;
                if k < rest.len() {
                    assert(rest[k] == u);
                    assert(rest.contains(u));
                    let i = choose|i: int| 0 <= i < init.len() && init[i] == u;
                    assert(names[i] == u);
                } else {
                    assert(u == last);
                    assert(names[names.len() - 1] == u);
                }
                assert(names.contains(u));
            }
        }
    }
}

/// What issuing the draw `d`, which sets `names`, on `pass` gives: the
/// commands of `d` when `pass` declares every name, and otherwise the error
/// for the first name that it lacks.
pub open spec fn issues(
    pass: &RenderPass,
    names: Seq<Uniform>,
    d: Draw,
    r: Result<Vec<GpuCommand>, FluidError>,
) -> bool {
    match r {
        Ok(commands) => {
            &&& rejection(pass.declared(), names) is None
            &&& commands@ == draw_commands(d)
        },
        Err(e) => rejection(pass.declared(), names) == Some(e),
    }
}

/// The names of `uniforms`, in order.
pub open spec fn names_of(uniforms: Seq<(Uniform, bool)>) -> Seq<Uniform> {
    Seq::new(uniforms.len(), |i: int| uniforms[i].0)
}

/// The program holds a location for every one of `uniforms`.
pub open spec fn all_located(uniforms: Seq<(Uniform, bool)>) -> bool {
    forall|i: int| 0 <= i < uniforms.len() ==> (#[trigger] uniforms[i]).1
}

/// `uniforms[i]` is the first name for which the program holds no location.
pub open spec fn first_unlocated_at(uniforms: Seq<(Uniform, bool)>, i: int) -> bool {
    &&& 0 <= i < uniforms.len()
    &&& !uniforms[i].1
    &&& forall|j: int| 0 <= j < i ==> (#[trigger] uniforms[j]).1
}

fn contains_uniform(uniforms: &Vec<Uniform>, name: Uniform) -> (found: bool)
    ensures
        found == uniforms@.contains(name),
{
    let mut i: usize = 0;
    while i < uniforms.len()
        invariant
            i <= uniforms.len(),
            forall|j: int| 0 <= j < i ==> uniforms@[j] != name,
        decreases uniforms.len() - i,
    {
        if uniforms[i] == name {
            return true;
        }
        i += 1;
    }
    false
}

/// A linked shader program with the uniforms it was declared with and the
/// geometry of the full-screen quad. It is never changed once built, it
/// declares each of its uniforms once, and its program holds a location for
/// every one of them.
#[derive(Debug)]
pub struct RenderPass {
    shader_program: usize,
    uniforms: Vec<Uniform>,
    vertex_buffer: usize,
    index_buffer: usize,
    attrib_location: i32,
}

impl RenderPass {
    #[verifier::type_invariant]
    spec fn each_once(self) -> bool {
        self.uniforms@.no_duplicates()
    }

    /// The handle of the linked program.
    pub closed spec fn program(&self) -> usize {
        self.shader_program
    }

    /// The declared uniforms.
    pub closed spec fn declared(&self) -> Seq<Uniform> {
        self.uniforms@
    }

    /// The handle of the quad's vertex buffer.
    pub closed spec fn vertices(&self) -> usize {
        self.vertex_buffer
    }

    /// The handle of the quad's index buffer.
    pub closed spec fn indices(&self) -> usize {
        self.index_buffer
    }

    /// The location of the vertex attribute in the program.
    pub closed spec fn attribute(&self) -> i32 {
        self.attrib_location
    }

    /// The pass declares `name`.
    pub open spec fn declares(&self, name: Uniform) -> bool {
        self.declared().contains(name)
    }

    /// The draw that this pass makes into `target` with the given bindings.
    pub open spec fn draw_of(
        &self,
        target: Option<usize>,
        uniforms: Seq<UniformBinding>,
        samplers: Seq<SamplerBinding>,
    ) -> Draw {
        Draw {
            program: self.program(),
            vertex_buffer: self.vertices(),
            index_buffer: self.indices(),
            target,
            uniforms,
            samplers,
        }
    }

    /// Builds the pass from the handle of its linked program, the uniforms
    /// its fragment shader is meant to declare, each with the answer of the
    /// program to the question whether it holds a location for that name,
    /// the handles of the quad's vertex and index buffers and the location
    /// of the vertex attribute. A name given more than once is declared
    /// once.
    ///
    /// Fails on the first name for which the program holds no location, so
    /// that no later write to it can pass unnoticed.
    pub fn new(
        shader_program: usize,
        uniforms: Vec<(Uniform, bool)>,
        vertex_buffer: usize,
        index_buffer: usize,
        attrib_location: i32,
    ) -> (r: Result<RenderPass, FluidError>)
        ensures
            r is Ok <==> all_located(uniforms@),
            r matches Err(e) ==> exists|i: int|
                #[trigger] first_unlocated_at(uniforms@, i) && e == FluidError::UnknownUniform(
                    uniforms@[i].0,
                ),
            r matches Ok(pass) ==> {
                &&& pass.program() == shader_program
                &&& pass.declared() == first_occurrences(names_of(uniforms@))
                &&& pass.vertices() == vertex_buffer
                &&& pass.indices() == index_buffer
                &&& pass.attribute() == attrib_location
                &&& pass.declared().no_duplicates()
                &&& forall|u: Uniform| pass.declares(u) <==> names_of(uniforms@).contains(u)
                &&& rejection(pass.declared(), names_of(uniforms@)) is None
            },
    {
        let ghost names = names_of(uniforms@);
        let mut declared: Vec<Uniform> = Vec::new();
        let mut i: usize = 0;
        while i < uniforms.len()
            invariant
                i <= uniforms.len(),
                names == names_of(uniforms@),
                forall|j: int| 0 <= j < i ==> (#[trigger] uniforms@[j]).1,
                declared@ == first_occurrences(names.take(i as int)),
            decreases uniforms.len() - i,
        {
            let (name, located) = uniforms[i];
            if !located {
                assert(first_unlocated_at(uniforms@, i as int));
                return Err(FluidError::UnknownUniform(name));
            }
            proof {
                let next = names.take(i + 1);
                assert(next.drop_last() =~= names.take(i as int));
                assert(next.last() == name);
            }
            if !contains_uniform(&declared, name) {
                declared.push(name);
            }
            i += 1;
        }
        proof {
            assert(names.take(i as int) =~= names);
            lemma_first_occurrences(names);
            lemma_first_undeclared_none(declared@, names);
            assert forall|j: int| 0 <= j < names.len() implies declared@.contains(
                #[trigger] names[j],
            ) by {
                assert(names.contains(names[j]));
            }
        }
        Ok(
            RenderPass {
                shader_program,
                uniforms: declared,
                vertex_buffer,
                index_buffer,
                attrib_location,
            },
        )
    }

    /// The handle of the linked program.
    pub fn shader_program(&self) -> (program: usize)
        ensures
            program == self.program(),
    {
        self.shader_program
    }

    /// The declared uniforms, each once.
    pub fn uniforms(&self) -> (uniforms: &Vec<Uniform>)
        ensures
            uniforms@ == self.declared(),
            uniforms@.no_duplicates(),
    {
        proof {
            use_type_invariant(self);
        }
        &self.uniforms
    }

    /// The handle of the quad's vertex buffer.
    pub fn vertex_buffer(&self) -> (buffer: usize)
        ensures
            buffer == self.vertices(),
    {
        self.vertex_buffer
    }

    /// The handle of the quad's index buffer.
    pub fn index_buffer(&self) -> (buffer: usize)
        ensures
            buffer == self.indices(),
    {
        self.index_buffer
    }

    /// The location of the vertex attribute in the program.
    pub fn attrib_location(&self) -> (location: i32)
        ensures
            location == self.attribute(),
    {
        self.attrib_location
    }

    /// Whether the pass declares `name`.
    pub fn has_uniform(&self, name: Uniform) -> (found: bool)
        ensures
            found == self.declares(name),
    {
        contains_uniform(&self.uniforms, name)
    }

    /// Makes this pass's program current.
    pub fn use_program(&self) -> (command: GpuCommand)
        ensures
            command == (GpuCommand::UseProgram { program: self.program() }),
    {
        GpuCommand::UseProgram { program: self.shader_program }
    }

    /// The command that sets the uniform `name` to `value`, unless the pass
    /// never declared `name`.
    pub fn set_uniform(
        &self,
        name: Uniform,
        value: UniformValue,
    ) -> (r: Result<GpuCommand, FluidError>)
        ensures
            self.declares(name) ==> r == Ok::<GpuCommand, FluidError>(
                uniform_command(UniformBinding { name, value }),
            ),
            !self.declares(name) ==> r == Err::<GpuCommand, FluidError>(
                FluidError::UnknownUniform(name),
            ),
    {
        if !self.has_uniform(name) {
            return Err(FluidError::UnknownUniform(name));
        }
        let command = match value {
            UniformValue::Float(x) => GpuCommand::Uniform1f { name, x },
            UniformValue::Float2(x, y) => GpuCommand::Uniform2f { name, x, y },
            UniformValue::Float3(x, y, z) => GpuCommand::Uniform3f { name, x, y, z },
        };
        Ok(command)
    }

    /// The command that points the sampler `name` at texture unit `unit`,
    /// unless the pass never declared `name`.
    pub fn set_sampler(&self, name: Uniform, unit: usize) -> (r: Result<GpuCommand, FluidError>)
        ensures
            self.declares(name) ==> r == Ok::<GpuCommand, FluidError>(
                GpuCommand::Uniform1i { name, unit },
            ),
            !self.declares(name) ==> r == Err::<GpuCommand, FluidError>(
                FluidError::UnknownUniform(name),
            ),
    {
        if !self.has_uniform(name) {
            return Err(FluidError::UnknownUniform(name));
        }
        Ok(GpuCommand::Uniform1i { name, unit })
    }

    /// Whether the pass declares every one of `names`; if not, the error
    /// names the first that it lacks.
    pub fn check_uniforms(&self, names: &Vec<Uniform>) -> (r: Result<(), FluidError>)
        ensures
            r is Ok <==> rejection(self.declared(), names@) is None,
            r matches Err(e) ==> rejection(self.declared(), names@) == Some(e),
    {
        let mut i: usize = 0;
        while i < names.len()
            invariant
                i <= names.len(),
                forall|j: int| 0 <= j < i ==> self.uniforms@.contains(#[trigger] names@[j]),
            decreases names.len() - i,
        {
            if !self.has_uniform(names[i]) {
                proof {
                    lemma_first_undeclared_at(self.uniforms@, names@, i as int);
                }
                return Err(FluidError::UnknownUniform(names[i]));
            }
            i += 1;
        }
        proof {
            lemma_first_undeclared_none(self.uniforms@, names@);
        }
        Ok(())
    }

    /// The commands of one full-screen draw of this pass into `target`:
    /// bind and wipe the target, activate the program, set the uniforms,
    /// point sampler `i` at unit `i` and bind its texture there, draw the
    /// quad, release the target.
    ///
    /// Fails on the first name, uniforms before samplers, that the pass did
    /// not declare.
    pub fn draw(
        &self,
        target: Option<usize>,
        uniforms: &Vec<UniformBinding>,
        samplers: &Vec<SamplerBinding>,
    ) -> (r: Result<Vec<GpuCommand>, FluidError>)
        ensures
            issues(
                self,
                draw_names(self.draw_of(target, uniforms@, samplers@)),
                self.draw_of(target, uniforms@, samplers@),
                r,
            ),
    {
        let ghost d = self.draw_of(target, uniforms@, samplers@);
        let ghost names = draw_names(d);
        let mut commands: Vec<GpuCommand> = Vec::new();
        commands.push(GpuCommand::BindFramebuffer { target });
        let mut wipe = clear_framebuffer();
        commands.append(&mut wipe);
        commands.push(self.use_program());
        assert(commands@ =~= draw_prologue(d));

        let mut i: usize = 0;
        while i < uniforms.len()
            invariant
                i <= uniforms.len(),
                d == self.draw_of(target, uniforms@, samplers@),
                names == draw_names(d),
                forall|j: int| 0 <= j < i ==> self.uniforms@.contains(#[trigger] names[j]),
                commands@ == draw_prologue(d) + uniform_commands(uniforms@.take(i as int)),
            decreases uniforms.len() - i,
        {
            let binding = uniforms[i];
            assert(names[i as int] == binding.name);
            match self.set_uniform(binding.name, binding.value) {
                Ok(command) => {
                    commands.push(command);
                },
                Err(e) => {
                    proof {
                        lemma_first_undeclared_at(self.uniforms@, names, i as int);
                    }
                    return Err(e);
                },
            }
            assert(commands@ =~= draw_prologue(d) + uniform_commands(
                uniforms@.take(i as int + 1),
            ));
            i += 1;
        }
        assert(uniforms@.take(i as int) =~= uniforms@);

        let ghost base = commands@;
        let mut k: usize = 0;
        while k < samplers.len()
            invariant
                k <= samplers.len(),
                d == self.draw_of(target, uniforms@, samplers@),
                names == draw_names(d),
                forall|j: int|
                    0 <= j < uniforms.len() + k ==> self.uniforms@.contains(#[trigger] names[j]),
                commands@ == base + sampler_commands(samplers@.take(k as int)),
            decreases samplers.len() - k,
        {
            let binding = samplers[k];
            assert(names[uniforms.len() + k] == binding.name);
            match self.set_sampler(binding.name, k) {
                Ok(command) => {
                    commands.push(command);
                },
                Err(e) => {
                    proof {
                        lemma_first_undeclared_at(self.uniforms@, names, uniforms.len() + k);
                    }
                    return Err(e);
                },
            }
            assert(commands@ =~= base + sampler_commands(samplers@.take(k as int + 1)));
            k += 1;
        }
        assert(samplers@.take(k as int) =~= samplers@);
        proof {
            lemma_first_undeclared_none(self.uniforms@, names);
        }

        let ghost bound = commands@;
        let mut unit: usize = 0;
        while unit < samplers.len()
            invariant
                unit <= samplers.len(),
                commands@ == bound + texture_commands(samplers@.take(unit as int)),
            decreases samplers.len() - unit,
        {
            commands.push(GpuCommand::ActiveTexture { unit });
            commands.push(GpuCommand::BindTexture { texture: Some(samplers[unit].texture) });
            assert(commands@ =~= bound + texture_commands(samplers@.take(unit as int + 1)));
            unit += 1;
        }
        assert(samplers@.take(unit as int) =~= samplers@);

        let ghost textured = commands@;
        commands.push(GpuCommand::BindArrayBuffer { buffer: self.vertex_buffer });
        commands.push(GpuCommand::VertexAttribPointer { index: 0, size: QUAD_VERTEX_SIZE });
        commands.push(GpuCommand::EnableVertexAttribArray { index: 0 });
        commands.push(GpuCommand::BindElementArrayBuffer { buffer: self.index_buffer });
        commands.push(GpuCommand::DrawElements { count: QUAD_INDEX_COUNT });
        commands.push(GpuCommand::BindFramebuffer { target: None });
        assert(commands@ =~= textured + draw_epilogue(d));
        Ok(commands)
    }
}

/// Issuing one schedule after another issues the commands of the first,
/// followed by those of the second.
pub proof fn lemma_schedule_concat(first: Seq<Draw>, second: Seq<Draw>)
    ensures
        schedule_commands(first + second) == schedule_commands(first) + schedule_commands(second),
    decreases second.len(),
{
    if second.len() == 0 {
        assert(first + second =~= first);
        assert(schedule_commands(first) + schedule_commands(second) =~= schedule_commands(first));
    } else {
        let all = first + second;
        assert(all.drop_last() =~= first + second.drop_last());
        assert(all.last() == second.last());
        lemma_schedule_concat(first, second.drop_last());
        assert(schedule_commands(all) =~= schedule_commands(first) + schedule_commands(second));
    }
}

/// A schedule of one draw issues the commands of that draw.
pub proof fn lemma_schedule_single(d: Draw)
    ensures
        schedule_commands(seq![d]) == draw_commands(d),
{
    let one = seq![d];
    assert(one.drop_last() =~= Seq::<Draw>::empty());
    assert(schedule_commands(one.drop_last()) =~= Seq::<GpuCommand>::empty());
    assert(schedule_commands(one) =~= draw_commands(d));
}

} // verus!
