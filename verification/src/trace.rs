use vstd::prelude::*;
use crate::command::{GpuCommand, SamplerBinding, Uniform, UniformBinding, UniformValue};
use crate::render::{
    draw_commands, draw_epilogue, draw_prologue, sampler_commands, schedule_commands,
    texture_commands, uniform_commands, Draw,
};

verus! {

/// A sampler and the texture unit that it was pointed at.
pub struct Pointed {
    pub name: Uniform,
    pub unit: usize,
}

/// What the graphics context remembers of the commands it has received, as
/// far as a draw depends on it, together with the draws it has made.
///
/// Uniforms and samplers are followed from the moment their program becomes
/// current; what a program keeps from an earlier use is not followed, since
/// every draw of this library sets all that it reads.
pub struct Tracker {
    /// The framebuffer that draws go to; `None` is the screen.
    pub target: Option<usize>,
    /// The current program.
    pub program: usize,
    /// The bound vertex buffer.
    pub vertex_buffer: usize,
    /// The bound index buffer.
    pub index_buffer: usize,
    /// The uniforms set since the program became current.
    pub uniforms: Seq<UniformBinding>,
    /// The samplers pointed at units since the program became current.
    pub samplers: Seq<Pointed>,
    /// The active texture unit.
    pub unit: usize,
    /// The texture bound at each unit.
    pub bound: Map<usize, usize>,
    /// The draws made so far.
    pub seen: Seq<Draw>,
}

impl Tracker {
    /// A context that has received nothing yet.
    pub open spec fn fresh() -> Tracker {
        Tracker {
            target: None,
            program: 0,
            vertex_buffer: 0,
            index_buffer: 0,
            uniforms: Seq::empty(),
            samplers: Seq::empty(),
            unit: 0,
            bound: Map::empty(),
            seen: Seq::empty(),
        }
    }

    /// The draw that an indexed draw call makes now: every sampler reads the
    /// texture that is bound at its unit.
    pub open spec fn drawn(self) -> Draw {
        Draw {
            program: self.program,
            vertex_buffer: self.vertex_buffer,
            index_buffer: self.index_buffer,
            target: self.target,
            uniforms: self.uniforms,
            samplers: Seq::new(
                self.samplers.len(),
                |i: int|
                    SamplerBinding {
                        name: self.samplers[i].name,
                        texture: self.bound[self.samplers[i].unit],
                    },
            ),
        }
    }

    /// The context after one more command.
    pub open spec fn after(self, command: GpuCommand) -> Tracker {
        match command {
            GpuCommand::BindFramebuffer { target } => Tracker { target, ..self },
            GpuCommand::UseProgram { program } => Tracker {
                program,
                uniforms: Seq::empty(),
                samplers: Seq::empty(),
                ..self
            },
            GpuCommand::Uniform1f { name, x } => Tracker {
                uniforms: self.uniforms.push(
                    UniformBinding { name, value: UniformValue::Float(x) },
                ),
                ..self
            },
            GpuCommand::Uniform2f { name, x, y } => Tracker {
                uniforms: self.uniforms.push(
                    UniformBinding { name, value: UniformValue::Float2(x, y) },
                ),
                ..self
            },
            GpuCommand::Uniform3f { name, x, y, z } => Tracker {
                uniforms: self.uniforms.push(
                    UniformBinding { name, value: UniformValue::Float3(x, y, z) },
                ),
                ..self
            },
            GpuCommand::Uniform1i { name, unit } => Tracker {
                samplers: self.samplers.push(Pointed { name, unit }),
                ..self
            },
            GpuCommand::ActiveTexture { unit } => Tracker { unit, ..self },
            GpuCommand::BindTexture { texture: Some(slot) } => Tracker {
                bound: self.bound.insert(self.unit, slot),
                ..self
            },
            GpuCommand::BindTexture { texture: None } => Tracker {
                bound: self.bound.remove(self.unit),
                ..self
            },
            GpuCommand::BindArrayBuffer { buffer } => Tracker { vertex_buffer: buffer, ..self },
            GpuCommand::BindElementArrayBuffer { buffer } => Tracker {
                index_buffer: buffer,
                ..self
            },
            GpuCommand::DrawElements { count } => Tracker {
                seen: self.seen.push(self.drawn()),
                ..self
            },
            _ => self,
        }
    }

    /// The context after a whole stream of commands.
    pub open spec fn after_all(self, commands: Seq<GpuCommand>) -> Tracker
        decreases commands.len(),
    {
        if commands.len() == 0 {
            self
        } else {
            self.after_all(commands.drop_last()).after(commands.last())
        }
    }
}

/// The draws that a context makes of a stream of commands.
pub open spec fn observed(commands: Seq<GpuCommand>) -> Seq<Draw> {
    Tracker::fresh().after_all(commands).seen
}

/// The samplers of the draw can each have a texture unit of their own.
pub open spec fn fits(d: Draw) -> bool {
    d.samplers.len() <= usize::MAX
}

proof fn lemma_after_concat(t: Tracker, first: Seq<GpuCommand>, second: Seq<GpuCommand>)
    ensures
        t.after_all(first + second) == t.after_all(first).after_all(second),
    decreases second.len(),
{
    if second.len() == 0 {
        assert(first + second =~= first);
    } else {
        let all = first + second;
        assert(all.drop_last() =~= first + second.drop_last());
        assert(all.last() == second.last());
        lemma_after_concat(t, first, second.drop_last());
    }
}

proof fn lemma_after_prologue(t: Tracker, d: Draw)
    ensures
        t.after_all(draw_prologue(d)) == (Tracker {
            target: d.target,
            program: d.program,
            uniforms: Seq::empty(),
            samplers: Seq::empty(),
            ..t
        }),
{
    let commands = draw_prologue(d);
    assert(commands.len() == 7);
    reveal_with_fuel(Tracker::after_all, 8);
    assert(commands[0] == GpuCommand::BindFramebuffer { target: d.target });
    assert(commands[6] == GpuCommand::UseProgram { program: d.program });
    assert(commands.drop_last().drop_last().drop_last().drop_last().drop_last().drop_last()
        .drop_last() =~= Seq::<GpuCommand>::empty());
}

proof fn lemma_after_uniforms(t: Tracker, uniforms: Seq<UniformBinding>)
    ensures
        t.after_all(uniform_commands(uniforms)) == (Tracker {
            uniforms: t.uniforms + uniforms,
            ..t
        }),
    decreases uniforms.len(),
{
    let commands = uniform_commands(uniforms);
    if uniforms.len() == 0 {
        assert(t.uniforms + uniforms =~= t.uniforms);
    } else {
        let init = uniforms.drop_last();
        lemma_after_uniforms(t, init);
        assert(commands.drop_last() =~= uniform_commands(init));
        assert((t.uniforms + init).push(uniforms.last()) =~= t.uniforms + uniforms);
    }
}

proof fn lemma_after_samplers(t: Tracker, samplers: Seq<SamplerBinding>)
    ensures
        t.after_all(sampler_commands(samplers)) == (Tracker {
            samplers: t.samplers + Seq::new(
                samplers.len(),
                |i: int| Pointed { name: samplers[i].name, unit: i as usize },
            ),
            ..t
        }),
    decreases samplers.len(),
{
    let commands = sampler_commands(samplers);
    let pointed = |s: Seq<SamplerBinding>|
        Seq::new(s.len(), |i: int| Pointed { name: s[i].name, unit: i as usize });
    if samplers.len() == 0 {
        assert(t.samplers + pointed(samplers) =~= t.samplers);
    } else {
        let init = samplers.drop_last();
        lemma_after_samplers(t, init);
        assert(commands.drop_last() =~= sampler_commands(init));
        assert((t.samplers + pointed(init)).push(
            Pointed { name: samplers.last().name, unit: init.len() as usize },
        ) =~= t.samplers + pointed(samplers));
    }
}

proof fn lemma_after_textures(t: Tracker, samplers: Seq<SamplerBinding>)
    requires
        samplers.len() <= usize::MAX,
    ensures
        ({
            let r = t.after_all(texture_commands(samplers));
            &&& r.target == t.target
            &&& r.program == t.program
            &&& r.vertex_buffer == t.vertex_buffer
            &&& r.index_buffer == t.index_buffer
            &&& r.uniforms == t.uniforms
            &&& r.samplers == t.samplers
            &&& r.seen == t.seen
            &&& forall|i: int|
                0 <= i < samplers.len() ==> r.bound.contains_key(i as usize) && r.bound[i as usize]
                    == (#[trigger] samplers[i]).texture
        }),
    decreases samplers.len(),
{
    let commands = texture_commands(samplers);
    reveal_with_fuel(Tracker::after_all, 3);
    if samplers.len() > 0 {
        let init = samplers.drop_last();
        lemma_after_textures(t, init);
        assert(commands.drop_last().drop_last() =~= texture_commands(init));
        assert(commands.last() == GpuCommand::BindTexture {
            texture: Some(samplers.last().texture),
        });
        assert(commands.drop_last().last() == GpuCommand::ActiveTexture {
            unit: init.len() as usize,
        });
        let r = t.after_all(commands);
        assert forall|i: int| 0 <= i < samplers.len() implies r.bound.contains_key(i as usize)
            && r.bound[i as usize] == (#[trigger] samplers[i]).texture by {
            if i < init.len() {
                assert(init[i] == samplers[i]);
            }
        }
    }
}

proof fn lemma_after_epilogue(t: Tracker, d: Draw)
    ensures
        t.after_all(draw_epilogue(d)) == (Tracker {
            target: None,
            vertex_buffer: d.vertex_buffer,
            index_buffer: d.index_buffer,
            seen: t.seen.push(
                (Tracker {
                    vertex_buffer: d.vertex_buffer,
                    index_buffer: d.index_buffer,
                    ..t
                }).drawn(),
            ),
            ..t
        }),
{
    let commands = draw_epilogue(d);
    assert(commands.len() == 6);
    reveal_with_fuel(Tracker::after_all, 7);
    assert(commands.drop_last().drop_last().drop_last().drop_last().drop_last().drop_last()
        =~= Seq::<GpuCommand>::empty());
}

/// A context that receives the commands of one draw makes exactly that
/// draw, whatever it received before, and is left with the screen as its
/// target.
pub proof fn lemma_draw_observed(t: Tracker, d: Draw)
    requires
        fits(d),
    ensures
        t.after_all(draw_commands(d)).seen == t.seen.push(d),
        t.after_all(draw_commands(d)).target is None,
{
    let prologue = draw_prologue(d);
    let uniforms = uniform_commands(d.uniforms);
    let samplers = sampler_commands(d.samplers);
    let textures = texture_commands(d.samplers);
    let epilogue = draw_epilogue(d);
    lemma_after_concat(t, prologue + uniforms + samplers + textures, epilogue);
    lemma_after_concat(t, prologue + uniforms + samplers, textures);
    lemma_after_concat(t, prologue + uniforms, samplers);
    lemma_after_concat(t, prologue, uniforms);
    lemma_after_prologue(t, d);
    let t1 = t.after_all(prologue);
    lemma_after_uniforms(t1, d.uniforms);
    let t2 = t1.after_all(uniforms);
    assert(t2.uniforms =~= d.uniforms);
    lemma_after_samplers(t2, d.samplers);
    let t3 = t2.after_all(samplers);
    lemma_after_textures(t3, d.samplers);
    let t4 = t3.after_all(textures);
    lemma_after_epilogue(t4, d);
    let made = (Tracker {
        vertex_buffer: d.vertex_buffer,
        index_buffer: d.index_buffer,
        ..t4
    }).drawn();
    assert(made.samplers =~= d.samplers) by {
        assert(made.samplers.len() == d.samplers.len());
        assert forall|i: int| 0 <= i < d.samplers.len() implies made.samplers[i]
            == d.samplers[i] by {
            assert(t4.samplers[i] == Pointed { name: d.samplers[i].name, unit: i as usize });
            assert(t4.bound[i as usize] == d.samplers[i].texture);
        }
    }
    assert(made.uniforms == d.uniforms);
    assert(made == d);
}

/// A context that receives the commands of a schedule makes exactly the
/// draws of the schedule, one after the other, after whatever it made
/// before.
pub proof fn lemma_schedule_observed(t: Tracker, draws: Seq<Draw>)
    requires
        forall|i: int| 0 <= i < draws.len() ==> fits(#[trigger] draws[i]),
    ensures
        t.after_all(schedule_commands(draws)).seen == t.seen + draws,
    decreases draws.len(),
{
    if draws.len() == 0 {
        assert(t.seen + draws =~= t.seen);
    } else {
        let init = draws.drop_last();
        assert forall|i: int| 0 <= i < init.len() implies fits(#[trigger] init[i]) by {
            assert(init[i] == draws[i]);
        }
        lemma_schedule_observed(t, init);
        lemma_after_concat(t, schedule_commands(init), draw_commands(draws.last()));
        assert(fits(draws[draws.len() - 1]));
        lemma_draw_observed(t.after_all(schedule_commands(init)), draws.last());
        assert((t.seen + init).push(draws.last()) =~= t.seen + draws);
    }
}

/// The commands of a schedule can be read back: a context that starts out
/// fresh and receives them makes exactly the draws of the schedule, each
/// with its target, its program, its geometry, its uniforms, and every
/// sampler reading the texture that the draw gave it.
pub proof fn lemma_observed_schedule(draws: Seq<Draw>)
    requires
        forall|i: int| 0 <= i < draws.len() ==> fits(#[trigger] draws[i]),
    ensures
        observed(schedule_commands(draws)) == draws,
{
    lemma_schedule_observed(Tracker::fresh(), draws);
    assert(Tracker::fresh().seen + draws =~= draws);
}

} // verus!
