use vstd::prelude::*;

verus! {

/// A command for the renderer. The GPU resources it names are positions in
/// the renderer's tables of pipelines, bind groups and buffers.
#[derive(Clone, Copy, Debug, PartialEq, Eq, Structural)]
pub enum RenderCommand {
    DrawObject {
        pipeline: usize,
        bind_group: usize,
        vertex_buffer: usize,
        index_buffer: usize,
        num_indices: u32,
    },
}

/// The width of the indices in an index buffer.
#[derive(Clone, Copy, Debug, PartialEq, Eq, Structural)]
pub enum IndexFormat {
    Uint16,
    Uint32,
}

/// One call on a render pass. Ranges run from their start up to, and not
/// including, their end.
#[derive(Clone, Copy, Debug, PartialEq, Eq, Structural)]
pub enum PassCall {
    SetPipeline { pipeline: usize },
    SetBindGroup { index: u32, bind_group: usize },
    SetVertexBuffer { slot: u32, buffer: usize },
    SetIndexBuffer { buffer: usize, format: IndexFormat },
    DrawIndexed { first_index: u32, end_index: u32, base_vertex: i32, first_instance: u32, end_instance: u32 },
}

/// The calls that draw one command: bind its pipeline, its bind group at
/// index 0 and its vertex buffer at slot 0, its index buffer with 16-bit
/// indices, then draw its indices once, from vertex 0.
pub open spec fn command_calls(command: RenderCommand) -> Seq<PassCall> {
    match command {
        RenderCommand::DrawObject { pipeline, bind_group, vertex_buffer, index_buffer, num_indices } =>
            seq![
            PassCall::SetPipeline { pipeline },
            PassCall::SetBindGroup { index: 0, bind_group },
            PassCall::SetVertexBuffer { slot: 0, buffer: vertex_buffer },
            PassCall::SetIndexBuffer { buffer: index_buffer, format: IndexFormat::Uint16 },
            PassCall::DrawIndexed {
                first_index: 0,
                end_index: num_indices,
                base_vertex: 0,
                first_instance: 0,
                end_instance: 1,
            },
        ],
    }
}

/// The calls that draw `commands`, one command after the other.
pub open spec fn commands_calls(commands: Seq<RenderCommand>) -> Seq<PassCall>
    decreases commands.len(),
{
    if commands.len() == 0 {
        Seq::empty()
    } else {
        commands_calls(commands.drop_last()) + command_calls(commands.last())
    }
}

/// The calls on a render pass that draw `commands`, in order: for the
/// command at position `k`, the five calls from position `5 * k` bind its
/// pipeline, its bind group at index 0, its vertex buffer at slot 0 and its
/// index buffer with 16-bit indices, then draw its indices `0..num_indices`
/// once from vertex 0.
pub fn pass_calls(commands: &[RenderCommand]) -> (calls: Vec<PassCall>)
    ensures
        calls@ == commands_calls(commands@),
        calls@.len() == 5 * commands@.len(),
        forall|k: int|
            #![trigger commands@[k]]
            0 <= k < commands@.len() ==> {
                &&& calls@[5 * k] == (PassCall::SetPipeline { pipeline: commands@[k]->pipeline })
                &&& calls@[5 * k + 1] == (PassCall::SetBindGroup { index: 0, bind_group: commands@[k]->bind_group })
                &&& calls@[5 * k + 2] == (PassCall::SetVertexBuffer { slot: 0, buffer: commands@[k]->vertex_buffer })
                &&& calls@[5 * k + 3] == (PassCall::SetIndexBuffer {
                    buffer: commands@[k]->index_buffer,
                    format: IndexFormat::Uint16,
                })
                &&& calls@[5 * k + 4] == (PassCall::DrawIndexed {
                    first_index: 0,
                    end_index: commands@[k]->num_indices,
                    base_vertex: 0,
                    first_instance: 0,
                    end_instance: 1,
                })
            },
{
    let mut calls: Vec<PassCall> = Vec::new();
    let mut i: usize = 0;
    while i < commands.len()
        invariant
            i <= commands@.len(),
            calls@ == commands_calls(commands@.take(i as int)),
        decreases commands@.len() - i,
    {
        let command = commands[i];
        match command {
            RenderCommand::DrawObject { pipeline, bind_group, vertex_buffer, index_buffer, num_indices } => {
                calls.push(PassCall::SetPipeline { pipeline });
                calls.push(PassCall::SetBindGroup { index: 0, bind_group });
                calls.push(PassCall::SetVertexBuffer { slot: 0, buffer: vertex_buffer });
                calls.push(PassCall::SetIndexBuffer { buffer: index_buffer, format: IndexFormat::Uint16 });
                calls.push(
                    PassCall::DrawIndexed {
                        first_index: 0,
                        end_index: num_indices,
                        base_vertex: 0,
                        first_instance: 0,
                        end_instance: 1,
                    },
                );
            },
        }
        proof {
            assert(commands@.take(i + 1).drop_last() == commands@.take(i as int));
            assert(commands@.take(i + 1).last() == command);
        }
        i = i + 1;
    }
    proof {
        assert(commands@.take(commands@.len() as int) == commands@);
        lemma_calls_by_position(commands@);
    }
    calls
}

/// The calls for one command: its pipeline, its bind group at index 0, its
/// vertex buffer at slot 0, its index buffer with 16-bit indices whatever the
/// number of indices, and one draw of all its indices from vertex 0.
pub proof fn lemma_command_calls_fields(command: RenderCommand)
    ensures
        command_calls(command).len() == 5,
        command_calls(command)[0] == (PassCall::SetPipeline { pipeline: command->pipeline }),
        command_calls(command)[1] == (PassCall::SetBindGroup { index: 0, bind_group: command->bind_group }),
        command_calls(command)[2] == (PassCall::SetVertexBuffer { slot: 0, buffer: command->vertex_buffer }),
        command_calls(command)[3] == (PassCall::SetIndexBuffer {
            buffer: command->index_buffer,
            format: IndexFormat::Uint16,
        }),
        command_calls(command)[4] == (PassCall::DrawIndexed {
            first_index: 0,
            end_index: command->num_indices,
            base_vertex: 0,
            first_instance: 0,
            end_instance: 1,
        }),
{
}

/// The calls for `commands` come in blocks of five: the block at position
/// `5 * k` is the calls for the command at position `k`.
pub proof fn lemma_calls_by_position(commands: Seq<RenderCommand>)
    ensures
        commands_calls(commands).len() == 5 * commands.len(),
        forall|k: int, j: int|
            #![trigger commands[k], command_calls(commands[k])[j]]
            0 <= k < commands.len() && 0 <= j < 5 ==> commands_calls(commands)[5 * k + j] == command_calls(
                commands[k],
            )[j],
        forall|k: int|
            #![trigger commands[k]]
            0 <= k < commands.len() ==> {
                &&& commands_calls(commands)[5 * k] == (PassCall::SetPipeline { pipeline: commands[k]->pipeline })
                &&& commands_calls(commands)[5 * k + 1] == (PassCall::SetBindGroup {
                    index: 0,
                    bind_group: commands[k]->bind_group,
                })
                &&& commands_calls(commands)[5 * k + 2] == (PassCall::SetVertexBuffer {
                    slot: 0,
                    buffer: commands[k]->vertex_buffer,
                })
                &&& commands_calls(commands)[5 * k + 3] == (PassCall::SetIndexBuffer {
                    buffer: commands[k]->index_buffer,
                    format: IndexFormat::Uint16,
                })
                &&& commands_calls(commands)[5 * k + 4] == (PassCall::DrawIndexed {
                    first_index: 0,
                    end_index: commands[k]->num_indices,
                    base_vertex: 0,
                    first_instance: 0,
                    end_instance: 1,
                })
            },
    decreases commands.len(),
{
    if commands.len() > 0 {
        let prefix = commands.drop_last();
        lemma_calls_by_position(prefix);
        let last = commands.last();
        lemma_command_calls_fields(last);
        assert forall|k: int, j: int|
            #![trigger commands[k], command_calls(commands[k])[j]]
            0 <= k < commands.len() && 0 <= j < 5 implies commands_calls(commands)[5 * k + j]
            == command_calls(commands[k])[j] by {
            if k < prefix.len() {
                assert(commands[k] == prefix[k]);
            }
        }
        assert forall|k: int| #![trigger commands[k]] 0 <= k < commands.len() implies {
            &&& commands_calls(commands)[5 * k] == (PassCall::SetPipeline { pipeline: commands[k]->pipeline })
            &&& commands_calls(commands)[5 * k + 1] == (PassCall::SetBindGroup {
                index: 0,
                bind_group: commands[k]->bind_group,
            })
            &&& commands_calls(commands)[5 * k + 2] == (PassCall::SetVertexBuffer {
                slot: 0,
                buffer: commands[k]->vertex_buffer,
            })
            &&& commands_calls(commands)[5 * k + 3] == (PassCall::SetIndexBuffer {
                buffer: commands[k]->index_buffer,
                format: IndexFormat::Uint16,
            })
            &&& commands_calls(commands)[5 * k + 4] == (PassCall::DrawIndexed {
                first_index: 0,
                end_index: commands[k]->num_indices,
                base_vertex: 0,
                first_instance: 0,
                end_instance: 1,
            })
        } by {
            lemma_command_calls_fields(commands[k]);
        }
    }
}

/// The calls for two lists of commands, one after the other, are the calls
/// for the first followed by the calls for the second.
pub proof fn lemma_calls_append(a: Seq<RenderCommand>, b: Seq<RenderCommand>)
    ensures
        commands_calls(a + b) == commands_calls(a) + commands_calls(b),
    decreases b.len(),
{
    if b.len() == 0 {
        assert(a + b == a);
    } else {
        lemma_calls_append(a, b.drop_last());
        assert((a + b).drop_last() == a + b.drop_last());
        assert((a + b).last() == b.last());
    }
}

/// Every command takes five calls, so `commands` take five times as many.
pub proof fn lemma_calls_len(commands: Seq<RenderCommand>)
    ensures
        commands_calls(commands).len() == 5 * commands.len(),
    decreases commands.len(),
{
    if commands.len() > 0 {
        lemma_calls_len(commands.drop_last());
    }
}

/// The commands queued for the next frame.
pub struct RenderContext {
    commands: Vec<RenderCommand>,
}

impl View for RenderContext {
    type V = Seq<RenderCommand>;

    closed spec fn view(&self) -> Seq<RenderCommand> {
        self.commands@
    }
}

impl RenderContext {
    /// A context with no command queued.
    pub fn new() -> (context: Self)
        ensures
            context@ == Seq::<RenderCommand>::empty(),
    {
        RenderContext { commands: Vec::new() }
    }

    /// Queues `command` after those already queued.
    pub fn add(&mut self, command: RenderCommand)
        ensures
            final(self)@ == old(self)@.push(command),
    {
        self.commands.push(command);
    }

    /// Ends the frame: the queue is emptied.
    pub fn execute(&mut self)
        ensures
            final(self)@ == Seq::<RenderCommand>::empty(),
    {
        self.commands.clear();
    }

    /// The commands queued, in the order they were added.
    pub fn commands(&self) -> (commands: &[RenderCommand])
        ensures
            commands@ == self@,
    {
        self.commands.as_slice()
    }
}

} // verus!
