//! Shaders: one stage of the pipeline, compiled from source text.

use vstd::prelude::*;
use vstd::slice::slice_to_vec;
use crate::command::{views, Command, CommandView, ShaderType};
use crate::status::{Outcome, Phase, Query, Reply, Verdict};

verus! {

/// A shader that compiled. It does not change afterwards.
pub struct Shader {
    id: u32,
    stage: ShaderType,
}

/// A shader stage failed to compile; `message` is the backend's diagnostic
/// log.
#[derive(Debug, PartialEq, Eq)]
pub struct CompileError {
    pub message: Vec<u8>,
}

/// A compilation that the backend has been asked for and whose outcome is
/// not known yet.
pub struct Compilation {
    shader: u32,
    stage: ShaderType,
    phase: Phase,
}

/// Where a compilation stands after an answer of the backend.
pub enum CompileState {
    /// More has to be asked.
    Pending(Compilation),
    /// The shader compiled.
    Compiled(Shader),
    /// The shader did not compile.
    Failed(CompileError),
}

/// Whether the source text can be handed to the backend: the backend reads
/// it up to the first zero byte, so it holds none.
pub open spec fn is_source_text(source: Seq<u8>) -> bool {
    forall|i: int| 0 <= i < source.len() ==> source[i] != 0
}

impl Shader {
    /// The backend's handle of the shader.
    pub closed spec fn id(&self) -> u32 {
        self.id
    }

    /// The stage that the shader was compiled for.
    pub closed spec fn stage(&self) -> ShaderType {
        self.stage
    }

    /// The backend's handle of the shader.
    pub fn get_id(&self) -> (id: u32)
        ensures
            id == self.id(),
    {
        self.id
    }

    /// The stage that the shader was compiled for.
    pub fn get_stage(&self) -> (stage: ShaderType)
        ensures
            stage == self.stage(),
    {
        self.stage
    }

    /// Starts the compilation of `source` in the backend's shader object
    /// `id`, which was created for `stage`: the commands that hand over the
    /// source and compile it, and the compilation that waits for the status.
    pub fn from_source<T>(id: u32, source: &[u8], stage: ShaderType) -> (started: (
        Compilation,
        Vec<Command<T>>,
    ))
        requires
            is_source_text(source@),
        ensures
            started.0.shader() == id,
            started.0.stage() == stage,
            started.0.phase() == Phase::AwaitStatus,
            views(started.1@) == seq![
                CommandView::<T>::ShaderSource { shader: id, source: source@ },
                CommandView::CompileShader { shader: id },
            ],
    {
        let text: Vec<u8> = slice_to_vec(source);
        let mut commands: Vec<Command<T>> = Vec::new();
        commands.push(Command::ShaderSource { shader: id, source: text });
        commands.push(Command::CompileShader { shader: id });
        proof {
            assert(views(commands@) =~= seq![
                CommandView::<T>::ShaderSource { shader: id, source: source@ },
                CommandView::CompileShader { shader: id },
            ]);
        }
        (Compilation { shader: id, stage, phase: Phase::AwaitStatus }, commands)
    }

    /// Gives the shader up: the one command that releases it.
    pub fn release<T>(self) -> (commands: Vec<Command<T>>)
        ensures
            views(commands@) == seq![CommandView::<T>::DeleteShader { shader: self.id() }],
    {
        let mut commands: Vec<Command<T>> = Vec::new();
        commands.push(Command::DeleteShader { shader: self.id });
        proof {
            assert(views(commands@) =~= seq![
                CommandView::<T>::DeleteShader { shader: self.id() },
            ]);
        }
        commands
    }
}

impl Compilation {
    /// The backend's handle of the shader that is being compiled.
    pub closed spec fn shader(&self) -> u32 {
        self.shader
    }

    /// The stage that the shader is compiled for.
    pub closed spec fn stage(&self) -> ShaderType {
        self.stage
    }

    /// Where the status protocol stands.
    pub closed spec fn phase(&self) -> Phase {
        self.phase
    }

    /// Whether `state` and `commands` are what follows when the status
    /// protocol, after an answer, says `outcome`. While more has to be asked
    /// the compilation goes on and the backend has nothing to do; a pass
    /// gives the shader; a failure gives the log as the error and releases
    /// the shader object.
    pub open spec fn follows<T>(
        &self,
        outcome: Outcome,
        state: CompileState,
        commands: Seq<CommandView<T>>,
    ) -> bool {
        match outcome {
            Outcome::Pending(phase) => {
                &&& state matches CompileState::Pending(c)
                &&& c.shader() == self.shader()
                &&& c.stage() == self.stage()
                &&& c.phase() == phase
                &&& commands == Seq::<CommandView<T>>::empty()
            },
            Outcome::Passed => {
                &&& state matches CompileState::Compiled(s)
                &&& s.id() == self.shader()
                &&& s.stage() == self.stage()
                &&& commands == Seq::<CommandView<T>>::empty()
            },
            Outcome::Failed(log) => {
                &&& state matches CompileState::Failed(e)
                &&& e.message@ == log
                &&& commands == seq![CommandView::<T>::DeleteShader { shader: self.shader() }]
            },
        }
    }

    /// The backend's handle of the shader that is being compiled.
    pub fn get_id(&self) -> (id: u32)
        ensures
            id == self.shader(),
    {
        self.shader
    }

    /// What to ask the backend now.
    pub fn query(&self) -> (q: Query)
        ensures
            q == self.phase().pending(),
    {
        self.phase.query()
    }

    /// Takes the backend's answer to the pending question.
    pub fn advance<T>(self, reply: Reply) -> (step: (CompileState, Vec<Command<T>>))
        ensures
            self.follows(self.phase().next(reply@), step.0, views(step.1@)),
    {
        let mut commands: Vec<Command<T>> = Vec::new();
        proof {
            assert(views(commands@) =~= Seq::<CommandView<T>>::empty());
        }
        match self.phase.advance(reply) {
            Verdict::Pending(phase) => (
                CompileState::Pending(
                    Compilation { shader: self.shader, stage: self.stage, phase },
                ),
                commands,
            ),
            Verdict::Passed => (
                CompileState::Compiled(Shader { id: self.shader, stage: self.stage }),
                commands,
            ),
            Verdict::Failed(message) => {
                commands.push(Command::DeleteShader { shader: self.shader });
                proof {
                    assert(views(commands@) =~= seq![
                        CommandView::<T>::DeleteShader { shader: self.shader() },
                    ]);
                }
                (CompileState::Failed(CompileError { message }), commands)
            },
        }
    }
}

} // verus!
