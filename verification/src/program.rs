//! Shader programs: compiled shaders linked into one pipeline state, and the
//! uniforms of such a program.

use vstd::prelude::*;
use crate::command::{lemma_views_push, views, Command, CommandView, ProgramValue};
use crate::shader::Shader;
use crate::status::{Outcome, Phase, Query, Reply, Verdict};

verus! {

/// A program that linked. Only such a program can be drawn with.
pub struct ShaderProgram {
    id: u32,
}

/// A program failed to link; `message` is the backend's diagnostic log.
#[derive(Debug, PartialEq, Eq)]
pub struct LinkError {
    pub message: Vec<u8>,
}

/// A link that the backend has been asked for and whose outcome is not known
/// yet.
pub struct Linking {
    program: u32,
    shaders: Vec<u32>,
    phase: Phase,
}

/// Where a link stands after an answer of the backend.
pub enum LinkState {
    /// More has to be asked.
    Pending(Linking),
    /// The program linked.
    Linked(ShaderProgram),
    /// The program did not link.
    Failed(LinkError),
}

/// Whether `name` can be handed to the backend as the name of a uniform: the
/// backend reads it up to the first zero character, so it holds none.
pub open spec fn is_uniform_name(name: Seq<char>) -> bool {
    forall|i: int| 0 <= i < name.len() ==> name[i] != '\0'
}

/// The handles of the given shaders, in order.
pub open spec fn shader_ids(shaders: Seq<&Shader>) -> Seq<u32> {
    shaders.map_values(|s: &Shader| s.id())
}

/// The commands that attach the given shaders to `program`, in order.
pub open spec fn attach_commands<T>(program: u32, shaders: Seq<u32>) -> Seq<CommandView<T>> {
    shaders.map_values(|shader: u32| CommandView::<T>::AttachShader { program, shader })
}

/// The commands that detach the given shaders from `program`, in order.
pub open spec fn detach_commands<T>(program: u32, shaders: Seq<u32>) -> Seq<CommandView<T>> {
    shaders.map_values(|shader: u32| CommandView::<T>::DetachShader { program, shader })
}

impl ShaderProgram {
    /// The backend's handle of the program.
    pub closed spec fn id(&self) -> u32 {
        self.id
    }

    /// What setting a uniform asks of the backend: make the program the
    /// current one, then store the value under the name.
    pub open spec fn set_value_commands<T>(
        program: u32,
        name: Seq<char>,
        value: ProgramValue<T>,
    ) -> Seq<CommandView<T>> {
        seq![
            CommandView::UseProgram { program },
            CommandView::SetUniform { program, name, value },
        ]
    }

    /// The backend's handle of the program.
    pub fn get_id(&self) -> (id: u32)
        ensures
            id == self.id(),
    {
        self.id
    }

    /// The one command that makes the program the current one.
    pub fn use_program<T>(&self) -> (commands: Vec<Command<T>>)
        ensures
            views(commands@) == seq![CommandView::<T>::UseProgram { program: self.id() }],
    {
        let mut commands: Vec<Command<T>> = Vec::new();
        commands.push(Command::UseProgram { program: self.id });
        proof {
            assert(views(commands@) =~= seq![
                CommandView::<T>::UseProgram { program: self.id() },
            ]);
        }
        commands
    }

    /// The commands that set the uniform `name` to `value`. The program is
    /// made the current one first, every time; the uniform is looked up by
    /// its name every time, and a program without such a uniform is left as
    /// it is.
    pub fn set_value<T>(&self, name: &str, value: ProgramValue<T>) -> (commands: Vec<Command<T>>)
        requires
            is_uniform_name(name@),
        ensures
            views(commands@) == Self::set_value_commands(self.id(), name@, value),
    {
        let mut commands: Vec<Command<T>> = Vec::new();
        commands.push(Command::UseProgram { program: self.id });
        commands.push(Command::SetUniform { program: self.id, name: name.to_owned(), value });
        proof {
            assert(views(commands@) =~= Self::set_value_commands(self.id(), name@, value));
        }
        commands
    }

    /// Starts the link of the given shaders in the backend's program object
    /// `id`: the commands that attach them, in order, and link, and the link
    /// that waits for the status.
    pub fn from_shaders<T>(id: u32, shaders: &[&Shader]) -> (started: (Linking, Vec<Command<T>>))
        ensures
            started.0.program() == id,
            started.0.attached() == shader_ids(shaders@),
            started.0.phase() == Phase::AwaitStatus,
            views(started.1@) == attach_commands::<T>(id, shader_ids(shaders@)).push(
                CommandView::LinkProgram { program: id },
            ),
    {
        let ghost ids = shader_ids(shaders@);
        let mut attached: Vec<u32> = Vec::new();
        let mut commands: Vec<Command<T>> = Vec::new();
        let mut i: usize = 0;
        proof {
            assert(attached@ =~= ids.take(0));
            assert(views(commands@) =~= attach_commands::<T>(id, ids.take(0)));
        }
        while i < shaders.len()
            invariant
                i <= shaders.len(),
                ids == shader_ids(shaders@),
                attached@ == ids.take(i as int),
                views(commands@) == attach_commands::<T>(id, ids.take(i as int)),
            decreases shaders.len() - i,
        {
            let shader: u32 = shaders[i].get_id();
            let attach = Command::AttachShader { program: id, shader };
            proof {
                lemma_views_push(commands@, attach);
            }
            attached.push(shader);
            commands.push(attach);
            proof {
                assert(attached@ =~= ids.take(i + 1));
                assert(views(commands@) =~= attach_commands::<T>(id, ids.take(i + 1)));
            }
            i = i + 1;
        }
        let link = Command::LinkProgram { program: id };
        proof {
            assert(ids.take(ids.len() as int) =~= ids);
            lemma_views_push(commands@, link);
        }
        commands.push(link);
        (Linking { program: id, shaders: attached, phase: Phase::AwaitStatus }, commands)
    }

    /// Gives the program up: the one command that releases it.
    pub fn release<T>(self) -> (commands: Vec<Command<T>>)
        ensures
            views(commands@) == seq![CommandView::<T>::DeleteProgram { program: self.id() }],
    {
        let mut commands: Vec<Command<T>> = Vec::new();
        commands.push(Command::DeleteProgram { program: self.id });
        proof {
            assert(views(commands@) =~= seq![
                CommandView::<T>::DeleteProgram { program: self.id() },
            ]);
        }
        commands
    }
}

impl Linking {
    /// The backend's handle of the program that is being linked.
    pub closed spec fn program(&self) -> u32 {
        self.program
    }

    /// The handles of the shaders that were attached, in order.
    pub closed spec fn attached(&self) -> Seq<u32> {
        self.shaders@
    }

    /// Where the status protocol stands.
    pub closed spec fn phase(&self) -> Phase {
        self.phase
    }

    /// Whether `state` and `commands` are what follows when the status
    /// protocol, after an answer, says `outcome`. While more has to be asked
    /// the link goes on and the backend has nothing to do; a pass gives the
    /// program and detaches every shader, so that each can be released on
    /// its own; a failure gives the log as the error and releases the
    /// program object.
    pub open spec fn follows<T>(
        &self,
        outcome: Outcome,
        state: LinkState,
        commands: Seq<CommandView<T>>,
    ) -> bool {
        match outcome {
            Outcome::Pending(phase) => {
                &&& state matches LinkState::Pending(l)
                &&& l.program() == self.program()
                &&& l.attached() == self.attached()
                &&& l.phase() == phase
                &&& commands == Seq::<CommandView<T>>::empty()
            },
            Outcome::Passed => {
                &&& state matches LinkState::Linked(p)
                &&& p.id() == self.program()
                &&& commands == detach_commands::<T>(self.program(), self.attached())
            },
            Outcome::Failed(log) => {
                &&& state matches LinkState::Failed(e)
                &&& e.message@ == log
                &&& commands == seq![CommandView::<T>::DeleteProgram { program: self.program() }]
            },
        }
    }

    /// The backend's handle of the program that is being linked.
    pub fn get_id(&self) -> (id: u32)
        ensures
            id == self.program(),
    {
        self.program
    }

    /// What to ask the backend now.
    pub fn query(&self) -> (q: Query)
        ensures
            q == self.phase().pending(),
    {
        self.phase.query()
    }

    /// Takes the backend's answer to the pending question.
    pub fn advance<T>(self, reply: Reply) -> (step: (LinkState, Vec<Command<T>>))
        ensures
            self.follows(self.phase().next(reply@), step.0, views(step.1@)),
    {
        let mut commands: Vec<Command<T>> = Vec::new();
        proof {
            assert(views(commands@) =~= Seq::<CommandView<T>>::empty());
        }
        match self.phase.advance(reply) {
            Verdict::Pending(phase) => (
                LinkState::Pending(
                    Linking { program: self.program, shaders: self.shaders, phase },
                ),
                commands,
            ),
            Verdict::Passed => {
                let ghost ids = self.shaders@;
                let mut i: usize = 0;
                proof {
                    assert(views(commands@) =~= detach_commands::<T>(self.program, ids.take(0)));
                }
                while i < self.shaders.len()
                    invariant
                        i <= self.shaders.len(),
                        ids == self.shaders@,
                        views(commands@) == detach_commands::<T>(self.program, ids.take(i as int)),
                    decreases self.shaders.len() - i,
                {
                    let detach = Command::DetachShader {
                        program: self.program,
                        shader: self.shaders[i],
                    };
                    proof {
                        lemma_views_push(commands@, detach);
                    }
                    commands.push(detach);
                    proof {
                        assert(views(commands@) =~= detach_commands::<T>(
                            self.program,
                            ids.take(i + 1),
                        ));
                    }
                    i = i + 1;
                }
                proof {
                    assert(ids.take(ids.len() as int) =~= ids);
                }
                (LinkState::Linked(ShaderProgram { id: self.program }), commands)
            },
            Verdict::Failed(message) => {
                commands.push(Command::DeleteProgram { program: self.program });
                proof {
                    assert(views(commands@) =~= seq![
                        CommandView::<T>::DeleteProgram { program: self.program() },
                    ]);
                }
                (LinkState::Failed(LinkError { message }), commands)
            },
        }
    }
}

} // verus!
