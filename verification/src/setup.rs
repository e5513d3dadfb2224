//! Setting an object up on the backend, one call at a time.
//!
//! A [`Setup`] knows the calls that build a shader program and fill a vertex
//! buffer, in their order.  It names the call that is due, takes in what the
//! backend answered and moves on, or stops at the first answer that reports a
//! failure.  When it stops it lists the calls that hand back what the backend
//! had already given out, so that a failed setup leaves nothing behind.

use vstd::prelude::*;
use crate::backend::{Attribute, Command, GlResource, Reply, ShaderKind};
use crate::mesh::{Mesh, MAX_VERTICES};
use crate::glutil::{
    check_error, compile_failure, compile_shader, fault_message, link_failure, link_program,
    remove_program, remove_shader, NO_ERROR, STATUS_TRUE,
};

verus! {

/// The calls before the first that depends on the vertex layout.
pub const FIXED_STAGES: usize = 10;

/// How far a setup has come.
#[derive(Clone, Copy, Debug, PartialEq, Eq, Structural)]
pub enum SetupStatus {
    /// A call is due.
    Running,
    /// Every call has been made and none has failed.
    Succeeded,
    /// A call has failed; no further call is due.
    Failed,
}

/// The setup of one object.
#[derive(Debug)]
pub struct Setup {
    /// The vertices that are stored on the backend.  Their kind says whose
    /// shaders are built.
    pub mesh: Mesh,
    /// Where the attributes lie in a vertex of the mesh.
    pub layout: Vec<Attribute>,
    /// The calls that have been made and answered well.
    pub stage: usize,
    pub vertex_shader: u32,
    pub fragment_shader: u32,
    pub program: u32,
    pub vao: u32,
    pub vbo: u32,
    pub status: SetupStatus,
    /// Why the setup failed; empty unless it did.
    pub message: String,
    /// The calls that hand back what a failed setup had been given; empty
    /// unless it failed.
    pub release: Vec<Command>,
}

impl Setup {
    /// The number of calls of a setup that succeeds.
    pub open spec fn total(self) -> int {
        FIXED_STAGES + 2 * self.layout@.len() + 1
    }

    /// The mesh is not too large, the stage does not pass the last call, the
    /// status says whether it has been reached, and only a failed setup has
    /// a message and calls to release.
    pub open spec fn wf(self) -> bool {
        &&& self.mesh.len() <= MAX_VERTICES
        &&& self.layout@.len() <= crate::backend::MAX_ATTRIBUTES
        &&& 0 <= self.stage <= self.total()
        &&& self.status == SetupStatus::Succeeded <==> self.stage == self.total()
        &&& self.status != SetupStatus::Failed ==> self.message@.len() == 0
            && self.release@.len() == 0
    }

    /// The call of stage `k`: the two shaders are compiled and linked and
    /// leave the program; a vertex array and a buffer are made and bound;
    /// the mesh is stored; every attribute is switched on, then every
    /// attribute is laid out; in the end no vertex array is bound.
    pub open spec fn command_at(self, k: int) -> Command {
        let n = self.layout@.len() as int;
        if k == 0 {
            Command::CompileShader { shape: self.mesh.shape(), kind: ShaderKind::Vertex }
        } else if k == 1 {
            Command::CompileShader { shape: self.mesh.shape(), kind: ShaderKind::Fragment }
        } else if k == 2 {
            Command::LinkProgram {
                vertex_shader: self.vertex_shader,
                fragment_shader: self.fragment_shader,
            }
        } else if k == 3 {
            Command::RemoveShader { program: self.program, shader: self.vertex_shader }
        } else if k == 4 {
            Command::RemoveShader { program: self.program, shader: self.fragment_shader }
        } else if k == 5 {
            Command::GenVertexArray
        } else if k == 6 {
            Command::BindVertexArray { vao: self.vao }
        } else if k == 7 {
            Command::GenBuffer
        } else if k == 8 {
            Command::BindBuffer { vbo: self.vbo }
        } else if k == 9 {
            Command::BufferData {
                shape: self.mesh.shape(),
                vertex_count: self.mesh.len() as i32,
                byte_size: self.mesh.byte_size() as usize,
            }
        } else if k < FIXED_STAGES + n {
            Command::EnableVertexAttribArray { slot: self.layout@[k - FIXED_STAGES].slot }
        } else if k < FIXED_STAGES + 2 * n {
            Command::VertexAttribPointer { attribute: self.layout@[k - FIXED_STAGES - n] }
        } else {
            Command::BindVertexArray { vao: 0 }
        }
    }

    /// Whether the error flag is read after the call of stage `k`: after
    /// every call but those that build the program and the last one.
    pub open spec fn checked_at(self, k: int) -> bool {
        5 <= k < self.total() - 1
    }

    /// Whether `reply` reports that the call of stage `k` went well: a
    /// compilation or link by its status, a call that is checked by the error
    /// flag, any other call always.
    pub open spec fn healthy(self, k: int, reply: Reply) -> bool {
        if k <= 2 {
            reply.status == STATUS_TRUE
        } else if self.checked_at(k) {
            reply.error == NO_ERROR
        } else {
            true
        }
    }

    /// The message for a reply that reports a failure of the call of stage `k`.
    pub open spec fn failure_text(self, k: int, reply: Reply) -> Seq<char> {
        if k <= 1 {
            compile_failure(reply.log@)
        } else if k == 2 {
            link_failure(reply.log@)
        } else {
            fault_message(reply.error).unwrap()
        }
    }

    /// The calls that hand back what the backend had given out when the call
    /// of stage `k` failed with `reply`: the shader or program that failed
    /// with those built before it, or the buffer, the vertex array and the
    /// program as far as they exist.
    pub open spec fn release_after(self, k: int, reply: Reply) -> Seq<Command> {
        if k == 0 {
            seq![Command::DeleteShader { shader: reply.name }]
        } else if k == 1 {
            seq![
                Command::DeleteShader { shader: reply.name },
                Command::DeleteShader { shader: self.vertex_shader },
            ]
        } else if k == 2 {
            seq![
                Command::RemoveShader { program: reply.name, shader: self.vertex_shader },
                Command::RemoveShader { program: reply.name, shader: self.fragment_shader },
                Command::RemoveProgram { program: reply.name },
            ]
        } else {
            self.held_at(k)
        }
    }

    /// The calls that hand back what a setup holds at a stage `k` after the
    /// program has been linked: the buffer and the vertex array, once they
    /// have been made, and the program.
    pub open spec fn held_at(self, k: int) -> Seq<Command> {
        if k <= 5 {
            seq![Command::RemoveProgram { program: self.program }]
        } else if k <= 7 {
            seq![
                Command::DeleteVertexArray { vao: self.vao },
                Command::RemoveProgram { program: self.program },
            ]
        } else {
            seq![
                Command::DeleteBuffer { vbo: self.vbo },
                Command::DeleteVertexArray { vao: self.vao },
                Command::RemoveProgram { program: self.program },
            ]
        }
    }

    /// What the setup has built once it has succeeded: the program, the
    /// vertex array and the buffer by their names, and the number of
    /// vertices in the buffer.
    pub open spec fn built(self) -> GlResource {
        GlResource {
            shader_program: self.program,
            vao: self.vao,
            vbo: self.vbo,
            indice_num: self.mesh.len() as i32,
        }
    }

    /// Whether `self` and `other` are set up for the same mesh.
    pub open spec fn same_task(self, other: Setup) -> bool {
        &&& self.mesh == other.mesh
        &&& self.layout@ == other.layout@
    }

    /// Whether `self` is what `before` becomes by a healthy `reply`: one
    /// stage further, with the name that the reply brought where the call
    /// created something.
    pub open spec fn follows(self, before: Setup, reply: Reply) -> bool {
        let k = before.stage as int;
        &&& self.same_task(before)
        &&& self.stage == k + 1
        &&& self.status == if k + 1 == before.total() {
            SetupStatus::Succeeded
        } else {
            SetupStatus::Running
        }
        &&& self.vertex_shader == if k == 0 { reply.name } else { before.vertex_shader }
        &&& self.fragment_shader == if k == 1 { reply.name } else { before.fragment_shader }
        &&& self.program == if k == 2 { reply.name } else { before.program }
        &&& self.vao == if k == 5 { reply.name } else { before.vao }
        &&& self.vbo == if k == 7 { reply.name } else { before.vbo }
        &&& self.message@.len() == 0
        &&& self.release@.len() == 0
    }

    /// Whether `self` is what `before` becomes by a `reply` that reports a
    /// failure: stopped where it stood, with the message and the calls that
    /// release what it held.
    pub open spec fn stopped(self, before: Setup, reply: Reply) -> bool {
        let k = before.stage as int;
        &&& self.same_task(before)
        &&& self.stage == k
        &&& self.status == SetupStatus::Failed
        &&& self.vertex_shader == before.vertex_shader
        &&& self.fragment_shader == before.fragment_shader
        &&& self.program == before.program
        &&& self.vao == before.vao
        &&& self.vbo == before.vbo
        &&& self.message@ == before.failure_text(k, reply)
        &&& self.release@ == before.release_after(k, reply)
    }

    /// A setup that stores `mesh`, laid out as `layout` says.  Nothing has
    /// been called yet.
    pub fn new(mesh: Mesh, layout: Vec<Attribute>) -> (s: Setup)
        requires
            mesh.len() <= MAX_VERTICES,
            layout@.len() <= crate::backend::MAX_ATTRIBUTES,
        ensures
            s.wf(),
            s.mesh == mesh,
            s.layout@ == layout@,
            s.stage == 0,
            s.status == SetupStatus::Running,
            s.vertex_shader == 0 && s.fragment_shader == 0 && s.program == 0,
            s.vao == 0 && s.vbo == 0,
    {
        Setup {
            mesh,
            layout,
            stage: 0,
            vertex_shader: 0,
            fragment_shader: 0,
            program: 0,
            vao: 0,
            vbo: 0,
            status: SetupStatus::Running,
            message: String::new(),
            release: Vec::new(),
        }
    }

    /// The call that is due, or `None` when the setup has succeeded or failed.
    pub fn pending(&self) -> (next: Option<Command>)
        requires
            self.wf(),
        ensures
            next == if self.status == SetupStatus::Running {
                Some(self.command_at(self.stage as int))
            } else {
                None
            },
    {
        if self.status != SetupStatus::Running {
            return None;
        }
        let k = self.stage;
        let n = self.layout.len();
        let command = if k == 0 {
            Command::CompileShader { shape: self.mesh.kind(), kind: ShaderKind::Vertex }
        } else if k == 1 {
            Command::CompileShader { shape: self.mesh.kind(), kind: ShaderKind::Fragment }
        } else if k == 2 {
            Command::LinkProgram {
                vertex_shader: self.vertex_shader,
                fragment_shader: self.fragment_shader,
            }
        } else if k == 3 {
            remove_shader(self.program, self.vertex_shader)
        } else if k == 4 {
            remove_shader(self.program, self.fragment_shader)
        } else if k == 5 {
            Command::GenVertexArray
        } else if k == 6 {
            Command::BindVertexArray { vao: self.vao }
        } else if k == 7 {
            Command::GenBuffer
        } else if k == 8 {
            Command::BindBuffer { vbo: self.vbo }
        } else if k == 9 {
            Command::BufferData {
                shape: self.mesh.kind(),
                vertex_count: self.mesh.vertex_count() as i32,
                byte_size: self.mesh.byte_count(),
            }
        } else if k < FIXED_STAGES + n {
            Command::EnableVertexAttribArray { slot: self.layout[k - FIXED_STAGES].slot }
        } else if k < FIXED_STAGES + 2 * n {
            Command::VertexAttribPointer { attribute: self.layout[k - FIXED_STAGES - n] }
        } else {
            Command::BindVertexArray { vao: 0 }
        };
        Some(command)
    }

    /// Whether the error flag is to be read after the call that is due.
    pub fn pending_checked(&self) -> (checked: bool)
        requires
            self.wf(),
        ensures
            checked == (self.status == SetupStatus::Running && self.checked_at(self.stage as int)),
    {
        self.status == SetupStatus::Running && 5 <= self.stage && self.stage < FIXED_STAGES + 2
            * self.layout.len()
    }

    /// Stops the setup with `message` and the calls of `release`.
    fn fail(&mut self, message: String, release: Vec<Command>)
        requires
            old(self).wf(),
            old(self).status == SetupStatus::Running,
        ensures
            final(self).wf(),
            final(self).same_task(*old(self)),
            final(self).stage == old(self).stage,
            final(self).status == SetupStatus::Failed,
            final(self).vertex_shader == old(self).vertex_shader,
            final(self).fragment_shader == old(self).fragment_shader,
            final(self).program == old(self).program,
            final(self).vao == old(self).vao,
            final(self).vbo == old(self).vbo,
            final(self).message@ == message@,
            final(self).release@ == release@,
    {
        self.status = SetupStatus::Failed;
        self.message = message;
        self.release = release;
    }

    /// Moves to the next stage.
    fn proceed(&mut self)
        requires
            old(self).wf(),
            old(self).status == SetupStatus::Running,
        ensures
            final(self).wf(),
            final(self).same_task(*old(self)),
            final(self).stage == old(self).stage + 1,
            final(self).status == if old(self).stage + 1 == old(self).total() {
                SetupStatus::Succeeded
            } else {
                SetupStatus::Running
            },
            final(self).vertex_shader == old(self).vertex_shader,
            final(self).fragment_shader == old(self).fragment_shader,
            final(self).program == old(self).program,
            final(self).vao == old(self).vao,
            final(self).vbo == old(self).vbo,
            final(self).message@.len() == 0,
            final(self).release@.len() == 0,
    {
        self.stage = self.stage + 1;
        if self.stage == FIXED_STAGES + 2 * self.layout.len() + 1 {
            self.status = SetupStatus::Succeeded;
        }
    }

    /// The calls that release the buffer, the vertex array and the program,
    /// as far as stage `k` has them.
    fn held(&self, k: usize) -> (release: Vec<Command>)
        requires
            3 <= k,
        ensures
            release@ == self.held_at(k as int),
    {
        let mut release: Vec<Command> = Vec::new();
        if k > 7 {
            release.push(Command::DeleteBuffer { vbo: self.vbo });
        }
        if k > 5 {
            release.push(Command::DeleteVertexArray { vao: self.vao });
        }
        release.push(remove_program(self.program));
        assert(release@ =~= self.held_at(k as int));
        release
    }

    /// Takes in the backend's answer to the call that is due.  A healthy
    /// answer moves the setup one stage on, and past the last stage to
    /// success.  Any other answer stops it.
    pub fn advance(&mut self, reply: Reply)
        requires
            old(self).wf(),
            old(self).status == SetupStatus::Running,
        ensures
            final(self).wf(),
            old(self).healthy(old(self).stage as int, reply) ==> final(self).follows(
                *old(self),
                reply,
            ),
            !old(self).healthy(old(self).stage as int, reply) ==> final(self).stopped(
                *old(self),
                reply,
            ),
    {
        let k = self.stage;
        let ghost before = *self;
        if k == 0 {
            let name = reply.name;
            match compile_shader(reply.name, reply.status, reply.log) {
                Ok(shader) => {
                    self.vertex_shader = shader;
                    self.proceed();
                },
                Err(message) => {
                    let mut release: Vec<Command> = Vec::new();
                    release.push(Command::DeleteShader { shader: name });
                    assert(release@ =~= before.release_after(0, reply));
                    self.fail(message, release);
                },
            }
        } else if k == 1 {
            let name = reply.name;
            match compile_shader(reply.name, reply.status, reply.log) {
                Ok(shader) => {
                    self.fragment_shader = shader;
                    self.proceed();
                },
                Err(message) => {
                    let mut release: Vec<Command> = Vec::new();
                    release.push(Command::DeleteShader { shader: name });
                    release.push(Command::DeleteShader { shader: self.vertex_shader });
                    assert(release@ =~= before.release_after(1, reply));
                    self.fail(message, release);
                },
            }
        } else if k == 2 {
            let name = reply.name;
            match link_program(reply.name, reply.status, reply.log) {
                Ok(program) => {
                    self.program = program;
                    self.proceed();
                },
                Err(message) => {
                    let mut release: Vec<Command> = Vec::new();
                    release.push(remove_shader(name, self.vertex_shader));
                    release.push(remove_shader(name, self.fragment_shader));
                    release.push(remove_program(name));
                    assert(release@ =~= before.release_after(2, reply));
                    self.fail(message, release);
                },
            }
        } else if k < 5 || k == FIXED_STAGES + 2 * self.layout.len() {
            self.proceed();
        } else {
            match check_error(reply.error) {
                Ok(()) => {
                    if k == 5 {
                        self.vao = reply.name;
                    } else if k == 7 {
                        self.vbo = reply.name;
                    }
                    self.proceed();
                },
                Err(message) => {
                    let release = self.held(k);
                    assert(release@ == before.release_after(k as int, reply));
                    self.fail(message, release);
                },
            }
        }
    }

    /// What a setup that succeeded has built.
    pub fn resource(&self) -> (r: GlResource)
        requires
            self.wf(),
            self.status == SetupStatus::Succeeded,
        ensures
            r == self.built(),
    {
        GlResource {
            shader_program: self.program,
            vao: self.vao,
            vbo: self.vbo,
            indice_num: self.mesh.vertex_count() as i32,
        }
    }
}

/// Whether `states` are the states that a setup passes through while it
/// takes in `replies`, one after the other: every reply finds the setup
/// running and leaves it as [`Setup::advance`] says.
pub open spec fn is_run(states: Seq<Setup>, replies: Seq<Reply>) -> bool {
    &&& states.len() == replies.len() + 1
    &&& forall|i: int|
        0 <= i < replies.len() ==> {
            &&& states[i].wf()
            &&& states[i].status == SetupStatus::Running
            &&& if states[i].healthy(states[i].stage as int, #[trigger] replies[i]) {
                states[i + 1].follows(states[i], replies[i])
            } else {
                states[i + 1].stopped(states[i], replies[i])
            }
        }
}

/// Whether `s` is a setup on which nothing has been called.
pub open spec fn is_fresh(s: Setup) -> bool {
    &&& s.wf()
    &&& s.stage == 0
    &&& s.status == SetupStatus::Running
}

/// After `j` healthy replies a setup stands at stage `j`, and holds the names
/// that the replies brought as far as the calls that create them have been
/// made.
pub proof fn lemma_healthy_prefix(states: Seq<Setup>, replies: Seq<Reply>, j: int)
    requires
        is_run(states, replies),
        is_fresh(states[0]),
        0 <= j <= replies.len(),
        forall|i: int| 0 <= i < j ==> states[0].healthy(i, #[trigger] replies[i]),
    ensures
        states[j].same_task(states[0]),
        states[j].stage == j,
        j <= states[0].total(),
        j > 0 ==> states[j].vertex_shader == replies[0].name,
        j > 1 ==> states[j].fragment_shader == replies[1].name,
        j > 2 ==> states[j].program == replies[2].name,
        j > 5 ==> states[j].vao == replies[5].name,
        j > 7 ==> states[j].vbo == replies[7].name,
    decreases j,
{
    if j > 0 {
        lemma_healthy_prefix(states, replies, j - 1);
        let before = states[j - 1];
        let reply = replies[j - 1];
        assert(before.healthy(j - 1, reply) == states[0].healthy(j - 1, reply));
        assert(states[j].follows(before, reply));
    }
}

/// A setup whose every call is answered well succeeds after the last call.
/// What it has built bears the names that the backend gave, and each call that
/// was due on the way is the call that the finished setup lists for that stage.
pub proof fn lemma_healthy_run_succeeds(states: Seq<Setup>, replies: Seq<Reply>)
    requires
        is_run(states, replies),
        is_fresh(states[0]),
        replies.len() == states[0].total(),
        forall|i: int| 0 <= i < replies.len() ==> states[0].healthy(i, #[trigger] replies[i]),
    ensures
        states.last().status == SetupStatus::Succeeded,
        states.last().same_task(states[0]),
        states.last().program == replies[2].name,
        states.last().vao == replies[5].name,
        states.last().vbo == replies[7].name,
        forall|i: int|
            0 <= i < replies.len() ==> (#[trigger] states[i]).command_at(states[i].stage as int)
                == states.last().command_at(i),
{
    let n = replies.len() as int;
    lemma_healthy_prefix(states, replies, n);
    let last_reply = replies[n - 1];
    assert(states[0].healthy(n - 1, last_reply));
    lemma_healthy_prefix(states, replies, n - 1);
    assert(states[n - 1].healthy(n - 1, last_reply) == states[0].healthy(n - 1, last_reply));
    assert(states[n].follows(states[n - 1], last_reply));
    assert forall|i: int| 0 <= i < replies.len() implies (#[trigger] states[i]).command_at(
        states[i].stage as int,
    ) == states.last().command_at(i) by {
        lemma_healthy_prefix(states, replies, i);
    }
}

/// A setup stops at the first call that is answered badly: it has failed
/// with the message of that answer, and lists the calls that hand back the
/// names that the earlier answers brought.
pub proof fn lemma_first_failure_stops(states: Seq<Setup>, replies: Seq<Reply>)
    requires
        is_run(states, replies),
        is_fresh(states[0]),
        replies.len() > 0,
        forall|i: int| 0 <= i < replies.len() - 1 ==> states[0].healthy(i, #[trigger] replies[i]),
        !states[0].healthy(replies.len() - 1, replies.last()),
    ensures
        states.last().status == SetupStatus::Failed,
        states.last().message@ == states[0].failure_text(replies.len() - 1, replies.last()),
        states.last().release@ == states.last().release_after(
            replies.len() - 1,
            replies.last(),
        ),
        replies.len() > 1 ==> states.last().vertex_shader == replies[0].name,
        replies.len() > 2 ==> states.last().fragment_shader == replies[1].name,
        replies.len() > 3 ==> states.last().program == replies[2].name,
        replies.len() > 6 ==> states.last().vao == replies[5].name,
        replies.len() > 8 ==> states.last().vbo == replies[7].name,
{
    let j = replies.len() - 1;
    lemma_healthy_prefix(states, replies, j);
    let before = states[j];
    assert(before.healthy(j, replies[j]) == states[0].healthy(j, replies[j]));
    assert(states[j + 1].stopped(before, replies[j]));
}

} // verus!
