//! A single triangle, with shaders that are read from files.

use vstd::prelude::*;
use vstd::string::StringExecFns;
use crate::backend::{Attribute, Command, GlResource, Phase, Step, Topology};
use crate::mesh::Mesh;
use crate::setup::{is_fresh, Setup, SetupStatus};
use crate::vector::Vector4;

verus! {

/// Where the shaders of a [`DrawObject`] are found.
#[derive(Clone, Copy, Debug)]
pub struct DrawObjectParameter<'a> {
    pub fragment_shader_path: &'a str,
    pub vertex_shader_path: &'a str,
}

/// The triangle and what it holds on the backend.
#[derive(Clone, Copy, Debug, PartialEq, Eq, Structural)]
pub struct DrawObject {
    pub shader_program: u32,
    pub vao: u32,
    pub vbo: u32,
    pub phase: Phase,
}

/// The corners of the triangle: three quarters of a unit from the centre,
/// top right, bottom right and bottom left.
pub open spec fn triangle_corners() -> Seq<Vector4> {
    seq![
        Vector4 { x: 750, y: 750, z: 0, w: 1000 },
        Vector4 { x: 750, y: -750i64, z: 0, w: 1000 },
        Vector4 { x: -750i64, y: -750i64, z: 0, w: 1000 },
    ]
}

/// The one attribute of the triangle: four components in slot 0, packed
/// without gaps, which a stride of zero says.
pub open spec fn triangle_layout() -> Seq<Attribute> {
    seq![Attribute { slot: 0, components: 4, stride: 0, offset: 0 }]
}

/// What comes of reading the two shader files: both texts, or the message of
/// the first that could not be read, the vertex shader's before the fragment
/// shader's.
pub open spec fn sources_read(
    vertex: Result<String, String>,
    fragment: Result<String, String>,
) -> Result<(Seq<char>, Seq<char>), Seq<char>> {
    match vertex {
        Err(e) => Err("Failed reading vertex shader: "@ + e@),
        Ok(v) => match fragment {
            Err(e) => Err("Failed reading fragment shader: "@ + e@),
            Ok(f) => Ok((v@, f@)),
        },
    }
}

/// The characters of what [`read_sources`] returns.
pub open spec fn read_view(r: Result<(String, String), String>) -> Result<
    (Seq<char>, Seq<char>),
    Seq<char>,
> {
    match r {
        Ok((v, f)) => Ok((v@, f@)),
        Err(e) => Err(e@),
    }
}

/// Takes in what came of reading the two shader files, each its text or the
/// description of what went wrong.
pub fn read_sources(vertex: Result<String, String>, fragment: Result<String, String>) -> (r:
    Result<(String, String), String>)
    ensures
        read_view(r) == sources_read(vertex, fragment),
{
    let vss = match vertex {
        Ok(s) => s,
        Err(e) => return Err("Failed reading vertex shader: ".to_string().concat(e.as_str())),
    };
    let fss = match fragment {
        Ok(s) => s,
        Err(e) => return Err("Failed reading fragment shader: ".to_string().concat(e.as_str())),
    };
    Ok((vss, fss))
}

/// The corners of the triangle.
pub fn triangle_vertices() -> (corners: Vec<Vector4>)
    ensures
        corners@ == triangle_corners(),
{
    let mut corners: Vec<Vector4> = Vec::new();
    corners.push(Vector4::new(750, 750, 0, 1000));
    corners.push(Vector4::new(750, -750, 0, 1000));
    corners.push(Vector4::new(-750, -750, 0, 1000));
    assert(corners@ =~= triangle_corners());
    corners
}

impl DrawObject {
    /// The triangle holds something on the backend only while it is ready.
    pub open spec fn wf(self) -> bool {
        self.phase != Phase::Ready ==> self.shader_program == 0 && self.vao == 0 && self.vbo == 0
    }

    /// Whether the triangle has been set up and has not been closed.
    pub open spec fn ready(self) -> bool {
        self.wf() && self.phase == Phase::Ready
    }

    /// The calls of one draw: the program is used, the vertex array is bound
    /// and its three vertices are drawn as a triangle, with the error flag
    /// read after each.  Then vertex array and program are let go.
    pub open spec fn draw_steps(self) -> Seq<Step> {
        seq![
            Step { command: Command::UseProgram { program: self.shader_program }, checked: true },
            Step { command: Command::BindVertexArray { vao: self.vao }, checked: true },
            Step {
                command: Command::DrawArrays { topology: Topology::Triangles, first: 0, count: 3 },
                checked: true,
            },
            Step { command: Command::BindVertexArray { vao: 0 }, checked: false },
            Step { command: Command::UseProgram { program: 0 }, checked: false },
        ]
    }

    /// The calls that hand back what the triangle holds.
    pub open spec fn spec_release(self) -> Seq<Command> {
        seq![
            Command::DeleteBuffer { vbo: self.vbo },
            Command::DeleteVertexArray { vao: self.vao },
            Command::RemoveProgram { program: self.shader_program },
        ]
    }

    /// A triangle that holds nothing yet.
    pub fn new() -> (object: DrawObject)
        ensures
            object == (DrawObject {
                shader_program: 0,
                vao: 0,
                vbo: 0,
                phase: Phase::Uninitialized,
            }),
            object.wf(),
    {
        DrawObject { shader_program: 0, vao: 0, vbo: 0, phase: Phase::Uninitialized }
    }

    /// The setup of the triangle: it stores the three corners, of four
    /// components each.
    pub fn begin_init(&self) -> (setup: Setup)
        ensures
            is_fresh(setup),
            setup.mesh matches Mesh::Triangle(corners) && corners@ == triangle_corners(),
            setup.layout@ == triangle_layout(),
    {
        let mut layout: Vec<Attribute> = Vec::new();
        layout.push(Attribute { slot: 0, components: 4, stride: 0, offset: 0 });
        assert(layout@ =~= triangle_layout());
        let corners = triangle_vertices();
        Setup::new(Mesh::Triangle(corners), layout)
    }

    /// Ends the setup.  Where it succeeded the triangle takes what was built
    /// and is ready.  Where it failed the triangle stays as it was and the
    /// setup's message is returned.
    pub fn init(&mut self, setup: &Setup) -> (r: Result<(), String>)
        requires
            old(self).wf(),
            old(self).phase == Phase::Uninitialized,
            setup.wf(),
            setup.status != SetupStatus::Running,
        ensures
            setup.status == SetupStatus::Succeeded ==> r is Ok && *final(self) == (DrawObject {
                shader_program: setup.program,
                vao: setup.vao,
                vbo: setup.vbo,
                phase: Phase::Ready,
            }),
            setup.status == SetupStatus::Failed ==> r is Err && r->Err_0@ == setup.message@
                && *final(self) == *old(self),
    {
        match setup.status {
            SetupStatus::Succeeded => {
                let built: GlResource = setup.resource();
                self.shader_program = built.shader_program;
                self.vao = built.vao;
                self.vbo = built.vbo;
                self.phase = Phase::Ready;
                Ok(())
            },
            _ => Err(setup.message.clone()),
        }
    }

    /// The calls of one draw of the triangle.
    pub fn draw(&self) -> (steps: Vec<Step>)
        requires
            self.ready(),
        ensures
            steps@ == self.draw_steps(),
    {
        let mut steps: Vec<Step> = Vec::new();
        steps.push(
            Step { command: Command::UseProgram { program: self.shader_program }, checked: true },
        );
        steps.push(Step { command: Command::BindVertexArray { vao: self.vao }, checked: true });
        steps.push(
            Step {
                command: Command::DrawArrays { topology: Topology::Triangles, first: 0, count: 3 },
                checked: true,
            },
        );
        steps.push(Step { command: Command::BindVertexArray { vao: 0 }, checked: false });
        steps.push(Step { command: Command::UseProgram { program: 0 }, checked: false });
        assert(steps@ =~= self.draw_steps());
        steps
    }

    /// Closes the triangle: returns the calls that hand back the buffer, the
    /// vertex array and the program, and forgets their names.
    pub fn close(&mut self) -> (release: Vec<Command>)
        ensures
            release@ == old(self).spec_release(),
            *final(self) == (DrawObject {
                shader_program: 0,
                vao: 0,
                vbo: 0,
                phase: Phase::Closed,
            }),
    {
        let mut release: Vec<Command> = Vec::new();
        release.push(Command::DeleteBuffer { vbo: self.vbo });
        release.push(Command::DeleteVertexArray { vao: self.vao });
        release.push(Command::RemoveProgram { program: self.shader_program });
        assert(release@ =~= self.spec_release());
        self.shader_program = 0;
        self.vbo = 0;
        self.vao = 0;
        self.phase = Phase::Closed;
        release
    }
}

} // verus!
