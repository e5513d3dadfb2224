//! The calls that the graphics backend receives, and what it answers.
//!
//! A [`Command`] names one call with its arguments.  The application makes
//! the call and hands back a [`Reply`].  Nothing here touches the device.

use vstd::prelude::*;
use crate::vector::{Vector3, UNIT};

verus! {

/// Bytes in one component of a vertex attribute.
pub const FLOAT_SIZE: usize = 4;

/// Most attributes that a vertex may have.
pub const MAX_ATTRIBUTES: usize = 16;

/// Most components that an attribute may have.
pub const MAX_COMPONENTS: u8 = 4;

/// The two stages of a shader program.
#[derive(Clone, Copy, Debug, PartialEq, Eq, Structural)]
pub enum ShaderKind {
    Vertex,
    Fragment,
}

/// The shapes that the scene can show.  Each has a shader pair and a mesh of
/// its own.
#[derive(Clone, Copy, Debug, PartialEq, Eq, Structural)]
pub enum Shape {
    /// The four-pointed star.
    Star,
    /// The ring that marks the place of the light.
    LightGizmo,
    /// A single triangle.
    Triangle,
}

/// How the vertices of a draw call are joined.
#[derive(Clone, Copy, Debug, PartialEq, Eq, Structural)]
pub enum Topology {
    Triangles,
    LineLoop,
}

/// The uniforms that the shaders declare.
#[derive(Clone, Copy, Debug, PartialEq, Eq, Structural)]
pub enum UniformName {
    /// The direction from the star to the light.
    DirectionToLight,
    /// The transformation of the light's ring.
    Mvp,
}

impl UniformName {
    /// The uniform's name in the shader text.
    pub open spec fn spec_text(self) -> Seq<char> {
        match self {
            UniformName::DirectionToLight => "direction_to_light"@,
            UniformName::Mvp => "mvp"@,
        }
    }

    /// The uniform's name in the shader text.
    pub fn text(&self) -> (name: String)
        ensures
            name@ == self.spec_text(),
    {
        match self {
            UniformName::DirectionToLight => "direction_to_light".to_string(),
            UniformName::Mvp => "mvp".to_string(),
        }
    }
}

/// Where one attribute lies in a buffer of interleaved vertices.
#[derive(Clone, Copy, Debug, PartialEq, Eq, Structural)]
pub struct Attribute {
    /// The attribute's slot in the vertex shader.
    pub slot: u32,
    /// How many components it has.
    pub components: i32,
    /// Bytes from one vertex to the next.
    pub stride: i32,
    /// Bytes from the start of a vertex to this attribute.
    pub offset: usize,
}

/// One call to the backend.
#[derive(Clone, Copy, Debug, PartialEq, Eq, Structural)]
pub enum Command {
    /// Create a shader of `kind` from the source that belongs to `shape` and
    /// compile it.  Answered by the shader's name, the compile status and the log.
    CompileShader { shape: Shape, kind: ShaderKind },
    /// Create a program, attach both shaders and link it.  Answered by the
    /// program's name, the link status and the log.
    LinkProgram { vertex_shader: u32, fragment_shader: u32 },
    /// Detach `shader` from `program` and delete it.
    RemoveShader { program: u32, shader: u32 },
    /// Delete a shader that belongs to no program.
    DeleteShader { shader: u32 },
    /// Delete a program.
    RemoveProgram { program: u32 },
    /// Create a vertex array.  Answered by its name.
    GenVertexArray,
    /// Make `vao` the current vertex array; zero makes none current.
    BindVertexArray { vao: u32 },
    /// Create a buffer.  Answered by its name.
    GenBuffer,
    /// Make `vbo` the current array buffer.
    BindBuffer { vbo: u32 },
    /// Fill the current array buffer with the mesh of `shape`:
    /// `vertex_count` vertices, `byte_size` bytes in all, never to change.
    BufferData { shape: Shape, vertex_count: i32, byte_size: usize },
    /// Switch on the attribute in `slot`.
    EnableVertexAttribArray { slot: u32 },
    /// Say where an attribute lies in the current array buffer; its
    /// components are floating-point numbers, taken as they are.
    VertexAttribPointer { attribute: Attribute },
    /// Delete a buffer.
    DeleteBuffer { vbo: u32 },
    /// Delete a vertex array.
    DeleteVertexArray { vao: u32 },
    /// Make `program` the current program; zero makes none current.
    UseProgram { program: u32 },
    /// Look up where `name` lies in `program` and keep the place for the
    /// next command.
    LocateUniform { program: u32, name: UniformName },
    /// Set the uniform that was located last to a vector.
    SetVector { value: Vector3 },
    /// Set the uniform that was located last to the matrix that moves every
    /// point by `translation`.
    SetTranslation { translation: Vector3 },
    /// Draw `count` vertices of the current vertex array, from `first` on.
    DrawArrays { topology: Topology, first: i32, count: i32 },
    /// Fill the frame with white.
    ClearScreen,
    /// Send every command on its way.
    Flush,
    /// Show the frame that was drawn.
    SwapBuffers,
    /// Leave the processor alone for a while.
    Sleep { milliseconds: u32 },
}

/// One call and whether the error flag is read after it.
#[derive(Clone, Copy, Debug, PartialEq, Eq, Structural)]
pub struct Step {
    pub command: Command,
    pub checked: bool,
}

/// Where an object stands between its creation and its end.
#[derive(Clone, Copy, Debug, PartialEq, Eq, Structural)]
pub enum Phase {
    /// Created; it holds nothing on the backend.
    Uninitialized,
    /// Set up; it can be updated and drawn.
    Ready,
    /// Closed; what it held has been handed back.
    Closed,
}

/// The names of what an object holds on the backend.  Zero names nothing.
#[derive(Clone, Copy, Debug, PartialEq, Eq, Structural)]
pub struct GlResource {
    pub shader_program: u32,
    pub vao: u32,
    pub vbo: u32,
    /// How many vertices the buffer holds.
    pub indice_num: i32,
}

impl GlResource {
    /// The resource that names nothing.
    pub open spec fn spec_empty() -> GlResource {
        GlResource { shader_program: 0, vao: 0, vbo: 0, indice_num: 0 }
    }

    /// The resource that names nothing.
    pub fn empty() -> (r: GlResource)
        ensures
            r == GlResource::spec_empty(),
    {
        GlResource { shader_program: 0, vao: 0, vbo: 0, indice_num: 0 }
    }

    /// The commands that hand back what the resource names: the buffer, the
    /// vertex array, the program.
    pub open spec fn spec_release(self) -> Seq<Command> {
        seq![
            Command::DeleteBuffer { vbo: self.vbo },
            Command::DeleteVertexArray { vao: self.vao },
            Command::RemoveProgram { program: self.shader_program },
        ]
    }

    /// Appends the commands that hand back what the resource names.
    pub fn release_into(&self, commands: &mut Vec<Command>)
        ensures
            final(commands)@ == old(commands)@ + self.spec_release(),
    {
        commands.push(Command::DeleteBuffer { vbo: self.vbo });
        commands.push(Command::DeleteVertexArray { vao: self.vao });
        commands.push(crate::glutil::remove_program(self.shader_program));
        assert(commands@ =~= old(commands)@ + self.spec_release());
    }
}

/// What the backend reported after a command.  A field that the command does
/// not answer is not read.
#[derive(Clone, Debug, PartialEq, Eq)]
pub struct Reply {
    /// The name of what was created.
    pub name: u32,
    /// The compile or link status.
    pub status: i32,
    /// The compile or link log, without the zero byte that ends it.
    pub log: Vec<u8>,
    /// The error flag, read after the call.
    pub error: u32,
}

/// The components that come before attribute `n` in a vertex whose
/// attributes have `counts` components.
pub open spec fn components_before(counts: Seq<u8>, n: int) -> int
    decreases n,
{
    if n <= 0 {
        0
    } else {
        components_before(counts, n - 1) + counts[n - 1] as int
    }
}

/// Whether `counts` can be the attributes of a vertex.
pub open spec fn valid_counts(counts: Seq<u8>) -> bool {
    &&& counts.len() <= MAX_ATTRIBUTES
    &&& forall|i: int| 0 <= i < counts.len() ==> 1 <= #[trigger] counts[i] <= MAX_COMPONENTS
}

/// Attribute `i` of a vertex whose attributes have `counts` components, one
/// after the other without gaps: slot `i`, after the bytes of all attributes
/// before it, in a vertex as long as all attributes together.
pub open spec fn attribute_at(counts: Seq<u8>, i: int) -> Attribute {
    Attribute {
        slot: i as u32,
        components: counts[i] as i32,
        stride: (FLOAT_SIZE * components_before(counts, counts.len() as int)) as i32,
        offset: (FLOAT_SIZE * components_before(counts, i)) as usize,
    }
}

/// The layout of a vertex whose attributes have `counts` components.
pub open spec fn layout_of(counts: Seq<u8>) -> Seq<Attribute> {
    Seq::new(counts.len(), |i: int| attribute_at(counts, i))
}

/// The components before an attribute are at most four for each attribute
/// before it, and no fewer than those before an earlier attribute.
pub proof fn lemma_components_before(counts: Seq<u8>, n: int)
    requires
        valid_counts(counts),
        0 <= n <= counts.len(),
    ensures
        n <= components_before(counts, n) <= MAX_COMPONENTS * n,
        forall|m: int| 0 <= m <= n ==> components_before(counts, m) <= components_before(counts, n),
    decreases n,
{
    if n > 0 {
        lemma_components_before(counts, n - 1);
    }
}

/// The components of a whole vertex.
pub fn vertex_components(counts: &Vec<u8>) -> (total: usize)
    requires
        valid_counts(counts@),
    ensures
        total == components_before(counts@, counts@.len() as int),
{
    let mut total: usize = 0;
    let mut i: usize = 0;
    while i < counts.len()
        invariant
            valid_counts(counts@),
            0 <= i <= counts@.len(),
            total == components_before(counts@, i as int),
        decreases counts@.len() - i,
    {
        proof {
            lemma_components_before(counts@, i as int);
        }
        total = total + counts[i] as usize;
        i = i + 1;
    }
    total
}

/// The layout of a vertex whose attributes have `counts` components.
pub fn attribute_layout(counts: &Vec<u8>) -> (layout: Vec<Attribute>)
    requires
        valid_counts(counts@),
    ensures
        layout@ == layout_of(counts@),
{
    let total = vertex_components(counts);
    proof {
        lemma_components_before(counts@, counts@.len() as int);
    }
    let stride: i32 = (FLOAT_SIZE * total) as i32;
    let mut layout: Vec<Attribute> = Vec::new();
    let mut before: usize = 0;
    let mut i: usize = 0;
    while i < counts.len()
        invariant
            valid_counts(counts@),
            0 <= i <= counts@.len(),
            before == components_before(counts@, i as int),
            stride == FLOAT_SIZE * components_before(counts@, counts@.len() as int),
            layout@.len() == i,
            forall|j: int| 0 <= j < i ==> layout@[j] == attribute_at(counts@, j),
        decreases counts@.len() - i,
    {
        proof {
            lemma_components_before(counts@, i as int);
        }
        layout.push(
            Attribute {
                slot: i as u32,
                components: counts[i] as i32,
                stride,
                offset: FLOAT_SIZE * before,
            },
        );
        before = before + counts[i] as usize;
        i = i + 1;
    }
    assert(layout@ =~= layout_of(counts@));
    layout
}

/// The sixteen entries of the matrix that moves every point by
/// `translation`, column after column, each in grid steps: the unit matrix
/// with the translation in its last column.
pub open spec fn translation_entries(translation: Vector3) -> Seq<i64> {
    seq![
        UNIT, 0, 0, 0,
        0, UNIT, 0, 0,
        0, 0, UNIT, 0,
        translation.x, translation.y, translation.z, UNIT,
    ]
}

/// The entries of the matrix that moves every point by `translation`.
pub fn translation_matrix(translation: Vector3) -> (entries: Vec<i64>)
    ensures
        entries@ == translation_entries(translation),
{
    let entries = vec![
        UNIT, 0, 0, 0,
        0, UNIT, 0, 0,
        0, 0, UNIT, 0,
        translation.x, translation.y, translation.z, UNIT,
    ];
    assert(entries@ =~= translation_entries(translation));
    entries
}

} // verus!
