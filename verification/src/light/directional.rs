//! The light of the scene, and the ring that shows where it is.

use vstd::prelude::*;
use crate::backend::{
    attribute_layout, layout_of, Command, GlResource, Phase, Step, Topology, UniformName,
};
use crate::control::State;
use crate::game::Object;
use crate::mesh::Mesh;
use crate::geometry::Color;
use crate::setup::{is_fresh, Setup, SetupStatus};
use crate::vector::{difference, representable, sub_v, sum_fits, Point, Vector3};

verus! {

/// How far the light moves along an axis in one update.
pub const DELTA: i64 = 10;

/// The corners of the light's ring.
pub const RING_DIVISIONS: u32 = 8;

/// The radius of the light's ring.
pub const RING_RADIUS: i64 = 30;

/// A point of the base plane, given by its distance from the origin and its
/// angle: `step` parts of a full turn that is divided into `divisions`,
/// counted from the `x` axis towards the `y` axis.
#[derive(Clone, Copy, Debug, PartialEq, Eq, Structural)]
pub struct PolarPoint {
    pub radius: i64,
    pub step: u32,
    pub divisions: u32,
}

/// A vertex of the light's ring.
#[derive(Clone, Copy, Debug, PartialEq, Eq, Structural)]
pub struct Vertex {
    pub position: PolarPoint,
    pub diffuse_color: Color,
}

impl Vertex {
    /// The vertex with the given position and colour.
    pub fn new(pos: PolarPoint, diffuse: Color) -> (v: Vertex)
        ensures
            v == (Vertex { position: pos, diffuse_color: diffuse }),
    {
        Vertex { position: pos, diffuse_color: diffuse }
    }
}

/// The colour of the ring: red.
pub open spec fn ring_diffuse() -> Color {
    Color { red: 1000, green: 0, blue: 0, alpha: 1000 }
}

/// Corner `i` of the ring.
pub open spec fn ring_vertex(i: int) -> Vertex {
    Vertex {
        position: PolarPoint { radius: RING_RADIUS, step: i as u32, divisions: RING_DIVISIONS },
        diffuse_color: ring_diffuse(),
    }
}

/// The corners of the ring, evenly spread over a full turn.
pub open spec fn ring_vertices() -> Seq<Vertex> {
    Seq::new(RING_DIVISIONS as nat, |i: int| ring_vertex(i))
}

/// The components of the attributes of a ring vertex.
pub open spec fn ring_counts() -> Seq<u8> {
    seq![3u8, 4u8]
}

/// The light: where it is and what it holds on the backend.
#[derive(Clone, Copy, Debug, PartialEq, Eq, Structural)]
pub struct Light {
    pub position: Vector3,
    pub resource: GlResource,
    pub phase: Phase,
}

/// Where a light at `position` stands after one update under the keys of
/// `cs`: `DELTA` up or down for the keys up and down, `DELTA` to the left or
/// right for the keys left and right.  Keys of opposite sense cancel.
pub open spec fn stepped(position: Point, cs: State) -> Point {
    Point {
        x: position.x - (if cs.move_left { DELTA as int } else { 0 }) + (if cs.move_right {
            DELTA as int
        } else {
            0
        }),
        y: position.y + (if cs.move_up { DELTA as int } else { 0 }) - (if cs.move_down {
            DELTA as int
        } else {
            0
        }),
        z: position.z,
    }
}

impl Light {
    /// The light holds something on the backend only while it is ready.
    pub open spec fn wf(self) -> bool {
        self.phase != Phase::Ready ==> self.resource == GlResource::spec_empty()
    }

    /// The light once it is closed: where it was, and holding nothing.
    pub open spec fn after_close(self) -> Light {
        Light { resource: GlResource::spec_empty(), phase: Phase::Closed, ..self }
    }

    /// The calls of one draw of the ring: the program is used, the uniform
    /// `mvp` is located and set to the translation to the light's place, the
    /// vertex array is bound and drawn as a closed line.  The error flag is
    /// read after each of these.  Then vertex array and program are let go.
    pub open spec fn draw_steps(self) -> Seq<Step> {
        let r = self.resource;
        seq![
            Step { command: Command::UseProgram { program: r.shader_program }, checked: true },
            Step {
                command: Command::LocateUniform {
                    program: r.shader_program,
                    name: UniformName::Mvp,
                },
                checked: true,
            },
            Step { command: Command::SetTranslation { translation: self.position }, checked: true },
            Step { command: Command::BindVertexArray { vao: r.vao }, checked: true },
            Step {
                command: Command::DrawArrays {
                    topology: Topology::LineLoop,
                    first: 0,
                    count: r.indice_num,
                },
                checked: true,
            },
            Step { command: Command::BindVertexArray { vao: 0 }, checked: false },
            Step { command: Command::UseProgram { program: 0 }, checked: false },
        ]
    }

    /// Whether the light is well formed.
    pub fn is_well_formed(&self) -> (ok: bool)
        ensures
            ok == self.wf(),
    {
        self.phase == Phase::Ready || (self.resource.shader_program == 0 && self.resource.vao == 0
            && self.resource.vbo == 0 && self.resource.indice_num == 0)
    }

    /// Whether the light has been set up and has not been closed.
    pub fn is_ready(&self) -> (ok: bool)
        ensures
            ok == self.ready(),
    {
        self.phase == Phase::Ready
    }

    /// Whether the coordinates of the light can hold where an update under
    /// the keys of `cs` takes it.
    pub fn is_updatable(&self, cs: &State) -> (ok: bool)
        ensures
            ok == self.updatable(*cs),
    {
        sum_fits(self.position.x, step(cs.move_right, cs.move_left)) && sum_fits(
            self.position.y,
            step(cs.move_up, cs.move_down),
        )
    }

    /// Where an update under the keys of `cs` takes the light.
    pub fn next_position(&self, cs: &State) -> (p: Vector3)
        requires
            self.updatable(*cs),
        ensures
            p@ == stepped(self.position@, *cs),
    {
        let dx = step(cs.move_right, cs.move_left);
        let dy = step(cs.move_up, cs.move_down);
        Vector3::new(self.position.x + dx, self.position.y + dy, self.position.z)
    }

    /// A light at `position` that holds nothing yet.
    pub fn new(position: Vector3) -> (light: Light)
        ensures
            light.wf(),
            light.position == position,
            light.resource == GlResource::spec_empty(),
            light.phase == Phase::Uninitialized,
    {
        Light { position, resource: GlResource::empty(), phase: Phase::Uninitialized }
    }

    /// The setup of the ring: it stores the eight corners of
    /// [`ring_vertices`], of seven components each.
    pub fn begin_init(&self) -> (setup: Setup)
        ensures
            is_fresh(setup),
            setup.mesh matches Mesh::Ring(vertices) && vertices@ == ring_vertices(),
            setup.layout@ == layout_of(ring_counts()),
    {
        let mut counts: Vec<u8> = Vec::new();
        counts.push(3);
        counts.push(4);
        assert(counts@ =~= ring_counts());
        let layout = attribute_layout(&counts);
        let mut vertices: Vec<Vertex> = Vec::new();
        calculate_vertices(&mut vertices);
        assert(vertices@ =~= ring_vertices());
        Setup::new(Mesh::Ring(vertices), layout)
    }

    /// Ends the light's setup.  Where the setup succeeded the light takes
    /// what was built and is ready.  Where it failed the light stays as it
    /// was and the setup's message is returned.
    pub fn init(&mut self, setup: &Setup) -> (r: Result<(), String>)
        requires
            old(self).wf(),
            old(self).phase == Phase::Uninitialized,
            setup.wf(),
            setup.status != SetupStatus::Running,
        ensures
            final(self).wf(),
            final(self).position == old(self).position,
            setup.status == SetupStatus::Succeeded ==> r is Ok && final(self).phase == Phase::Ready
                && final(self).resource == setup.built(),
            setup.status == SetupStatus::Failed ==> r is Err && r->Err_0@ == setup.message@
                && *final(self) == *old(self),
    {
        match setup.status {
            SetupStatus::Succeeded => {
                self.resource = setup.resource();
                self.phase = Phase::Ready;
                Ok(())
            },
            _ => Err(setup.message.clone()),
        }
    }

    /// The direction from `target` to the light.
    pub fn vector_from(&self, target: &Vector3) -> (v: Vector3)
        requires
            representable(difference(self.position@, target@)),
        ensures
            v@ == difference(self.position@, target@),
    {
        sub_v(self.position, *target)
    }

    /// Appends the calls of one draw of the ring.
    pub fn draw_into(&self, steps: &mut Vec<Step>)
        requires
            self.phase == Phase::Ready,
        ensures
            final(steps)@ == old(steps)@ + self.draw_steps(),
    {
        let r = &self.resource;
        steps.push(Step { command: Command::UseProgram { program: r.shader_program }, checked: true });
        steps.push(
            Step {
                command: Command::LocateUniform {
                    program: r.shader_program,
                    name: UniformName::Mvp,
                },
                checked: true,
            },
        );
        steps.push(
            Step { command: Command::SetTranslation { translation: self.position }, checked: true },
        );
        steps.push(Step { command: Command::BindVertexArray { vao: r.vao }, checked: true });
        steps.push(
            Step {
                command: Command::DrawArrays {
                    topology: Topology::LineLoop,
                    first: 0,
                    count: r.indice_num,
                },
                checked: true,
            },
        );
        steps.push(Step { command: Command::BindVertexArray { vao: 0 }, checked: false });
        steps.push(Step { command: Command::UseProgram { program: 0 }, checked: false });
        assert(steps@ =~= old(steps)@ + self.draw_steps());
    }

    /// Closes the light: returns the calls that hand back the buffer, the
    /// vertex array and the program, and forgets their names.
    pub fn close(&mut self) -> (release: Vec<Command>)
        ensures
            release@ == old(self).resource.spec_release(),
            *final(self) == old(self).after_close(),
    {
        let mut release: Vec<Command> = Vec::new();
        self.close_into(&mut release);
        release
    }

    /// Closes the light and appends the calls that hand back what it held.
    pub fn close_into(&mut self, release: &mut Vec<Command>)
        ensures
            final(release)@ == old(release)@ + old(self).resource.spec_release(),
            *final(self) == old(self).after_close(),
    {
        self.resource.release_into(release);
        self.resource = GlResource::empty();
        self.phase = Phase::Closed;
    }
}

impl Object for Light {
    open spec fn ready(&self) -> bool {
        self.wf() && self.phase == Phase::Ready
    }

    open spec fn updatable(&self, cs: State) -> bool {
        representable(stepped(self.position@, cs))
    }

    /// Moves the light by the keys that are held, one step of `DELTA` along
    /// each axis, as [`stepped`] says.  It never fails.
    fn update(&mut self, cs: &State) -> (r: Result<(), String>)
        ensures
            r is Ok,
            final(self).position@ == stepped(old(self).position@, *cs),
            final(self).resource == old(self).resource,
            final(self).phase == old(self).phase,
    {
        self.position = self.next_position(cs);
        Ok(())
    }

    /// The calls of one draw of the ring.
    fn draw(&self) -> (steps: Vec<Step>)
        ensures
            steps@ == self.draw_steps(),
    {
        let mut steps: Vec<Step> = Vec::new();
        self.draw_into(&mut steps);
        steps
    }
}

/// The step along an axis under the two keys of that axis: `DELTA` forth,
/// `DELTA` back, or none where both keys or neither are held.
fn step(forth: bool, back: bool) -> (d: i64)
    ensures
        d == (if forth { DELTA as int } else { 0 }) - (if back { DELTA as int } else { 0 }),
{
    let gain: i64 = if forth { DELTA } else { 0 };
    let loss: i64 = if back { DELTA } else { 0 };
    gain - loss
}

/// Appends the corners of the ring to `vertices`.
pub fn calculate_vertices(vertices: &mut Vec<Vertex>)
    ensures
        final(vertices)@ == old(vertices)@ + ring_vertices(),
{
    let diffuse = Color { red: 1000, green: 0, blue: 0, alpha: 1000 };
    let div: u32 = RING_DIVISIONS;
    let radius: i64 = RING_RADIUS;
    let mut i: u32 = 0;
    while i < div
        invariant
            0 <= i <= div,
            div == RING_DIVISIONS,
            radius == RING_RADIUS,
            diffuse == ring_diffuse(),
            vertices@ == old(vertices)@ + ring_vertices().subrange(0, i as int),
        decreases div - i,
    {
        let v = Vertex::new(PolarPoint { radius, step: i, divisions: div }, diffuse);
        vertices.push(v);
        assert(vertices@ =~= old(vertices)@ + ring_vertices().subrange(0, i + 1));
        i = i + 1;
    }
    assert(ring_vertices().subrange(0, RING_DIVISIONS as int) =~= ring_vertices());
}

/// Only a light that is ready can be updated and drawn: before it is set
/// up and after it is closed, what `update` and `draw` require does not hold.
pub proof fn lemma_light_needs_setup(light: Light)
    requires
        light.phase != Phase::Ready,
    ensures
        !light.ready(),
{
}

/// Closing leaves a light that is well formed and not ready.  It holds
/// nothing, so closing it again changes nothing and hands back only the
/// name that names nothing.
pub proof fn lemma_light_close_is_idempotent(light: Light)
    ensures
        light.after_close().wf(),
        !light.after_close().ready(),
        light.after_close().after_close() == light.after_close(),
        light.after_close().resource.spec_release() == GlResource::spec_empty().spec_release(),
{
}

/// Keys of one axis do not move the light along the other, opposite keys
/// cancel, and no key leaves the light where it is.
pub proof fn lemma_axes_are_independent(position: Point, cs: State)
    ensures
        stepped(position, cs).z == position.z,
        stepped(position, cs).x == stepped(
            position,
            State { move_up: false, move_down: false, ..cs },
        ).x,
        stepped(position, cs).y == stepped(
            position,
            State { move_left: false, move_right: false, ..cs },
        ).y,
        cs.move_up == cs.move_down ==> stepped(position, cs).y == position.y,
        cs.move_left == cs.move_right ==> stepped(position, cs).x == position.x,
        !cs.is_moving() ==> stepped(position, cs) == position,
        cs.move_up && cs.move_left && !cs.move_down && !cs.move_right ==> stepped(position, cs)
            == (Point { x: position.x - DELTA, y: position.y + DELTA, z: position.z }),
{
}

} // verus!
