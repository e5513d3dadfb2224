//! The star of the scene: a four-pointed star lit by a light of its own.

use vstd::prelude::*;
use crate::backend::{
    attribute_layout, layout_of, Command, GlResource, Phase, Reply, Step, Topology, UniformName,
};
use crate::control::State;
use crate::game::Object;
use crate::geometry::{generate_vertices, models, star_vertices, Geometry, STAR_VERTICES};
use crate::light::directional::{ring_counts, ring_vertices, stepped, Light};
use crate::mesh::Mesh;
use crate::setup::{is_fresh, Setup, SetupStatus};
use crate::vector::{difference, difference_fits, representable, Vector3};

verus! {

/// The components of the attributes of a star vertex.
pub open spec fn star_counts() -> Seq<u8> {
    seq![3u8, 3u8, 4u8]
}

/// The star with its light.
#[derive(Clone, Copy, Debug, PartialEq, Eq, Structural)]
pub struct ChristmasStar {
    pub geometry: Geometry,
    pub resource: GlResource,
    pub directional: Light,
    pub phase: Phase,
}

/// The parameters of the star that [`ChristmasStar::new`] makes.
pub open spec fn default_geometry() -> Geometry {
    Geometry {
        center: Vector3 { x: 0, y: 0, z: 0 },
        left_canyon_offset: Vector3 { x: 50, y: 100, z: 0 },
        right_canyon_offset: Vector3 { x: 100, y: 50, z: 0 },
        long_spike_length: 800,
        short_spike_length: 300,
        thickness: 100,
    }
}

/// Where the light of the star that [`ChristmasStar::new`] makes begins.
pub open spec fn default_light_position() -> Vector3 {
    Vector3 { x: 400, y: 500, z: 1000 }
}

/// The setup of a star: that of the star's own mesh, then that of its
/// light's ring.
#[derive(Debug)]
pub struct StarSetup {
    pub star: Setup,
    pub light: Setup,
}

impl StarSetup {
    /// Both setups are well formed, and the light's begins only when the
    /// star's has succeeded.
    pub open spec fn wf(self) -> bool {
        &&& self.star.wf()
        &&& self.light.wf()
        &&& self.star.status != SetupStatus::Succeeded ==> is_fresh(self.light)
    }

    /// How far the setup has come: failed as soon as either part has; running
    /// while a call of either part is due; succeeded when both have.
    pub open spec fn status(self) -> SetupStatus {
        if self.star.status == SetupStatus::Succeeded {
            self.light.status
        } else {
            self.star.status
        }
    }

    /// The call that is due.
    pub open spec fn spec_pending(self) -> Option<Command> {
        if self.star.status == SetupStatus::Running {
            Some(self.star.command_at(self.star.stage as int))
        } else if self.status() == SetupStatus::Running {
            Some(self.light.command_at(self.light.stage as int))
        } else {
            None
        }
    }

    /// Why the setup failed.
    pub open spec fn spec_message(self) -> Seq<char> {
        if self.star.status == SetupStatus::Succeeded {
            self.light.message@
        } else {
            self.star.message@
        }
    }

    /// The calls that hand back what a failed setup had been given.  Where
    /// the light's part failed, what the star's part had built goes back too.
    pub open spec fn spec_release(self) -> Seq<Command> {
        if self.star.status == SetupStatus::Succeeded {
            self.light.release@ + self.star.built().spec_release()
        } else {
            self.star.release@
        }
    }

    /// How far the setup has come.
    pub fn current_status(&self) -> (status: SetupStatus)
        ensures
            status == self.status(),
    {
        if self.star.status == SetupStatus::Succeeded {
            self.light.status
        } else {
            self.star.status
        }
    }

    /// The call that is due, or `None` when the setup has succeeded or failed.
    pub fn pending(&self) -> (next: Option<Command>)
        requires
            self.wf(),
        ensures
            next == self.spec_pending(),
    {
        if self.star.status == SetupStatus::Running {
            self.star.pending()
        } else if self.star.status == SetupStatus::Succeeded {
            self.light.pending()
        } else {
            None
        }
    }

    /// The mesh of the part whose call is due: the star's until its part has
    /// succeeded, the ring's from then on.
    pub fn pending_mesh(&self) -> (mesh: &Mesh)
        ensures
            *mesh == if self.star.status == SetupStatus::Succeeded {
                self.light.mesh
            } else {
                self.star.mesh
            },
    {
        if self.star.status == SetupStatus::Succeeded {
            &self.light.mesh
        } else {
            &self.star.mesh
        }
    }

    /// Whether the error flag is to be read after the call that is due.
    pub fn pending_checked(&self) -> (checked: bool)
        requires
            self.wf(),
        ensures
            checked == if self.star.status == SetupStatus::Running {
                self.star.checked_at(self.star.stage as int)
            } else {
                self.status() == SetupStatus::Running && self.light.checked_at(
                    self.light.stage as int,
                )
            },
    {
        if self.star.status == SetupStatus::Running {
            self.star.pending_checked()
        } else if self.star.status == SetupStatus::Succeeded {
            self.light.pending_checked()
        } else {
            false
        }
    }

    /// Takes in the backend's answer to the call that is due: the part whose
    /// call it was advances, the other part stays as it is.
    pub fn advance(&mut self, reply: Reply)
        requires
            old(self).wf(),
            old(self).status() == SetupStatus::Running,
        ensures
            final(self).wf(),
            old(self).star.status == SetupStatus::Running ==> final(self).light == old(self).light
                && if old(self).star.healthy(old(self).star.stage as int, reply) {
                final(self).star.follows(old(self).star, reply)
            } else {
                final(self).star.stopped(old(self).star, reply)
            },
            old(self).star.status != SetupStatus::Running ==> final(self).star == old(self).star
                && if old(self).light.healthy(old(self).light.stage as int, reply) {
                final(self).light.follows(old(self).light, reply)
            } else {
                final(self).light.stopped(old(self).light, reply)
            },
    {
        if self.star.status == SetupStatus::Running {
            self.star.advance(reply);
        } else {
            self.light.advance(reply);
        }
    }

    /// Why the setup failed.
    pub fn message(&self) -> (message: String)
        requires
            self.wf(),
            self.status() == SetupStatus::Failed,
        ensures
            message@ == self.spec_message(),
    {
        if self.star.status == SetupStatus::Succeeded {
            self.light.message.clone()
        } else {
            self.star.message.clone()
        }
    }

    /// The calls that hand back what a failed setup had been given.
    pub fn release(&self) -> (release: Vec<Command>)
        requires
            self.wf(),
            self.status() == SetupStatus::Failed,
        ensures
            release@ == self.spec_release(),
    {
        let mut release: Vec<Command> = Vec::new();
        let source = if self.star.status == SetupStatus::Succeeded {
            &self.light.release
        } else {
            &self.star.release
        };
        let mut i: usize = 0;
        while i < source.len()
            invariant
                0 <= i <= source@.len(),
                release@ == source@.subrange(0, i as int),
            decreases source@.len() - i,
        {
            release.push(source[i]);
            assert(release@ =~= source@.subrange(0, i + 1));
            i = i + 1;
        }
        assert(source@.subrange(0, source@.len() as int) =~= source@);
        if self.star.status == SetupStatus::Succeeded {
            self.star.resource().release_into(&mut release);
        }
        release
    }
}

impl ChristmasStar {
    /// The parameters are well formed, star and light share their phase,
    /// the star holds something on the backend only while it is ready, and
    /// the direction from the star's centre to the light can be held.
    pub open spec fn wf(self) -> bool {
        &&& self.geometry.wf()
        &&& self.directional.wf()
        &&& self.directional.phase == self.phase
        &&& self.phase != Phase::Ready ==> self.resource == GlResource::spec_empty()
        &&& representable(difference(self.directional.position@, self.geometry.center@))
    }

    /// The star once it is closed: its parameters and its light's place
    /// kept, and star and light holding nothing.
    pub open spec fn after_close(self) -> ChristmasStar {
        ChristmasStar {
            resource: GlResource::spec_empty(),
            directional: self.directional.after_close(),
            phase: Phase::Closed,
            ..self
        }
    }

    /// The calls of one draw of the star alone: the program is used, the
    /// uniform for the direction to the light is located and set to the
    /// direction from the star's centre to the light, the vertex array is
    /// bound and drawn as triangles.  The error flag is read after each of
    /// these.  Then vertex array and program are let go.
    pub open spec fn own_draw_steps(self) -> Seq<Step> {
        let r = self.resource;
        let to_light = difference(self.directional.position@, self.geometry.center@);
        seq![
            Step { command: Command::UseProgram { program: r.shader_program }, checked: true },
            Step {
                command: Command::LocateUniform {
                    program: r.shader_program,
                    name: UniformName::DirectionToLight,
                },
                checked: true,
            },
            Step {
                command: Command::SetVector {
                    value: Vector3 {
                        x: to_light.x as i64,
                        y: to_light.y as i64,
                        z: to_light.z as i64,
                    },
                },
                checked: true,
            },
            Step { command: Command::BindVertexArray { vao: r.vao }, checked: true },
            Step {
                command: Command::DrawArrays {
                    topology: Topology::Triangles,
                    first: 0,
                    count: r.indice_num,
                },
                checked: true,
            },
            Step { command: Command::BindVertexArray { vao: 0 }, checked: false },
            Step { command: Command::UseProgram { program: 0 }, checked: false },
        ]
    }

    /// The calls of one draw: the star, then the ring of its light.
    pub open spec fn draw_steps(self) -> Seq<Step> {
        self.own_draw_steps() + self.directional.draw_steps()
    }

    /// The calls that hand back what star and light hold: the light's first.
    pub open spec fn spec_release(self) -> Seq<Command> {
        self.directional.resource.spec_release() + self.resource.spec_release()
    }

    /// Whether the star is well formed.
    pub fn is_well_formed(&self) -> (ok: bool)
        ensures
            ok == self.wf(),
    {
        self.geometry.is_valid() && self.directional.is_well_formed() && self.directional.phase
            == self.phase && (self.phase == Phase::Ready || (self.resource.shader_program == 0
            && self.resource.vao == 0 && self.resource.vbo == 0 && self.resource.indice_num == 0))
            && difference_fits(&self.directional.position, &self.geometry.center)
    }

    /// Whether the star has been set up and has not been closed, and is well
    /// formed.
    pub fn is_ready(&self) -> (ok: bool)
        ensures
            ok == self.ready(),
    {
        self.phase == Phase::Ready && self.is_well_formed()
    }

    /// Whether the coordinates can hold where an update under the keys of
    /// `cs` takes the light, and the direction to it from the star's centre.
    pub fn is_updatable(&self, cs: &State) -> (ok: bool)
        ensures
            ok == self.updatable(*cs),
    {
        if self.directional.is_updatable(cs) {
            difference_fits(&self.directional.next_position(cs), &self.geometry.center)
        } else {
            false
        }
    }

    /// The star with the usual parameters and its light above it to the
    /// right.  It holds nothing yet.
    pub fn new() -> (star: ChristmasStar)
        ensures
            star.wf(),
            star.geometry == default_geometry(),
            star.resource == GlResource::spec_empty(),
            star.directional.position == default_light_position(),
            star.phase == Phase::Uninitialized,
    {
        ChristmasStar {
            geometry: Geometry {
                center: Vector3::new(0, 0, 0),
                left_canyon_offset: Vector3::new(50, 100, 0),
                right_canyon_offset: Vector3::new(100, 50, 0),
                long_spike_length: 800,
                short_spike_length: 300,
                thickness: 100,
            },
            resource: GlResource::empty(),
            directional: Light::new(Vector3::new(400, 500, 1000)),
            phase: Phase::Uninitialized,
        }
    }

    /// The setup of the star and of its light.  The star's part stores the
    /// forty-eight vertices that are generated from the star's parameters,
    /// of ten components each; the light's part stores the ring.
    pub fn begin_init(&self) -> (setup: StarSetup)
        requires
            self.wf(),
        ensures
            setup.wf(),
            is_fresh(setup.star),
            setup.star.mesh matches Mesh::Star(vertices) && models(vertices@) == star_vertices(
                self.geometry,
            ),
            setup.star.mesh.len() == STAR_VERTICES,
            setup.star.layout@ == layout_of(star_counts()),
            is_fresh(setup.light),
            setup.light.mesh matches Mesh::Ring(vertices) && vertices@ == ring_vertices(),
            setup.light.layout@ == layout_of(ring_counts()),
    {
        let vertices = generate_vertices(&self.geometry);
        let mut counts: Vec<u8> = Vec::new();
        counts.push(3);
        counts.push(3);
        counts.push(4);
        assert(counts@ =~= star_counts());
        let layout = attribute_layout(&counts);
        let star = Setup::new(Mesh::Star(vertices), layout);
        StarSetup { star, light: self.directional.begin_init() }
    }

    /// Ends the setup.  Where it succeeded, star and light take what was
    /// built and are ready.  Where it failed, the star stays as it was and
    /// the setup's message is returned.
    pub fn init(&mut self, setup: &StarSetup) -> (r: Result<(), String>)
        requires
            old(self).wf(),
            old(self).phase == Phase::Uninitialized,
            setup.wf(),
            setup.status() != SetupStatus::Running,
        ensures
            final(self).wf(),
            final(self).geometry == old(self).geometry,
            final(self).directional.position == old(self).directional.position,
            setup.status() == SetupStatus::Succeeded ==> r is Ok && final(self).ready()
                && final(self).resource == setup.star.built() && final(self).directional.resource
                == setup.light.built(),
            setup.status() == SetupStatus::Failed ==> r is Err && r->Err_0@
                == setup.spec_message() && *final(self) == *old(self),
    {
        match setup.current_status() {
            SetupStatus::Succeeded => {
                let ready = self.directional.init(&setup.light);
                self.resource = setup.star.resource();
                self.phase = Phase::Ready;
                ready
            },
            _ => Err(setup.message()),
        }
    }

    /// Appends the calls of one draw of the star and of its light.
    pub fn draw_into(&self, steps: &mut Vec<Step>)
        requires
            self.ready(),
        ensures
            final(steps)@ == old(steps)@ + self.draw_steps(),
    {
        let r = &self.resource;
        let vec_to_light = self.directional.vector_from(&self.geometry.center);
        steps.push(Step { command: Command::UseProgram { program: r.shader_program }, checked: true });
        steps.push(
            Step {
                command: Command::LocateUniform {
                    program: r.shader_program,
                    name: UniformName::DirectionToLight,
                },
                checked: true,
            },
        );
        steps.push(Step { command: Command::SetVector { value: vec_to_light }, checked: true });
        steps.push(Step { command: Command::BindVertexArray { vao: r.vao }, checked: true });
        steps.push(
            Step {
                command: Command::DrawArrays {
                    topology: Topology::Triangles,
                    first: 0,
                    count: r.indice_num,
                },
                checked: true,
            },
        );
        steps.push(Step { command: Command::BindVertexArray { vao: 0 }, checked: false });
        steps.push(Step { command: Command::UseProgram { program: 0 }, checked: false });
        assert(steps@ =~= old(steps)@ + self.own_draw_steps());
        self.directional.draw_into(steps);
        assert(steps@ =~= old(steps)@ + self.draw_steps());
    }

    /// Closes the star and appends the calls that hand back what it and its
    /// light held.
    pub fn close_into(&mut self, release: &mut Vec<Command>)
        ensures
            final(release)@ == old(release)@ + old(self).spec_release(),
            *final(self) == old(self).after_close(),
    {
        self.directional.close_into(release);
        self.resource.release_into(release);
        self.resource = GlResource::empty();
        self.phase = Phase::Closed;
        assert(release@ =~= old(release)@ + old(self).spec_release());
    }

    /// Closes the star: returns the calls that hand back what it and its
    /// light held, and forgets the names.
    pub fn close(&mut self) -> (release: Vec<Command>)
        ensures
            release@ == old(self).spec_release(),
            *final(self) == old(self).after_close(),
    {
        let mut release: Vec<Command> = Vec::new();
        self.close_into(&mut release);
        release
    }
}

impl Object for ChristmasStar {
    open spec fn ready(&self) -> bool {
        self.wf() && self.phase == Phase::Ready
    }

    open spec fn updatable(&self, cs: State) -> bool {
        &&& representable(stepped(self.directional.position@, cs))
        &&& representable(
            difference(stepped(self.directional.position@, cs), self.geometry.center@),
        )
    }

    /// Moves the star's light by the keys that are held, as the light's own
    /// update does.  The star itself does not change, and nothing fails.
    fn update(&mut self, cs: &State) -> (r: Result<(), String>)
        ensures
            r is Ok,
            final(self).directional.position@ == stepped(old(self).directional.position@, *cs),
            final(self).geometry == old(self).geometry,
            final(self).resource == old(self).resource,
            final(self).directional.resource == old(self).directional.resource,
            final(self).phase == old(self).phase,
    {
        self.directional.update(cs)
    }

    /// The calls of one draw: the star, then the ring of its light.
    fn draw(&self) -> (steps: Vec<Step>)
        ensures
            steps@ == self.draw_steps(),
    {
        let mut steps: Vec<Step> = Vec::new();
        self.draw_into(&mut steps);
        steps
    }
}

/// A draw of the star asks for one drawing of triangles and for no other:
/// of as many vertices as the star's buffer holds.  The one other drawing of
/// the whole draw is the closed line of the light's ring.
pub proof fn lemma_star_draws_once(star: ChristmasStar)
    ensures
        star.draw_steps().len() == 14,
        star.draw_steps()[4].command == (Command::DrawArrays {
            topology: Topology::Triangles,
            first: 0,
            count: star.resource.indice_num,
        }),
        star.draw_steps()[11].command == (Command::DrawArrays {
            topology: Topology::LineLoop,
            first: 0,
            count: star.directional.resource.indice_num,
        }),
        forall|i: int|
            0 <= i < 14 && i != 4 && i != 11 ==> !(#[trigger] star.draw_steps()[i].command
                is DrawArrays),
{
    let s = star.draw_steps();
    assert(s =~= star.own_draw_steps() + star.directional.draw_steps());
    assert forall|i: int| 0 <= i < 14 && i != 4 && i != 11 implies !(#[trigger] s[i].command
        is DrawArrays) by {
        if i < 7 {
            assert(s[i] == star.own_draw_steps()[i]);
        } else {
            assert(s[i] == star.directional.draw_steps()[i - 7]);
        }
    }
}

/// Only a star that is ready can be updated and drawn: before it is set up
/// and after it is closed, what `update` and `draw` require does not hold.
/// So it is with the star that `new` makes, and with every star that has
/// been closed.
pub proof fn lemma_star_needs_setup(star: ChristmasStar)
    requires
        star.phase != Phase::Ready,
    ensures
        !star.ready(),
        !star.after_close().ready(),
{
}

/// Closing leaves a star that is well formed if it was, and not ready.  It
/// holds nothing, so closing it again changes nothing and hands back only the
/// name that names nothing, for the light and for the star.
pub proof fn lemma_star_close_is_idempotent(star: ChristmasStar)
    ensures
        star.wf() ==> star.after_close().wf(),
        !star.after_close().ready(),
        star.after_close().after_close() == star.after_close(),
        star.after_close().spec_release() == GlResource::spec_empty().spec_release()
            + GlResource::spec_empty().spec_release(),
{
}

} // verus!
