//! The scene: its objects, the keys that are held, and the work of a frame.
//!
//! The application owns the window.  For every frame it hands the keyboard
//! events to the scene and gets back the calls of the frame, which it makes
//! through a [`Pass`].  When the window closes it closes the scene and makes
//! the calls that hand everything back.

use vstd::prelude::*;
use vstd::string::StringExecFns;
use crate::backend::{Command, Step};
use crate::christmas_star::ChristmasStar;
use crate::control::{after_key_input, ElementState, State, VirtualKeyCode};
use crate::game::Object;
use crate::light::directional::{stepped, Light};
use crate::pass::Pass;
use crate::vector::{Point, Vector3};

verus! {

/// How long the scene rests after a frame, in milliseconds.
pub const FRAME_REST: u32 = 8;

/// An object of the scene.
#[derive(Clone, Copy, Debug, PartialEq, Eq, Structural)]
pub enum RenderableObject {
    Star(ChristmasStar),
    LightGizmo(Light),
}

/// A keyboard event: what happened, and to which key if the key is known.
#[derive(Clone, Copy, Debug, PartialEq, Eq, Structural)]
pub struct KeyEvent {
    pub elem_state: ElementState,
    pub key_code: Option<VirtualKeyCode>,
}

/// The part of a frame in which something went wrong.
#[derive(Clone, Copy, Debug, PartialEq, Eq, Structural)]
pub enum FrameStage {
    Updating,
    Drawing,
}

impl FrameStage {
    /// How the report of an error of this stage begins.
    pub open spec fn prefix(self) -> Seq<char> {
        match self {
            FrameStage::Updating => "Error when updating: "@,
            FrameStage::Drawing => "Error when drawing: "@,
        }
    }
}

/// The report of an error in a frame.  Every error of a frame ends the
/// scene; this is the one place that says how it is reported.
pub fn escalate(stage: FrameStage, message: &str) -> (report: String)
    ensures
        report@ == stage.prefix() + message@,
{
    match stage {
        FrameStage::Updating => "Error when updating: ".to_string().concat(message),
        FrameStage::Drawing => "Error when drawing: ".to_string().concat(message),
    }
}

impl RenderableObject {
    /// Whether the object is well formed.
    pub open spec fn wf(self) -> bool {
        match self {
            RenderableObject::Star(star) => star.wf(),
            RenderableObject::LightGizmo(light) => light.wf(),
        }
    }

    /// The calls of one draw of the object.
    pub open spec fn draw_steps(self) -> Seq<Step> {
        match self {
            RenderableObject::Star(star) => star.draw_steps(),
            RenderableObject::LightGizmo(light) => light.draw_steps(),
        }
    }

    /// The calls that hand back what the object holds.
    pub open spec fn spec_release(self) -> Seq<Command> {
        match self {
            RenderableObject::Star(star) => star.spec_release(),
            RenderableObject::LightGizmo(light) => light.resource.spec_release(),
        }
    }

    /// Where the light that the object moves stands.
    pub open spec fn light_position(self) -> Vector3 {
        match self {
            RenderableObject::Star(star) => star.directional.position,
            RenderableObject::LightGizmo(light) => light.position,
        }
    }

    /// The object with its light at `position`.
    pub open spec fn with_light_at(self, position: Point) -> RenderableObject {
        let p = Vector3 { x: position.x as i64, y: position.y as i64, z: position.z as i64 };
        match self {
            RenderableObject::Star(star) => RenderableObject::Star(
                ChristmasStar { directional: Light { position: p, ..star.directional }, ..star },
            ),
            RenderableObject::LightGizmo(light) => RenderableObject::LightGizmo(
                Light { position: p, ..light },
            ),
        }
    }

    /// The object after an update under the keys of `cs`: its light has
    /// made its step, and nothing else has changed.
    pub open spec fn updated(self, cs: State) -> RenderableObject {
        self.with_light_at(stepped(self.light_position()@, cs))
    }

    /// The object once it is closed.
    pub open spec fn after_close(self) -> RenderableObject {
        match self {
            RenderableObject::Star(star) => RenderableObject::Star(star.after_close()),
            RenderableObject::LightGizmo(light) => RenderableObject::LightGizmo(
                light.after_close(),
            ),
        }
    }

    /// What an object of the kind of `self` hands back once it is closed:
    /// calls that name nothing, three for a light and three more for a star.
    pub open spec fn nothing_held(self) -> Seq<Command> {
        let none = seq![
            Command::DeleteBuffer { vbo: 0 },
            Command::DeleteVertexArray { vao: 0 },
            Command::RemoveProgram { program: 0 },
        ];
        match self {
            RenderableObject::Star(_) => none + none,
            RenderableObject::LightGizmo(_) => none,
        }
    }

    /// Whether the coordinates of the object can hold where an update under
    /// the keys of `cs` takes it.
    pub fn is_updatable(&self, cs: &State) -> (ok: bool)
        ensures
            ok == self.updatable(*cs),
    {
        match self {
            RenderableObject::Star(star) => star.is_updatable(cs),
            RenderableObject::LightGizmo(light) => light.is_updatable(cs),
        }
    }

    /// Whether the object has been set up and has not been closed, and is
    /// well formed.
    pub fn is_ready(&self) -> (ok: bool)
        ensures
            ok == self.ready(),
    {
        match self {
            RenderableObject::Star(star) => star.is_ready(),
            RenderableObject::LightGizmo(light) => light.is_ready(),
        }
    }

    /// Appends the calls of one draw of the object.
    pub fn draw_into(&self, steps: &mut Vec<Step>)
        requires
            self.ready(),
        ensures
            final(steps)@ == old(steps)@ + self.draw_steps(),
    {
        match self {
            RenderableObject::Star(star) => star.draw_into(steps),
            RenderableObject::LightGizmo(light) => light.draw_into(steps),
        }
    }

    /// Closes the object, whatever it is, and returns the object as it is
    /// then.  The calls that hand back what it held are appended to
    /// `release`.
    pub fn close_into(self, release: &mut Vec<Command>) -> (closed: RenderableObject)
        ensures
            closed == self.after_close(),
            final(release)@ == old(release)@ + self.spec_release(),
    {
        match self {
            RenderableObject::Star(star) => {
                let mut star = star;
                star.close_into(release);
                RenderableObject::Star(star)
            },
            RenderableObject::LightGizmo(light) => {
                let mut light = light;
                light.close_into(release);
                RenderableObject::LightGizmo(light)
            },
        }
    }
}

impl Object for RenderableObject {
    open spec fn ready(&self) -> bool {
        match self {
            RenderableObject::Star(star) => star.ready(),
            RenderableObject::LightGizmo(light) => light.ready(),
        }
    }

    open spec fn updatable(&self, cs: State) -> bool {
        match self {
            RenderableObject::Star(star) => star.updatable(cs),
            RenderableObject::LightGizmo(light) => light.updatable(cs),
        }
    }

    /// Moves the object on by one tick, whatever it is.  Nothing fails.
    fn update(&mut self, cs: &State) -> (r: Result<(), String>)
        ensures
            r is Ok,
            *final(self) == old(self).updated(*cs),
    {
        match self {
            RenderableObject::Star(star) => {
                let mut next = *star;
                let r = next.update(cs);
                assert(next.directional.position == (RenderableObject::Star(
                    *star,
                )).updated(*cs).light_position());
                *self = RenderableObject::Star(next);
                r
            },
            RenderableObject::LightGizmo(light) => {
                let mut next = *light;
                let r = next.update(cs);
                assert(next.position == (RenderableObject::LightGizmo(*light)).updated(
                    *cs,
                ).light_position());
                *self = RenderableObject::LightGizmo(next);
                r
            },
        }
    }

    /// The calls of one draw of the object, whatever it is.
    fn draw(&self) -> (steps: Vec<Step>)
        ensures
            steps@ == self.draw_steps(),
    {
        let mut steps: Vec<Step> = Vec::new();
        self.draw_into(&mut steps);
        steps
    }
}

/// The calls that draw `objects`, one object after the other.
pub open spec fn draws(objects: Seq<RenderableObject>) -> Seq<Step>
    decreases objects.len(),
{
    if objects.len() == 0 {
        Seq::empty()
    } else {
        draws(objects.drop_last()) + objects.last().draw_steps()
    }
}

/// The calls that hand back what `objects` hold, one object after the other.
pub open spec fn releases(objects: Seq<RenderableObject>) -> Seq<Command>
    decreases objects.len(),
{
    if objects.len() == 0 {
        Seq::empty()
    } else {
        releases(objects.drop_last()) + objects.last().spec_release()
    }
}

/// The calls of a frame: the screen is cleared, every object is drawn, the
/// calls are sent on their way, the frame is shown, and the scene rests.
/// Only the calls of the objects are checked.
pub open spec fn frame_steps(objects: Seq<RenderableObject>) -> Seq<Step> {
    seq![Step { command: Command::ClearScreen, checked: false }] + draws(objects) + seq![
        Step { command: Command::Flush, checked: false },
        Step { command: Command::SwapBuffers, checked: false },
        Step { command: Command::Sleep { milliseconds: FRAME_REST }, checked: false },
    ]
}

/// The keys that are held after `events`, taken in one after the other.
pub open spec fn after_events(cs: State, events: Seq<KeyEvent>) -> State
    decreases events.len(),
{
    if events.len() == 0 {
        cs
    } else {
        let last = events.last();
        after_key_input(after_events(cs, events.drop_last()), last.elem_state, last.key_code)
    }
}

/// Whether the coordinates of each of the first `n` of `objects` can hold
/// where an update under `cs` takes it.
pub open spec fn all_updatable(objects: Seq<RenderableObject>, cs: State, n: int) -> bool {
    forall|j: int| 0 <= j < n ==> (#[trigger] objects[j]).updatable(cs)
}

/// The objects after the updates of one frame: one object after the other is
/// updated until one is reached whose coordinates cannot hold the step; that
/// one and all after it stay as they were.
pub open spec fn updated_objects(objects: Seq<RenderableObject>, cs: State) -> Seq<
    RenderableObject,
> {
    Seq::new(
        objects.len(),
        |i: int|
            if all_updatable(objects, cs, i + 1) {
                objects[i].updated(cs)
            } else {
                objects[i]
            },
    )
}

/// The scene: its objects in the order in which they were added, and the
/// keys that are held.
#[derive(Debug)]
pub struct Scene {
    pub objects: Vec<RenderableObject>,
    pub cs: State,
}

impl Scene {
    /// Every object of the scene is ready.
    pub open spec fn wf(self) -> bool {
        forall|i: int| 0 <= i < self.objects@.len() ==> (#[trigger] self.objects@[i]).ready()
    }

    /// Whether every object of the scene is ready.
    pub fn is_ready(&self) -> (ok: bool)
        ensures
            ok == self.wf(),
    {
        let mut i: usize = 0;
        while i < self.objects.len()
            invariant
                0 <= i <= self.objects@.len(),
                forall|j: int| 0 <= j < i ==> (#[trigger] self.objects@[j]).ready(),
            decreases self.objects@.len() - i,
        {
            if !self.objects[i].is_ready() {
                return false;
            }
            i = i + 1;
        }
        true
    }

    /// The scene without objects, in which no key is held.
    pub fn new() -> (scene: Scene)
        ensures
            scene.wf(),
            scene.objects@.len() == 0,
            scene.cs == (State {
                move_up: false,
                move_down: false,
                move_left: false,
                move_right: false,
            }),
    {
        Scene { objects: Vec::new(), cs: State::new() }
    }

    /// Adds an object that is ready, after those that the scene has.
    pub fn add(&mut self, object: RenderableObject)
        requires
            old(self).wf(),
            object.ready(),
        ensures
            final(self).wf(),
            final(self).objects@ == old(self).objects@.push(object),
            final(self).cs == old(self).cs,
    {
        self.objects.push(object);
    }

    /// Takes in the keyboard events that have come since the last frame.
    pub fn handle_events(&mut self, events: &Vec<KeyEvent>)
        ensures
            final(self).objects == old(self).objects,
            final(self).cs == after_events(old(self).cs, events@),
    {
        let mut i: usize = 0;
        while i < events.len()
            invariant
                0 <= i <= events@.len(),
                self.objects == old(self).objects,
                self.cs == after_events(old(self).cs, events@.subrange(0, i as int)),
            decreases events@.len() - i,
        {
            let event = events[i];
            self.cs.handle_key_input(event.elem_state, event.key_code);
            assert(events@.subrange(0, i + 1).drop_last() =~= events@.subrange(0, i as int));
            i = i + 1;
        }
        assert(events@.subrange(0, events@.len() as int) =~= events@);
    }

    /// Updates the objects in their order under the keys that are held.  No
    /// object's update fails.  Before each update the scene tests whether the
    /// object's coordinates can hold the step.  At the first object for which
    /// they cannot, the updates end with an error: that object and those
    /// after it stay as they were.
    pub fn update(&mut self) -> (r: Result<(), String>)
        requires
            old(self).wf(),
        ensures
            final(self).wf(),
            final(self).cs == old(self).cs,
            final(self).objects@ == updated_objects(old(self).objects@, old(self).cs),
            r is Ok <==> all_updatable(
                old(self).objects@,
                old(self).cs,
                old(self).objects@.len() as int,
            ),
            r is Err ==> r->Err_0@ == "Light out of range"@,
    {
        let cs = self.cs;
        let ghost before = self.objects@;
        let mut i: usize = 0;
        while i < self.objects.len()
            invariant
                0 <= i <= before.len(),
                self.cs == cs,
                cs == old(self).cs,
                before == old(self).objects@,
                self.objects@.len() == before.len(),
                all_updatable(before, cs, i as int),
                forall|j: int| 0 <= j < before.len() ==> (#[trigger] before[j]).ready(),
                forall|j: int| 0 <= j < i ==> self.objects@[j] == (#[trigger] before[j]).updated(cs),
                forall|j: int| i <= j < before.len() ==> self.objects@[j] == #[trigger] before[j],
            decreases before.len() - i,
        {
            let mut object = self.objects[i];
            assert(object == before[i as int]);
            if !object.is_updatable(&cs) {
                assert(self.objects@ =~= updated_objects(before, cs)) by {
                    assert forall|j: int| 0 <= j < before.len() implies self.objects@[j]
                        == updated_objects(before, cs)[j] by {
                        if j >= i {
                            assert(!all_updatable(before, cs, j + 1));
                        } else {
                            assert(all_updatable(before, cs, j + 1));
                        }
                    }
                }
                return Err("Light out of range".to_string());
            }
            let _ = object.update(&cs);
            self.objects.set(i, object);
            i = i + 1;
        }
        assert(self.objects@ =~= updated_objects(before, cs)) by {
            assert forall|j: int| 0 <= j < before.len() implies self.objects@[j]
                == updated_objects(before, cs)[j] by {
                assert(all_updatable(before, cs, j + 1));
            }
        }
        Ok(())
    }

    /// The calls of a frame of the scene as it is now.
    pub fn frame(&self) -> (pass: Pass)
        requires
            self.wf(),
        ensures
            pass.wf(),
            pass.next == 0,
            !pass.failed,
            pass.steps@ == frame_steps(self.objects@),
    {
        let mut steps: Vec<Step> = Vec::new();
        steps.push(Step { command: Command::ClearScreen, checked: false });
        let ghost head = steps@;
        let mut i: usize = 0;
        while i < self.objects.len()
            invariant
                0 <= i <= self.objects@.len(),
                self.wf(),
                steps@ == head + draws(self.objects@.subrange(0, i as int)),
            decreases self.objects@.len() - i,
        {
            self.objects[i].draw_into(&mut steps);
            assert(self.objects@.subrange(0, i + 1).drop_last() =~= self.objects@.subrange(
                0,
                i as int,
            ));
            assert(steps@ =~= head + draws(self.objects@.subrange(0, i + 1)));
            i = i + 1;
        }
        assert(self.objects@.subrange(0, self.objects@.len() as int) =~= self.objects@);
        let ghost drawn = steps@;
        steps.push(Step { command: Command::Flush, checked: false });
        steps.push(Step { command: Command::SwapBuffers, checked: false });
        steps.push(Step { command: Command::Sleep { milliseconds: FRAME_REST }, checked: false });
        assert(steps@ =~= frame_steps(self.objects@));
        Pass::new(steps)
    }

    /// The work of one frame: the events are taken in, the objects are
    /// updated, and the calls that draw the frame are returned.  An error of
    /// an update is returned as the report that ends the scene, and then
    /// nothing is to be drawn.
    pub fn process_frame(&mut self, events: &Vec<KeyEvent>) -> (r: Result<Pass, String>)
        requires
            old(self).wf(),
        ensures
            final(self).wf(),
            final(self).cs == after_events(old(self).cs, events@),
            final(self).objects@ == updated_objects(old(self).objects@, final(self).cs),
            r is Ok <==> all_updatable(
                old(self).objects@,
                final(self).cs,
                old(self).objects@.len() as int,
            ),
            r matches Ok(pass) ==> pass.wf() && pass.next == 0 && !pass.failed && pass.steps@
                == frame_steps(final(self).objects@),
            r matches Err(report) ==> report@ == FrameStage::Updating.prefix()
                + "Light out of range"@,
    {
        self.handle_events(events);
        match self.update() {
            Ok(()) => Ok(self.frame()),
            Err(message) => Err(escalate(FrameStage::Updating, message.as_str())),
        }
    }

    /// Closes the scene: every object is closed, once and in its order, and
    /// the calls that hand back what they held are returned.
    pub fn close(self) -> (release: Vec<Command>)
        ensures
            release@ == releases(self.objects@),
    {
        let mut release: Vec<Command> = Vec::new();
        let mut i: usize = 0;
        while i < self.objects.len()
            invariant
                0 <= i <= self.objects@.len(),
                release@ == releases(self.objects@.subrange(0, i as int)),
            decreases self.objects@.len() - i,
        {
            let object = self.objects[i];
            let _ = object.close_into(&mut release);
            assert(self.objects@.subrange(0, i + 1).drop_last() =~= self.objects@.subrange(
                0,
                i as int,
            ));
            i = i + 1;
        }
        assert(self.objects@.subrange(0, self.objects@.len() as int) =~= self.objects@);
        release
    }
}

/// Only an object that is ready can be updated and drawn, whatever it is.
/// Closing leaves an object that is not ready and holds nothing, so closing
/// it again changes nothing and hands back only names that name nothing.
pub proof fn lemma_object_lifecycle(object: RenderableObject)
    ensures
        object.wf() ==> object.after_close().wf(),
        !object.after_close().ready(),
        object.after_close().after_close() == object.after_close(),
        object.after_close().spec_release() =~= object.nothing_held(),
{
}

} // verus!
