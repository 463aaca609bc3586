//! The grid model and the simulation that runs on it.

use vstd::prelude::*;

pub mod colors;
pub mod component;
pub mod component_map;
pub mod direction;
pub mod pellet;
pub mod position;

pub use self::component::Component;
use self::component::ShouldEmit;
pub use self::component_map::ComponentMap;
use self::component_map::is_listing;
pub use self::direction::Direction;
pub use self::direction::DirectionSet;
pub use self::pellet::Pellet;
pub use self::position::Position;
use crate::sound::{Pitch, Sound};

verus! {

/// The ticks that make one minute: sixty in a second.
pub const STEPS_PER_MINUTE: u32 = 3600;

/// A tempo, in tenths of a beat per minute.
///
/// A tenth of a beat per minute moves a pellet by one unit of its offset in
/// a tick, so that a thousand beats per minute move it by one cell.
#[derive(Debug, Clone, Copy, PartialEq, Eq, PartialOrd, Structural)]
pub struct BeatsPerMinute(pub i32);

impl BeatsPerMinute {
    /// How far a pellet travels in one tick, in units of its offset.
    pub open spec fn spec_speed(self) -> i32 {
        self.0
    }

    /// Whether `steps` ticks last longer than one beat: the minutes that
    /// have passed, times the beats in a minute, are more than one.
    pub open spec fn spec_beat_elapsed(self, steps: u32) -> bool {
        steps * self.0 > STEPS_PER_MINUTE * 10
    }

    /// The ticks from one firing of the emitters to the next, for a tempo
    /// above zero.
    pub open spec fn beat_period(self) -> int {
        (STEPS_PER_MINUTE * 10) as int / (self.0 as int) + 1
    }

    #[verifier::when_used_as_spec(spec_speed)]
    pub fn speed(self) -> (amount: i32)
        ensures
            amount == self.spec_speed(),
    {
        self.0
    }

    #[verifier::when_used_as_spec(spec_beat_elapsed)]
    pub fn beat_elapsed(self, steps: u32) -> (elapsed: bool)
        ensures
            elapsed == self.spec_beat_elapsed(steps),
    {
        assert(-0x7fff_ffff_8000_0000 <= steps * self.0 <= 0x7fff_ffff_8000_0000)
            by (nonlinear_arith)
            requires
                0 <= steps <= 0xffff_ffff,
                -0x8000_0000 <= self.0 < 0x8000_0000,
        ;
        steps as i64 * self.0 as i64 > STEPS_PER_MINUTE as i64 * 10
    }

    /// The time one beat takes, in nanoseconds, rounded down.
    pub fn beat_time(self) -> (nanos: u64)
        requires
            self.0 > 0,
        ensures
            nanos == 600_000_000_000int / (self.0 as int),
    {
        600_000_000_000u64 / (self.0 as u64)
    }
}

/// At a tempo above zero a beat has elapsed when the ticks have reached
/// the beat period, and not before.
pub proof fn lemma_beat_period(tempo: BeatsPerMinute, steps: u32)
    requires
        tempo.0 > 0,
    ensures
        0 < tempo.beat_period() <= 36001,
        tempo.spec_beat_elapsed(steps) <==> steps >= tempo.beat_period(),
{
    let t = tempo.0 as int;
    let q = 36000int / t;
    assert(36000 == t * q + 36000int % t) by {
        vstd::arithmetic::div_mod::lemma_fundamental_div_mod(36000, t);
    }
    assert(0 <= q <= 36000) by (nonlinear_arith)
        requires
            t > 0,
            36000 == t * q + 36000int % t,
            0 <= 36000int % t < t,
    ;
    if steps >= q + 1 {
        assert(steps * t > 36000) by (nonlinear_arith)
            requires
                steps >= q + 1,
                t > 0,
                36000 == t * q + 36000int % t,
                0 <= 36000int % t < t,
        ;
    } else {
        assert(steps * t <= 36000) by (nonlinear_arith)
            requires
                0 <= steps <= q,
                t > 0,
                36000 == t * q + 36000int % t,
                0 <= 36000int % t < t,
        ;
    }
}

/// At a tempo of zero or below no count of ticks makes a beat.
pub proof fn lemma_no_beat_without_tempo(tempo: BeatsPerMinute, steps: u32)
    requires
        tempo.0 <= 0,
    ensures
        !tempo.spec_beat_elapsed(steps),
{
    assert(steps * tempo.0 <= 0) by (nonlinear_arith)
        requires
            steps >= 0,
            tempo.0 <= 0,
    ;
}

/// What a tick works on: the components on their cells, the tempo, the
/// pellets in flight and the ticks counted since the emitters last fired.
pub struct ProjectView {
    pub components: Map<Position, Component>,
    pub tempo: BeatsPerMinute,
    pub pellets: Seq<Pellet>,
    pub steps: u32,
}

/// What the collisions of one tick have come to.
pub struct Collisions {
    /// The components, in the states the pellets have left them in.
    pub components: Map<Position, Component>,
    /// The pellets that flew on or took the place of one that hit.
    pub kept: Seq<Pellet>,
    /// The further pellets of components that answered with more than one.
    pub added: Seq<Pellet>,
    /// The sounds, in the order of the pellets that made them.
    pub sounds: Seq<Sound>,
}

/// The count of ticks after one more: it starts over after the largest.
pub open spec fn next_steps(steps: u32) -> u32 {
    if steps == u32::MAX {
        0
    } else {
        (steps + 1) as u32
    }
}

/// The pellets after one tick of travel: each moved on, and those that
/// left the grid taken out.
pub open spec fn travel(pellets: Seq<Pellet>, amount: i32) -> Seq<Pellet> {
    pellets.filter_map(|pellet: Pellet| pellet.after_tick(amount))
}

/// The pellets that leave the cell `at` with pitch `pitch`: one for each
/// of `directions`, from `Up` clockwise.
pub open spec fn leaving(at: Position, pitch: Pitch, directions: DirectionSet) -> Seq<Pellet> {
    directions.ordered().map_values(
        |direction: Direction| Pellet::spec_new_at(at, direction).spec_with_pitch(pitch),
    )
}

/// The pellets that the components send out on the beat when they are
/// asked in the order of `order`.
pub open spec fn emitted(order: Seq<(Position, Component)>) -> Seq<Pellet> {
    order.flat_map(
        |entry: (Position, Component)| leaving(entry.0, Pitch::spec_new(0), entry.1.spec_on_emit()),
    )
}

/// Whether `pellet` hits a component: it is on a cell other than the one it
/// last left, and something stands there.
pub open spec fn hits(components: Map<Position, Component>, pellet: Pellet) -> bool {
    pellet.spec_pos_rounded() != pellet.origin && components.contains_key(
        pellet.spec_pos_rounded(),
    )
}

/// The collisions after one more pellet: where it hits, the component
/// there moves to its next state, its sound is taken down, the first
/// pellet of its answer takes the place of the one that hit and the others
/// are added; where it does not, it flies on.
pub open spec fn collide_one(so_far: Collisions, pellet: Pellet) -> Collisions {
    if hits(so_far.components, pellet) {
        let cell = pellet.spec_pos_rounded();
        let component = so_far.components[cell];
        let answer = component.answer_to(pellet);
        let out = leaving(cell, answer.pitch, answer.directions);
        Collisions {
            components: so_far.components.insert(cell, component.after_pellet(pellet)),
            kept: if out.len() > 0 {
                so_far.kept.push(out[0])
            } else {
                so_far.kept
            },
            added: if out.len() > 0 {
                so_far.added + out.skip(1)
            } else {
                so_far.added
            },
            sounds: match answer.sound {
                Some(sound) => so_far.sounds.push(sound),
                None => so_far.sounds,
            },
        }
    } else {
        Collisions { kept: so_far.kept.push(pellet), ..so_far }
    }
}

/// The collisions of `pellets`, taken one after the other, with
/// `components`.
pub open spec fn collide(components: Map<Position, Component>, pellets: Seq<Pellet>) -> Collisions {
    pellets.fold_left(
        Collisions { components, kept: Seq::empty(), added: Seq::empty(), sounds: Seq::empty() },
        |so_far: Collisions, pellet: Pellet| collide_one(so_far, pellet),
    )
}

/// Whether the emitters fire on the tick that follows `before`.
pub open spec fn fires(before: ProjectView) -> bool {
    before.tempo.spec_beat_elapsed(next_steps(before.steps))
}

/// One tick: the pellets travel and those off the grid go; on the beat the
/// components, asked in the order of `order`, send out their pellets and
/// the count of ticks starts over; then the pellets collide. The result is
/// the project after the tick, with the sounds of the tick.
pub open spec fn tick(before: ProjectView, order: Seq<(Position, Component)>) -> (
    ProjectView,
    Seq<Sound>,
) {
    let moved = travel(before.pellets, before.tempo.spec_speed());
    let live = if fires(before) {
        moved + emitted(order)
    } else {
        moved
    };
    let collisions = collide(before.components, live);
    (
        ProjectView {
            components: collisions.components,
            tempo: before.tempo,
            pellets: collisions.kept + collisions.added,
            steps: if fires(before) {
                0
            } else {
                next_steps(before.steps)
            },
        },
        collisions.sounds,
    )
}

/// Every pellet of `pellets` is on the grid.
pub open spec fn all_on_grid(pellets: Seq<Pellet>) -> bool {
    forall|i: int| 0 <= i < pellets.len() ==> !(#[trigger] pellets[i]).spec_should_remove()
}

/// Travel takes the pellets one by one: the travel of two lists joined is
/// the travel of each, joined.
pub proof fn lemma_travel_joined(first: Seq<Pellet>, second: Seq<Pellet>, amount: i32)
    ensures
        travel(first + second, amount) == travel(first, amount) + travel(second, amount),
    decreases second.len(),
{
    if second.len() == 0 {
        assert(first + second =~= first);
        assert(travel(first, amount) + travel(second, amount) =~= travel(first, amount));
    } else {
        lemma_travel_joined(first, second.drop_last(), amount);
        assert((first + second).drop_last() =~= first + second.drop_last());
        assert((first + second).last() == second.last());
        assert(travel(first + second, amount) =~= travel(first, amount) + travel(second, amount));
    }
}

/// After the travel of a tick every pellet that is left is on the grid.
pub proof fn lemma_travel_stays_on_grid(pellets: Seq<Pellet>, amount: i32)
    ensures
        all_on_grid(travel(pellets, amount)),
    decreases pellets.len(),
{
    if pellets.len() > 0 {
        lemma_travel_stays_on_grid(pellets.drop_last(), amount);
    }
}

/// A pellet that the travel of a tick takes off the grid is gone before
/// the pellets collide: the tick goes as it would without that pellet.
pub proof fn lemma_pellet_off_grid_is_out_of_the_tick(
    before: ProjectView,
    order: Seq<(Position, Component)>,
    i: int,
)
    requires
        0 <= i < before.pellets.len(),
        before.pellets[i].after_tick(before.tempo.spec_speed()) is None,
    ensures
        tick(before, order) == tick(
            ProjectView { pellets: before.pellets.remove(i), ..before },
            order,
        ),
{
    let amount = before.tempo.spec_speed();
    let head = before.pellets.take(i);
    let tail = before.pellets.skip(i + 1);
    let gone = seq![before.pellets[i]];
    assert(before.pellets =~= head + gone + tail);
    assert(before.pellets.remove(i) =~= head + tail);
    lemma_travel_joined(head, gone, amount);
    lemma_travel_joined(head + gone, tail, amount);
    lemma_travel_joined(head, tail, amount);
    assert(travel(gone, amount) =~= Seq::<Pellet>::empty()) by {
        assert(gone.drop_last() =~= Seq::<Pellet>::empty());
        reveal_with_fuel(Seq::filter_map, 2);
    }
    assert(travel(head, amount) + travel(gone, amount) =~= travel(head, amount));
}

/// A pellet that has just left a component does not hit it, nor anything
/// else, before it has moved on to another cell.
pub proof fn lemma_fresh_pellet_hits_nothing(
    components: Map<Position, Component>,
    at: Position,
    pitch: Pitch,
    direction: Direction,
)
    ensures
        !hits(components, Pellet::spec_new_at(at, direction).spec_with_pitch(pitch)),
{
}

/// The collisions of a list of pellets, of which the last is `pellet`, are
/// those of the others followed by that of `pellet`.
pub proof fn lemma_collide_push(
    components: Map<Position, Component>,
    pellets: Seq<Pellet>,
    pellet: Pellet,
)
    ensures
        collide(components, pellets.push(pellet)) == collide_one(
            collide(components, pellets),
            pellet,
        ),
{
    assert(pellets.push(pellet).drop_last() =~= pellets);
}

/// Collisions keep the pellets on the grid: where all that collide are on
/// it, so are all that are left.
pub proof fn lemma_collide_stays_on_grid(
    components: Map<Position, Component>,
    pellets: Seq<Pellet>,
)
    requires
        all_on_grid(pellets),
    ensures
        all_on_grid(collide(components, pellets).kept),
        all_on_grid(collide(components, pellets).added),
    decreases pellets.len(),
{
    if pellets.len() > 0 {
        let others = pellets.drop_last();
        let pellet = pellets.last();
        lemma_collide_stays_on_grid(components, others);
        assert(pellets =~= others.push(pellet));
        lemma_collide_push(components, others, pellet);
        let so_far = collide(components, others);
        if hits(so_far.components, pellet) {
            let cell = pellet.spec_pos_rounded();
            let answer = so_far.components[cell].answer_to(pellet);
            lemma_leaving_on_grid(cell, answer.pitch, answer.directions);
        }
    }
}

/// The pellets that leave a cell are on the grid.
pub proof fn lemma_leaving_on_grid(at: Position, pitch: Pitch, directions: DirectionSet)
    ensures
        all_on_grid(leaving(at, pitch, directions)),
{
}

/// The pellets that the components send out on the beat are on the grid.
pub proof fn lemma_emitted_on_grid(order: Seq<(Position, Component)>)
    ensures
        all_on_grid(emitted(order)),
    decreases order.len(),
{
    let each = |entry: (Position, Component)|
        leaving(entry.0, Pitch::spec_new(0), entry.1.spec_on_emit());
    if order.len() == 0 {
        assert(order.map_values(each) =~= Seq::<Seq<Pellet>>::empty());
    } else {
        let others = order.drop_last();
        lemma_emitted_on_grid(others);
        assert(order.map_values(each) =~= others.map_values(each).push(each(order.last())));
        others.map_values(each).lemma_flatten_push(each(order.last()));
        lemma_leaving_on_grid(order.last().0, Pitch::spec_new(0), order.last().1.spec_on_emit());
    }
}

/// After a tick every pellet that is left is on the grid, wherever the
/// pellets were before it.
pub proof fn lemma_tick_stays_on_grid(before: ProjectView, order: Seq<(Position, Component)>)
    ensures
        all_on_grid(tick(before, order).0.pellets),
{
    let moved = travel(before.pellets, before.tempo.spec_speed());
    lemma_travel_stays_on_grid(before.pellets, before.tempo.spec_speed());
    lemma_emitted_on_grid(order);
    let live = if fires(before) {
        moved + emitted(order)
    } else {
        moved
    };
    lemma_collide_stays_on_grid(before.components, live);
}

/// Where nothing stands on the grid the pellets collide with nothing: all
/// fly on, and there is no sound.
pub proof fn lemma_collide_with_nothing(pellets: Seq<Pellet>)
    ensures
        collide(Map::empty(), pellets) == (Collisions {
            components: Map::empty(),
            kept: pellets,
            added: Seq::empty(),
            sounds: Seq::empty(),
        }),
    decreases pellets.len(),
{
    let collisions = collide(Map::empty(), pellets);
    if pellets.len() > 0 {
        lemma_collide_with_nothing(pellets.drop_last());
        assert(collisions.kept =~= pellets);
    } else {
        assert(collisions.kept =~= pellets);
    }
}

/// On an empty grid a tick is the travel of the pellets and one more tick
/// counted: a pellet is where its travel has taken it.
pub proof fn lemma_tick_on_an_empty_grid(before: ProjectView, order: Seq<(Position, Component)>)
    requires
        before.components == Map::<Position, Component>::empty(),
        fires(before) ==> is_listing(order, before.components),
    ensures
        tick(before, order).0.pellets == travel(before.pellets, before.tempo.spec_speed()),
        tick(before, order).0.components == before.components,
        tick(before, order).1 == Seq::<Sound>::empty(),
{
    let moved = travel(before.pellets, before.tempo.spec_speed());
    if fires(before) {
        self::component_map::lemma_listing_of_nothing(order);
        assert(emitted(order) =~= Seq::<Pellet>::empty());
        assert(moved + emitted(order) =~= moved);
    }
    lemma_collide_with_nothing(moved);
    assert(moved + Seq::<Pellet>::empty() =~= moved);
}

/// At a tempo above zero the count of ticks stays below the beat period:
/// the emitters fire on the tick that brings it there, the count starts
/// over with that tick, and so they fire again one period later.
pub proof fn lemma_tick_counts_to_the_beat(before: ProjectView, order: Seq<(Position, Component)>)
    requires
        before.tempo.0 > 0,
        before.steps < before.tempo.beat_period(),
    ensures
        fires(before) <==> before.steps + 1 == before.tempo.beat_period(),
        tick(before, order).0.steps == if fires(before) {
            0
        } else {
            before.steps + 1
        },
        tick(before, order).0.steps < before.tempo.beat_period(),
        tick(before, order).0.tempo == before.tempo,
{
    lemma_beat_period(before.tempo, next_steps(before.steps));
}

/// The pellets that leave the cell `at` with pitch `pitch`, one for each of
/// `directions`.
fn spawn(at: Position, pitch: Pitch, directions: DirectionSet) -> (out: Vec<Pellet>)
    ensures
        out@ == leaving(at, pitch, directions),
        all_on_grid(out@),
{
    let members = directions.to_vec();
    let mut out: Vec<Pellet> = Vec::new();
    for i in 0..members.len()
        invariant
            members@ == directions.ordered(),
            out.len() == i,
            forall|j: int|
                0 <= j < i ==> #[trigger] out[j] == Pellet::spec_new_at(
                    at,
                    members[j],
                ).spec_with_pitch(pitch),
    {
        out.push(Pellet::new_at(at, members[i]).with_pitch(pitch));
    }
    assert(out@ =~= leaving(at, pitch, directions));
    out
}

/// A project: components on the cells of a grid, pellets in flight, and
/// the tempo at which both are driven.
#[derive(Debug)]
pub struct Project {
    pub components: ComponentMap,
    pub tempo: BeatsPerMinute,
    pub pellets: Vec<Pellet>,
    steps: u32,
}

impl View for Project {
    type V = ProjectView;

    closed spec fn view(&self) -> ProjectView {
        ProjectView {
            components: self.components@,
            tempo: self.tempo,
            pellets: self.pellets@,
            steps: self.steps,
        }
    }
}

impl Project {
    /// A project with the given parts, on which no tick has run yet.
    pub fn new(components: ComponentMap, tempo: BeatsPerMinute, pellets: Vec<Pellet>) -> (project:
        Project)
        ensures
            project@ == (ProjectView {
                components: components@,
                tempo,
                pellets: pellets@,
                steps: 0,
            }),
    {
        Project { components, tempo, pellets, steps: 0 }
    }

    /// Runs one tick, and hands back the sounds to play.
    #[must_use]
    pub fn step_pellets(&mut self) -> (sounds: Vec<Sound>)
        ensures
            exists|order: Seq<(Position, Component)>|
                #![trigger tick(old(self)@, order)]
                (fires(old(self)@) ==> is_listing(order, old(self)@.components)) && tick(
                    old(self)@,
                    order,
                ) == (final(self)@, sounds@),
    {
        self.steps = self.steps.wrapping_add(1);

        self.advance_pellets();

        let ghost mut order: Seq<(Position, Component)> = Seq::empty();
        if self.tempo.beat_elapsed(self.steps) {
            let asked = self.run_emitters();
            proof {
                order = asked@;
            }
            self.steps = 0;
        }
        let sounds = self.check_collisions();
        proof {
            assert(tick(old(self)@, order) == (self@, sounds@));
        }
        sounds
    }

    /// Moves every pellet on by one tick and takes out those that have
    /// left the grid.
    fn advance_pellets(&mut self)
        ensures
            final(self)@ == (ProjectView {
                pellets: travel(old(self)@.pellets, old(self)@.tempo.spec_speed()),
                ..old(self)@
            }),
            all_on_grid(final(self)@.pellets),
    {
        let amount = self.tempo.speed();
        let mut moved: Vec<Pellet> = Vec::new();
        let count = self.pellets.len();
        for i in 0..count
            invariant
                count == self.pellets.len(),
                *self == *old(self),
                amount == self.tempo.spec_speed(),
                moved@ == travel(self.pellets@.take(i as int), amount),
                all_on_grid(moved@),
        {
            let mut pellet = self.pellets[i];
            proof {
                self.pellets@.lemma_filter_map_take_succ(
                    |pellet: Pellet| pellet.after_tick(amount),
                    i as int,
                );
            }
            if pellet.can_advance_by(amount) {
                pellet.advance_by(amount);
                if !pellet.should_remove() {
                    moved.push(pellet);
                }
            }
        }
        assert(self.pellets@.take(count as int) == self.pellets@);
        self.pellets = moved;
    }

    /// Asks every component what it sends out on the beat and adds those
    /// pellets to the live ones. Hands back the order in which the
    /// components were asked.
    fn run_emitters(&mut self) -> (order: Ghost<Seq<(Position, Component)>>)
        requires
            all_on_grid(old(self)@.pellets),
        ensures
            is_listing(order@, old(self)@.components),
            final(self)@ == (ProjectView {
                pellets: old(self)@.pellets + emitted(order@),
                ..old(self)@
            }),
            all_on_grid(final(self)@.pellets),
    {
        let entries = self.components.to_vec();
        for i in 0..entries.len()
            invariant
                is_listing(entries@, old(self)@.components),
                self.components == old(self).components,
                self.tempo == old(self).tempo,
                self.steps == old(self).steps,
                self.pellets@ == old(self).pellets@ + emitted(entries@.take(i as int)),
                all_on_grid(self.pellets@),
        {
            let (pos, mut component) = entries[i];
            let mut out = spawn(pos, Pitch::new(0), component.on_emit());
            proof {
                let each = |entry: (Position, Component)|
                    leaving(entry.0, Pitch::spec_new(0), entry.1.spec_on_emit());
                let asked = entries@.take(i as int);
                assert(entries@.take(i + 1).map_values(each) =~= asked.map_values(each).push(
                    each(entries@[i as int]),
                ));
                asked.map_values(each).lemma_flatten_push(each(entries@[i as int]));
            }
            self.pellets.append(&mut out);
        }
        assert(entries@.take(entries.len() as int) == entries@);
        Ghost(entries@)
    }

    /// Lets every pellet that has reached a component act on it, and hands
    /// back the sounds that this makes.
    #[must_use]
    fn check_collisions(&mut self) -> (sounds: Vec<Sound>)
        requires
            all_on_grid(old(self)@.pellets),
        ensures
            ({
                let collisions = collide(old(self)@.components, old(self)@.pellets);
                &&& final(self)@ == (ProjectView {
                    components: collisions.components,
                    pellets: collisions.kept + collisions.added,
                    ..old(self)@
                })
                &&& sounds@ == collisions.sounds
            }),
    {
        let mut kept: Vec<Pellet> = Vec::new();
        let mut new_pellets: Vec<Pellet> = Vec::new();
        let mut sounds: Vec<Sound> = Vec::new();

        let count = self.pellets.len();
        for i in 0..count
            invariant
                count == self.pellets.len(),
                self.pellets == old(self).pellets,
                self.tempo == old(self).tempo,
                self.steps == old(self).steps,
                all_on_grid(self.pellets@),
                ({
                    let collisions = collide(
                        old(self)@.components,
                        self.pellets@.take(i as int),
                    );
                    &&& self.components@ == collisions.components
                    &&& kept@ == collisions.kept
                    &&& new_pellets@ == collisions.added
                    &&& sounds@ == collisions.sounds
                }),
        {
            let pellet = self.pellets[i];
            proof {
                assert(!pellet.spec_should_remove());
                assert(self.pellets@.take(i + 1).drop_last() =~= self.pellets@.take(i as int));
            }
            let pos = pellet.pos_rounded();

            let mut flies_on = true;
            if pos != pellet.immune_pos() {
                if let Some(mut component) = self.components.get(pos) {
                    let ShouldEmit { sound, pitch, directions } = component.on_pellet(pellet);
                    self.components.insert(pos, component);
                    if let Some(sound) = sound {
                        sounds.push(sound);
                    }
                    let out = spawn(pos, pitch, directions);
                    if out.len() > 0 {
                        kept.push(out[0]);
                        for j in 1..out.len()
                            invariant
                                new_pellets@ == collide(
                                    old(self)@.components,
                                    self.pellets@.take(i as int),
                                ).added + out@.subrange(1, j as int),
                        {
                            new_pellets.push(out[j]);
                        }
                        assert(out@.subrange(1, out.len() as int) =~= out@.skip(1));
                    }
                    flies_on = false;
                }
            }
            if flies_on {
                kept.push(pellet);
            }
        }

        assert(self.pellets@.take(count as int) == self.pellets@);
        kept.append(&mut new_pellets);
        self.pellets = kept;

        sounds
    }
}

} // verus!
