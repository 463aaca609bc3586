//! The sparse placement of components on the grid.

use std::collections::HashMap;
use vstd::prelude::*;
use vstd::std_specs::iter::IteratorSpec;

use super::component::Component;
use super::position::Position;

verus! {

broadcast use vstd::std_specs::hash::group_hash_axioms;

/// The number that stands for a cell in the table: the cells counted
/// column by column from the corner with the smallest coordinates.
spec fn spec_key_of(pos: Position) -> u32 {
    ((pos.x + 32768) * 65536 + (pos.y + 32768)) as u32
}

/// The cell that a number of the table stands for.
spec fn spec_cell_of(key: u32) -> Position {
    Position { x: (key / 65536 - 32768) as i16, y: (key % 65536 - 32768) as i16 }
}

/// Every number of the table stands for one cell.
proof fn lemma_key_of_cell(key: u32)
    ensures
        spec_key_of(spec_cell_of(key)) == key,
{
}

/// Every cell has a number of its own.
proof fn lemma_cell_of_key(pos: Position)
    ensures
        spec_cell_of(spec_key_of(pos)) == pos,
{
}

fn key_of(pos: Position) -> (key: u32)
    ensures
        key == spec_key_of(pos),
{
    let column: u32 = (pos.x as i32 + 32768) as u32;
    let row: u32 = (pos.y as i32 + 32768) as u32;
    column * 65536 + row
}

fn cell_of(key: u32) -> (pos: Position)
    ensures
        pos == spec_cell_of(key),
{
    Position { x: ((key / 65536) as i32 - 32768) as i16, y: ((key % 65536) as i32 - 32768) as i16 }
}

/// Tells whether `entries` lists `map`: every cell of the map once, each
/// with its component, and nothing else.
pub open spec fn is_listing(
    entries: Seq<(Position, Component)>,
    map: Map<Position, Component>,
) -> bool {
    &&& forall|i: int, j: int|
        0 <= i < j < entries.len() ==> (#[trigger] entries[i]).0 != (#[trigger] entries[j]).0
    &&& forall|i: int|
        0 <= i < entries.len() ==> map.contains_key((#[trigger] entries[i]).0) && map[entries[i].0]
            == entries[i].1
    &&& forall|pos: Position| #[trigger]
        map.contains_key(pos) ==> exists|i: int|
            0 <= i < entries.len() && (#[trigger] entries[i]).0 == pos
}

/// A listing tells the whole map: two maps with the same listing are the
/// same map.
pub proof fn lemma_listing_tells_the_map(
    entries: Seq<(Position, Component)>,
    first: Map<Position, Component>,
    second: Map<Position, Component>,
)
    requires
        is_listing(entries, first),
        is_listing(entries, second),
    ensures
        first == second,
{
    assert forall|pos: Position| first.contains_key(pos) implies second.contains_key(pos)
        && second[pos] == first[pos] by {
        let i = choose|i: int| 0 <= i < entries.len() && (#[trigger] entries[i]).0 == pos;
        assert(second.contains_key(entries[i].0));
    }
    assert forall|pos: Position| second.contains_key(pos) implies first.contains_key(pos) by {
        let i = choose|i: int| 0 <= i < entries.len() && (#[trigger] entries[i]).0 == pos;
        assert(first.contains_key(entries[i].0));
    }
    assert(first =~= second);
}

/// The only listing of the empty map is the empty one.
pub proof fn lemma_listing_of_nothing(entries: Seq<(Position, Component)>)
    requires
        is_listing(entries, Map::<Position, Component>::empty()),
    ensures
        entries == Seq::<(Position, Component)>::empty(),
{
    if entries.len() > 0 {
        assert(Map::<Position, Component>::empty().contains_key(entries[0].0));
    }
    assert(entries =~= Seq::<(Position, Component)>::empty());
}

/// Which component stands on which cell: at most one on each.
#[derive(Debug)]
pub struct ComponentMap {
    cells: HashMap<u32, Component>,
}

impl View for ComponentMap {
    type V = Map<Position, Component>;

    closed spec fn view(&self) -> Map<Position, Component> {
        Map::new(
            |pos: Position| self.cells@.contains_key(spec_key_of(pos)),
            |pos: Position| self.cells@[spec_key_of(pos)],
        )
    }
}

impl ComponentMap {
    /// A grid with nothing on it.
    pub fn new() -> (map: ComponentMap)
        ensures
            map@ == Map::<Position, Component>::empty(),
    {
        let map = ComponentMap { cells: HashMap::new() };
        assert(map@ =~= Map::<Position, Component>::empty());
        map
    }

    /// Puts `component` on the cell `pos`, and hands back what stood there.
    pub fn insert(&mut self, pos: Position, component: Component) -> (before: Option<Component>)
        ensures
            final(self)@ == old(self)@.insert(pos, component),
            before == old(self).spec_get(pos),
    {
        let before = self.cells.insert(key_of(pos), component);
        proof {
            assert forall|other: Position| other != pos implies spec_key_of(other) != spec_key_of(
                pos,
            ) by {
                lemma_cell_of_key(other);
                lemma_cell_of_key(pos);
            }
            assert(self@ =~= old(self)@.insert(pos, component));
        }
        before
    }

    /// Clears the cell `pos`, and hands back what stood there.
    pub fn remove(&mut self, pos: Position) -> (before: Option<Component>)
        ensures
            final(self)@ == old(self)@.remove(pos),
            before == old(self).spec_get(pos),
    {
        let key = key_of(pos);
        let before = self.cells.remove(&key);
        proof {
            assert forall|other: Position| other != pos implies spec_key_of(other) != spec_key_of(
                pos,
            ) by {
                lemma_cell_of_key(other);
                lemma_cell_of_key(pos);
            }
            assert(self@ =~= old(self)@.remove(pos));
        }
        before
    }

    /// What stands on the cell `pos`, if anything.
    pub open spec fn spec_get(&self, pos: Position) -> Option<Component> {
        if self@.contains_key(pos) {
            Some(self@[pos])
        } else {
            None
        }
    }

    /// The components with their cells, in the order in which the table
    /// hands them out.
    pub fn to_vec(&self) -> (entries: Vec<(Position, Component)>)
        ensures
            is_listing(entries@, self@),
    {
        let mut entries: Vec<(Position, Component)> = Vec::new();
        let ghost walk = vstd::std_specs::hash::spec_hash_map_iter(&self.cells).remaining();
        for (key, component) in iter: self.cells.iter()
            invariant
                iter.seq() == walk,
                entries.len() == iter.index(),
                forall|j: int|
                    0 <= j < entries.len() ==> (#[trigger] entries[j]) == (
                        spec_cell_of(*walk[j].0),
                        *walk[j].1,
                    ),
        {
            entries.push((cell_of(*key), *component));
        }
        proof {
            assert(walk.no_duplicates());
            assert(entries.len() == walk.len());
            assert forall|i: int, j: int| 0 <= i < j < entries.len() implies (
            #[trigger] entries[i]).0 != (#[trigger] entries[j]).0 by {
                lemma_key_of_cell(*walk[i].0);
                lemma_key_of_cell(*walk[j].0);
                assert(self.cells@[*walk[i].0] == *walk[i].1);
                assert(self.cells@[*walk[j].0] == *walk[j].1);
                assert(walk[i] != walk[j]);
            }
            assert forall|i: int| 0 <= i < entries.len() implies self@.contains_key(
                (#[trigger] entries[i]).0,
            ) && self@[entries[i].0] == entries[i].1 by {
                lemma_key_of_cell(*walk[i].0);
                assert(self.cells@.contains_key(*walk[i].0));
                assert(self.cells@[*walk[i].0] == *walk[i].1);
            }
            assert forall|pos: Position| #[trigger] self@.contains_key(pos) implies exists|i: int|
                0 <= i < entries.len() && (#[trigger] entries[i]).0 == pos by {
                let key = spec_key_of(pos);
                assert(self.cells@.contains_key(key));
                assert(walk.contains((&key, &self.cells@[key])));
                let i = choose|i: int| 0 <= i < walk.len() && walk[i] == (&key, &self.cells@[key]);
                lemma_cell_of_key(pos);
                assert(entries[i].0 == pos);
            }
        }
        entries
    }

    #[verifier::when_used_as_spec(spec_get)]
    pub fn get(&self, pos: Position) -> (found: Option<Component>)
        ensures
            found == self.spec_get(pos),
    {
        let key = key_of(pos);
        match self.cells.get(&key) {
            Some(component) => Some(*component),
            None => None,
        }
    }
}

} // verus!
