//! The level map: its size, which entity stands on which cell, where each
//! entity stands, and which entity is the player.
use std::collections::HashMap;

use vstd::prelude::*;

use crate::position::MapPosition;

verus! {

/// An entity of the game world, identified by the bits of its handle.
pub type EntityId = u64;

/// The width of a map made by `GameMap::default`.
pub const DEFAULT_MAP_WIDTH: u32 = 120;

/// The height of a map made by `GameMap::default`.
pub const DEFAULT_MAP_HEIGHT: u32 = 40;

/// What a map holds: its size, the entity on each occupied cell, the cell of
/// each placed entity, and the player, once one has been spawned.
pub struct GameMapView {
    pub width: u32,
    pub height: u32,
    pub entities: Map<MapPosition, EntityId>,
    pub positions: Map<EntityId, MapPosition>,
    pub player: Option<EntityId>,
}

impl GameMapView {
    /// The entity that stands on `p`, if any.
    pub open spec fn entity_at(self, p: MapPosition) -> Option<EntityId> {
        if self.entities.contains_key(p) {
            Some(self.entities[p])
        } else {
            None
        }
    }

    /// The cell on which `e` stands, if it has been placed.
    pub open spec fn position_of(self, e: EntityId) -> Option<MapPosition> {
        if self.positions.contains_key(e) {
            Some(self.positions[e])
        } else {
            None
        }
    }

    /// The map after placing `e` on `p`: `p` now holds `e`, and `e` stands
    /// on `p`.
    pub open spec fn with_entity(self, p: MapPosition, e: EntityId) -> GameMapView {
        GameMapView {
            width: self.width,
            height: self.height,
            entities: self.entities.insert(p, e),
            positions: self.positions.insert(e, p),
            player: self.player,
        }
    }

    /// The map after clearing `p`: the entity that stood there, if any, is
    /// taken off both tables.
    pub open spec fn without_entity_at(self, p: MapPosition) -> GameMapView {
        if self.entities.contains_key(p) {
            GameMapView {
                width: self.width,
                height: self.height,
                entities: self.entities.remove(p),
                positions: self.positions.remove(self.entities[p]),
                player: self.player,
            }
        } else {
            self
        }
    }

    /// The map after the entity on `old` (if any) moves to `new`: `old` is
    /// cleared, `new` holds the entity, and the entity stands on `new`.
    pub open spec fn with_entity_moved(self, old: MapPosition, new: MapPosition) -> GameMapView {
        if self.entities.contains_key(old) {
            let e: EntityId = self.entities[old];
            GameMapView {
                width: self.width,
                height: self.height,
                entities: self.entities.remove(old).insert(new, e),
                positions: self.positions.insert(e, new),
                player: self.player,
            }
        } else {
            self
        }
    }

    /// The two tables agree: the entity on a cell stands on that cell, and
    /// the cell of an entity holds that entity.
    pub open spec fn consistent(self) -> bool {
        &&& forall|p: MapPosition|
            #[trigger] self.entities.contains_key(p) ==> self.positions.contains_key(
                self.entities[p],
            ) && self.positions[self.entities[p]] == p
        &&& forall|e: EntityId|
            #[trigger] self.positions.contains_key(e) ==> self.entities.contains_key(
                self.positions[e],
            ) && self.entities[self.positions[e]] == e
    }
}

/// A read gives back what a write wrote: after placing `e` on `p`, the cell
/// `p` holds `e` and `e` stands on `p`, while every other cell and every other
/// entity keep what they had, and the size and the player are unchanged.
pub proof fn lemma_placed_entity_is_found(v: GameMapView, p: MapPosition, e: EntityId)
    ensures
        v.with_entity(p, e).entity_at(p) == Some(e),
        v.with_entity(p, e).position_of(e) == Some(p),
        forall|q: MapPosition| q != p ==> #[trigger] v.with_entity(p, e).entity_at(q) == v.entity_at(q),
        forall|f: EntityId| f != e ==> #[trigger] v.with_entity(p, e).position_of(f) == v.position_of(f),
        v.with_entity(p, e).width == v.width,
        v.with_entity(p, e).height == v.height,
        v.with_entity(p, e).player == v.player,
{
}

/// Moving the entity of an occupied cell: it stands on the new cell, the old
/// cell is empty unless it is the new one, and every other cell keeps what it
/// had.
pub proof fn lemma_moved_entity_is_found(v: GameMapView, old: MapPosition, new: MapPosition)
    requires
        v.entities.contains_key(old),
    ensures
        v.with_entity_moved(old, new).entity_at(new) == Some(v.entities[old]),
        v.with_entity_moved(old, new).position_of(v.entities[old]) == Some(new),
        old != new ==> v.with_entity_moved(old, new).entity_at(old) is None,
        forall|q: MapPosition|
            q != old && q != new ==> #[trigger] v.with_entity_moved(old, new).entity_at(q)
                == v.entity_at(q),
        v.with_entity_moved(old, new).player == v.player,
{
}

/// Asking to move the entity of an empty cell changes nothing.
pub proof fn lemma_move_from_empty_cell_is_noop(v: GameMapView, old: MapPosition, new: MapPosition)
    requires
        !v.entities.contains_key(old),
    ensures
        v.with_entity_moved(old, new) == v,
{
}

/// Clearing a cell leaves it empty, and the entity that stood there no longer
/// has a cell.
pub proof fn lemma_removed_entity_is_gone(v: GameMapView, p: MapPosition)
    ensures
        v.without_entity_at(p).entity_at(p) is None,
        v.entities.contains_key(p) ==> v.without_entity_at(p).position_of(v.entities[p]) is None,
        forall|q: MapPosition| q != p ==> #[trigger] v.without_entity_at(p).entity_at(q) == v.entity_at(q),
{
}

/// A move to a free cell is undone by the move back: on a consistent map,
/// moving the entity of `old` to the empty cell `new` and then back gives the
/// map it started from.
pub proof fn lemma_move_back_restores(v: GameMapView, old: MapPosition, new: MapPosition)
    requires
        v.consistent(),
        v.entities.contains_key(old),
        !v.entities.contains_key(new),
    ensures
        v.with_entity_moved(old, new).with_entity_moved(new, old) == v,
{
    let e: EntityId = v.entities[old];
    let w = v.with_entity_moved(old, new);
    assert(w.entities.contains_key(new));
    assert(w.entities[new] == e);
    let u = w.with_entity_moved(new, old);
    assert(u.entities =~= v.entities);
    assert(v.positions.contains_key(e) && v.positions[e] == old);
    assert(u.positions =~= v.positions);
}

/// An empty map is consistent.
pub proof fn lemma_empty_is_consistent(width: u32, height: u32, player: Option<EntityId>)
    ensures
        (GameMapView {
            width,
            height,
            entities: Map::empty(),
            positions: Map::empty(),
            player,
        }).consistent(),
{
}

/// Placing an entity that has no cell yet on an empty cell keeps the map
/// consistent.
pub proof fn lemma_placing_keeps_consistency(v: GameMapView, p: MapPosition, e: EntityId)
    requires
        v.consistent(),
        !v.entities.contains_key(p),
        !v.positions.contains_key(e),
    ensures
        v.with_entity(p, e).consistent(),
{
    let w = v.with_entity(p, e);
    assert forall|q: MapPosition| #[trigger] w.entities.contains_key(q) implies w.positions.contains_key(
        w.entities[q],
    ) && w.positions[w.entities[q]] == q by {
        if q != p {
            assert(v.entities.contains_key(q));
            assert(v.positions.contains_key(v.entities[q]));
        }
    }
    assert forall|f: EntityId| #[trigger] w.positions.contains_key(f) implies w.entities.contains_key(
        w.positions[f],
    ) && w.entities[w.positions[f]] == f by {
        if f != e {
            assert(v.positions.contains_key(f));
            assert(v.entities.contains_key(v.positions[f]));
        }
    }
}

/// Moving an entity to a free cell (or leaving it where it is) keeps the map
/// consistent.
pub proof fn lemma_moving_keeps_consistency(v: GameMapView, old: MapPosition, new: MapPosition)
    requires
        v.consistent(),
        !v.entities.contains_key(new) || new == old,
    ensures
        v.with_entity_moved(old, new).consistent(),
{
    if v.entities.contains_key(old) {
        let e: EntityId = v.entities[old];
        let w = v.with_entity_moved(old, new);
        assert forall|q: MapPosition| #[trigger] w.entities.contains_key(q) implies w.positions.contains_key(
            w.entities[q],
        ) && w.positions[w.entities[q]] == q by {
            if q != new {
                assert(v.entities.contains_key(q));
                assert(v.positions.contains_key(v.entities[q]));
                assert(v.entities[q] != e);
            }
        }
        assert forall|f: EntityId| #[trigger] w.positions.contains_key(f) implies w.entities.contains_key(
            w.positions[f],
        ) && w.entities[w.positions[f]] == f by {
            if f != e {
                assert(v.positions.contains_key(f));
                assert(v.entities.contains_key(v.positions[f]));
                assert(v.positions[f] != old);
            }
        }
    }
}

/// Clearing a cell keeps the map consistent.
pub proof fn lemma_removing_keeps_consistency(v: GameMapView, p: MapPosition)
    requires
        v.consistent(),
    ensures
        v.without_entity_at(p).consistent(),
{
    if v.entities.contains_key(p) {
        let e: EntityId = v.entities[p];
        let w = v.without_entity_at(p);
        assert forall|q: MapPosition| #[trigger] w.entities.contains_key(q) implies w.positions.contains_key(
            w.entities[q],
        ) && w.positions[w.entities[q]] == q by {
            assert(v.entities.contains_key(q));
            assert(v.positions.contains_key(v.entities[q]));
        }
        assert forall|f: EntityId| #[trigger] w.positions.contains_key(f) implies w.entities.contains_key(
            w.positions[f],
        ) && w.entities[w.positions[f]] == f by {
            assert(v.positions.contains_key(f));
            assert(v.entities.contains_key(v.positions[f]));
        }
    }
}

/// The integer under which a cell is filed: `x * 2^32 + (y + 2^31)`, which
/// is one-to-one on cells and always fits in an `i64`.
pub open spec fn cell_key(p: MapPosition) -> i64 {
    (p.x * 4294967296 + (p.y + 2147483648)) as i64
}

/// Different cells are filed under different keys.
pub broadcast proof fn lemma_cell_key_injective(a: MapPosition, b: MapPosition)
    ensures
        #[trigger] cell_key(a) == #[trigger] cell_key(b) <==> a == b,
{
}

/// Computes `cell_key(*p)`.
fn cell_key_of(p: &MapPosition) -> (k: i64)
    ensures
        k == cell_key(*p),
{
    (p.x as i64) * 4294967296i64 + ((p.y as i64) + 2147483648i64)
}

/// The map of a level: its size, the entity on each occupied cell, the cell
/// of each placed entity, and the player.
pub struct GameMap {
    width: u32,
    height: u32,
    entities: HashMap<i64, EntityId>,
    positions: HashMap<EntityId, MapPosition>,
    player: Option<EntityId>,
}

impl View for GameMap {
    type V = GameMapView;

    closed spec fn view(&self) -> GameMapView {
        GameMapView {
            width: self.width,
            height: self.height,
            entities: Map::new(
                |p: MapPosition| self.entities@.contains_key(cell_key(p)),
                |p: MapPosition| self.entities@[cell_key(p)],
            ),
            positions: self.positions@,
            player: self.player,
        }
    }
}

impl GameMap {
    /// An empty map of the given size, with no entity and no player.
    pub fn new(width: u32, height: u32) -> (m: GameMap)
        ensures
            m@.width == width,
            m@.height == height,
            m@.entities == Map::<MapPosition, EntityId>::empty(),
            m@.positions == Map::<EntityId, MapPosition>::empty(),
            m@.player is None,
    {
        let m = GameMap {
            width,
            height,
            entities: HashMap::new(),
            positions: HashMap::new(),
            player: None,
        };
        assert(m@.entities =~= Map::<MapPosition, EntityId>::empty());
        m
    }

    /// The width of the map.
    pub fn width(&self) -> (w: u32)
        ensures
            w == self@.width,
    {
        self.width
    }

    /// The height of the map.
    pub fn height(&self) -> (h: u32)
        ensures
            h == self@.height,
    {
        self.height
    }

    /// The player, once one has been spawned.
    pub fn player(&self) -> (p: Option<EntityId>)
        ensures
            p == self@.player,
    {
        self.player
    }

    /// The cell on which `e` stands, if it has been placed.
    pub fn position(&self, e: EntityId) -> (p: Option<MapPosition>)
        ensures
            p == self@.position_of(e),
    {
        match self.positions.get(&e) {
            Some(p) => Some(*p),
            None => None,
        }
    }

    /// The cell on which the player stands: `None` where no player has been
    /// spawned or the player has no cell.
    pub fn player_position(&self) -> (p: Option<MapPosition>)
        ensures
            p == (match self@.player {
                Some(e) => self@.position_of(e),
                None => None,
            }),
    {
        match self.player() {
            Some(player) => self.position(player),
            None => None,
        }
    }

    /// Whether some entity stands on `pos`.
    pub fn check_collision(&self, pos: MapPosition) -> (b: bool)
        ensures
            b == self@.entities.contains_key(pos),
    {
        let k: i64 = cell_key_of(&pos);
        self.entities.contains_key(&k)
    }

    /// Places `entity` on `position`: the cell now holds `entity` and
    /// `entity` stands on it.
    pub fn add_entity(&mut self, position: MapPosition, entity: EntityId)
        ensures
            final(self)@ == old(self)@.with_entity(position, entity),
    {
        let k: i64 = cell_key_of(&position);
        self.entities.insert(k, entity);
        self.positions.insert(entity, position);
        proof {
            broadcast use lemma_cell_key_injective;

            assert(final(self)@.entities =~= old(self)@.entities.insert(position, entity));
        }
    }

    /// Clears `position`: the entity that stood there, if any, is taken off
    /// the map.
    pub fn remove_entity(&mut self, position: &MapPosition)
        ensures
            final(self)@ == old(self)@.without_entity_at(*position),
    {
        let k: i64 = cell_key_of(position);
        let v = self.entities.remove(&k);
        if let Some(entity) = v {
            self.positions.remove(&entity);
        }
        proof {
            broadcast use lemma_cell_key_injective;

            if old(self)@.entities.contains_key(*position) {
                assert(final(self)@.entities =~= old(self)@.entities.remove(*position));
            } else {
                assert(final(self)@.entities =~= old(self)@.entities);
            }
        }
    }

    /// The entity that stands on `position`, if any.
    pub fn get_entity(&self, position: &MapPosition) -> (r: Option<&EntityId>)
        ensures
            match r {
                Some(e) => self@.entity_at(*position) == Some(*e),
                None => self@.entity_at(*position) is None,
            },
    {
        let k: i64 = cell_key_of(position);
        self.entities.get(&k)
    }

    /// Moves the entity on `old_position`, if any, to `new_position`; where
    /// `old_position` is empty nothing changes.
    pub fn update_entity_position(&mut self, old_position: &MapPosition, new_position: MapPosition)
        ensures
            final(self)@ == old(self)@.with_entity_moved(*old_position, new_position),
    {
        let k_old: i64 = cell_key_of(old_position);
        if let Some(entity) = self.entities.remove(&k_old) {
            let k_new: i64 = cell_key_of(&new_position);
            self.entities.insert(k_new, entity);
            self.positions.remove(&entity);
            self.positions.insert(entity, new_position);
            proof {
                broadcast use lemma_cell_key_injective;

                assert(final(self)@.entities =~= old(self)@.entities.remove(*old_position).insert(
                    new_position,
                    entity,
                ));
                assert(final(self)@.positions =~= old(self)@.positions.insert(
                    entity,
                    new_position,
                ));
            }
        } else {
            proof {
                broadcast use lemma_cell_key_injective;

                assert(final(self)@.entities =~= old(self)@.entities);
            }
        }
    }

    /// Records a wall entity, already spawned in the world, on `(x, y)`.
    pub fn spawn_wall(&mut self, entity: EntityId, x: i32, y: i32)
        ensures
            final(self)@ == old(self)@.with_entity(MapPosition { x, y }, entity),
    {
        self.add_entity(MapPosition { x, y }, entity);
    }

    /// Records the player entity, already spawned in the world, on `(x, y)`,
    /// and makes it the map's player.
    pub fn spawn_player(&mut self, entity: EntityId, x: i32, y: i32)
        ensures
            final(self)@ == ({
                let placed = old(self)@.with_entity(MapPosition { x, y }, entity);
                GameMapView { player: Some(entity), ..placed }
            }),
    {
        self.add_entity(MapPosition { x, y }, entity);
        self.player = Some(entity);
    }

    /// Records a non-player character, already spawned in the world, on
    /// `(x, y)`.
    pub fn spawn_npc(&mut self, entity: EntityId, x: i32, y: i32)
        ensures
            final(self)@ == old(self)@.with_entity(MapPosition { x, y }, entity),
    {
        self.add_entity(MapPosition { x, y }, entity);
    }
}

impl Default for GameMap {
    /// An empty map of `DEFAULT_MAP_WIDTH` by `DEFAULT_MAP_HEIGHT` cells.
    fn default() -> (m: GameMap)
        ensures
            m@.width == DEFAULT_MAP_WIDTH,
            m@.height == DEFAULT_MAP_HEIGHT,
            m@.entities == Map::<MapPosition, EntityId>::empty(),
            m@.positions == Map::<EntityId, MapPosition>::empty(),
            m@.player is None,
    {
        GameMap::new(DEFAULT_MAP_WIDTH, DEFAULT_MAP_HEIGHT)
    }
}

} // verus!
