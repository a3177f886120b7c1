//! A level on unsigned grid coordinates: the walls that frame it, the cell
//! that the movement keys lead to, and a map of occupied cells that stops
//! the player from walking into anything.
use std::collections::HashMap;

use vstd::prelude::*;

use crate::input::{axis, KeyState};
use crate::map::EntityId;

verus! {

/// The width of a map made by `GameMap::default`.
pub const MAP_WIDTH: u32 = 120;

/// The height of a map made by `GameMap::default`.
pub const MAP_HEIGHT: u32 = 40;

/// A cell of the level, in unsigned grid coordinates (`x` grows to the
/// right, `y` grows downwards).
#[derive(Clone, Debug, PartialEq, Eq, Default, Hash, Structural)]
pub struct MapPosition {
    pub x: u32,
    pub y: u32,
}

// ---------------------------------------------------------------------------
// The frame of walls
// ---------------------------------------------------------------------------

/// The walls of the left and right columns, row by row from the top: for row
/// `y`, first `(0, y)`, then `(width - 1, y)`.
pub open spec fn side_walls(width: u32, height: u32) -> Seq<MapPosition> {
    Seq::new(
        (2 * height) as nat,
        |i: int|
            MapPosition {
                x: if i % 2 == 0 {
                    0u32
                } else {
                    (width - 1) as u32
                },
                y: (i / 2) as u32,
            },
    )
}

/// The walls of the top and bottom rows between the two columns, column by
/// column from the left: for column `x` in `1..width - 1`, first `(x, 0)`,
/// then `(x, height - 1)`.
pub open spec fn cap_walls(width: u32, height: u32) -> Seq<MapPosition> {
    Seq::new(
        (if width >= 2 {
            2 * (width - 2)
        } else {
            0
        }) as nat,
        |j: int|
            MapPosition {
                x: (1 + j / 2) as u32,
                y: if j % 2 == 0 {
                    0u32
                } else {
                    (height - 1) as u32
                },
            },
    )
}

/// The cells of the frame of walls around a `width` by `height` level, in the
/// order in which the level is built: the two columns, then the two rows.
pub open spec fn border_layout(width: u32, height: u32) -> Seq<MapPosition> {
    side_walls(width, height) + cap_walls(width, height)
}

/// Whether a frame of walls can be laid out: the right column needs a width
/// of at least one, and the bottom row, which is laid only when there is a
/// column between the two sides, needs a height of at least one.
pub open spec fn border_fits(width: u32, height: u32) -> bool {
    width >= 1 && (width >= 3 ==> height >= 1)
}

/// Whether a cell lies on the edge of a `width` by `height` level.
pub open spec fn on_border(p: MapPosition, width: u32, height: u32) -> bool {
    &&& p.x < width
    &&& p.y < height
    &&& (p.x == 0 || p.x == width - 1 || p.y == 0 || p.y == height - 1)
}

/// The cells on which a level of `width` by `height` cells puts its walls:
/// `(0, y)` and `(width - 1, y)` for each row `y`, then `(x, 0)` and
/// `(x, height - 1)` for each column `x` in `1..width - 1`.
pub fn border_cells(width: u32, height: u32) -> (cells: Vec<MapPosition>)
    requires
        border_fits(width, height),
    ensures
        cells@ == border_layout(width, height),
{
    let mut cells: Vec<MapPosition> = Vec::new();
    let mut y: u32 = 0;
    while y < height
        invariant
            border_fits(width, height),
            y <= height,
            cells@ == side_walls(width, height).take(2 * y),
        decreases height - y,
    {
        cells.push(MapPosition { x: 0, y });
        cells.push(MapPosition { x: width - 1, y });
        assert(cells@ =~= side_walls(width, height).take(2 * (y + 1)));
        y = y + 1;
    }
    assert(side_walls(width, height).take(2 * height) =~= side_walls(width, height));
    let mut x: u32 = 1;
    let end: u32 = width - 1;
    while x < end
        invariant
            border_fits(width, height),
            end == width - 1,
            1 <= x,
            x <= end || x == 1,
            cells@ == side_walls(width, height) + cap_walls(width, height).take(2 * (x - 1)),
        decreases end - x,
    {
        cells.push(MapPosition { x, y: 0 });
        cells.push(MapPosition { x, y: height - 1 });
        assert(cells@ =~= side_walls(width, height) + cap_walls(width, height).take(2 * x));
        x = x + 1;
    }
    assert(x == 1 || x == end);
    assert(cap_walls(width, height).len() == 2 * (x - 1));
    assert(cap_walls(width, height).take(2 * (x - 1)) =~= cap_walls(width, height));
    cells
}

/// Every wall of the frame lies on the edge of the level.
pub proof fn lemma_border_cells_on_border(width: u32, height: u32, i: int)
    requires
        border_fits(width, height),
        0 <= i < border_layout(width, height).len(),
    ensures
        on_border(border_layout(width, height)[i], width, height),
{
    let s = side_walls(width, height);
    if i >= s.len() {
        let j: int = i - s.len();
        assert(border_layout(width, height)[i] == cap_walls(width, height)[j]);
    }
}

/// Every cell on the edge of the level gets a wall.
pub proof fn lemma_border_cells_complete(width: u32, height: u32, p: MapPosition)
    requires
        border_fits(width, height),
        on_border(p, width, height),
    ensures
        border_layout(width, height).contains(p),
{
    let s = side_walls(width, height);
    let c = cap_walls(width, height);
    let b = border_layout(width, height);
    if p.x == 0 {
        let i: int = 2 * p.y;
        assert(b[i] == s[i]);
        assert(b[i] == p);
    } else if p.x == width - 1 {
        let i: int = 2 * p.y + 1;
        assert(b[i] == s[i]);
        assert(b[i] == p);
    } else if p.y == 0 {
        let j: int = 2 * (p.x - 1);
        assert(b[s.len() + j] == c[j]);
        assert(b[s.len() + j] == p);
    } else {
        let j: int = 2 * (p.x - 1) + 1;
        assert(b[s.len() + j] == c[j]);
        assert(b[s.len() + j] == p);
    }
}

// ---------------------------------------------------------------------------
// Steps on the grid
// ---------------------------------------------------------------------------

/// Whether the keys can be applied to `p` without leaving the `u32` grid.
/// The keys are applied in the order W, S, A, D, one unit each, so W at row
/// 0 or A at column 0 fails, and so does S (without W) at the last row or D
/// (without A) at the last column.
pub open spec fn step_in_range(p: MapPosition, keys: KeyState) -> bool {
    &&& keys.up ==> p.y >= 1
    &&& (keys.down && !keys.up) ==> p.y < u32::MAX
    &&& keys.left ==> p.x >= 1
    &&& (keys.right && !keys.left) ==> p.x < u32::MAX
}

/// The cell the keys lead to from `p`: W goes up a row, S down a row, A left
/// a column and D right a column; opposite keys cancel out.
pub open spec fn stepped(p: MapPosition, keys: KeyState) -> MapPosition {
    MapPosition {
        x: (p.x + axis(keys.left, keys.right)) as u32,
        y: (p.y - axis(keys.down, keys.up)) as u32,
    }
}

/// Computes `step_in_range(*p, keys)`.
pub fn can_step(p: &MapPosition, keys: KeyState) -> (b: bool)
    ensures
        b == step_in_range(*p, keys),
        b == ({
            let y_after_up: int = p.y - (if keys.up { 1int } else { 0int });
            let y_after_down: int = y_after_up + (if keys.down { 1int } else { 0int });
            let x_after_left: int = p.x - (if keys.left { 1int } else { 0int });
            let x_after_right: int = x_after_left + (if keys.right { 1int } else { 0int });
            0 <= y_after_up && y_after_down <= u32::MAX && 0 <= x_after_left && x_after_right
                <= u32::MAX
        }),
{
    (!keys.up || p.y >= 1) && (!(keys.down && !keys.up) || p.y < u32::MAX) && (!keys.left || p.x
        >= 1) && (!(keys.right && !keys.left) || p.x < u32::MAX)
}

/// The cell the keys lead to from `position`, applying W, S, A and D in turn.
pub fn step_target(position: &MapPosition, keys: KeyState) -> (t: MapPosition)
    requires
        step_in_range(*position, keys),
    ensures
        t == stepped(*position, keys),
{
    let mut x: u32 = position.x;
    let mut y: u32 = position.y;
    if keys.up {
        y = y - 1;
    }
    if keys.down {
        y = y + 1;
    }
    if keys.left {
        x = x - 1;
    }
    if keys.right {
        x = x + 1;
    }
    MapPosition { x, y }
}

/// The cell the keys lead to, or `None` where they leave the player where
/// it is.
pub fn move_target(position: &MapPosition, keys: KeyState) -> (t: Option<MapPosition>)
    requires
        step_in_range(*position, keys),
    ensures
        stepped(*position, keys) == *position ==> t is None,
        stepped(*position, keys) != *position ==> t == Some(stepped(*position, keys)),
{
    let target = step_target(position, keys);
    if target.x == position.x && target.y == position.y {
        None
    } else {
        Some(target)
    }
}

/// A step moves by at most one cell along each axis, and goes along the
/// screen direction of the same keys, with the vertical axis turned over
/// (rows grow downwards, the screen grows upwards).
pub proof fn lemma_step_follows_keys(p: MapPosition, keys: KeyState)
    requires
        step_in_range(p, keys),
    ensures
        stepped(p, keys).x == p.x + axis(keys.left, keys.right),
        stepped(p, keys).y == p.y - axis(keys.down, keys.up),
        -1 <= stepped(p, keys).x - p.x <= 1,
        -1 <= stepped(p, keys).y - p.y <= 1,
{
}

/// Without keys, or with opposite keys on both axes, the player stays put.
pub proof fn lemma_opposite_keys_cancel(p: MapPosition, keys: KeyState)
    requires
        keys.up == keys.down,
        keys.left == keys.right,
        step_in_range(p, keys),
    ensures
        stepped(p, keys) == p,
{
}

// ---------------------------------------------------------------------------
// The map of occupied cells
// ---------------------------------------------------------------------------

/// What a level map holds: its size and the entity on each occupied cell.
pub struct GridView {
    pub width: u32,
    pub height: u32,
    pub entities: Map<MapPosition, EntityId>,
}

impl GridView {
    /// The entity that stands on `p`, if any.
    pub open spec fn entity_at(self, p: MapPosition) -> Option<EntityId> {
        if self.entities.contains_key(p) {
            Some(self.entities[p])
        } else {
            None
        }
    }

    /// The map after placing `e` on `p`.
    pub open spec fn with_entity(self, p: MapPosition, e: EntityId) -> GridView {
        GridView { entities: self.entities.insert(p, e), ..self }
    }

    /// The map after clearing `p`.
    pub open spec fn without_entity_at(self, p: MapPosition) -> GridView {
        GridView { entities: self.entities.remove(p), ..self }
    }

    /// The map after the entity on `old` (if any) moves to `new`.
    pub open spec fn with_entity_moved(self, old: MapPosition, new: MapPosition) -> GridView {
        if self.entities.contains_key(old) {
            GridView { entities: self.entities.remove(old).insert(new, self.entities[old]), ..self }
        } else {
            self
        }
    }
}

/// The integer under which a cell is filed: `x * 2^32 + y`, one-to-one on
/// cells.
pub open spec fn cell_key(p: MapPosition) -> u64 {
    (p.x * 4294967296 + p.y) as u64
}

/// Different cells are filed under different keys.
pub broadcast proof fn lemma_cell_key_injective(a: MapPosition, b: MapPosition)
    ensures
        #[trigger] cell_key(a) == #[trigger] cell_key(b) <==> a == b,
{
}

/// Computes `cell_key(*p)`.
fn cell_key_of(p: &MapPosition) -> (k: u64)
    ensures
        k == cell_key(*p),
{
    (p.x as u64) * 4294967296u64 + (p.y as u64)
}

/// What happened to a request to move the player.
#[derive(Clone, Debug, PartialEq, Eq, Structural)]
pub enum MoveOutcome {
    /// The keys lead nowhere: the player stays where it is.
    Unchanged,
    /// The keys lead to this cell, but an entity stands on it: the player
    /// stays where it is.
    Blocked(MapPosition),
    /// The player moved to this cell.
    Moved(MapPosition),
}

/// The map of a level: its size and the entity on each occupied cell.
pub struct GameMap {
    width: u32,
    height: u32,
    entities: HashMap<u64, EntityId>,
}

impl View for GameMap {
    type V = GridView;

    closed spec fn view(&self) -> GridView {
        GridView {
            width: self.width,
            height: self.height,
            entities: Map::new(
                |p: MapPosition| self.entities@.contains_key(cell_key(p)),
                |p: MapPosition| self.entities@[cell_key(p)],
            ),
        }
    }
}

impl GameMap {
    /// An empty map of the given size.
    pub fn new(width: u32, height: u32) -> (m: GameMap)
        ensures
            m@.width == width,
            m@.height == height,
            m@.entities == Map::<MapPosition, EntityId>::empty(),
    {
        let m = GameMap { width, height, entities: HashMap::new() };
        assert(m@.entities =~= Map::<MapPosition, EntityId>::empty());
        m
    }

    /// The width of the map.
    pub fn width(&self) -> (w: u32)
        ensures
            w == self@.width,
    {
        self.width
    }

    /// The height of the map.
    pub fn height(&self) -> (h: u32)
        ensures
            h == self@.height,
    {
        self.height
    }

    /// Places `entity` on `position`.
    pub fn add_entity(&mut self, position: MapPosition, entity: EntityId)
        ensures
            final(self)@ == old(self)@.with_entity(position, entity),
    {
        let k: u64 = cell_key_of(&position);
        self.entities.insert(k, entity);
        proof {
            broadcast use lemma_cell_key_injective;

            assert(final(self)@.entities =~= old(self)@.entities.insert(position, entity));
        }
    }

    /// Clears `position`.
    pub fn remove_entity(&mut self, position: &MapPosition)
        ensures
            final(self)@ == old(self)@.without_entity_at(*position),
    {
        let k: u64 = cell_key_of(position);
        self.entities.remove(&k);
        proof {
            broadcast use lemma_cell_key_injective;

            assert(final(self)@.entities =~= old(self)@.entities.remove(*position));
        }
    }

    /// The entity that stands on `position`, if any.
    pub fn get_entity(&self, position: &MapPosition) -> (r: Option<&EntityId>)
        ensures
            match r {
                Some(e) => self@.entity_at(*position) == Some(*e),
                None => self@.entity_at(*position) is None,
            },
    {
        let k: u64 = cell_key_of(position);
        self.entities.get(&k)
    }

    /// Moves the entity on `old_position`, if any, to `new_position`.
    pub fn update_entity_position(&mut self, old_position: &MapPosition, new_position: MapPosition)
        ensures
            final(self)@ == old(self)@.with_entity_moved(*old_position, new_position),
            !old(self)@.entities.contains_key(*old_position) ==> final(self)@ == old(self)@,
            old(self)@.entities.contains_key(*old_position) ==> final(self)@.entity_at(new_position)
                == old(self)@.entity_at(*old_position),
            old(self)@.entities.contains_key(*old_position) && *old_position != new_position
                ==> final(self)@.entity_at(*old_position) is None,
            forall|q: MapPosition|
                q != *old_position && q != new_position ==> #[trigger] final(self)@.entity_at(q)
                    == old(self)@.entity_at(q),
    {
        let k_old: u64 = cell_key_of(old_position);
        if let Some(entity) = self.entities.remove(&k_old) {
            let k_new: u64 = cell_key_of(&new_position);
            self.entities.insert(k_new, entity);
            proof {
                broadcast use lemma_cell_key_injective;

                assert(final(self)@.entities =~= old(self)@.entities.remove(*old_position).insert(
                    new_position,
                    entity,
                ));
            }
        } else {
            proof {
                broadcast use lemma_cell_key_injective;

                assert(final(self)@.entities =~= old(self)@.entities);
            }
        }
    }

    /// Records a wall entity, already spawned in the world, on `(x, y)`.
    pub fn spawn_wall(&mut self, entity: EntityId, x: u32, y: u32)
        ensures
            final(self)@ == old(self)@.with_entity(MapPosition { x, y }, entity),
    {
        self.add_entity(MapPosition { x, y }, entity);
    }

    /// Records the player entity, already spawned in the world, on `(x, y)`.
    pub fn spawn_player(&mut self, entity: EntityId, x: u32, y: u32)
        ensures
            final(self)@ == old(self)@.with_entity(MapPosition { x, y }, entity),
    {
        self.add_entity(MapPosition { x, y }, entity);
    }

    /// Handles the movement keys for the player standing on `position`:
    /// where the keys lead nowhere nothing happens; where they lead onto an
    /// occupied cell the player is blocked and nothing changes; otherwise the
    /// entity on `position` is moved to the target cell.
    pub fn try_move_player(&mut self, position: &MapPosition, keys: KeyState) -> (r: MoveOutcome)
        requires
            step_in_range(*position, keys),
        ensures
            ({
                let t = stepped(*position, keys);
                &&& t == *position ==> r == MoveOutcome::Unchanged && final(self)@ == old(self)@
                &&& (t != *position && old(self)@.entities.contains_key(t)) ==> r
                    == MoveOutcome::Blocked(t) && final(self)@ == old(self)@
                &&& (t != *position && !old(self)@.entities.contains_key(t)) ==> r
                    == MoveOutcome::Moved(t) && final(self)@ == old(self)@.with_entity_moved(
                    *position,
                    t,
                )
            }),
    {
        match move_target(position, keys) {
            None => MoveOutcome::Unchanged,
            Some(target) => {
                if self.get_entity(&target).is_some() {
                    MoveOutcome::Blocked(target)
                } else {
                    let destination = MapPosition { x: target.x, y: target.y };
                    self.update_entity_position(position, destination);
                    MoveOutcome::Moved(target)
                }
            },
        }
    }
}

impl Default for GameMap {
    /// An empty map of `MAP_WIDTH` by `MAP_HEIGHT` cells.
    fn default() -> (m: GameMap)
        ensures
            m@.width == MAP_WIDTH,
            m@.height == MAP_HEIGHT,
            m@.entities == Map::<MapPosition, EntityId>::empty(),
    {
        GameMap::new(MAP_WIDTH, MAP_HEIGHT)
    }
}

/// A player move never lands on an occupied cell and never disturbs any cell
/// other than the two it leaves and enters: after a move from `position`
/// to the free cell `t`, `t` holds what `position` held, `position` is empty,
/// and every other cell keeps its entity.
pub proof fn lemma_move_keeps_other_cells(v: GridView, position: MapPosition, t: MapPosition)
    requires
        v.entities.dom().finite(),
        v.entities.contains_key(position),
        !v.entities.contains_key(t),
        t != position,
    ensures
        v.with_entity_moved(position, t).entity_at(t) == v.entity_at(position),
        v.with_entity_moved(position, t).entity_at(position) is None,
        forall|q: MapPosition|
            q != position && q != t ==> #[trigger] v.with_entity_moved(position, t).entity_at(q)
                == v.entity_at(q),
        v.with_entity_moved(position, t).entities.len() == v.entities.len(),
{
    let w = v.with_entity_moved(position, t);
    assert(v.entities.remove(position).len() == v.entities.len() - 1);
}

/// A step is in range exactly when applying W, S, A and D in turn, one unit
/// each, never takes a coordinate below 0 or above `u32::MAX`. In particular
/// W alone is in range from every row `y >= 1`, and A alone from every
/// column `x >= 1`.
pub proof fn lemma_step_in_range_iff_no_wrap(p: MapPosition, keys: KeyState)
    ensures
        step_in_range(p, keys) <==> ({
            let y_after_up: int = p.y - (if keys.up { 1int } else { 0int });
            let y_after_down: int = y_after_up + (if keys.down { 1int } else { 0int });
            let x_after_left: int = p.x - (if keys.left { 1int } else { 0int });
            let x_after_right: int = x_after_left + (if keys.right { 1int } else { 0int });
            0 <= y_after_up && y_after_down <= u32::MAX && 0 <= x_after_left && x_after_right
                <= u32::MAX
        }),
        p.y >= 1 ==> step_in_range(p, KeyState { up: true, down: false, left: false, right: false }),
        p.x >= 1 ==> step_in_range(p, KeyState { up: false, down: false, left: true, right: false }),
        p.y < u32::MAX ==> step_in_range(
            p,
            KeyState { up: false, down: true, left: false, right: false },
        ),
        p.x < u32::MAX ==> step_in_range(
            p,
            KeyState { up: false, down: false, left: false, right: true },
        ),
        step_in_range(p, KeyState { up: false, down: false, left: false, right: false }),
{
}

/// The frame has two walls per row and two per inner column:
/// `2 * height + 2 * (width - 2)` cells, or `2 * height` when the level is
/// narrower than two cells.
pub proof fn lemma_border_length(width: u32, height: u32)
    ensures
        border_layout(width, height).len() == 2 * height + (if width >= 2 {
            2 * (width - 2)
        } else {
            0
        }),
{
}

/// On the grid map, a read gives back a write: after placing `e` on `p`, the
/// cell `p` holds `e` and every other cell keeps what it had; after clearing
/// `p`, the cell is empty and every other cell keeps what it had.
pub proof fn lemma_grid_write_then_read(v: GridView, p: MapPosition, e: EntityId)
    ensures
        v.with_entity(p, e).entity_at(p) == Some(e),
        v.without_entity_at(p).entity_at(p) is None,
        forall|q: MapPosition| q != p ==> #[trigger] v.with_entity(p, e).entity_at(q) == v.entity_at(q),
        forall|q: MapPosition| q != p ==> #[trigger] v.without_entity_at(p).entity_at(q) == v.entity_at(q),
        v.with_entity(p, e).width == v.width && v.with_entity(p, e).height == v.height,
        v.without_entity_at(p).width == v.width && v.without_entity_at(p).height == v.height,
{
}

/// On the grid map, moving from a cell that holds no entity changes nothing.
pub proof fn lemma_grid_move_from_empty_cell_is_noop(v: GridView, old: MapPosition, new: MapPosition)
    requires
        !v.entities.contains_key(old),
    ensures
        v.with_entity_moved(old, new) == v,
        forall|q: MapPosition| #[trigger] v.with_entity_moved(old, new).entity_at(q) == v.entity_at(q),
{
}

/// On the grid map, moving the entity of an occupied cell: the destination
/// holds that entity, the source is empty unless it is the destination, and
/// every other cell keeps what it had.
pub proof fn lemma_grid_moved_entity_is_found(v: GridView, old: MapPosition, new: MapPosition)
    requires
        v.entities.contains_key(old),
    ensures
        v.with_entity_moved(old, new).entity_at(new) == Some(v.entities[old]),
        old != new ==> v.with_entity_moved(old, new).entity_at(old) is None,
        forall|q: MapPosition|
            q != old && q != new ==> #[trigger] v.with_entity_moved(old, new).entity_at(q)
                == v.entity_at(q),
{
}

} // verus!
