//! The grid of fields: generation, bounds-checked access, and the
//! playability pass after generation.
use crate::faction::Faction;
use crate::random::random_in;
use vstd::prelude::*;

verus! {

/// Information about a single field of the map.
#[derive(Debug, Clone, Copy, PartialEq, Eq, Structural)]
pub struct Field {
    /// The faction currently occupying this field.
    pub faction: Faction,
    /// The number of dice on this field.
    pub num_dice: u8,
}

impl Field {
    /// A field that generation may produce for `max_players` and `max_dice`:
    /// its faction comes from valid draws and it holds 1 to `max_dice` dice.
    pub open spec fn may_generate(self, max_players: u8, max_dice: u8) -> bool {
        &&& self.faction.within(max_players)
        &&& exists|roll: u8, block_roll: u8|
            Faction::valid_rolls(max_players, roll) && self.faction == Faction::assigned(
                max_players,
                roll,
                block_roll,
            )
        &&& 1 <= self.num_dice <= max_dice
    }

    /// The field that the draws stand for: the faction that `roll` and
    /// `block_roll` give (see `Faction::assigned`) with `num_dice` dice.
    pub fn from_rolls(max_players: u8, roll: u8, block_roll: u8, num_dice: u8) -> (r: Field)
        requires
            Faction::valid_rolls(max_players, roll),
        ensures
            r == (Field {
                faction: Faction::assigned(max_players, roll, block_roll),
                num_dice: num_dice,
            }),
    {
        Field { faction: Faction::from_rolls(max_players, roll, block_roll), num_dice: num_dice }
    }

    /// Creates a randomized field: a random faction (drawn as `Faction::new`
    /// draws it) and a uniform number of dice in `[1, max_dice]`.
    pub fn new(max_players: u8, max_dice: u8) -> (r: Field)
        requires
            max_dice > 0,
        ensures
            r.may_generate(max_players, max_dice),
    {
        let (roll, block_roll) = Faction::draw_rolls(max_players);
        let num_dice = random_in(1, max_dice);
        let r = Self::from_rolls(max_players, roll, block_roll, num_dice);
        assert(Faction::valid_rolls(max_players, roll) && r.faction == Faction::assigned(
            max_players,
            roll,
            block_roll,
        ));
        r
    }
}

impl Default for Field {
    fn default() -> (r: Field)
        ensures
            r == (Field { faction: Faction::Blocked, num_dice: 0 }),
    {
        Field { faction: Faction::default(), num_dice: 0 }
    }
}

/// Describes a point in 2D space.
#[derive(Debug, Clone, Copy, PartialEq, Eq, Structural)]
pub struct Point {
    /// The point's location along the X-axis.
    pub x: u8,
    /// The point's location along the Y-axis.
    pub y: u8,
}

/// Describes the shape of the fields, i.e. how many direct neighbours a field has.
pub enum Shape {
    Square,
}

/// The grid of a game.
///
/// The fields are stored row by row: the field at `(x, y)` is the one at
/// `y * size.x + x`.
pub struct GameMap {
    size: Point,
    fields: Vec<Field>,
}

impl View for GameMap {
    type V = Seq<Field>;

    /// The fields in row-major order.
    closed spec fn view(&self) -> Seq<Field> {
        self.fields@
    }
}

impl GameMap {
    /// How many fields there are on each axis.
    pub closed spec fn dims(&self) -> Point {
        self.size
    }

    /// Both axes are non-empty and there is one field per coordinate.
    pub open spec fn wf(&self) -> bool {
        &&& self.dims().x > 0
        &&& self.dims().y > 0
        &&& self@.len() == self.dims().x * self.dims().y
    }

    pub open spec fn contains(&self, p: Point) -> bool {
        p.x < self.dims().x && p.y < self.dims().y
    }

    /// Position of the field at `p` in the row-major order.
    pub open spec fn index_of(&self, p: Point) -> int {
        p.y * self.dims().x + p.x
    }

    pub open spec fn cell(&self, p: Point) -> Field {
        self@[self.index_of(p)]
    }

    /// A coordinate on the map has its own position among the fields.
    pub proof fn lemma_index_of(&self, p: Point, q: Point)
        requires
            self.wf(),
            self.contains(p),
            self.contains(q),
        ensures
            0 <= self.index_of(p) < self@.len(),
            p != q ==> self.index_of(p) != self.index_of(q),
    {
        let w = self.dims().x as int;
        let h = self.dims().y as int;
        assert(0 <= p.y * w + p.x < w * h) by (nonlinear_arith)
            requires
                0 <= p.x < w,
                0 <= p.y < h,
        ;
        if p != q {
            if p.y == q.y {
                assert(p.x != q.x);
            } else {
                assert(p.y * w + p.x != q.y * w + q.x) by (nonlinear_arith)
                    requires
                        0 <= p.x < w,
                        0 <= q.x < w,
                        p.y != q.y,
                ;
            }
        }
    }

    /// Number of fields on a map of the given size.
    fn cell_count(size: Point) -> (r: usize)
        ensures
            r == size.x * size.y,
    {
        let w = size.x as usize;
        let h = size.y as usize;
        assert(w * h <= 255 * 255) by (nonlinear_arith)
            requires
                w <= 255,
                h <= 255,
        ;
        w * h
    }

    /// Position of the field at `coord` in the row-major order.
    fn index(&self, coord: Point) -> (r: usize)
        requires
            self.wf(),
            self.contains(coord),
        ensures
            r == self.index_of(coord),
            r < self@.len(),
    {
        proof {
            self.lemma_index_of(coord, coord);
        }
        let w = self.size.x as usize;
        let y = coord.y as usize;
        assert(y * w <= 255 * 255) by (nonlinear_arith)
            requires
                w <= 255,
                y <= 255,
        ;
        y * w + coord.x as usize
    }

    /// Initialises an empty map: every field blocked and without dice.
    ///
    /// * `size` - Dimension of the map in number of fields per axis.
    pub fn new_empty(size: Point) -> (r: GameMap)
        requires
            size.x > 0,
            size.y > 0,
        ensures
            r.wf(),
            r.dims() == size,
            forall|i: int|
                0 <= i < r@.len() ==> r@[i] == (Field { faction: Faction::Blocked, num_dice: 0 }),
    {
        let total = Self::cell_count(size);
        let mut fields: Vec<Field> = Vec::new();
        let mut i: usize = 0;
        while i < total
            invariant
                i <= total,
                total == size.x * size.y,
                fields@.len() == i,
                forall|k: int|
                    0 <= k < i ==> fields@[k] == (Field { faction: Faction::Blocked, num_dice: 0 }),
            decreases total - i,
        {
            fields.push(Field::default());
            i += 1;
        }
        GameMap { size: size, fields: fields }
    }

    /// Initialises a randomized map, field by field in row-major order, and
    /// then runs the playability pass on it.
    ///
    /// * `players` - Number of players to distribute.
    /// * `max_dice` - Number of dice a field may have at most.
    /// * `size` - Dimension of the map in number of fields per axis.
    pub fn new(players: u8, max_dice: u8, size: Point) -> (r: GameMap)
        requires
            players > 0,
            max_dice > 0,
            size.x > 0,
            size.y > 0,
        ensures
            r.wf(),
            r.dims() == size,
            forall|i: int| 0 <= i < r@.len() ==> #[trigger] r@[i].may_generate(players, max_dice),
    {
        let total = Self::cell_count(size);
        let mut fields: Vec<Field> = Vec::new();
        let mut i: usize = 0;
        while i < total
            invariant
                i <= total,
                total == size.x * size.y,
                max_dice > 0,
                fields@.len() == i,
                forall|k: int| 0 <= k < i ==> #[trigger] fields@[k].may_generate(players, max_dice),
            decreases total - i,
        {
            fields.push(Field::new(players, max_dice));
            i += 1;
        }
        let mut map = Self::from_fields(size, fields);
        map.sanitize_map();
        map
    }

    /// A map of the given size holding `fields` in row-major order.
    pub fn from_fields(size: Point, fields: Vec<Field>) -> (r: GameMap)
        requires
            size.x > 0,
            size.y > 0,
            fields@.len() == size.x * size.y,
        ensures
            r.wf(),
            r.dims() == size,
            r@ == fields@,
    {
        GameMap { size: size, fields: fields }
    }

    /// Makes a generated map playable.
    ///
    /// This pass is deliberately a no-op: maps are left as generated, so they
    /// may be disconnected or unbalanced between players.
    fn sanitize_map(&mut self)
        ensures
            *final(self) == *old(self),
    {
    }

    /// How many fields there are on each axis.
    pub fn size(&self) -> (r: Point)
        ensures
            r == self.dims(),
    {
        self.size
    }

    /// Retrieves a copy of the field at the given coordinate.
    ///
    /// * `coord` - Coordinate of the field to retrieve.
    pub fn get_field(&self, coord: Point) -> (r: Field)
        requires
            self.wf(),
            self.contains(coord),
        ensures
            r == self.cell(coord),
    {
        proof {
            self.lemma_index_of(coord, coord);
        }
        self.fields[self.index(coord)]
    }

    /// Retrieves the field at the given coordinate for an update in place.
    ///
    /// * `coord` - Coordinate of the field to retrieve.
    pub fn get_field_mut(&mut self, coord: Point) -> (r: &mut Field)
        requires
            old(self).wf(),
            old(self).contains(coord),
        ensures
            *r == old(self).cell(coord),
            final(self).dims() == old(self).dims(),
            final(self)@ == old(self)@.update(old(self).index_of(coord), *final(r)),
    {
        proof {
            self.lemma_index_of(coord, coord);
        }
        let i = self.index(coord);
        &mut self.fields[i]
    }
}

} // verus!
