//! One match: the map, whose turn it is, combat and reinforcement.
use crate::error::{ErrorType, GameError, GameResult};
use crate::faction::Faction;
use crate::map::{Field, GameMap, Point};
use crate::random::random_in;
use vstd::prelude::*;

verus! {

/// The field after the reinforcement of `owner`: one more die if it belongs
/// to `owner`, up to `max_dice`.
pub open spec fn reinforced(f: Field, owner: Faction, max_dice: u8) -> Field {
    if f.faction == owner && f.num_dice < max_dice {
        Field { faction: f.faction, num_dice: (f.num_dice + 1) as u8 }
    } else {
        f
    }
}

/// The fields of `map` after the field at `from` attacked the one at `to`:
/// on a win the target passes to the attacker's faction with one die less
/// than the attacker had; either way the attacker keeps a single die.
pub open spec fn combat_outcome(map: GameMap, from: Point, to: Point, attacker_wins: bool) -> Seq<
    Field,
> {
    let a = map.cell(from);
    let cells = if attacker_wins {
        map@.update(map.index_of(to), Field { faction: a.faction, num_dice: (a.num_dice - 1) as u8 })
    } else {
        map@
    };
    cells.update(map.index_of(from), Field { faction: a.faction, num_dice: 1 })
}

/// Total of a sequence of die rolls.
pub open spec fn dice_sum(rolls: Seq<u8>) -> int
    decreases rolls.len(),
{
    if rolls.len() == 0 {
        0
    } else {
        dice_sum(rolls.drop_last()) + rolls.last()
    }
}

/// `rolls` are the rolls of `numdice` six-sided dice.
pub open spec fn die_rolls(rolls: Seq<u8>, numdice: u8) -> bool {
    &&& rolls.len() == numdice
    &&& forall|i: int| 0 <= i < rolls.len() ==> 1 <= #[trigger] rolls[i] <= 6
}

/// `after` is `before` once the field at `from` attacked the one at `to`:
/// the attacker keeps one die; on a win the target passes to the attacker's
/// faction with one die less than the attacker had, on a loss or a tie it is
/// unchanged; no other field changes.
pub open spec fn attack_result(
    before: GameMap,
    after: GameMap,
    from: Point,
    to: Point,
    attacker_wins: bool,
) -> bool {
    let a = before.cell(from);
    &&& after.dims() == before.dims()
    &&& after@ == combat_outcome(before, from, to, attacker_wins)
    &&& after.cell(from) == (Field { faction: a.faction, num_dice: 1 })
    &&& attacker_wins ==> after.cell(to) == (Field {
        faction: a.faction,
        num_dice: (a.num_dice - 1) as u8,
    })
    &&& !attacker_wins ==> after.cell(to) == before.cell(to)
}

/// `after` is `before` once the field at `from` attacked the one at `to`,
/// the two sides having rolled `attacker_rolls` and `target_rolls`, one roll
/// per die on their fields.
pub open spec fn rolled_outcome(
    before: GameMap,
    after: GameMap,
    from: Point,
    to: Point,
    attacker_rolls: Seq<u8>,
    target_rolls: Seq<u8>,
) -> bool {
    &&& die_rolls(attacker_rolls, before.cell(from).num_dice)
    &&& die_rolls(target_rolls, before.cell(to).num_dice)
    &&& attack_result(before, after, from, to, dice_sum(attacker_rolls) > dice_sum(target_rolls))
}

/// Struct holding information about the game itself.
pub struct Game {
    /// How many players are part of the game.
    num_players: u8,
    /// The maximal number of dice per field.
    max_dice: u8,
    /// The map of the game.
    map: GameMap,
    /// Which round it currently is.
    round: usize,
    /// Whose turn it currently is.
    turn: Faction,
}

impl Game {
    pub closed spec fn spec_num_players(&self) -> u8 {
        self.num_players
    }

    pub closed spec fn spec_max_dice(&self) -> u8 {
        self.max_dice
    }

    pub closed spec fn board(&self) -> GameMap {
        self.map
    }

    pub closed spec fn spec_round(&self) -> usize {
        self.round
    }

    pub closed spec fn spec_turn(&self) -> Faction {
        self.turn
    }

    /// The map is well formed, the turn is on a player, and no field holds
    /// more than `max_dice` dice.
    pub open spec fn wf(&self) -> bool {
        &&& self.board().wf()
        &&& self.spec_turn() is Player
        &&& self.spec_num_players() > 0
        &&& self.spec_max_dice() > 0
        &&& forall|i: int|
            0 <= i < self.board()@.len() ==> #[trigger] self.board()@[i].num_dice
                <= self.spec_max_dice()
    }

    /// Everything but the map is as in `other`.
    pub open spec fn same_settings(&self, other: &Game) -> bool {
        &&& self.spec_num_players() == other.spec_num_players()
        &&& self.spec_max_dice() == other.spec_max_dice()
        &&& self.spec_round() == other.spec_round()
        &&& self.spec_turn() == other.spec_turn()
        &&& self.board().dims() == other.board().dims()
    }

    /// Why an attack from `from` on `to` is refused, if it is: the kind of
    /// error and its description.
    pub open spec fn rejection(&self, from: Point, to: Point) -> Option<(ErrorType, Seq<char>)> {
        let a = self.board().cell(from);
        let t = self.board().cell(to);
        if a.num_dice <= 1 {
            Some((ErrorType::InvalidAttacker, "Attacker must have more than 1 dice."@))
        } else if t.faction == a.faction {
            Some((ErrorType::InvalidTarget, "Target is of the same faction as the attacker."@))
        } else if t.faction is Blocked {
            Some((ErrorType::InvalidTarget, "Can't attack blocked field."@))
        } else {
            None
        }
    }

    /// Starts a game on a randomized map; the first turn is player 1's.
    pub fn new(max_players: u8, max_dice: u8, size: Point) -> (r: Game)
        requires
            max_players > 0,
            max_dice > 0,
            size.x > 0,
            size.y > 0,
        ensures
            r.wf(),
            r.spec_num_players() == max_players,
            r.spec_max_dice() == max_dice,
            r.board().dims() == size,
            forall|i: int|
                0 <= i < r.board()@.len() ==> #[trigger] r.board()@[i].may_generate(
                    max_players,
                    max_dice,
                ),
            r.spec_round() == 0,
            r.spec_turn() == (Faction::Player { id: 1 }),
    {
        let map = GameMap::new(max_players, max_dice, size);
        assert forall|i: int| 0 <= i < map@.len() implies #[trigger] map@[i].num_dice <= max_dice by {
            assert(map@[i].may_generate(max_players, max_dice));
        }
        Game { num_players: max_players, max_dice: max_dice, map: map, round: 0, turn: Faction::Player { id: 1 } }
    }

    /// Starts a game on a given map, with the turn on `turn`.
    pub fn with_map(num_players: u8, max_dice: u8, map: GameMap, turn: Faction) -> (r: Game)
        requires
            map.wf(),
            turn is Player,
            num_players > 0,
            max_dice > 0,
            forall|i: int| 0 <= i < map@.len() ==> #[trigger] map@[i].num_dice <= max_dice,
        ensures
            r.wf(),
            r.spec_num_players() == num_players,
            r.spec_max_dice() == max_dice,
            r.board() == map,
            r.spec_round() == 0,
            r.spec_turn() == turn,
    {
        Game { num_players: num_players, max_dice: max_dice, map: map, round: 0, turn: turn }
    }

    /// Checks whether the field at `from` may attack the one at `to`.
    pub fn check_attack(&self, from: Point, to: Point) -> (r: GameResult<()>)
        requires
            self.wf(),
            self.board().contains(from),
            self.board().contains(to),
        ensures
            r is Ok <==> self.rejection(from, to) is None,
            r matches Err(e) ==> self.rejection(from, to) == Some((e.code, e.description@)),
    {
        let attacker = self.map.get_field(from);
        let target = self.map.get_field(to);
        if attacker.num_dice <= 1 {
            return Err(GameError::new(ErrorType::InvalidAttacker, "Attacker must have more than 1 dice."));
        }
        if target.faction == attacker.faction {
            return Err(GameError::new(ErrorType::InvalidTarget, "Target is of the same faction as the attacker."));
        }
        if let Faction::Blocked = target.faction {
            return Err(GameError::new(ErrorType::InvalidTarget, "Can't attack blocked field."));
        }
        Ok(())
    }

    /// Carries out an attack that `check_attack` accepted.
    fn apply_outcome(&mut self, from: Point, to: Point, attacker_wins: bool)
        requires
            old(self).wf(),
            old(self).board().contains(from),
            old(self).board().contains(to),
            old(self).rejection(from, to) is None,
        ensures
            final(self).wf(),
            final(self).same_settings(&*old(self)),
            final(self).board()@ == combat_outcome(old(self).board(), from, to, attacker_wins),
    {
        let attacker = self.map.get_field(from);
        proof {
            self.map.lemma_index_of(from, to);
            self.map.lemma_index_of(to, from);
        }
        if attacker_wins {
            let target = self.map.get_field_mut(to);
            target.num_dice = attacker.num_dice - 1;
            target.faction = attacker.faction;
        }
        let spent = self.map.get_field_mut(from);
        spent.num_dice = 1;
    }

    /// Attacks the field at `to` with the one at `from`, the sums of the dice
    /// being given: the attacker wins when its sum is strictly greater.
    ///
    /// A refused attack changes nothing.
    pub fn resolve_turn(
        &mut self,
        from: Point,
        to: Point,
        attacker_strength: usize,
        target_strength: usize,
    ) -> (r: GameResult<()>)
        requires
            old(self).wf(),
            old(self).board().contains(from),
            old(self).board().contains(to),
        ensures
            final(self).wf(),
            final(self).same_settings(&*old(self)),
            r is Ok <==> old(self).rejection(from, to) is None,
            r matches Err(e) ==> old(self).rejection(from, to) == Some((e.code, e.description@))
                && *final(self) == *old(self),
            r is Ok ==> attack_result(
                old(self).board(),
                final(self).board(),
                from,
                to,
                attacker_strength > target_strength,
            ),
    {
        match self.check_attack(from, to) {
            Err(e) => Err(e),
            Ok(()) => {
                proof {
                    lemma_combat_outcome(*self, from, to, attacker_strength > target_strength);
                }
                self.apply_outcome(from, to, attacker_strength > target_strength);
                Ok(())
            },
        }
    }

    /// Attacks the field at `to` with the one at `from`: each side rolls one
    /// six-sided die per die on its field, and the attacker wins when its sum
    /// is strictly greater. Neither the round nor the turn changes.
    ///
    /// A refused attack changes nothing, and no die is rolled for it.
    pub fn turn(&mut self, atk_from: Point, atk_to: Point) -> (r: GameResult<()>)
        requires
            old(self).wf(),
            old(self).board().contains(atk_from),
            old(self).board().contains(atk_to),
        ensures
            final(self).wf(),
            final(self).same_settings(&*old(self)),
            r is Ok <==> old(self).rejection(atk_from, atk_to) is None,
            r matches Err(e) ==> old(self).rejection(atk_from, atk_to) == Some(
                (e.code, e.description@),
            ) && *final(self) == *old(self),
            r is Ok ==> exists|attacker_rolls: Seq<u8>, target_rolls: Seq<u8>|
                rolled_outcome(
                    old(self).board(),
                    final(self).board(),
                    atk_from,
                    atk_to,
                    attacker_rolls,
                    target_rolls,
                ),
    {
        if let Err(e) = self.check_attack(atk_from, atk_to) {
            return Err(e);
        }
        let attacker = self.map.get_field(atk_from);
        let target = self.map.get_field(atk_to);
        let attacker_strength = self.roll_dice(attacker.num_dice);
        let target_strength = self.roll_dice(target.num_dice);
        let ghost attacker_rolls = choose|rolls: Seq<u8>|
            die_rolls(rolls, attacker.num_dice) && attacker_strength == dice_sum(rolls);
        let ghost target_rolls = choose|rolls: Seq<u8>|
            die_rolls(rolls, target.num_dice) && target_strength == dice_sum(rolls);
        let r = self.resolve_turn(atk_from, atk_to, attacker_strength, target_strength);
        assert(rolled_outcome(
            old(self).board(),
            self.board(),
            atk_from,
            atk_to,
            attacker_rolls,
            target_rolls,
        ));
        r
    }

    /// Sum of the given die rolls.
    pub fn strength(rolls: &Vec<u8>) -> (r: usize)
        requires
            rolls@.len() <= 255,
            forall|i: int| 0 <= i < rolls@.len() ==> 1 <= #[trigger] rolls@[i] <= 6,
        ensures
            r == dice_sum(rolls@),
    {
        let mut result: usize = 0;
        let mut i: usize = 0;
        while i < rolls.len()
            invariant
                i <= rolls@.len() <= 255,
                forall|k: int| 0 <= k < rolls@.len() ==> 1 <= #[trigger] rolls@[k] <= 6,
                result == dice_sum(rolls@.subrange(0, i as int)),
                result <= 6 * i,
            decreases rolls@.len() - i,
        {
            assert(rolls@.subrange(0, i + 1).drop_last() =~= rolls@.subrange(0, i as int));
            result = result + rolls[i] as usize;
            i += 1;
        }
        assert(rolls@.subrange(0, i as int) =~= rolls@);
        result
    }

    /// Sum of `numdice` rolls of a six-sided die.
    fn roll_dice(&self, numdice: u8) -> (r: usize)
        ensures
            exists|rolls: Seq<u8>| die_rolls(rolls, numdice) && r == dice_sum(rolls),
    {
        let mut rolls: Vec<u8> = Vec::new();
        let mut i: u8 = 0;
        while i < numdice
            invariant
                i <= numdice,
                rolls@.len() == i,
                forall|k: int| 0 <= k < rolls@.len() ==> 1 <= #[trigger] rolls@[k] <= 6,
            decreases numdice - i,
        {
            rolls.push(random_in(1, 6));
            i += 1;
        }
        let r = Self::strength(&rolls);
        assert(die_rolls(rolls@, numdice));
        r
    }

    /// Reinforcement: every field of the faction whose turn it is gains a
    /// die, up to `max_dice`. Every field is visited once.
    pub fn finalize_turn(&mut self)
        requires
            old(self).wf(),
        ensures
            final(self).wf(),
            final(self).same_settings(&*old(self)),
            final(self).board()@.len() == old(self).board()@.len(),
            forall|i: int|
                0 <= i < old(self).board()@.len() ==> final(self).board()@[i] == reinforced(
                    #[trigger] old(self).board()@[i],
                    old(self).spec_turn(),
                    old(self).spec_max_dice(),
                ),
    {
        let ghost start = *self;
        let size = self.map.size();
        let owner = self.turn;
        let max_dice = self.max_dice;
        let ghost w = size.x as int;
        let mut y: u8 = 0;
        while y < size.y
            invariant
                start.wf(),
                self.wf(),
                self.same_settings(&start),
                size == start.board().dims(),
                w == size.x,
                owner == start.spec_turn(),
                max_dice == start.spec_max_dice(),
                y <= size.y,
                self.board()@.len() == start.board()@.len(),
                y * w <= self.board()@.len(),
                forall|k: int|
                    0 <= k < y * w ==> self.board()@[k] == reinforced(
                        #[trigger] start.board()@[k],
                        owner,
                        max_dice,
                    ),
                forall|k: int|
                    y * w <= k < self.board()@.len() ==> #[trigger] self.board()@[k]
                        == start.board()@[k],
            decreases size.y - y,
        {
            let mut x: u8 = 0;
            assert(y * w + w <= size.y * w) by (nonlinear_arith)
                requires
                    y < size.y,
                    w >= 0,
            ;
            while x < size.x
                invariant
                    start.wf(),
                    self.wf(),
                    self.same_settings(&start),
                    size == start.board().dims(),
                    w == size.x,
                    owner == start.spec_turn(),
                    max_dice == start.spec_max_dice(),
                    y < size.y,
                    x <= size.x,
                    self.board()@.len() == start.board()@.len(),
                    y * w + w <= self.board()@.len(),
                    forall|k: int|
                        0 <= k < y * w + x ==> self.board()@[k] == reinforced(
                            #[trigger] start.board()@[k],
                            owner,
                            max_dice,
                        ),
                    forall|k: int|
                        y * w + x <= k < self.board()@.len() ==> #[trigger] self.board()@[k]
                            == start.board()@[k],
                decreases size.x - x,
            {
                let p = Point { x: x, y: y };
                proof {
                    self.map.lemma_index_of(p, p);
                }
                let field = self.map.get_field_mut(p);
                if field.faction == owner && field.num_dice < max_dice {
                    field.num_dice = field.num_dice + 1;
                }
                x += 1;
            }
            assert((y + 1) * w == y * w + w) by (nonlinear_arith);
            y += 1;
        }
        let ghost len = self.board()@.len();
        assert(y * w == len) by (nonlinear_arith)
            requires
                y == size.y,
                w == size.x,
                len == size.x * size.y,
        ;
    }


    /// How many players are part of the game.
    pub fn num_players(&self) -> (r: u8)
        ensures
            r == self.spec_num_players(),
    {
        self.num_players
    }

    /// The maximal number of dice per field.
    pub fn max_dice(&self) -> (r: u8)
        ensures
            r == self.spec_max_dice(),
    {
        self.max_dice
    }

    /// Which round it currently is.
    pub fn round(&self) -> (r: usize)
        ensures
            r == self.spec_round(),
    {
        self.round
    }

    /// Whose turn it currently is.
    pub fn whose_turn(&self) -> (r: Faction)
        ensures
            r == self.spec_turn(),
    {
        self.turn
    }

    /// The map of the game, for reading.
    pub fn map(&self) -> (r: &GameMap)
        ensures
            *r == self.board(),
    {
        &self.map
    }

    /// A copy of the field at the given coordinate.
    pub fn get_field(&self, coord: Point) -> (r: Field)
        requires
            self.wf(),
            self.board().contains(coord),
        ensures
            r == self.board().cell(coord),
    {
        self.map.get_field(coord)
    }

    /// Moves on to the next round.
    pub fn advance_round(&mut self)
        requires
            old(self).spec_round() < usize::MAX,
        ensures
            final(self).spec_round() == old(self).spec_round() + 1,
            final(self).spec_num_players() == old(self).spec_num_players(),
            final(self).spec_max_dice() == old(self).spec_max_dice(),
            final(self).board() == old(self).board(),
            final(self).spec_turn() == old(self).spec_turn(),
    {
        self.round = self.round + 1;
    }

    /// Hands the turn to `faction`, which must be a player.
    pub fn set_turn(&mut self, faction: Faction)
        requires
            faction is Player,
        ensures
            final(self).spec_turn() == faction,
            final(self).spec_num_players() == old(self).spec_num_players(),
            final(self).spec_max_dice() == old(self).spec_max_dice(),
            final(self).board() == old(self).board(),
            final(self).spec_round() == old(self).spec_round(),
    {
        self.turn = faction;
    }
}

/// A field with at most one die can not attack, whatever the target; a field
/// that may attack can not take a field of its own faction or a blocked one.
pub proof fn lemma_rejected_attacks(g: Game, from: Point, to: Point)
    ensures
        g.board().cell(from).num_dice <= 1 ==> (g.rejection(from, to) matches Some(e) && e.0
            == ErrorType::InvalidAttacker),
        (g.board().cell(to).faction == g.board().cell(from).faction || g.board().cell(
            to,
        ).faction is Blocked) ==> g.rejection(from, to) is Some,
        (g.board().cell(from).num_dice > 1 && (g.board().cell(to).faction == g.board().cell(
            from,
        ).faction || g.board().cell(to).faction is Blocked)) ==> (g.rejection(from, to) matches Some(
            e,
        ) && e.0 == ErrorType::InvalidTarget),
        g.rejection(from, to) is None <==> (g.board().cell(from).num_dice > 1 && g.board().cell(
            to,
        ).faction != g.board().cell(from).faction && g.board().cell(to).faction is Player),
{
}

/// After an accepted attack the attacker keeps one die; on a win the target
/// takes the attacker's faction and one die less than the attacker had, on a
/// loss or a tie it is unchanged; no other field changes.
pub proof fn lemma_combat_outcome(g: Game, from: Point, to: Point, attacker_wins: bool)
    requires
        g.wf(),
        g.board().contains(from),
        g.board().contains(to),
        g.rejection(from, to) is None,
    ensures
        ({
            let map = g.board();
            let a = map.cell(from);
            let cells = combat_outcome(map, from, to, attacker_wins);
            &&& cells.len() == map@.len()
            &&& cells[map.index_of(from)] == (Field { faction: a.faction, num_dice: 1 })
            &&& attacker_wins ==> cells[map.index_of(to)] == (Field {
                faction: a.faction,
                num_dice: (a.num_dice - 1) as u8,
            })
            &&& !attacker_wins ==> cells[map.index_of(to)] == map.cell(to)
            &&& forall|p: Point|
                map.contains(p) && p != from && p != to ==> cells[map.index_of(p)] == #[trigger] map.cell(p)
        }),
{
    let map = g.board();
    map.lemma_index_of(from, to);
    map.lemma_index_of(to, from);
    assert forall|p: Point|
        map.contains(p) && p != from && p != to implies combat_outcome(map, from, to, attacker_wins)[map.index_of(p)] == #[trigger] map.cell(p) by {
        map.lemma_index_of(p, from);
        map.lemma_index_of(p, to);
    }
}


} // verus!
