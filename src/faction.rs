//! Who owns a field, how ownership is drawn at random, and its display color.
use crate::random::random_in;
use vstd::prelude::*;

verus! {

/// Ownership of a field.
#[derive(Debug, Clone, Copy, PartialEq, Eq, Structural)]
pub enum Faction {
    /// The field is blocked, i.e. it can't be occupied.
    Blocked,
    /// ID of the player occupying the field.
    Player { id: u8 },
}

/// The palette position of a player: `(id * 25) mod 255`, with the product
/// wrapping at 256 as on the 8-bit id.
pub open spec fn hue(id: u8) -> u8 {
    (((id as int * 25) % 256) % 255) as u8
}

impl Faction {
    /// The faction that a draw `roll` (and, for 255 players, the independent
    /// draw `block_roll`) stands for.
    ///
    /// Below 255 players `roll` lies in `[0, max_players]`: 0 blocks the
    /// field and any other value is the player `roll - 1`. At 255 players
    /// `roll` is the player's id and the field is blocked when `block_roll`
    /// is 0.
    pub open spec fn assigned(max_players: u8, roll: u8, block_roll: u8) -> Faction {
        if max_players == 255 {
            if block_roll == 0 {
                Faction::Blocked
            } else {
                Faction::Player { id: roll }
            }
        } else if roll == 0 {
            Faction::Blocked
        } else {
            Faction::Player { id: (roll - 1) as u8 }
        }
    }

    /// The draws are the ones that `new` makes for `max_players`.
    pub open spec fn valid_rolls(max_players: u8, roll: u8) -> bool {
        max_players == 255 || roll <= max_players
    }

    /// The faction is blocked or a player that a game of `max_players` has.
    pub open spec fn within(self, max_players: u8) -> bool {
        match self {
            Faction::Blocked => true,
            Faction::Player { id } => max_players == 255 || id < max_players,
        }
    }

    pub open spec fn red(self) -> u8 {
        match self {
            Faction::Blocked => 0,
            Faction::Player { id } => (((hue(id) >> 5u8) & 7u8) as int * 32) as u8,
        }
    }

    pub open spec fn green(self) -> u8 {
        match self {
            Faction::Blocked => 0,
            Faction::Player { id } => (((hue(id) >> 2u8) & 7u8) as int * 32) as u8,
        }
    }

    pub open spec fn blue(self) -> u8 {
        match self {
            Faction::Blocked => 0,
            Faction::Player { id } => ((hue(id) & 3u8) as int * 64) as u8,
        }
    }

    /// The faction that the draws stand for (see `assigned`).
    pub fn from_rolls(max_players: u8, roll: u8, block_roll: u8) -> (r: Faction)
        requires
            Self::valid_rolls(max_players, roll),
        ensures
            r == Self::assigned(max_players, roll, block_roll),
            r.within(max_players),
    {
        if max_players == 255 {
            if block_roll == 0 {
                Faction::Blocked
            } else {
                Faction::Player { id: roll }
            }
        } else if roll == 0 {
            Faction::Blocked
        } else {
            Faction::Player { id: roll - 1 }
        }
    }

    /// Creates a randomized faction.
    ///
    /// Below 255 players one uniform draw in `[0, max_players]` decides; at 255
    /// a uniform draw in `[0, 255]` gives the id and a second, independent one
    /// blocks the field when it is 0.
    ///
    /// * `max_players` - How many distinct player IDs are there.
    pub fn new(max_players: u8) -> (r: Faction)
        ensures
            r.within(max_players),
            exists|roll: u8, block_roll: u8|
                Self::valid_rolls(max_players, roll) && r == Self::assigned(
                    max_players,
                    roll,
                    block_roll,
                ),
    {
        let (roll, block_roll) = Self::draw_rolls(max_players);
        Self::from_rolls(max_players, roll, block_roll)
    }

    /// Draws what decides a random faction: the roll, and at 255 players the
    /// independent blocking roll (below 255 it is not drawn and is 0).
    pub(crate) fn draw_rolls(max_players: u8) -> (r: (u8, u8))
        ensures
            Self::valid_rolls(max_players, r.0),
    {
        if max_players == 255 {
            let roll = random_in(0, 255);
            let block_roll = random_in(0, 255);
            (roll, block_roll)
        } else {
            let roll = random_in(0, max_players);
            (roll, 0)
        }
    }

    fn player_hue(id: u8) -> (h: u8)
        ensures
            h == hue(id),
    {
        id.wrapping_mul(25) % 255
    }

    /// Red part of the faction's display color.
    pub fn r(&self) -> (c: u8)
        ensures
            c == self.red(),
    {
        match self {
            Faction::Blocked => 0,
            Faction::Player { id } => {
                let h = Self::player_hue(*id);
                assert((h >> 5u8) & 7u8 <= 7u8) by (bit_vector);
                ((h >> 5) & 7) * 32
            },
        }
    }

    /// Green part of the faction's display color.
    pub fn g(&self) -> (c: u8)
        ensures
            c == self.green(),
    {
        match self {
            Faction::Blocked => 0,
            Faction::Player { id } => {
                let h = Self::player_hue(*id);
                assert((h >> 2u8) & 7u8 <= 7u8) by (bit_vector);
                ((h >> 2) & 7) * 32
            },
        }
    }

    /// Blue part of the faction's display color.
    pub fn b(&self) -> (c: u8)
        ensures
            c == self.blue(),
    {
        match self {
            Faction::Blocked => 0,
            Faction::Player { id } => {
                let h = Self::player_hue(*id);
                assert(h & 3u8 <= 3u8) by (bit_vector);
                (h & 3) * 64
            },
        }
    }
}

impl Default for Faction {
    fn default() -> (r: Faction)
        ensures
            r == Faction::Blocked,
    {
        Faction::Blocked
    }
}

/// Below 255 players every outcome comes from exactly one value of the draw:
/// `Blocked` from 0 and `Player { id }` from `id + 1` for each `id` below
/// `max_players`. A uniform draw over the `max_players + 1` values thus gives
/// each of the `max_players + 1` outcomes with the same chance.
pub proof fn lemma_assignment_one_outcome_per_roll(max_players: u8)
    requires
        1 <= max_players <= 254,
    ensures
        forall|roll: u8, block_roll: u8|
            roll <= max_players ==> (Faction::assigned(max_players, roll, block_roll)
                == Faction::Blocked <==> roll == 0),
        forall|roll: u8, block_roll: u8, id: u8|
            roll <= max_players ==> (Faction::assigned(max_players, roll, block_roll)
                == (Faction::Player { id }) <==> (id < max_players && roll == id + 1)),
        forall|roll: u8, block_roll: u8|
            roll <= max_players ==> #[trigger] Faction::assigned(
                max_players,
                roll,
                block_roll,
            ).within(max_players),
{
}

/// At 255 players the field is blocked exactly when the second draw is 0,
/// whatever the first draw; otherwise the first draw is the player's id.
pub proof fn lemma_boundary_blocked_by_second_roll()
    ensures
        forall|roll: u8, block_roll: u8|
            (Faction::assigned(255, roll, block_roll) == Faction::Blocked <==> block_roll == 0),
        forall|roll: u8, block_roll: u8|
            block_roll != 0 ==> Faction::assigned(255, roll, block_roll) == (Faction::Player {
                id: roll,
            }),
{
}

/// The color of a faction depends on the player id alone, and a blocked
/// field is black.
pub proof fn lemma_color_depends_on_id(a: Faction, b: Faction)
    ensures
        (a is Player && b is Player && a->id == b->id) ==> (a.red() == b.red() && a.green()
            == b.green() && a.blue() == b.blue()),
        a is Blocked ==> (a.red() == 0 && a.green() == 0 && a.blue() == 0),
{
}

} // verus!
