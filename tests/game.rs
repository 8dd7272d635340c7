use dicewars::{ErrorType, Faction, Field, Game, GameError, GameMap, Point};

fn player_zero() -> Faction {
    Faction::Player { id: 0 }
}

fn player_one() -> Faction {
    Faction::Player { id: 1 }
}

fn map_of(size: Point, cells: &[(Point, Field)]) -> GameMap {
    let mut map = GameMap::new_empty(size);
    for (p, f) in cells {
        *map.get_field_mut(*p) = *f;
    }
    map
}

fn duel(attacker: Field, target: Field) -> Game {
    let map = map_of(
        Point { x: 2, y: 1 },
        &[(Point { x: 0, y: 0 }, attacker), (Point { x: 1, y: 0 }, target)],
    );
    Game::with_map(2, 6, map, player_zero())
}

const FROM: Point = Point { x: 0, y: 0 };
const TO: Point = Point { x: 1, y: 0 };

#[test]
fn game_error_keeps_code_and_description() {
    let e = GameError::new(ErrorType::Other, "something");
    assert_eq!(e.code, ErrorType::Other);
    assert_eq!(e.description, "something");
}

#[test]
fn new_game_starts_at_round_zero_with_player_one() {
    let size = Point { x: 10, y: 6 };
    let g = Game::new(8, 6, size);
    assert_eq!(g.round(), 0);
    assert_eq!(g.whose_turn(), player_one());
    assert_eq!(g.num_players(), 8);
    assert_eq!(g.max_dice(), 6);
    assert_eq!(g.map().size(), size);
    for y in 0..size.y {
        for x in 0..size.x {
            let f = g.get_field(Point { x, y });
            assert!(f.num_dice >= 1 && f.num_dice <= 6);
        }
    }
}

#[test]
fn attacker_with_one_die_is_rejected() {
    let mut g = duel(Field { faction: player_zero(), num_dice: 1 }, Field { faction: player_one(), num_dice: 2 });
    let e = g.turn(FROM, TO).unwrap_err();
    assert_eq!(e.code, ErrorType::InvalidAttacker);
    assert_eq!(e.description, "Attacker must have more than 1 dice.");
    assert_eq!(g.get_field(FROM), Field { faction: player_zero(), num_dice: 1 });
    assert_eq!(g.get_field(TO), Field { faction: player_one(), num_dice: 2 });
}

#[test]
fn attacker_without_dice_is_rejected_even_against_blocked() {
    let mut g = duel(Field { faction: player_zero(), num_dice: 0 }, Field { faction: Faction::Blocked, num_dice: 0 });
    let e = g.resolve_turn(FROM, TO, 10, 0).unwrap_err();
    assert_eq!(e.code, ErrorType::InvalidAttacker);
}

#[test]
fn same_faction_target_is_rejected() {
    let mut g = duel(Field { faction: player_zero(), num_dice: 3 }, Field { faction: player_zero(), num_dice: 2 });
    let e = g.turn(FROM, TO).unwrap_err();
    assert_eq!(e.code, ErrorType::InvalidTarget);
    assert_eq!(e.description, "Target is of the same faction as the attacker.");
    assert_eq!(g.get_field(FROM).num_dice, 3);
}

#[test]
fn attacking_itself_is_rejected() {
    let mut g = duel(Field { faction: player_zero(), num_dice: 3 }, Field { faction: player_one(), num_dice: 2 });
    let e = g.turn(FROM, FROM).unwrap_err();
    assert_eq!(e.code, ErrorType::InvalidTarget);
}

#[test]
fn blocked_target_is_rejected() {
    let mut g = duel(Field { faction: player_zero(), num_dice: 3 }, Field { faction: Faction::Blocked, num_dice: 0 });
    let e = g.check_attack(FROM, TO).unwrap_err();
    assert_eq!(e.code, ErrorType::InvalidTarget);
    assert_eq!(e.description, "Can't attack blocked field.");
    let e = g.turn(FROM, TO).unwrap_err();
    assert_eq!(e.description, "Can't attack blocked field.");
}

#[test]
fn forced_win_takes_the_target() {
    let mut g = duel(Field { faction: player_zero(), num_dice: 4 }, Field { faction: player_one(), num_dice: 2 });
    assert!(g.resolve_turn(FROM, TO, 20, 2).is_ok());
    assert_eq!(g.get_field(FROM), Field { faction: player_zero(), num_dice: 1 });
    assert_eq!(g.get_field(TO), Field { faction: player_zero(), num_dice: 3 });
}

#[test]
fn tie_favours_the_defender() {
    let mut g = duel(Field { faction: player_zero(), num_dice: 4 }, Field { faction: player_one(), num_dice: 2 });
    assert!(g.resolve_turn(FROM, TO, 12, 12).is_ok());
    assert_eq!(g.get_field(FROM), Field { faction: player_zero(), num_dice: 1 });
    assert_eq!(g.get_field(TO), Field { faction: player_one(), num_dice: 2 });
}

#[test]
fn loss_leaves_the_target_unchanged() {
    let mut g = duel(Field { faction: player_zero(), num_dice: 2 }, Field { faction: player_one(), num_dice: 5 });
    assert!(g.resolve_turn(FROM, TO, 3, 30).is_ok());
    assert_eq!(g.get_field(FROM), Field { faction: player_zero(), num_dice: 1 });
    assert_eq!(g.get_field(TO), Field { faction: player_one(), num_dice: 5 });
}

#[test]
fn rolled_attack_on_an_empty_field_always_wins() {
    let mut g = duel(Field { faction: player_zero(), num_dice: 4 }, Field { faction: player_one(), num_dice: 0 });
    assert!(g.turn(FROM, TO).is_ok());
    assert_eq!(g.get_field(FROM), Field { faction: player_zero(), num_dice: 1 });
    assert_eq!(g.get_field(TO), Field { faction: player_zero(), num_dice: 3 });
    assert_eq!(g.round(), 0);
    assert_eq!(g.whose_turn(), player_zero());
}

#[test]
fn rolled_attack_ends_in_one_of_two_outcomes() {
    for _ in 0..200 {
        let mut g = duel(Field { faction: player_zero(), num_dice: 3 }, Field { faction: player_one(), num_dice: 3 });
        assert!(g.turn(FROM, TO).is_ok());
        assert_eq!(g.get_field(FROM), Field { faction: player_zero(), num_dice: 1 });
        let t = g.get_field(TO);
        assert!(
            t == Field { faction: player_zero(), num_dice: 2 } || t == Field { faction: player_one(), num_dice: 3 }
        );
    }
}

#[test]
fn reinforcement_is_capped() {
    let cell = Field { faction: player_zero(), num_dice: 2 };
    let map = map_of(
        Point { x: 2, y: 1 },
        &[(Point { x: 0, y: 0 }, cell), (Point { x: 1, y: 0 }, cell)],
    );
    let mut g = Game::with_map(1, 3, map, player_zero());
    g.finalize_turn();
    assert_eq!(g.get_field(FROM).num_dice, 3);
    assert_eq!(g.get_field(TO).num_dice, 3);
    g.finalize_turn();
    assert_eq!(g.get_field(FROM).num_dice, 3);
    assert_eq!(g.get_field(TO).num_dice, 3);
}

#[test]
fn reinforcement_only_helps_the_current_player() {
    let map = map_of(
        Point { x: 3, y: 2 },
        &[
            (Point { x: 0, y: 0 }, Field { faction: player_zero(), num_dice: 1 }),
            (Point { x: 2, y: 0 }, Field { faction: player_one(), num_dice: 1 }),
            (Point { x: 1, y: 1 }, Field { faction: player_one(), num_dice: 4 }),
            (Point { x: 2, y: 1 }, Field { faction: player_one(), num_dice: 5 }),
        ],
    );
    let mut g = Game::with_map(2, 5, map, player_one());
    g.finalize_turn();
    assert_eq!(g.get_field(Point { x: 0, y: 0 }).num_dice, 1);
    assert_eq!(g.get_field(Point { x: 1, y: 0 }), Field { faction: Faction::Blocked, num_dice: 0 });
    assert_eq!(g.get_field(Point { x: 2, y: 0 }).num_dice, 2);
    assert_eq!(g.get_field(Point { x: 1, y: 1 }).num_dice, 5);
    assert_eq!(g.get_field(Point { x: 2, y: 1 }).num_dice, 5);
}

#[test]
fn round_and_turn_are_set_by_the_driver() {
    let mut g = duel(Field { faction: player_zero(), num_dice: 2 }, Field { faction: player_one(), num_dice: 2 });
    g.advance_round();
    g.advance_round();
    assert_eq!(g.round(), 2);
    g.set_turn(player_one());
    assert_eq!(g.whose_turn(), player_one());
}

#[test]
fn strength_sums_the_rolls() {
    assert_eq!(Game::strength(&vec![]), 0);
    assert_eq!(Game::strength(&vec![6, 6, 6, 2]), 20);
    assert_eq!(Game::strength(&vec![1, 1]), 2);
    assert_eq!(Game::strength(&vec![6; 255]), 1530);
}

#[test]
fn error_text_names_the_kind() {
    let e = GameError::new(ErrorType::InvalidAttacker, "Attacker must have more than 1 dice.");
    assert_eq!(e.to_string(), "[InvalidAttacker] Attacker must have more than 1 dice.");
    assert_eq!(GameError::new(ErrorType::NoError, "").to_string(), "[NoError] ");
    assert_eq!(ErrorType::InvalidTarget.name(), "InvalidTarget");
    assert_eq!(ErrorType::Other.name(), "Other");
}

#[test]
fn game_on_a_map_built_from_fields() {
    let cells = vec![
        Field::from_rolls(2, 1, 0, 4),
        Field::from_rolls(2, 2, 0, 2),
    ];
    let map = GameMap::from_fields(Point { x: 2, y: 1 }, cells);
    let mut g = Game::with_map(2, 6, map, player_zero());
    assert!(g.resolve_turn(FROM, TO, 20, 2).is_ok());
    assert_eq!(g.get_field(FROM), Field { faction: player_zero(), num_dice: 1 });
    assert_eq!(g.get_field(TO), Field { faction: player_zero(), num_dice: 3 });
}
