use dicewars::{Faction, Field, GameMap, Point};

#[test]
fn empty_map_is_all_blocked() {
    let size = Point { x: 3, y: 2 };
    let map = GameMap::new_empty(size);
    assert_eq!(map.size(), size);
    for y in 0..size.y {
        for x in 0..size.x {
            let f = map.get_field(Point { x, y });
            assert_eq!(f, Field { faction: Faction::Blocked, num_dice: 0 });
        }
    }
}

#[test]
fn default_field_is_blocked_without_dice() {
    assert_eq!(Field::default(), Field { faction: Faction::Blocked, num_dice: 0 });
}

#[test]
fn field_update_in_place_touches_one_coordinate() {
    let mut map = GameMap::new_empty(Point { x: 3, y: 2 });
    {
        let f = map.get_field_mut(Point { x: 2, y: 1 });
        f.faction = Faction::Player { id: 4 };
        f.num_dice = 5;
    }
    assert_eq!(
        map.get_field(Point { x: 2, y: 1 }),
        Field { faction: Faction::Player { id: 4 }, num_dice: 5 }
    );
    assert_eq!(map.get_field(Point { x: 1, y: 1 }).faction, Faction::Blocked);
    assert_eq!(map.get_field(Point { x: 2, y: 0 }).faction, Faction::Blocked);
}

#[test]
fn generated_map_has_the_requested_shape_and_dice() {
    let size = Point { x: 7, y: 4 };
    let map = GameMap::new(3, 6, size);
    assert_eq!(map.size(), size);
    for y in 0..size.y {
        for x in 0..size.x {
            let f = map.get_field(Point { x, y });
            assert!(f.num_dice >= 1 && f.num_dice <= 6);
            if let Faction::Player { id } = f.faction {
                assert!(id < 3);
            }
        }
    }
}

#[test]
fn generated_map_with_largest_dice_count() {
    let map = GameMap::new(255, 255, Point { x: 16, y: 16 });
    for y in 0..16 {
        for x in 0..16 {
            assert!(map.get_field(Point { x, y }).num_dice >= 1);
        }
    }
}

#[test]
fn generated_field_dice_in_range() {
    let mut seen_high = false;
    for _ in 0..500 {
        let f = Field::new(2, 3);
        assert!(f.num_dice >= 1 && f.num_dice <= 3);
        if f.num_dice == 3 {
            seen_high = true;
        }
    }
    assert!(seen_high);
}

#[test]
fn single_field_map() {
    let map = GameMap::new(1, 1, Point { x: 1, y: 1 });
    let f = map.get_field(Point { x: 0, y: 0 });
    assert_eq!(f.num_dice, 1);
    assert!(f.faction == Faction::Blocked || f.faction == Faction::Player { id: 0 });
}

#[test]
fn field_from_rolls() {
    assert_eq!(
        Field::from_rolls(4, 0, 0, 3),
        Field { faction: Faction::Blocked, num_dice: 3 }
    );
    assert_eq!(
        Field::from_rolls(4, 3, 0, 1),
        Field { faction: Faction::Player { id: 2 }, num_dice: 1 }
    );
    assert_eq!(
        Field::from_rolls(255, 9, 0, 2),
        Field { faction: Faction::Blocked, num_dice: 2 }
    );
    assert_eq!(
        Field::from_rolls(255, 9, 7, 2),
        Field { faction: Faction::Player { id: 9 }, num_dice: 2 }
    );
}

#[test]
fn map_from_fields_is_row_major() {
    let mut cells = Vec::new();
    for i in 0..6u8 {
        cells.push(Field { faction: Faction::Player { id: i }, num_dice: i + 1 });
    }
    let map = GameMap::from_fields(Point { x: 3, y: 2 }, cells);
    assert_eq!(map.get_field(Point { x: 0, y: 0 }).num_dice, 1);
    assert_eq!(map.get_field(Point { x: 2, y: 0 }).num_dice, 3);
    assert_eq!(map.get_field(Point { x: 0, y: 1 }).num_dice, 4);
    assert_eq!(map.get_field(Point { x: 2, y: 1 }).faction, Faction::Player { id: 5 });
}
