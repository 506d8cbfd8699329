//! Tests of cells, items, levels, and the class stat tables.

use ranger_royale::classes::Class;
use ranger_royale::classes::Stat as ClassStat;
use ranger_royale::Cell;
use ranger_royale::CellError;
use ranger_royale::Gem;
use ranger_royale::Herb;
use ranger_royale::Item;
use ranger_royale::Level;
use ranger_royale::Occupant;
use ranger_royale::Ore;
use ranger_royale::Protection;
use ranger_royale::Rule;
use ranger_royale::Terrain;
use ranger_royale::Unit;

fn soldier(name: &str) -> Unit {
    Unit::new(
        name.to_string(),
        80,
        10,
        10,
        10,
        10,
        10,
        Protection::Medium,
        Protection::Medium,
    )
    .unwrap()
}

#[test]
fn item_kind_queries() {
    let ore = Item::Ore(Ore::IronOre);
    let herb = Item::Herb(Herb::PowerHerb);
    let gem = Item::Gem(Gem::Ruby);
    let gold = Item::Gold(250);
    assert!(ore.is_ore() && !ore.is_herb() && !ore.is_gem());
    assert!(herb.is_herb() && !herb.is_ore() && !herb.is_gem());
    assert!(gem.is_gem() && !gem.is_ore() && !gem.is_herb());
    assert!(!gold.is_ore() && !gold.is_herb() && !gold.is_gem());
}

#[test]
fn add_unit_on_occupied_cell_fails_and_leaves_occupant() {
    let mut cell = Cell::new(Terrain::Plains, (0, 0), (1, 1));
    cell.add_unit(soldier("first")).unwrap();
    let r = cell.add_unit(soldier("second"));
    assert!(matches!(r, Err(CellError::CellTaken)));
    assert!(cell.has_unit());
    match &cell.occupant {
        Occupant::Occupied(u) => assert_eq!(u.name(), "first"),
        _ => panic!("expected the first unit to keep the cell"),
    }
}

#[test]
fn add_unit_evicts_an_item() {
    let mut cell = Cell::new(Terrain::Forest, (0, 0), (1, 1));
    cell.add_item(Item::Gem(Gem::Sapphire)).unwrap();
    assert!(cell.has_item());
    assert!(cell.add_unit(soldier("scout")).is_ok());
    assert!(cell.has_unit());
    assert!(!cell.has_item());
}

#[test]
fn items_displace_nothing() {
    let mut cell = Cell::new(Terrain::Plains, (0, 0), (1, 1));
    cell.add_item(Item::Ore(Ore::SilverOre)).unwrap();
    assert!(matches!(
        cell.add_item(Item::Gold(5)),
        Err(CellError::CellTaken)
    ));
    match cell.occupant {
        Occupant::HoldsItem(Item::Ore(Ore::SilverOre)) => {}
        _ => panic!("expected the first item to stay"),
    }

    let mut taken = Cell::new(Terrain::Plains, (0, 0), (1, 1));
    taken.add_unit(soldier("guard")).unwrap();
    assert!(matches!(
        taken.add_item(Item::Gold(5)),
        Err(CellError::CellTaken)
    ));
    assert!(taken.has_unit());
}

#[test]
fn remove_unit_on_occupied_cell_succeeds() {
    let mut cell = Cell::new(Terrain::Plains, (0, 0), (1, 1));
    cell.add_unit(soldier("walker")).unwrap();
    assert!(cell.remove_unit().is_ok());
    assert!(!cell.has_unit());
}

#[test]
fn remove_unit_on_empty_cell_fails() {
    let mut cell = Cell::new(Terrain::Plains, (0, 0), (1, 1));
    assert!(matches!(cell.remove_unit(), Err(CellError::CellNotOccupied)));
}

#[test]
fn cell_selectable_exactly_when_occupied() {
    let mut cell = Cell::new(Terrain::Hills, (2, 3), (3, 4));
    assert!(!cell.is_selectable());
    cell.add_unit(soldier("rider")).unwrap();
    assert!(cell.is_selectable());
    assert_eq!(*cell.get_terrain(), Terrain::Hills);
    assert_eq!(cell.get_top_left(), (2, 3));
    assert_eq!(cell.get_bottom_right(), (3, 4));
}

#[test]
fn terrain_movement_costs_and_strategic_points() {
    assert_eq!(Terrain::Plains.movement_cost(), 1);
    assert_eq!(Terrain::Lake.movement_cost(), 4);
    assert!(Terrain::Mountain.is_strategic_point());
    assert!(Terrain::Ruins.is_strategic_point());
    assert!(!Terrain::Plains.is_strategic_point());
}

#[test]
fn level_lifecycle_and_rule_set_semantics() {
    let grid = vec![
        vec![Cell::new(Terrain::Plains, (0, 0), (1, 1)), Cell::new(Terrain::Forest, (1, 0), (2, 1))],
        vec![Cell::new(Terrain::Swamp, (0, 1), (1, 2)), Cell::new(Terrain::Road, (1, 1), (2, 2))],
    ];
    let mut level = Level::new("Marsh".to_string(), grid, vec![Rule::LowIntel]);
    assert!(!level.in_progress());
    level.start();
    assert!(level.in_progress());
    level.pause();
    assert!(!level.in_progress());

    // Adding a present rule does not duplicate it.
    level.add_rule(Rule::LowIntel);
    assert_eq!(level.get_rules().len(), 1);
    level.add_rule(Rule::FullIntel);
    assert_eq!(level.get_rules().len(), 2);

    // Removing an absent rule changes nothing; removing a present one
    // takes it out.
    level.remove_rule(&Rule::LowIntel);
    assert_eq!(level.get_rules().as_slice(), &[Rule::FullIntel]);
    level.remove_rule(&Rule::LowIntel);
    assert_eq!(level.get_rules().as_slice(), &[Rule::FullIntel]);

    assert_eq!(level.get_grid().len(), 2);
    assert_eq!(level.get_grid()[0].len(), 2);
}

#[test]
fn rule_descriptions() {
    assert_eq!(
        Rule::LowIntel.get_description(),
        "Visibility lowered by one square"
    );
    assert_eq!(
        Rule::FullIntel.get_description(),
        "Player can see the whole board"
    );
}

#[test]
fn class_base_stats_tables() {
    let swordsman = Class::Swordsman.base_stats();
    assert_eq!(swordsman.len(), 7);
    assert_eq!(swordsman[0], (ClassStat::Strength, 7));
    assert_eq!(swordsman[4], (ClassStat::Defense, 9));

    let mage = Class::Mage.base_stats();
    assert_eq!(mage[1], (ClassStat::Magic, 7));
    assert_eq!(mage[4], (ClassStat::Defense, 2));

    let archer = Class::Archer.base_stats();
    assert_eq!(archer[3], (ClassStat::Precision, 7));

    let cleric = Class::Cleric.base_stats();
    assert_eq!(cleric[0], (ClassStat::Strength, 1));
    assert_eq!(cleric[6], (ClassStat::Wisdom, 5));
}

#[test]
fn class_stat_descriptions() {
    assert_eq!(
        ClassStat::Wisdom.get_description(),
        "Increases experience gain"
    );
    assert_eq!(
        ClassStat::Defense.get_description(),
        "Decreases damage from physical sources"
    );
}
