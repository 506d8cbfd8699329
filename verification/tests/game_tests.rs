//! Tests of scenes, click dispatch, the orchestrator, and the roster.

use ranger_royale::numerals::decimal_string;
use ranger_royale::to_coord_u32;
use ranger_royale::Button;
use ranger_royale::Controller;
use ranger_royale::Difficulty;
use ranger_royale::Game;
use ranger_royale::GameError;
use ranger_royale::GameEvent;
use ranger_royale::LevelSelectScene;
use ranger_royale::MidLevelScene;
use ranger_royale::Player;
use ranger_royale::SceneId;
use ranger_royale::Cell;
use ranger_royale::PlayerSelector;
use ranger_royale::Protection;
use ranger_royale::StartScene;
use ranger_royale::Terrain;
use ranger_royale::UIElement;
use ranger_royale::UIEvent;
use ranger_royale::Unit;

#[test]
fn to_coord_u32_scales_and_clamps() {
    assert_eq!(to_coord_u32(0), 0);
    assert_eq!(to_coord_u32(2), 150);
    assert_eq!(to_coord_u32(10), 750);
    assert_eq!(to_coord_u32(-3), 0);
    assert_eq!(to_coord_u32(i32::MAX), u32::MAX);
}

#[test]
fn decimal_rendering() {
    assert_eq!(decimal_string(0), "0");
    assert_eq!(decimal_string(7), "7");
    assert_eq!(decimal_string(10), "10");
    assert_eq!(decimal_string(12345), "12345");
    assert_eq!(decimal_string(u32::MAX), "4294967295");
}

#[test]
fn scene_activation_strictly_alternates() {
    let mut scene = LevelSelectScene::new(2);
    assert!(scene.activate().is_ok());
    assert!(matches!(
        scene.activate(),
        Err(GameError::SceneActivationError)
    ));
    assert!(scene.deactivate().is_ok());
    assert!(matches!(
        scene.deactivate(),
        Err(GameError::SceneActivationError)
    ));
    assert!(scene.activate().is_ok());

    let mut start = StartScene::new();
    assert!(start.activate().is_ok());
    assert!(matches!(
        start.activate(),
        Err(GameError::SceneActivationError)
    ));

    let mut mid = MidLevelScene::new();
    assert!(mid.activate().is_ok());
    assert!(matches!(mid.activate(), Err(GameError::SceneActivationError)));
}

#[test]
fn scene_names() {
    assert_eq!(StartScene::new().get_name(), "Start");
    assert_eq!(LevelSelectScene::new(1).get_name(), "Level Selection");
    assert_eq!(MidLevelScene::new().get_name(), "Mid-Level");
}

#[test]
fn level_select_layout_and_labels() {
    let scene = LevelSelectScene::new(3);
    let buttons = scene.get_buttons();
    assert_eq!(buttons.len(), 3);
    assert_eq!(buttons[0].get_label(), "Level 1");
    assert_eq!(buttons[1].get_label(), "Level 2");
    assert_eq!(buttons[2].get_label(), "Level 3");
    // Margins 4 and 2, gap 1 row, each button 7 columns by 1 row.
    assert_eq!(buttons[0].get_top_left(), (4, 2));
    assert_eq!(buttons[0].get_bottom_right(), (11, 3));
    assert_eq!(buttons[1].get_top_left(), (4, 4));
    assert_eq!(buttons[2].get_top_left(), (4, 6));
    assert_eq!(buttons[0].click_event(), Some(GameEvent::SelectLevel(1)));
    assert_eq!(buttons[2].click_event(), Some(GameEvent::SelectLevel(3)));
}

#[test]
fn button_containment_is_inclusive_on_all_edges() {
    // Grid rectangle (2,2)-(4,3) spans pixels 150..=300 by 150..=225.
    let b = Button::new("probe", (2, 2), (4, 3), GameEvent::StartGame);
    assert_eq!(b.get_container(), (2, 2, 4, 3));
    assert_eq!(b.get_container_coords(), (150, 150, 300, 225));

    // Exactly on each edge or corner counts as inside.
    assert!(b.cursor_in_container(150, 150));
    assert!(b.cursor_in_container(300, 225));
    assert!(b.cursor_in_container(150, 225));
    assert!(b.cursor_in_container(300, 150));
    assert!(b.cursor_in_container(200, 180));

    // One unit outside any edge is outside.
    assert!(!b.cursor_in_container(149, 180));
    assert!(!b.cursor_in_container(301, 180));
    assert!(!b.cursor_in_container(200, 149));
    assert!(!b.cursor_in_container(200, 226));
}

#[test]
fn click_dispatch_matches_no_index_outside_every_edge() {
    // The start scene's one button spans pixels 450..=600 by 300..=375.
    let game = Game::new();
    assert_eq!(game.click_event(450, 300), Some(0));
    assert_eq!(game.click_event(600, 375), Some(0));
    assert_eq!(game.click_event(449, 300), None);
    assert_eq!(game.click_event(601, 300), None);
    assert_eq!(game.click_event(450, 299), None);
    assert_eq!(game.click_event(450, 376), None);
}

#[test]
fn button_update_answers_the_start_click() {
    let b = Button::new("Start", (6, 4), (8, 5), GameEvent::StartGame);
    assert_eq!(
        b.update(UIEvent::ClickStartButton),
        Ok(Some(GameEvent::StartGame))
    );
    assert!(!b.is_selectable());
}

#[test]
fn new_game_starts_in_the_start_scene() {
    let game = Game::new();
    assert_eq!(game.get_current_scene(), SceneId::Start);
    assert!(game.is_scene_activated(SceneId::Start));
    assert!(!game.is_scene_activated(SceneId::LevelSelect));
    assert!(!game.is_scene_activated(SceneId::MidLevel));
    assert_eq!(game.get_start_scene().get_button().get_label(), "Start");
    assert_eq!(game.get_level_select_scene().get_buttons().len(), 3);
    assert_eq!(game.get_mid_level_scene().grid.len(), 0);

    let elements = game.get_ui_elements();
    assert_eq!(elements.len(), 1);
    assert_eq!(elements[0].get_label(), Some("Start"));
    assert_eq!(elements[0].get_container(), (6, 4, 8, 5));
    assert_eq!(elements[0].get_container_coords(), (450, 300, 600, 375));
    assert!(!elements[0].is_selectable());
}

#[test]
fn switching_to_the_current_scene_fails() {
    let mut game = Game::new();
    assert!(matches!(
        game.switch_scene(SceneId::Start),
        Err(GameError::SceneActivationError)
    ));
    assert_eq!(game.get_current_scene(), SceneId::Start);
    assert!(game.is_scene_activated(SceneId::Start));
}

#[test]
fn switch_scene_deactivates_the_outgoing_scene() {
    let mut game = Game::new();
    assert!(game.switch_scene(SceneId::LevelSelect).is_ok());
    assert_eq!(game.get_current_scene(), SceneId::LevelSelect);
    assert!(!game.is_scene_activated(SceneId::Start));
    assert!(game.is_scene_activated(SceneId::LevelSelect));
}

#[test]
fn start_to_level_select_to_mid_level() {
    // Click the start button: its event is StartGame, which moves play to
    // level selection; clicking the first level button yields
    // SelectLevel(1), which moves play into the level.
    let mut game = Game::new();

    let idx = game.click_event(500, 320).expect("start button under cursor");
    assert_eq!(idx, 0);
    let element = game.get_ui_element(idx).expect("index resolves");
    let event = element.click_event().expect("buttons carry an event");
    assert_eq!(event, GameEvent::StartGame);
    game.receive_event(&event);
    assert_eq!(game.get_current_scene(), SceneId::LevelSelect);

    // The first level button spans pixels 300..=825 by 150..=225.
    let idx = game.click_event(400, 200).expect("level button under cursor");
    assert_eq!(idx, 0);
    let element = game.get_ui_element(idx).expect("index resolves");
    let event = element.click_event().expect("buttons carry an event");
    assert_eq!(event, GameEvent::SelectLevel(1));
    game.receive_event(&event);
    assert_eq!(game.get_current_scene(), SceneId::MidLevel);
    assert!(game.is_scene_activated(SceneId::MidLevel));
    assert!(!game.is_scene_activated(SceneId::LevelSelect));
}

#[test]
fn grid_query_answers_only_in_level() {
    let mut game = Game::new();
    assert!(game.get_grid().is_none());
    game.switch_scene(SceneId::MidLevel).unwrap();
    let grid = game.get_grid().expect("in level, the board is exposed");
    assert_eq!(grid.len(), 0);
}

#[test]
fn controller_press_pipeline() {
    let mut controller = Controller::new(Game::new());
    assert_eq!(controller.get_model().get_current_scene(), SceneId::Start);

    // A press over nothing changes nothing.
    controller.update_cursor(10, 10);
    controller.handle_press();
    assert_eq!(controller.get_model().get_current_scene(), SceneId::Start);

    // A press on the start button starts the game.
    controller.update_cursor(500, 320);
    controller.handle_press();
    assert_eq!(
        controller.get_model().get_current_scene(),
        SceneId::LevelSelect
    );

    // A press on the second level button enters the level.
    controller.update_cursor(400, 350);
    controller.handle_press();
    assert_eq!(
        controller.get_model().get_current_scene(),
        SceneId::MidLevel
    );
    assert_eq!(controller.selected, None);
}

#[test]
fn grid_cells_are_clickable_regions_without_events() {
    let mut cell = Cell::new(Terrain::Plains, (1, 1), (2, 2));
    let unit = Unit::new(
        "pawn".to_string(),
        50,
        5,
        5,
        5,
        5,
        5,
        Protection::Light,
        Protection::Light,
    )
    .unwrap();
    cell.add_unit(unit).unwrap();

    let element = UIElement::GridCell(cell);
    // A cell with a unit asks for further action once clicked, but carries
    // no game-level event and no label.
    assert!(element.is_selectable());
    assert_eq!(element.click_event(), None);
    assert_eq!(element.get_label(), None);
    assert_eq!(element.get_container(), (1, 1, 2, 2));
    assert_eq!(element.get_container_coords(), (75, 75, 150, 150));
    assert!(element.cursor_in_container(100, 100));
    assert!(!element.cursor_in_container(74, 100));
}

#[test]
fn button_debug_name_prefixes_the_label() {
    let b = Button::new("Start", (6, 4), (8, 5), GameEvent::StartGame);
    assert_eq!(b.get_name(), "ButtonStart");
}

#[test]
fn player_selector_holds_candidates() {
    let selector = PlayerSelector {
        players: vec![
            Player::new("Ann".to_string(), Difficulty::Easy),
            Player::new("Ben".to_string(), Difficulty::Hard),
        ],
    };
    assert_eq!(selector.players.len(), 2);
    assert_eq!(selector.players[0].name(), "Ann");
}

#[test]
fn player_progression_is_monotonic() {
    let mut p = Player::new("Ann".to_string(), Difficulty::Hard);
    assert_eq!(p.name(), "Ann");
    assert_eq!(p.highest_lvl, 0);
    p.level_up();
    p.level_up();
    assert_eq!(p.highest_lvl, 2);
}

#[test]
fn duplicate_player_names_are_rejected() {
    let mut game = Game::new();
    assert!(game
        .add_player(Player::new("Alice".to_string(), Difficulty::Easy))
        .is_ok());
    assert_eq!(game.players.len(), 1);
    let r = game.add_player(Player::new("Alice".to_string(), Difficulty::Hard));
    assert!(matches!(r, Err(GameError::PlayerAlreadyExists)));
    assert_eq!(game.players.len(), 1);
}

#[test]
fn removing_a_missing_player_fails() {
    let mut game = Game::new();
    game.add_player(Player::new("Alice".to_string(), Difficulty::Easy))
        .unwrap();
    let r = game.remove_player("Bob");
    assert!(matches!(r, Err(GameError::PlayerDoesNotExist)));
    assert_eq!(game.players.len(), 1);

    assert!(game.remove_player("Alice").is_ok());
    assert_eq!(game.players.len(), 0);
}

#[test]
fn remove_player_takes_every_match() {
    let mut game = Game::new();
    game.add_player(Player::new("Ann".to_string(), Difficulty::Easy))
        .unwrap();
    game.add_player(Player::new("Ben".to_string(), Difficulty::Medium))
        .unwrap();
    game.add_player(Player::new("Cey".to_string(), Difficulty::Hard))
        .unwrap();
    assert!(game.remove_player("Ben").is_ok());
    assert_eq!(game.players.len(), 2);
    assert_eq!(game.players[0].name(), "Ann");
    assert_eq!(game.players[1].name(), "Cey");
}
