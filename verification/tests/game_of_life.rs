use particle_life::game_of_life::{EdgeMode, GameOfLife, GameOfLifeConfig};

#[test]
fn test_new_game() {
    let game = GameOfLife::new(GameOfLifeConfig::default());
    assert_eq!(game.width(), 256);
    assert_eq!(game.height(), 256);
    assert_eq!(game.generation(), 0);
    assert_eq!(game.population(), 0);
}

#[test]
fn test_set_get_cell() {
    let mut game = GameOfLife::new(GameOfLifeConfig::default());
    game.set_cell(10, 20, 1);
    assert_eq!(game.get_cell(10, 20), 1);
    assert_eq!(game.get_cell(0, 0), 0);
}

#[test]
fn test_toggle_cell() {
    let mut game = GameOfLife::new(GameOfLifeConfig::default());
    assert_eq!(game.get_cell(5, 5), 0);
    game.toggle_cell(5, 5);
    assert_eq!(game.get_cell(5, 5), 1);
    game.toggle_cell(5, 5);
    assert_eq!(game.get_cell(5, 5), 0);
}

#[test]
fn test_blinker_oscillation() {
    let mut config = GameOfLifeConfig::default();
    config.width = 5;
    config.height = 5;
    let mut game = GameOfLife::new(config);

    // Create a blinker (vertical line)
    game.set_cell(2, 1, 1);
    game.set_cell(2, 2, 1);
    game.set_cell(2, 3, 1);

    // Step should turn it horizontal
    game.step();

    // Cells are alive if > 0 (implementation tracks age)
    assert!(game.get_cell(1, 2) > 0);
    assert!(game.get_cell(2, 2) > 0);
    assert!(game.get_cell(3, 2) > 0);
    assert_eq!(game.get_cell(2, 1), 0);
    assert_eq!(game.get_cell(2, 3), 0);

    // Step again should return to vertical
    game.step();

    assert!(game.get_cell(2, 1) > 0);
    assert!(game.get_cell(2, 2) > 0);
    assert!(game.get_cell(2, 3) > 0);
}

#[test]
fn test_rule_string() {
    let config = GameOfLifeConfig::conway();
    assert_eq!(config.rule_string(), "B3/S23");

    let highlife = GameOfLifeConfig::highlife();
    assert_eq!(highlife.rule_string(), "B36/S23");
}

#[test]
fn test_parse_rule_string() {
    let config = GameOfLifeConfig::from_rule_string("B36/S23").unwrap();
    assert_eq!(config.born, vec![3, 6]);
    assert_eq!(config.survives, vec![2, 3]);
}

#[test]
fn test_parse_rule_string_rejects() {
    assert!(GameOfLifeConfig::from_rule_string("B3S23").is_none());
    assert!(GameOfLifeConfig::from_rule_string("B3/S23/").is_none());
    assert!(GameOfLifeConfig::from_rule_string("3/S23").is_none());
    assert!(GameOfLifeConfig::from_rule_string("B3/23").is_none());
    assert!(GameOfLifeConfig::from_rule_string("B3/").is_none());
    assert!(GameOfLifeConfig::from_rule_string("").is_none());
}

#[test]
fn test_parse_rule_string_lowercase_and_empty_survives() {
    let seeds = GameOfLifeConfig::from_rule_string("b2/s").unwrap();
    assert_eq!(seeds.born, vec![2]);
    assert!(seeds.survives.is_empty());
}

#[test]
fn test_rule_string_round_trip() {
    let dn = GameOfLifeConfig::day_and_night();
    assert_eq!(dn.rule_string(), "B3678/S34678");
    let parsed = GameOfLifeConfig::from_rule_string(&dn.rule_string()).unwrap();
    assert_eq!(parsed.born, dn.born);
    assert_eq!(parsed.survives, dn.survives);
}

#[test]
fn test_rule_string_multi_digit_entries() {
    let mut config = GameOfLifeConfig::default();
    config.born = vec![12];
    config.survives = vec![205];
    assert_eq!(config.rule_string(), "B12/S205");
}

#[test]
fn test_preset_configs() {
    let seeds = GameOfLifeConfig::seeds();
    assert_eq!(seeds.rule_string(), "B2/S");
    let conway = GameOfLifeConfig::conway();
    assert_eq!(conway.born, vec![3]);
    assert_eq!(conway.survives, vec![2, 3]);
}

#[test]
fn test_clear_resets_everything() {
    let mut game = GameOfLife::default_conway();
    game.set_cell(1, 1, 7);
    game.step();
    game.clear();
    assert_eq!(game.generation(), 0);
    assert_eq!(game.population(), 0);
    assert_eq!(game.get_cell(1, 1), 0);
}

#[test]
fn test_step_updates_population_and_generation() {
    let mut config = GameOfLifeConfig::default();
    config.width = 5;
    config.height = 5;
    let mut game = GameOfLife::new(config);
    // A 2x2 block is a still life in Conway's rules.
    game.set_cell(1, 1, 1);
    game.set_cell(2, 1, 1);
    game.set_cell(1, 2, 1);
    game.set_cell(2, 2, 1);
    game.step();
    assert_eq!(game.generation(), 1);
    assert_eq!(game.population(), 4);
    game.step();
    assert_eq!(game.generation(), 2);
    assert_eq!(game.population(), 4);
    // Surviving cells age.
    assert_eq!(game.get_cell(1, 1), 3);
}

#[test]
fn test_alive_edges_flood() {
    let mut config = GameOfLifeConfig::default();
    config.width = 3;
    config.height = 3;
    config.edge_mode = EdgeMode::Alive;
    let mut game = GameOfLife::new(config);
    game.step();
    // An edge-center cell sees exactly the three live neighbors outside the
    // grid and is born; a corner sees five and the center none.
    assert!(game.get_cell(1, 0) > 0);
    assert!(game.get_cell(0, 1) > 0);
    assert_eq!(game.get_cell(0, 0), 0);
    assert_eq!(game.get_cell(1, 1), 0);
}

#[test]
fn test_mirror_edges_wrap_neighbors() {
    let mut config = GameOfLifeConfig::default();
    config.width = 5;
    config.height = 5;
    config.edge_mode = EdgeMode::Mirror;
    let mut game = GameOfLife::new(config);
    // A vertical blinker through the top edge: wraps to the bottom row.
    game.set_cell(2, 4, 1);
    game.set_cell(2, 0, 1);
    game.set_cell(2, 1, 1);
    game.step();
    assert!(game.get_cell(1, 0) > 0);
    assert!(game.get_cell(2, 0) > 0);
    assert!(game.get_cell(3, 0) > 0);
    assert_eq!(game.get_cell(2, 4), 0);
    assert_eq!(game.get_cell(2, 1), 0);
}

#[test]
fn test_load_glider() {
    let mut game = GameOfLife::default_conway();
    game.load_glider();
    assert_eq!(game.population(), 5);
    assert!(game.get_cell(129, 128) > 0);
    assert!(game.get_cell(130, 129) > 0);
    assert!(game.get_cell(128, 130) > 0);
    assert!(game.get_cell(129, 130) > 0);
    assert!(game.get_cell(130, 130) > 0);
}

#[test]
fn test_load_glider_gun() {
    let mut game = GameOfLife::default_conway();
    game.load_glider_gun();
    assert_eq!(game.population(), 36);
    assert!(game.get_cell(34, 10) > 0);
}

#[test]
fn test_load_pattern_clips_to_grid() {
    let mut config = GameOfLifeConfig::default();
    config.width = 4;
    config.height = 4;
    let mut game = GameOfLife::new(config);
    let rows = ["OO", "OO"];
    game.load_pattern(&rows, 3, 3);
    assert_eq!(game.population(), 1);
    assert!(game.get_cell(3, 3) > 0);
}

#[test]
fn test_edge_mode_metadata() {
    let all = EdgeMode::all();
    assert_eq!(all.len(), 3);
    assert_eq!(all[0], EdgeMode::Dead);
    assert_eq!(EdgeMode::Dead.display_name(), "Dead Edges");
    assert_eq!(EdgeMode::Alive.display_name(), "Alive Edges");
    assert_eq!(EdgeMode::Mirror.display_name(), "Wrap Around");
    assert_eq!(EdgeMode::default(), EdgeMode::Dead);
}

#[test]
fn test_grid_accessor() {
    let mut config = GameOfLifeConfig::default();
    config.width = 3;
    config.height = 2;
    let mut game = GameOfLife::new(config);
    game.set_cell(2, 1, 9);
    let grid = game.grid();
    assert_eq!(grid.len(), 6);
    assert_eq!(grid[5], 9);
}

#[test]
fn test_default_conway_matches_new_conway() {
    let game = GameOfLife::default_conway();
    assert_eq!(game.config().rule_string(), "B3/S23");
    assert_eq!(game.width(), 256);
    assert_eq!(game.height(), 256);
    assert_eq!(game.generation(), 0);
    assert_eq!(game.population(), 0);
    assert_eq!(game.grid().len(), 256 * 256);
    assert!(game.grid().iter().all(|&c| c == 0));
}
