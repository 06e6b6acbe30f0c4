use alemian_saga_core::controller::ViewState;
use alemian_saga_core::error::Error;
use alemian_saga_core::geometry::Rectangle;
use alemian_saga_core::geometry::Vector;
use alemian_saga_core::loader::collect_images;
use alemian_saga_core::loader::image_paths;
use alemian_saga_core::loader::invalid_cell_log;
use alemian_saga_core::loader::start_game;
use alemian_saga_core::loader::CURSOR_IMAGE;
use alemian_saga_core::loader::CURSOR_MISSING_MESSAGE;
use alemian_saga_core::loader::INFO_BAR_IMAGE;
use alemian_saga_core::loader::INFO_BAR_MISSING_MESSAGE;
use alemian_saga_core::loader::KEYBINDINGS_PATH;
use alemian_saga_core::loader::MAP_FILE;
use alemian_saga_core::map::Grid;
use alemian_saga_core::map::MapFile;
use alemian_saga_core::map::TileType;
use alemian_saga_core::map::INVALID_MAP_MESSAGE;
use alemian_saga_core::time::Instant;

fn tile_type(name: &str, image: &str) -> TileType {
    TileType { name: String::from(name), image: String::from(image) }
}

fn tile_types() -> Vec<TileType> {
    vec![
        tile_type("Grass", "grass.png"),
        tile_type("Water", "water.png"),
        tile_type("Meadow", "grass.png"),
        tile_type("Sand", "sand.png"),
        tile_type("Sea", "water.png"),
    ]
}

fn map_file(rows: usize, columns: usize, cells: Vec<u8>) -> MapFile {
    MapFile { tile_types: tile_types(), map: Grid::new(rows, columns, cells).unwrap() }
}

#[test]
fn asset_paths() {
    assert_eq!(KEYBINDINGS_PATH, "keybindings/us.json");
    assert_eq!(MAP_FILE, "map.map");
    assert_eq!(CURSOR_IMAGE, "cursor.png");
    assert_eq!(INFO_BAR_IMAGE, "infobar.png");
}

#[test]
fn image_paths_asks_for_each_path_once() {
    let paths = image_paths(&tile_types());
    assert_eq!(paths, vec!["grass.png", "water.png", "sand.png"]);
}

#[test]
fn image_paths_of_no_types_is_empty() {
    assert!(image_paths(&Vec::new()).is_empty());
}

#[test]
fn image_paths_keeps_distinct_paths_in_order() {
    let types = vec![tile_type("A", "b.png"), tile_type("B", "a.png"), tile_type("C", "c.png")];
    assert_eq!(image_paths(&types), vec!["b.png", "a.png", "c.png"]);
}

#[test]
fn collect_images_keeps_what_came() {
    let paths = image_paths(&tile_types());
    let images = collect_images(&paths, &vec![Some(10u32), None, Some(30u32)]);
    assert_eq!(images.get(&String::from("grass.png")), Some(10));
    assert_eq!(images.get(&String::from("water.png")), None);
    assert_eq!(images.get(&String::from("sand.png")), Some(30));
}

#[test]
fn collect_images_with_fewer_results_than_paths() {
    let paths = image_paths(&tile_types());
    let images = collect_images(&paths, &vec![Some(10u32)]);
    assert_eq!(images.get(&String::from("grass.png")), Some(10));
    assert_eq!(images.get(&String::from("sand.png")), None);
}

#[test]
fn invalid_cell_log_has_one_entry_for_each_bad_cell() {
    let file = map_file(2, 3, vec![0, 5, 2, 9, 4, 255]);
    let log = invalid_cell_log(&file);
    assert_eq!(log, vec![INVALID_MAP_MESSAGE, INVALID_MAP_MESSAGE, INVALID_MAP_MESSAGE]);
    assert_eq!(INVALID_MAP_MESSAGE, "Error: Invalid map file");
    assert!(invalid_cell_log(&map_file(2, 2, vec![0, 1, 2, 3])).is_empty());
}

#[test]
fn start_game_shows_the_whole_map() {
    let file = map_file(2, 3, vec![0, 1, 2, 3, 4, 0]);
    let paths = image_paths(&file.tile_types);
    let fetched = vec![Some(1u32), Some(2u32), Some(3u32)];
    let started = start_game(
        file,
        &paths,
        &fetched,
        Some(100),
        Some(200),
        Vector { x: 300, y: 200 },
        Instant { nanos: 77 },
    )
    .unwrap();
    assert_eq!(
        started.game.state(),
        ViewState {
            cursor_pos: Vector { x: 0, y: 0 },
            screen: Rectangle { top_left: Vector { x: 0, y: 0 }, size: Vector { x: 3, y: 2 } },
            last_mouse_pan: Instant { nanos: 77 },
        }
    );
    assert_eq!(started.game.get_map_size(), Vector { x: 3, y: 2 });
    assert!(started.log.is_empty());
    assert_eq!(started.commands.len(), 6 + 1 + 2);
    assert_eq!(started.commands, started.game.redraw(Vector { x: 300, y: 200 }));
}

#[test]
fn start_game_logs_bad_cells_then_missing_overlays() {
    let file = map_file(2, 2, vec![0, 9, 9, 1]);
    let paths = image_paths(&file.tile_types);
    let fetched: Vec<Option<u32>> = vec![None, None, None];
    let started =
        start_game(file, &paths, &fetched, None, None, Vector { x: 10, y: 10 }, Instant { nanos: 0 })
            .unwrap();
    assert_eq!(
        started.log,
        vec![
            INVALID_MAP_MESSAGE,
            INVALID_MAP_MESSAGE,
            CURSOR_MISSING_MESSAGE,
            INFO_BAR_MISSING_MESSAGE
        ]
    );
    assert_eq!(started.game.get_tile(Vector { x: 1, y: 0 }).name, "ERROR");
    assert_eq!(started.game.get_tile(Vector { x: 1, y: 0 }).image, None);
    assert_eq!(started.game.get_tile(Vector { x: 1, y: 1 }).name, "Water");
}

#[test]
fn start_game_logs_one_missing_overlay() {
    let file = map_file(1, 1, vec![0]);
    let paths = image_paths(&file.tile_types);
    let fetched: Vec<Option<u32>> = vec![];
    let started = start_game(
        file,
        &paths,
        &fetched,
        Some(1),
        None,
        Vector { x: 10, y: 10 },
        Instant { nanos: 0 },
    )
    .unwrap();
    assert_eq!(started.log, vec![INFO_BAR_MISSING_MESSAGE]);
}

#[test]
fn start_game_refuses_a_map_without_tiles() {
    let file = map_file(0, 3, vec![]);
    let paths = image_paths(&file.tile_types);
    let fetched: Vec<Option<u32>> = vec![];
    let refused =
        start_game(file, &paths, &fetched, None, None, Vector { x: 10, y: 10 }, Instant { nanos: 0 });
    match refused {
        Err(error) => assert_eq!(error, Error { msg: String::from("Error: Invalid map file") }),
        Ok(_) => panic!("a map without tiles was accepted"),
    }
    let file = map_file(3, 0, vec![]);
    assert!(
        start_game(file, &paths, &fetched, None, None, Vector { x: 10, y: 10 }, Instant { nanos: 0 })
            .is_err()
    );
}
