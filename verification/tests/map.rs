use alemian_saga_core::error::Error;
use alemian_saga_core::map::get_tile;
use alemian_saga_core::map::resolve_tile;
use alemian_saga_core::map::Grid;
use alemian_saga_core::map::ImageMap;
use alemian_saga_core::map::TileType;
use alemian_saga_core::map::ERROR_TILE_NAME;

fn tile_types() -> Vec<TileType> {
    vec![
        TileType { name: String::from("Grass"), image: String::from("grass.png") },
        TileType { name: String::from("Water"), image: String::from("water.png") },
        TileType { name: String::from("Meadow"), image: String::from("grass.png") },
    ]
}

#[test]
fn grid_holds_its_cells_row_after_row() {
    let grid = Grid::new(2, 3, vec![1, 2, 3, 4, 5, 6]).unwrap();
    assert_eq!(grid.dim(), (2, 3));
    assert_eq!(grid.at(0, 0), 1);
    assert_eq!(grid.at(0, 2), 3);
    assert_eq!(grid.at(1, 0), 4);
    assert_eq!(grid.at(1, 2), 6);
}

#[test]
fn grid_get_is_nothing_outside() {
    let grid = Grid::new(2, 3, vec![1, 2, 3, 4, 5, 6]).unwrap();
    assert_eq!(grid.get(1, 1), Some(5));
    assert_eq!(grid.get(2, 0), None);
    assert_eq!(grid.get(0, 3), None);
}

#[test]
fn grid_refuses_a_shape_that_does_not_fit_the_cells() {
    assert!(Grid::new(2, 3, vec![1, 2, 3, 4, 5]).is_none());
    assert!(Grid::new(2, 3, vec![1, 2, 3, 4, 5, 6, 7]).is_none());
    assert!(Grid::new(0, 0, vec![1]).is_none());
}

#[test]
fn grid_may_be_empty() {
    let grid = Grid::new(0, 3, vec![]).unwrap();
    assert_eq!(grid.dim(), (0, 3));
    assert_eq!(grid.get(0, 0), None);
    assert!(Grid::new(usize::MAX, 0, vec![]).is_none());
}

#[test]
fn image_map_starts_empty() {
    let images: ImageMap<u32> = ImageMap::new();
    assert_eq!(images.get(&String::from("grass.png")), None);
}

#[test]
fn image_map_keeps_what_was_inserted() {
    let mut images: ImageMap<u32> = ImageMap::new();
    images.insert(String::from("grass.png"), 1);
    images.insert(String::from("water.png"), 2);
    assert_eq!(images.get(&String::from("grass.png")), Some(1));
    assert_eq!(images.get(&String::from("water.png")), Some(2));
    assert_eq!(images.get(&String::from("sand.png")), None);
}

#[test]
fn image_map_insert_replaces() {
    let mut images: ImageMap<u32> = ImageMap::new();
    images.insert(String::from("grass.png"), 1);
    images.insert(String::from("grass.png"), 7);
    assert_eq!(images.get(&String::from("grass.png")), Some(7));
}

#[test]
fn get_tile_resolves_image_and_name() {
    let mut images: ImageMap<u32> = ImageMap::new();
    images.insert(String::from("grass.png"), 1);
    let types = tile_types();
    let tile = get_tile(&images, &types, 0).unwrap();
    assert_eq!(tile.image, Some(1));
    assert_eq!(tile.name, "Grass");
    let meadow = get_tile(&images, &types, 2).unwrap();
    assert_eq!(meadow.image, Some(1));
    assert_eq!(meadow.name, "Meadow");
}

#[test]
fn get_tile_without_a_loaded_image_has_none() {
    let mut images: ImageMap<u32> = ImageMap::new();
    images.insert(String::from("grass.png"), 1);
    let types = tile_types();
    let tile = get_tile(&images, &types, 1).unwrap();
    assert_eq!(tile.image, None);
    assert_eq!(tile.name, "Water");
}

#[test]
fn get_tile_is_nothing_for_a_type_out_of_range() {
    let images: ImageMap<u32> = ImageMap::new();
    let types = tile_types();
    assert!(get_tile(&images, &types, 3).is_none());
    assert!(get_tile(&images, &types, usize::MAX).is_none());
}

#[test]
fn resolve_tile_degrades_to_the_error_tile() {
    let mut images: ImageMap<u32> = ImageMap::new();
    images.insert(String::from("grass.png"), 1);
    let types = tile_types();
    let (tile, invalid) = resolve_tile(&images, &types, 3);
    assert_eq!(tile.image, None);
    assert_eq!(tile.name, "ERROR");
    assert_eq!(tile.name, ERROR_TILE_NAME);
    assert!(invalid);
    let (tile, invalid) = resolve_tile(&images, &types, 0);
    assert_eq!(tile.image, Some(1));
    assert_eq!(tile.name, "Grass");
    assert!(!invalid);
}

#[test]
fn error_from_message() {
    let error = Error::from(String::from("no such file"));
    assert_eq!(error.msg, "no such file");
}
