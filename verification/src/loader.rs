//! The start of a game: which assets to ask for, what to make of those that
//! came, and the game that results.
//!
//! Fetching and decoding are the platform's. What is decided here is which
//! images a map needs, each path once; that an image which did not come is
//! simply absent; and that a map with no tile cannot be shown.

use vstd::prelude::*;
use crate::error::Error;
use crate::game::DrawCommand;
use crate::game::Game;
use crate::game::GameView;
use crate::controller::ViewState;
use crate::geometry::Vector;
use crate::map::ImageMap;
use crate::map::MapFile;
use crate::map::TileType;
use crate::map::INVALID_MAP_MESSAGE;
use crate::scalar::MapDistance;
use crate::scalar::PixelDistance;
use crate::time::Instant;

verus! {

/// Where the key bindings are kept.
pub const KEYBINDINGS_PATH: &'static str = "keybindings/us.json";

/// Where the map is kept.
pub const MAP_FILE: &'static str = "map.map";

/// Where the image of the cursor is kept.
pub const CURSOR_IMAGE: &'static str = "cursor.png";

/// Where the image of the infobar is kept.
pub const INFO_BAR_IMAGE: &'static str = "infobar.png";

/// What is logged when the image of the cursor did not come.
pub const CURSOR_MISSING_MESSAGE: &'static str = "Error: Failed to load cursor.png";

/// What is logged when the image of the infobar did not come.
pub const INFO_BAR_MISSING_MESSAGE: &'static str = "Error: Failed to load infobar.png";

/// The image paths of the tile types, each once, in the order in which they
/// first occur.
pub open spec fn distinct_paths(tile_types: Seq<TileType>) -> Seq<Seq<char>>
    decreases tile_types.len(),
{
    if tile_types.len() == 0 {
        Seq::empty()
    } else {
        let before = distinct_paths(tile_types.drop_last());
        let path = tile_types.last().image@;
        if before.contains(path) {
            before
        } else {
            before.push(path)
        }
    }
}

/// No path is asked for twice.
pub proof fn lemma_distinct_paths_once(tile_types: Seq<TileType>)
    ensures
        distinct_paths(tile_types).no_duplicates(),
    decreases tile_types.len(),
{
    if tile_types.len() > 0 {
        lemma_distinct_paths_once(tile_types.drop_last());
    }
}

/// The path of every tile type is asked for, and nothing else is.
pub proof fn lemma_distinct_paths_complete(tile_types: Seq<TileType>)
    ensures
        forall|i: int|
            0 <= i < tile_types.len() ==> distinct_paths(tile_types).contains(
                (#[trigger] tile_types[i]).image@,
            ),
        forall|j: int|
            0 <= j < distinct_paths(tile_types).len() ==> exists|i: int|
                0 <= i < tile_types.len() && (#[trigger] tile_types[i]).image@
                    == #[trigger] distinct_paths(tile_types)[j],
    decreases tile_types.len(),
{
    if tile_types.len() > 0 {
        let before = tile_types.drop_last();
        lemma_distinct_paths_complete(before);
        let paths = distinct_paths(tile_types);
        let last = tile_types.len() - 1;
        assert forall|i: int| 0 <= i < tile_types.len() implies paths.contains(
            (#[trigger] tile_types[i]).image@,
        ) by {
            if i < last {
                assert(before[i] == tile_types[i]);
                let at = choose|k: int|
                    0 <= k < distinct_paths(before).len() && distinct_paths(before)[k]
                        == tile_types[i].image@;
                assert(paths[at] == tile_types[i].image@);
            } else {
                if distinct_paths(before).contains(tile_types[i].image@) {
                } else {
                    assert(paths[paths.len() - 1] == tile_types[i].image@);
                }
            }
        }
        assert forall|j: int| 0 <= j < paths.len() implies exists|i: int|
            0 <= i < tile_types.len() && (#[trigger] tile_types[i]).image@ == #[trigger] paths[j] by {
            if j < distinct_paths(before).len() {
                let i = choose|i: int|
                    0 <= i < before.len() && (#[trigger] before[i]).image@ == distinct_paths(
                        before,
                    )[j];
                assert(tile_types[i] == before[i]);
            } else {
                assert(tile_types[last].image@ == paths[j]);
            }
        }
    }
}

/// The characters of each of `paths`.
pub open spec fn path_views(paths: Seq<String>) -> Seq<Seq<char>> {
    paths.map_values(|path: String| path@)
}

/// Whether `paths` holds `path`.
fn holds_path(paths: &Vec<String>, path: &String) -> (r: bool)
    ensures
        r == path_views(paths@).contains(path@),
{
    let mut i: usize = 0;
    while i < paths.len()
        invariant
            i <= paths.len(),
            forall|j: int| 0 <= j < i ==> (#[trigger] path_views(paths@)[j]) != path@,
        decreases paths.len() - i,
    {
        if paths[i] == *path {
            assert(path_views(paths@)[i as int] == path@);
            return true;
        }
        i = i + 1;
    }
    false
}

/// The image paths to fetch for `tile_types`: the path of every type, each
/// once, in the order in which they first occur.
pub fn image_paths(tile_types: &Vec<TileType>) -> (r: Vec<String>)
    ensures
        path_views(r@) == distinct_paths(tile_types@),
{
    let mut paths: Vec<String> = Vec::new();
    let mut i: usize = 0;
    assert(tile_types@.take(0) =~= Seq::empty());
    assert(path_views(paths@) =~= Seq::empty());
    while i < tile_types.len()
        invariant
            i <= tile_types.len(),
            path_views(paths@) == distinct_paths(tile_types@.take(i as int)),
        decreases tile_types.len() - i,
    {
        let ghost before = path_views(paths@);
        assert(tile_types@.take(i + 1).drop_last() =~= tile_types@.take(i as int));
        if !holds_path(&paths, &tile_types[i].image) {
            paths.push(tile_types[i].image.clone());
            assert(path_views(paths@) =~= before.push(tile_types[i as int].image@));
        }
        i = i + 1;
    }
    assert(tile_types@.take(i as int) =~= tile_types@);
    paths
}

/// The images that came, by path: for each of `paths` the image at the same
/// place of `fetched`, where one is there.
pub open spec fn loaded_images<I>(paths: Seq<Seq<char>>, fetched: Seq<Option<I>>) -> Map<
    Seq<char>,
    I,
>
    decreases paths.len(),
{
    if paths.len() == 0 {
        Map::empty()
    } else {
        let before = loaded_images(paths.drop_last(), fetched);
        let last = paths.len() - 1;
        if last < fetched.len() && fetched[last].is_some() {
            before.insert(paths.last(), fetched[last].unwrap())
        } else {
            before
        }
    }
}

/// Keeps the images that came. `fetched` holds, for each of `paths` in turn,
/// the image that was fetched from it, or nothing where none came.
pub fn collect_images<I: Copy>(paths: &Vec<String>, fetched: &Vec<Option<I>>) -> (r: ImageMap<I>)
    ensures
        r@ == loaded_images(path_views(paths@), fetched@),
{
    let mut images: ImageMap<I> = ImageMap::new();
    let mut i: usize = 0;
    assert(path_views(paths@).take(0) =~= Seq::empty());
    while i < paths.len()
        invariant
            i <= paths.len(),
            images@ == loaded_images(path_views(paths@).take(i as int), fetched@),
        decreases paths.len() - i,
    {
        assert(path_views(paths@).take(i + 1).drop_last() =~= path_views(paths@).take(i as int));
        if i < fetched.len() {
            match fetched[i] {
                Some(image) => {
                    images.insert(paths[i].clone(), image);
                },
                None => {},
            }
        }
        i = i + 1;
    }
    assert(path_views(paths@).take(i as int) =~= path_views(paths@));
    images
}

/// How many cells of `row` name a type that a table of `types` types does not
/// have.
pub open spec fn invalid_in_row(row: Seq<u8>, types: int) -> nat
    decreases row.len(),
{
    if row.len() == 0 {
        0
    } else {
        invalid_in_row(row.drop_last(), types) + if row.last() >= types {
            1nat
        } else {
            0nat
        }
    }
}

/// How many cells of `rows` name a type that a table of `types` types does
/// not have.
pub open spec fn invalid_in_rows(rows: Seq<Seq<u8>>, types: int) -> nat
    decreases rows.len(),
{
    if rows.len() == 0 {
        0
    } else {
        invalid_in_rows(rows.drop_last(), types) + invalid_in_row(rows.last(), types)
    }
}

/// What a start logs: one entry for every cell of the map whose type is not
/// in the table, then one if the cursor's image is missing, then one if the
/// infobar's is.
pub open spec fn startup_log_spec(
    invalid_cells: nat,
    cursor_loaded: bool,
    infobar_loaded: bool,
) -> Seq<Seq<char>> {
    Seq::new(invalid_cells, |i: int| INVALID_MAP_MESSAGE@) + (if cursor_loaded {
        Seq::<Seq<char>>::empty()
    } else {
        seq![CURSOR_MISSING_MESSAGE@]
    }) + (if infobar_loaded {
        Seq::<Seq<char>>::empty()
    } else {
        seq![INFO_BAR_MISSING_MESSAGE@]
    })
}

/// The characters of each of `messages`.
pub open spec fn message_views(messages: Seq<&'static str>) -> Seq<Seq<char>> {
    messages.map_values(|message: &'static str| message@)
}

/// One log entry for every cell of the map whose type is not in the table.
pub fn invalid_cell_log(map_file: &MapFile) -> (r: Vec<&'static str>)
    ensures
        message_views(r@) == Seq::new(
            invalid_in_rows(map_file.map@, map_file.tile_types@.len() as int),
            |i: int| INVALID_MAP_MESSAGE@,
        ),
{
    let (rows, columns) = map_file.map.dim();
    let types = map_file.tile_types.len();
    let mut log: Vec<&'static str> = Vec::new();
    let mut row: usize = 0;
    assert(map_file.map@.take(0) =~= Seq::empty());
    while row < rows
        invariant
            row <= rows,
            rows == map_file.map@.len(),
            types == map_file.tile_types@.len(),
            forall|i: int| 0 <= i < rows ==> (#[trigger] map_file.map@[i]).len() == columns,
            log.len() == invalid_in_rows(map_file.map@.take(row as int), types as int),
            forall|i: int| 0 <= i < log.len() ==> (#[trigger] log[i])@ == INVALID_MAP_MESSAGE@,
        decreases rows - row,
    {
        let ghost cells = map_file.map@[row as int];
        let ghost before = log.len();
        let mut column: usize = 0;
        assert(cells.take(0) =~= Seq::empty());
        while column < columns
            invariant
                row < rows,
                rows == map_file.map@.len(),
                types == map_file.tile_types@.len(),
                cells == map_file.map@[row as int],
                cells.len() == columns,
                column <= columns,
                log.len() == before + invalid_in_row(cells.take(column as int), types as int),
                forall|i: int| 0 <= i < log.len() ==> (#[trigger] log[i])@ == INVALID_MAP_MESSAGE@,
            decreases columns - column,
        {
            assert(cells.take(column + 1).drop_last() =~= cells.take(column as int));
            if map_file.map.at(row, column) as usize >= types {
                log.push(INVALID_MAP_MESSAGE);
            }
            column = column + 1;
        }
        assert(cells.take(column as int) =~= cells);
        assert(map_file.map@.take(row + 1).drop_last() =~= map_file.map@.take(row as int));
        row = row + 1;
    }
    assert(map_file.map@.take(row as int) =~= map_file.map@);
    assert(message_views(log@) =~= Seq::new(log.len() as nat, |i: int| INVALID_MAP_MESSAGE@));
    log
}

/// A game that has started: the game, what is to be logged, and the commands
/// that draw it for the first time.
pub struct Started<I> {
    pub game: Game<I>,
    pub log: Vec<&'static str>,
    pub commands: Vec<DrawCommand<I>>,
}

/// Starts the game of a decoded map. `paths` are the image paths that
/// `image_paths` asked for and `fetched` what came of each. `now` is the time
/// and `surface` the size of the drawing surface.
///
/// The game shows all of the map, with the cursor on its first tile, and is
/// drawn in full. A map with no tile, or with more rows or columns than a
/// `MapDistance` can hold, is refused as an invalid map file.
pub fn start_game<I: Copy>(
    map_file: MapFile,
    paths: &Vec<String>,
    fetched: &Vec<Option<I>>,
    cursor_image: Option<I>,
    infobar_image: Option<I>,
    surface: Vector<PixelDistance>,
    now: Instant,
) -> (r: Result<Started<I>, Error>)
    ensures
        r.is_ok() == (1 <= map_file.map.height() <= MapDistance::MAX && 1
            <= map_file.map.width() <= MapDistance::MAX),
        r matches Err(error) ==> error.msg@ == INVALID_MAP_MESSAGE@,
        r matches Ok(started) ==> {
            &&& started.game@.wf()
            &&& started.game@ == (GameView {
                state: ViewState::initial(started.game@.map_size(), now),
                tile_types: map_file.tile_types@,
                images: loaded_images(path_views(paths@), fetched@),
                map: map_file.map@,
                cursor_image,
                infobar_image,
            })
            &&& message_views(started.log@) == startup_log_spec(
                invalid_in_rows(map_file.map@, map_file.tile_types@.len() as int),
                cursor_image.is_some(),
                infobar_image.is_some(),
            )
            &&& started.commands.deep_view() == started.game@.redraw_calls(surface)
        },
{
    let mut log = invalid_cell_log(&map_file);
    let ghost cells = message_views(log@);
    if cursor_image.is_none() {
        log.push(CURSOR_MISSING_MESSAGE);
    }
    let ghost cursor = message_views(log@);
    if infobar_image.is_none() {
        log.push(INFO_BAR_MISSING_MESSAGE);
    }
    proof {
        assert(cursor =~= cells + (if cursor_image.is_some() {
            Seq::<Seq<char>>::empty()
        } else {
            seq![CURSOR_MISSING_MESSAGE@]
        }));
        assert(message_views(log@) =~= cursor + (if infobar_image.is_some() {
            Seq::<Seq<char>>::empty()
        } else {
            seq![INFO_BAR_MISSING_MESSAGE@]
        }));
    }
    let images = collect_images(paths, fetched);
    match Game::new(map_file, images, cursor_image, infobar_image, now) {
        Some(game) => {
            let commands = game.redraw(surface);
            Ok(Started { game, log, commands })
        },
        None => Err(Error::from(INVALID_MAP_MESSAGE.to_owned())),
    }
}

} // verus!
