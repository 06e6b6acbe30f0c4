//! The map: a table of tile types, a grid of indices into it, the images
//! that were loaded for it, and how a cell of the grid becomes a tile that can
//! be shown.

use vstd::prelude::*;

verus! {

/// The name of the tile that stands for a cell whose type is not in the
/// table.
pub const ERROR_TILE_NAME: &'static str = "ERROR";

/// What is logged for a cell whose type is not in the table.
pub const INVALID_MAP_MESSAGE: &'static str = "Error: Invalid map file";

/// One kind of tile, as the map file describes it.
#[derive(Clone, Debug)]
pub struct TileType {
    /// What the infobar shows for a tile of this kind.
    pub name: String,
    /// The path of the image that is drawn for a tile of this kind.
    pub image: String,
}

/// A tile as it is shown: the image to draw, if one was loaded, and the name.
#[derive(Clone, Copy, Debug)]
pub struct Tile<'a, I> {
    pub image: Option<I>,
    pub name: &'a str,
}

/// What a tile is worth: its image and the characters of its name.
pub struct TileView<I> {
    pub image: Option<I>,
    pub name: Seq<char>,
}

impl<'a, I> View for Tile<'a, I> {
    type V = TileView<I>;

    open spec fn view(&self) -> TileView<I> {
        TileView { image: self.image, name: self.name@ }
    }
}

/// The images that were loaded, by the path each was asked for.
pub struct ImageMap<I> {
    entries: Vec<(String, I)>,
}

/// The map from keys to values that a list of entries stands for, a later
/// entry replacing an earlier one of the same key.
pub open spec fn entries_map<I>(entries: Seq<(String, I)>) -> Map<Seq<char>, I>
    decreases entries.len(),
{
    if entries.len() == 0 {
        Map::empty()
    } else {
        entries_map(entries.drop_last()).insert(entries.last().0@, entries.last().1)
    }
}

/// A key that the last entry of its kind holds is mapped to that entry's
/// value.
proof fn lemma_entries_found<I>(entries: Seq<(String, I)>, key: Seq<char>, at: int)
    requires
        0 <= at < entries.len(),
        entries[at].0@ == key,
        forall|j: int| at < j < entries.len() ==> (#[trigger] entries[j]).0@ != key,
    ensures
        entries_map(entries).contains_key(key),
        entries_map(entries)[key] == entries[at].1,
    decreases entries.len(),
{
    if at < entries.len() - 1 {
        lemma_entries_found(entries.drop_last(), key, at);
    }
}

/// A key that no entry holds is not mapped.
proof fn lemma_entries_missing<I>(entries: Seq<(String, I)>, key: Seq<char>)
    requires
        forall|j: int| 0 <= j < entries.len() ==> (#[trigger] entries[j]).0@ != key,
    ensures
        !entries_map(entries).contains_key(key),
    decreases entries.len(),
{
    if entries.len() > 0 {
        lemma_entries_missing(entries.drop_last(), key);
    }
}

impl<I> View for ImageMap<I> {
    type V = Map<Seq<char>, I>;

    closed spec fn view(&self) -> Map<Seq<char>, I> {
        entries_map(self.entries@)
    }
}

impl<I: Copy> ImageMap<I> {
    /// The map that holds no image.
    pub fn new() -> (r: ImageMap<I>)
        ensures
            r@ == Map::<Seq<char>, I>::empty(),
    {
        ImageMap { entries: Vec::new() }
    }

    /// Keeps `image` as the image of `path`, in place of any that was kept
    /// for that path before.
    pub fn insert(&mut self, path: String, image: I)
        ensures
            final(self)@ == old(self)@.insert(path@, image),
    {
        self.entries.push((path, image));
        proof {
            assert(self.entries@.drop_last() == old(self).entries@);
        }
    }

    /// The image that is kept for `path`, if there is one.
    pub fn get(&self, path: &String) -> (r: Option<I>)
        ensures
            r == (if self@.contains_key(path@) {
                Some(self@[path@])
            } else {
                None
            }),
    {
        let mut i: usize = self.entries.len();
        while i > 0
            invariant
                i <= self.entries.len(),
                forall|j: int| i <= j < self.entries.len() ==> (#[trigger] self.entries@[j]).0@ != path@,
            decreases i,
        {
            i = i - 1;
            if self.entries[i].0 == *path {
                proof {
                    lemma_entries_found(self.entries@, path@, i as int);
                }
                return Some(self.entries[i].1);
            }
        }
        proof {
            lemma_entries_missing(self.entries@, path@);
        }
        None
    }
}

/// The tile types' indices, cell by cell, as `ndarray` keeps them.
#[verifier::external_body]
pub struct Grid {
    cells: ndarray::Array2<u8>,
}

/// The rows of a grid, first to last, each with its cells from left to right.
pub uninterp spec fn grid_rows(grid: Grid) -> Seq<Seq<u8>>;

/// The number of columns that a grid was made with.
pub uninterp spec fn grid_columns(grid: Grid) -> nat;

#[verifier::external_type_specification]
#[verifier::external_body]
pub struct ExShapeError(ndarray::ShapeError);

/// The rows that `cells` make when every `columns` of them in turn are one
/// row, for `rows` rows.
pub open spec fn rows_of(cells: Seq<u8>, rows: int, columns: int) -> Seq<Seq<u8>> {
    Seq::new(rows as nat, |i: int| Seq::new(columns as nat, |j: int| cells[i * columns + j]))
}

/// `ndarray::Array2::from_shape_vec` with a shape of `rows` by `columns`: the
/// array whose rows are the consecutive runs of `columns` cells. It is refused
/// where the shape does not hold just as many cells as there are, or where an
/// axis is longer than `isize::MAX`.
#[verifier::external_body]
fn grid_from_shape_vec(rows: usize, columns: usize, cells: Vec<u8>) -> (r: Result<Grid, ndarray::ShapeError>)
    ensures
        r.is_ok() == (rows * columns == cells.len() && rows <= isize::MAX && columns
            <= isize::MAX),
        r.is_ok() ==> grid_rows(r.unwrap()) == rows_of(cells@, rows as int, columns as int),
        r.is_ok() ==> grid_columns(r.unwrap()) == columns,
{
    match ndarray::Array2::from_shape_vec((rows, columns), cells) {
        Ok(cells) => Ok(Grid { cells }),
        Err(error) => Err(error),
    }
}

/// `ndarray::ArrayBase::dim` of a two-dimensional array: the number of rows
/// and the number of columns. Every row has that many cells.
#[verifier::external_body]
fn grid_dim(grid: &Grid) -> (r: (usize, usize))
    ensures
        r.0 == grid_rows(*grid).len(),
        r.1 == grid_columns(*grid),
        forall|i: int| 0 <= i < r.0 ==> (#[trigger] grid_rows(*grid)[i]).len() == r.1,
{
    grid.cells.dim()
}

/// Indexing an `ndarray` array by `[row, column]`: the cell there.
#[verifier::external_body]
fn grid_index(grid: &Grid, row: usize, column: usize) -> (r: u8)
    requires
        row < grid_rows(*grid).len(),
        column < grid_rows(*grid)[row as int].len(),
    ensures
        r == grid_rows(*grid)[row as int][column as int],
{
    grid.cells[[row, column]]
}

impl View for Grid {
    type V = Seq<Seq<u8>>;

    open spec fn view(&self) -> Seq<Seq<u8>> {
        grid_rows(*self)
    }
}

impl Grid {
    /// The number of columns.
    pub open spec fn width(&self) -> nat {
        grid_columns(*self)
    }

    /// The number of rows.
    pub open spec fn height(&self) -> nat {
        self@.len()
    }

    /// The grid of `rows` rows and `columns` columns whose cells are `cells`,
    /// row after row. Nothing where `cells` are not just as many as that, or
    /// where an axis is longer than `isize::MAX`.
    pub fn new(rows: usize, columns: usize, cells: Vec<u8>) -> (r: Option<Grid>)
        ensures
            r is Some <==> rows * columns == cells.len() && rows <= isize::MAX && columns
                <= isize::MAX,
            r matches Some(grid) ==> grid@ == rows_of(cells@, rows as int, columns as int)
                && grid.width() == columns,
    {
        match grid_from_shape_vec(rows, columns, cells) {
            Ok(grid) => Some(grid),
            Err(_) => None,
        }
    }

    /// The number of rows and the number of columns.
    pub fn dim(&self) -> (r: (usize, usize))
        ensures
            r.0 == self.height(),
            r.1 == self.width(),
            forall|i: int| 0 <= i < r.0 ==> (#[trigger] self@[i]).len() == r.1,
    {
        grid_dim(self)
    }

    /// The cell in the given row and column.
    pub fn at(&self, row: usize, column: usize) -> (r: u8)
        requires
            row < self.height(),
            column < self@[row as int].len(),
        ensures
            r == self@[row as int][column as int],
    {
        grid_index(self, row, column)
    }

    /// The cell in the given row and column, if the grid has one there.
    pub fn get(&self, row: usize, column: usize) -> (r: Option<u8>)
        ensures
            r == (if row < self.height() && column < self.width() {
                Some(self@[row as int][column as int])
            } else {
                None
            }),
    {
        let (rows, columns) = grid_dim(self);
        if row < rows && column < columns {
            Some(grid_index(self, row, column))
        } else {
            None
        }
    }
}

/// A map as its file describes it: the kinds of tile, and for every cell the
/// index of its kind.
pub struct MapFile {
    pub tile_types: Vec<TileType>,
    pub map: Grid,
}

/// The tile that a cell of type `type_id` is shown as: the image loaded for
/// the type's path, if any, and the type's name. Nothing where the table has
/// no such type.
pub open spec fn get_tile_spec<I>(
    images: Map<Seq<char>, I>,
    tile_types: Seq<TileType>,
    type_id: int,
) -> Option<TileView<I>> {
    if 0 <= type_id < tile_types.len() {
        let tile_type = tile_types[type_id];
        Some(
            TileView {
                image: if images.contains_key(tile_type.image@) {
                    Some(images[tile_type.image@])
                } else {
                    None
                },
                name: tile_type.name@,
            },
        )
    } else {
        None
    }
}

/// The tile that stands for a cell whose type is not in the table: no image,
/// and the name `ERROR`.
pub open spec fn error_tile<I>() -> TileView<I> {
    TileView { image: None, name: ERROR_TILE_NAME@ }
}

/// The tile that a cell of type `type_id` is shown as, with the tile for an
/// error where the table has no such type.
pub open spec fn resolve_tile_spec<I>(
    images: Map<Seq<char>, I>,
    tile_types: Seq<TileType>,
    type_id: int,
) -> TileView<I> {
    match get_tile_spec(images, tile_types, type_id) {
        Some(tile) => tile,
        None => error_tile(),
    }
}

/// A cell whose type is not in the table is shown as the tile for an error,
/// with no image and the name `ERROR`, whatever images were loaded.
pub proof fn lemma_missing_type_is_error_tile<I>(
    images: Map<Seq<char>, I>,
    tile_types: Seq<TileType>,
    type_id: int,
)
    requires
        type_id >= tile_types.len(),
    ensures
        get_tile_spec(images, tile_types, type_id) == None::<TileView<I>>,
        resolve_tile_spec(images, tile_types, type_id) == (TileView::<I> {
            image: None,
            name: ERROR_TILE_NAME@,
        }),
{
}

/// The tile that a cell of type `type_id` is shown as, or nothing where the
/// table has no such type.
pub fn get_tile<'a, I: Copy>(
    images: &'a ImageMap<I>,
    tile_types: &'a Vec<TileType>,
    type_id: usize,
) -> (r: Option<Tile<'a, I>>)
    ensures
        r.is_some() == get_tile_spec(images@, tile_types@, type_id as int).is_some(),
        r matches Some(tile) ==> Some(tile@) == get_tile_spec(images@, tile_types@, type_id as int),
{
    if type_id < tile_types.len() {
        let tile_type = &tile_types[type_id];
        Some(Tile { image: images.get(&tile_type.image), name: tile_type.name.as_str() })
    } else {
        None
    }
}

/// The tile that a cell of type `type_id` is shown as, and whether the type
/// is missing from the table. For a missing type the tile is the one for an
/// error, and the caller owes the log one `INVALID_MAP_MESSAGE`.
pub fn resolve_tile<'a, I: Copy>(
    images: &'a ImageMap<I>,
    tile_types: &'a Vec<TileType>,
    type_id: usize,
) -> (r: (Tile<'a, I>, bool))
    ensures
        r.0@ == resolve_tile_spec(images@, tile_types@, type_id as int),
        r.1 == (type_id >= tile_types.len()),
{
    match get_tile(images, tile_types, type_id) {
        Some(tile) => (tile, false),
        None => (Tile { image: None, name: ERROR_TILE_NAME }, true),
    }
}

} // verus!
