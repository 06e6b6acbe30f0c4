//! The game: a map, its images, and the view on it; what is drawn for it and
//! how events change it.
//!
//! Nothing is drawn here. What has to be drawn comes out as a list of
//! `DrawCommand`s, in the order in which the platform is to carry them out.

use vstd::prelude::*;
use crate::controller::map_pos;
use crate::controller::map_pos_spec;
use crate::controller::screen_pos;
use crate::controller::screen_pos_spec;
use crate::controller::tile_size;
use crate::controller::tile_size_spec;
use crate::controller::Redraw;
use crate::controller::ViewState;
use crate::event::Event;
use crate::geometry::Rectangle;
use crate::geometry::Vector;
use crate::map::resolve_tile;
use crate::map::resolve_tile_spec;
use crate::map::Grid;
use crate::map::ImageMap;
use crate::map::MapFile;
use crate::map::Tile;
use crate::map::TileType;
use crate::map::TileView;
use crate::scalar::lemma_div_whole;
use crate::scalar::lemma_mul_fraction;
use crate::scalar::lemma_mul_whole;
use crate::scalar::lemma_operands_fit;
use crate::scalar::lemma_whole_div_whole;
use crate::scalar::whole;
use crate::scalar::MapDistance;
use crate::scalar::MouseDistance;
use crate::scalar::PixelDistance;
use crate::scalar::ScreenDistance;
use crate::time::Instant;

verus! {

broadcast use ScreenDistance::lemma_fraction;

/// One thing for the platform to draw.
#[derive(Clone, Debug, PartialEq, Eq)]
pub enum DrawCommand<I> {
    /// Draw `image` into the rectangle `at`; with no image, draw nothing.
    Image { image: Option<I>, at: Rectangle<ScreenDistance> },
    /// Write `text`, starting at `offset` and no wider than `max_width`.
    Text { text: String, offset: Vector<ScreenDistance>, max_width: ScreenDistance },
}

/// What a draw command is worth: the same, with the text as its characters.
pub enum DrawCall<I> {
    Image { image: Option<I>, at: Rectangle<ScreenDistance> },
    Text { text: Seq<char>, offset: Vector<ScreenDistance>, max_width: ScreenDistance },
}

impl<I> DeepView for DrawCommand<I> {
    type V = DrawCall<I>;

    open spec fn deep_view(&self) -> DrawCall<I> {
        match *self {
            DrawCommand::Image { image, at } => DrawCall::Image { image, at },
            DrawCommand::Text { text, offset, max_width } => DrawCall::Text {
                text: text@,
                offset,
                max_width,
            },
        }
    }
}

/// The height of the infobar: a fifteenth of the surface's.
pub open spec fn infobar_height_spec(surface: Vector<PixelDistance>) -> ScreenDistance {
    ScreenDistance::fraction(surface.y as int, 15)
}

/// Where the infobar lies: at the surface's origin, four times as wide as
/// high.
pub open spec fn infobar_rectangle_spec(surface: Vector<PixelDistance>) -> Rectangle<
    ScreenDistance,
> {
    Rectangle {
        top_left: Vector { x: whole(0), y: whole(0) },
        size: Vector {
            x: ScreenDistance::fraction(surface.y * 4, 15),
            y: infobar_height_spec(surface),
        },
    }
}

/// Where the infobar's text starts: a quarter of the bar's height from its
/// origin, both ways.
pub open spec fn infobar_text_offset_spec(surface: Vector<PixelDistance>) -> Vector<
    ScreenDistance,
> {
    Vector {
        x: ScreenDistance::fraction(surface.y as int, 60),
        y: ScreenDistance::fraction(surface.y as int, 60),
    }
}

/// How wide the infobar's text may be: three quarters of the bar's width.
pub open spec fn infobar_text_width_spec(surface: Vector<PixelDistance>) -> ScreenDistance {
    ScreenDistance::fraction(surface.y * 12, 60)
}

/// What a game is worth.
pub struct GameView<I> {
    /// The cursor, the viewport and the time of the last pan.
    pub state: ViewState,
    /// The kinds of tile.
    pub tile_types: Seq<TileType>,
    /// The images that were loaded, by path.
    pub images: Map<Seq<char>, I>,
    /// The rows of the map, each cell the index of its kind.
    pub map: Seq<Seq<u8>>,
    /// The image of the cursor, if it was loaded.
    pub cursor_image: Option<I>,
    /// The image of the infobar, if it was loaded.
    pub infobar_image: Option<I>,
}

impl<I> GameView<I> {
    /// The number of columns and of rows of the map.
    pub open spec fn map_size(self) -> Vector<MapDistance> {
        Vector { x: self.map[0].len() as MapDistance, y: self.map.len() as MapDistance }
    }

    /// Whether the map is a rectangle of at least one tile whose sides a
    /// `MapDistance` can hold, the cursor is on it, and the viewport is not
    /// empty and lies on it.
    pub open spec fn wf(self) -> bool {
        &&& 1 <= self.map.len() <= MapDistance::MAX
        &&& 1 <= self.map[0].len() <= MapDistance::MAX
        &&& forall|i: int|
            0 <= i < self.map.len() ==> (#[trigger] self.map[i]).len() == self.map[0].len()
        &&& self.state.wf(self.map_size())
    }

    /// Whether `pos` is a tile of the map.
    pub open spec fn on_map(self, pos: Vector<MapDistance>) -> bool {
        pos.x < self.map_size().x && pos.y < self.map_size().y
    }

    /// The tile at `pos`.
    pub open spec fn tile_at(self, pos: Vector<MapDistance>) -> TileView<I> {
        resolve_tile_spec(
            self.images,
            self.tile_types,
            self.map[pos.y as int][pos.x as int] as int,
        )
    }

    /// The game with another state.
    pub open spec fn with_state(self, state: ViewState) -> GameView<I> {
        GameView {
            state,
            tile_types: self.tile_types,
            images: self.images,
            map: self.map,
            cursor_image: self.cursor_image,
            infobar_image: self.infobar_image,
        }
    }

    /// The terrain at `pos`, drawn where `pos` lies on the surface.
    pub open spec fn tile_call(self, surface: Vector<PixelDistance>, pos: Vector<MapDistance>) -> DrawCall<I> {
        DrawCall::Image {
            image: self.tile_at(pos).image,
            at: screen_pos_spec(surface, self.state.screen, pos),
        }
    }

    /// The tile that is drawn as the `index`-th of the viewport, which is
    /// drawn row after row.
    pub open spec fn visible_tile(self, index: int) -> Vector<MapDistance> {
        let screen = self.state.screen;
        Vector {
            x: (screen.top_left.x + index % (screen.size.x as int)) as MapDistance,
            y: (screen.top_left.y + index / (screen.size.x as int)) as MapDistance,
        }
    }

    /// The terrain of every tile of the viewport, row after row.
    pub open spec fn tile_calls(self, surface: Vector<PixelDistance>) -> Seq<DrawCall<I>> {
        Seq::new(
            (self.state.screen.size.x * self.state.screen.size.y) as nat,
            |index: int| self.tile_call(surface, self.visible_tile(index)),
        )
    }

    /// The cursor, drawn where its tile lies on the surface.
    pub open spec fn cursor_call(self, surface: Vector<PixelDistance>) -> DrawCall<I> {
        DrawCall::Image {
            image: self.cursor_image,
            at: screen_pos_spec(surface, self.state.screen, self.state.cursor_pos),
        }
    }

    /// The infobar: its image, then the name of the tile under the cursor.
    pub open spec fn infobar_calls(self, surface: Vector<PixelDistance>) -> Seq<DrawCall<I>> {
        seq![
            DrawCall::Image { image: self.infobar_image, at: infobar_rectangle_spec(surface) },
            DrawCall::Text {
                text: self.tile_at(self.state.cursor_pos).name,
                offset: infobar_text_offset_spec(surface),
                max_width: infobar_text_width_spec(surface),
            },
        ]
    }

    /// Everything, drawn again: the terrain of the viewport, then the cursor,
    /// then the infobar.
    pub open spec fn redraw_calls(self, surface: Vector<PixelDistance>) -> Seq<DrawCall<I>> {
        self.tile_calls(surface).push(self.cursor_call(surface)) + self.infobar_calls(surface)
    }

    /// What is drawn when the cursor has come from `from`: the terrain at
    /// `from`, then the cursor in its place, then the infobar.
    pub open spec fn move_calls(self, surface: Vector<PixelDistance>, from: Vector<MapDistance>) -> Seq<DrawCall<I>> {
        seq![self.tile_call(surface, from), self.cursor_call(surface)] + self.infobar_calls(
            surface,
        )
    }

    /// What is drawn for `redraw` in this, the state after the event. A full
    /// redraw that goes with a move of the cursor shows the cursor where it
    /// came from.
    pub open spec fn render_calls(self, surface: Vector<PixelDistance>, redraw: Redraw) -> Seq<DrawCall<I>> {
        let before = match redraw.cursor_from {
            Some(from) => self.with_state(
                ViewState {
                    cursor_pos: from,
                    screen: self.state.screen,
                    last_mouse_pan: self.state.last_mouse_pan,
                },
            ),
            None => self,
        };
        let full = if redraw.full {
            before.redraw_calls(surface)
        } else {
            Seq::empty()
        };
        match redraw.cursor_from {
            Some(from) => full + self.move_calls(surface, from),
            None => full,
        }
    }
}

/// The part of the surface's height that the infobar takes: one in this many.
pub fn get_infobar_screen_height_ratio() -> (r: ScreenDistance)
    ensures
        r == whole(15),
{
    ScreenDistance::from(15u32)
}

/// How many times as wide as high the infobar is.
pub fn get_infobar_aspect_ration() -> (r: ScreenDistance)
    ensures
        r == whole(4),
{
    ScreenDistance::from(4u32)
}

/// The part of the infobar's height by which its text is set in: one in this
/// many.
pub fn get_infobar_text_offset_ratio() -> (r: ScreenDistance)
    ensures
        r == whole(4),
{
    ScreenDistance::from(4u32)
}

/// The part of the infobar's width that its text may take.
pub fn get_infobar_text_end() -> (r: ScreenDistance)
    ensures
        r == ScreenDistance::fraction(3, 4),
{
    match ScreenDistance::new(3, 4) {
        Some(part) => part,
        None => ScreenDistance::from(1u32),
    }
}

/// A map with its images and the view on it.
pub struct Game<I> {
    state: ViewState,
    tile_types: Vec<TileType>,
    images: ImageMap<I>,
    map: Grid,
    cursor_image: Option<I>,
    infobar_image: Option<I>,
}

impl<I> View for Game<I> {
    type V = GameView<I>;

    closed spec fn view(&self) -> GameView<I> {
        GameView {
            state: self.state,
            tile_types: self.tile_types@,
            images: self.images@,
            map: self.map@,
            cursor_image: self.cursor_image,
            infobar_image: self.infobar_image,
        }
    }
}

impl<I> Game<I> {
    #[verifier::type_invariant]
    spec fn inv(self) -> bool {
        self@.wf() && self.map.width() == self.map@[0].len()
    }
}

impl<I: Copy> Game<I> {
    /// The game of a map as it is first shown: all of it, the cursor on its
    /// first tile. Nothing where the map has no tile, or more rows or columns
    /// than a `MapDistance` can hold.
    pub fn new(
        map_file: MapFile,
        images: ImageMap<I>,
        cursor_image: Option<I>,
        infobar_image: Option<I>,
        now: Instant,
    ) -> (r: Option<Game<I>>)
        ensures
            r.is_some() == (1 <= map_file.map.height() <= MapDistance::MAX && 1
                <= map_file.map.width() <= MapDistance::MAX),
            r matches Some(game) ==> game@.wf() && game@ == (GameView {
                state: ViewState::initial(game@.map_size(), now),
                tile_types: map_file.tile_types@,
                images: images@,
                map: map_file.map@,
                cursor_image,
                infobar_image,
            }),
    {
        let (rows, columns) = map_file.map.dim();
        if rows < 1 || columns < 1 || rows > MapDistance::MAX as usize || columns
            > MapDistance::MAX as usize {
            return None;
        }
        let map_size = Vector { x: columns as MapDistance, y: rows as MapDistance };
        Some(
            Game {
                state: ViewState::new(map_size, now),
                tile_types: map_file.tile_types,
                images,
                map: map_file.map,
                cursor_image,
                infobar_image,
            },
        )
    }

    /// Where the cursor is.
    pub fn cursor_pos(&self) -> (r: Vector<MapDistance>)
        ensures
            r == self@.state.cursor_pos,
    {
        self.state.cursor_pos
    }

    /// The part of the map that is shown.
    pub fn screen(&self) -> (r: Rectangle<MapDistance>)
        ensures
            r == self@.state.screen,
    {
        self.state.screen
    }

    /// When the pointer last panned the viewport.
    pub fn last_mouse_pan(&self) -> (r: Instant)
        ensures
            r == self@.state.last_mouse_pan,
    {
        self.state.last_mouse_pan
    }

    /// The cursor, the viewport and the time of the last pan.
    pub fn state(&self) -> (r: ViewState)
        ensures
            r == self@.state,
            self@.wf(),
    {
        proof {
            use_type_invariant(self);
        }
        self.state
    }

    /// The extent of one tile on a surface of `surface` pixels.
    pub fn get_tile_size(&self, surface: Vector<PixelDistance>) -> (r: Vector<ScreenDistance>)
        ensures
            r == tile_size_spec(surface, self@.state.screen.size),
    {
        proof {
            use_type_invariant(self);
        }
        tile_size(surface, self.state.screen.size)
    }

    /// The tile at `pos`, which is a tile of the map.
    pub fn get_tile(&self, pos: Vector<MapDistance>) -> (r: Tile<'_, I>)
        requires
            self@.on_map(pos),
        ensures
            r@ == self@.tile_at(pos),
    {
        proof {
            use_type_invariant(self);
        }
        let index = pos.lossy_cast().unwrap();
        let type_id = self.map.at(index.y, index.x);
        resolve_tile(&self.images, &self.tile_types, type_id as usize).0
    }

    /// Where the tile at `pos` lies on a surface of `surface` pixels.
    pub fn get_screen_pos(&self, surface: Vector<PixelDistance>, pos: Vector<MapDistance>) -> (r:
        Rectangle<ScreenDistance>)
        ensures
            r == screen_pos_spec(surface, self@.state.screen, pos),
    {
        proof {
            use_type_invariant(self);
        }
        screen_pos(surface, self.state.screen, pos)
    }

    /// The number of columns and of rows of the map.
    pub fn get_map_size(&self) -> (r: Vector<MapDistance>)
        ensures
            r == self@.map_size(),
            self@.wf(),
    {
        proof {
            use_type_invariant(self);
        }
        let (rows, columns) = self.map.dim();
        Vector { x: columns as MapDistance, y: rows as MapDistance }
    }

    /// The tile under the pointer at `pos` on a surface of `surface` pixels,
    /// if there is one.
    pub fn get_map_pos(&self, surface: Vector<PixelDistance>, pos: Vector<MouseDistance>) -> (r:
        Option<Vector<MapDistance>>)
        ensures
            r == map_pos_spec(surface, self@.state.screen, pos),
    {
        proof {
            use_type_invariant(self);
        }
        map_pos(surface, self.state.screen, pos)
    }

    /// The command that draws the terrain at `pos`.
    fn draw_tile(&self, surface: Vector<PixelDistance>, pos: Vector<MapDistance>) -> (r:
        DrawCommand<I>)
        requires
            self@.on_map(pos),
        ensures
            r.deep_view() == self@.tile_call(surface, pos),
    {
        DrawCommand::Image {
            image: self.get_tile(pos).image,
            at: self.get_screen_pos(surface, pos),
        }
    }

    /// The command that draws the cursor.
    pub fn draw_cursor(&self, surface: Vector<PixelDistance>) -> (r: DrawCommand<I>)
        ensures
            r.deep_view() == self@.cursor_call(surface),
    {
        let cursor_pos_on_screen = self.get_screen_pos(surface, self.state.cursor_pos);
        DrawCommand::Image { image: self.cursor_image, at: cursor_pos_on_screen }
    }

    /// The commands that draw the infobar: its image, then the name of the
    /// tile under the cursor.
    pub fn draw_infobar(&self, surface: Vector<PixelDistance>) -> (r: Vec<DrawCommand<I>>)
        ensures
            r.deep_view() == self@.infobar_calls(surface),
    {
        proof {
            use_type_invariant(self);
            lemma_whole_div_whole(surface.y as int, 15);
            lemma_operands_fit(whole(surface.y as int), whole(15), 0x1_0000_0000, 15);
        }
        let height = ScreenDistance::from(surface.y) / get_infobar_screen_height_ratio();
        proof {
            lemma_mul_whole(surface.y as int, 15, 4);
            lemma_div_whole(surface.y as int, 15, 4);
            lemma_operands_fit(height, whole(4), 0x1_0000_0000, 4);
        }
        let size = Vector { x: height * get_infobar_aspect_ration(), y: height };
        let position = Rectangle {
            top_left: Vector { x: ScreenDistance::from(0u32), y: ScreenDistance::from(0u32) },
            size,
        };
        let offset_scalar = size.y / get_infobar_text_offset_ratio();
        let offset = Vector { x: offset_scalar, y: offset_scalar };
        proof {
            lemma_mul_fraction(surface.y * 4, 15, 3, 4);
            lemma_operands_fit(size.x, ScreenDistance::fraction(3, 4), 0x4_0000_0000, 4);
        }
        let max_width = size.x * get_infobar_text_end();
        let tile = self.get_tile(self.state.cursor_pos);
        let mut commands = Vec::new();
        commands.push(DrawCommand::Image { image: self.infobar_image, at: position });
        commands.push(DrawCommand::Text { text: tile.name.to_owned(), offset, max_width });
        proof {
            assert(commands.deep_view() =~= self@.infobar_calls(surface));
        }
        commands
    }

    /// The commands that draw everything again: the terrain of the viewport
    /// row after row, then the cursor, then the infobar.
    pub fn redraw(&self, surface: Vector<PixelDistance>) -> (r: Vec<DrawCommand<I>>)
        ensures
            r.deep_view() == self@.redraw_calls(surface),
    {
        proof {
            use_type_invariant(self);
        }
        let top_left = self.state.screen.top_left;
        let size = self.state.screen.size;
        let mut commands: Vec<DrawCommand<I>> = Vec::new();
        let mut row: MapDistance = 0;
        while row < size.y
            invariant
                self@.wf(),
                top_left == self@.state.screen.top_left,
                size == self@.state.screen.size,
                row <= size.y,
                commands.len() == row * size.x,
                forall|index: int|
                    0 <= index < commands.len() ==> (#[trigger] commands[index]).deep_view()
                        == self@.tile_call(surface, self@.visible_tile(index)),
            decreases size.y - row,
        {
            let mut column: MapDistance = 0;
            while column < size.x
                invariant
                    self@.wf(),
                    top_left == self@.state.screen.top_left,
                    size == self@.state.screen.size,
                    row < size.y,
                    column <= size.x,
                    commands.len() == row * size.x + column,
                    forall|index: int|
                        0 <= index < commands.len() ==> (#[trigger] commands[index]).deep_view()
                            == self@.tile_call(surface, self@.visible_tile(index)),
                decreases size.x - column,
            {
                let map_pos = Vector { x: column, y: row } + top_left;
                proof {
                    vstd::arithmetic::div_mod::lemma_fundamental_div_mod_converse(
                        row * size.x + column,
                        size.x as int,
                        row as int,
                        column as int,
                    );
                    assert(map_pos == self@.visible_tile(row * size.x + column));
                }
                commands.push(self.draw_tile(surface, map_pos));
                column = column + 1;
            }
            proof {
                assert((row + 1) * size.x == row * size.x + size.x) by (nonlinear_arith);
            }
            row = row + 1;
        }
        proof {
            assert(commands.len() == size.x * size.y) by (nonlinear_arith)
                requires
                    commands.len() == row * size.x,
                    row == size.y,
            ;
            assert(commands.deep_view() =~= self@.tile_calls(surface));
        }
        let ghost tiles = commands.deep_view();
        commands.push(self.draw_cursor(surface));
        proof {
            assert(commands.deep_view() =~= tiles.push(self@.cursor_call(surface)));
        }
        let ghost overlay = commands.deep_view();
        let mut infobar = self.draw_infobar(surface);
        let ghost bar = infobar.deep_view();
        commands.append(&mut infobar);
        proof {
            assert(commands.deep_view() =~= overlay + bar);
        }
        commands
    }

    /// The commands that draw the move of the cursor from `from` to where it
    /// is now: the terrain at `from`, the cursor, the infobar.
    fn draw_move(&self, surface: Vector<PixelDistance>, from: Vector<MapDistance>) -> (r: Vec<
        DrawCommand<I>,
    >)
        requires
            self@.on_map(from),
        ensures
            r.deep_view() == self@.move_calls(surface, from),
    {
        let mut commands = Vec::new();
        commands.push(self.draw_tile(surface, from));
        commands.push(self.draw_cursor(surface));
        let ghost moved = commands.deep_view();
        let mut infobar = self.draw_infobar(surface);
        let ghost bar = infobar.deep_view();
        commands.append(&mut infobar);
        proof {
            assert(moved =~= seq![self@.tile_call(surface, from), self@.cursor_call(surface)]);
            assert(commands.deep_view() =~= moved + bar);
        }
        commands
    }

    /// Puts the cursor on the tile `pos` of the map, and returns the commands
    /// that draw the move: the terrain where the cursor was, the cursor in
    /// its new place, the infobar.
    pub fn move_cursor(&mut self, surface: Vector<PixelDistance>, pos: Vector<MapDistance>) -> (r:
        Vec<DrawCommand<I>>)
        requires
            old(self)@.on_map(pos),
        ensures
            final(self)@.wf(),
            final(self)@ == old(self)@.with_state(
                ViewState {
                    cursor_pos: pos,
                    screen: old(self)@.state.screen,
                    last_mouse_pan: old(self)@.state.last_mouse_pan,
                },
            ),
            r.deep_view() == final(self)@.move_calls(surface, old(self)@.state.cursor_pos),
    {
        proof {
            use_type_invariant(&*self);
        }
        let old_pos = self.state.cursor_pos;
        self.state = ViewState {
            cursor_pos: pos,
            screen: self.state.screen,
            last_mouse_pan: self.state.last_mouse_pan,
        };
        self.draw_move(surface, old_pos)
    }

    /// The commands that `redraw` asks for, in this, the state after the
    /// event.
    fn render(&mut self, surface: Vector<PixelDistance>, redraw: Redraw) -> (r: Vec<
        DrawCommand<I>,
    >)
        requires
            redraw.cursor_from matches Some(from) ==> old(self)@.on_map(from),
        ensures
            final(self)@ == old(self)@,
            r.deep_view() == old(self)@.render_calls(surface, redraw),
    {
        proof {
            use_type_invariant(&*self);
        }
        let after = self.state;
        let mut commands: Vec<DrawCommand<I>> = Vec::new();
        match redraw.cursor_from {
            Some(from) => {
                if redraw.full {
                    self.state = ViewState {
                        cursor_pos: from,
                        screen: after.screen,
                        last_mouse_pan: after.last_mouse_pan,
                    };
                    commands = self.redraw(surface);
                    self.state = after;
                }
                let ghost full = commands.deep_view();
                let mut moved = self.draw_move(surface, from);
                let ghost rest = moved.deep_view();
                commands.append(&mut moved);
                proof {
                    assert(commands.deep_view() =~= full + rest);
                    assert(self@ == old(self)@);
                }
            },
            None => {
                if redraw.full {
                    commands = self.redraw(surface);
                }
            },
        }
        commands
    }

    /// Applies `event`, which arrives at the time `now` while the drawing
    /// surface is `surface` pixels large, and returns the commands that draw
    /// what it changed.
    pub fn handle_event(
        &mut self,
        event: Event<MouseDistance>,
        surface: Vector<PixelDistance>,
        now: Instant,
    ) -> (r: Vec<DrawCommand<I>>)
        ensures
            old(self)@.wf(),
            final(self)@.wf(),
            final(self)@ == old(self)@.with_state(
                old(self)@.state.step_spec(event, old(self)@.map_size(), surface, now).0,
            ),
            r.deep_view() == final(self)@.render_calls(
                surface,
                old(self)@.state.step_spec(event, old(self)@.map_size(), surface, now).1,
            ),
    {
        proof {
            use_type_invariant(&*self);
        }
        let map_size = self.get_map_size();
        let (state, redraw) = self.state.step(event, map_size, surface, now);
        self.state = state;
        self.render(surface, redraw)
    }
}

/// Two full redraws of a game that nothing has changed in between ask for the
/// same commands in the same order.
pub proof fn lemma_redraw_repeats<I: Copy>(
    game: &Game<I>,
    surface: Vector<PixelDistance>,
    first: Vec<DrawCommand<I>>,
    second: Vec<DrawCommand<I>>,
)
    requires
        call_ensures(Game::<I>::redraw, (game, surface), first),
        call_ensures(Game::<I>::redraw, (game, surface), second),
    ensures
        first.deep_view() == second.deep_view(),
{
}

} // verus!
