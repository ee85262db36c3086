//! The sprite layer of a scanline: the search through the object attribute
//! memory and the drawing of the sprites found.
use super::background::{pixel_of_tile, tile_pixel};
use super::registers::{palette_color, shade_of, PpuRegisters};
use vstd::prelude::*;

verus! {

/// One entry of the object attribute memory.
///
/// `y` and `x` are the screen position plus 16 and plus 8. In `attributes`,
/// bit 7 puts the sprite behind the background, bit 6 flips it vertically,
/// bit 5 horizontally, bit 4 selects the palette.
#[derive(Debug, Clone, Copy)]
pub struct Sprite {
    pub y: u8,
    pub x: u8,
    pub tile_index: u8,
    pub attributes: u8,
}

/// The two buffers the sprites of a scanline are drawn into: the shade at each
/// column, and whether a sprite has put a pixel there.
#[verifier::ext_equal]
pub struct SpriteLayer {
    pub shades: Seq<u8>,
    pub covered: Seq<bool>,
}

impl Sprite {
    /// Whether the sprite covers a scanline, for sprites `height` lines high.
    pub open spec fn on_line(self, line: u8, height: u8) -> bool {
        self.y - 16 <= line < self.y - 16 + height
    }

    /// The row of the sprite shown on a scanline, counted from the top of its
    /// tile data: a vertical flip turns the rows around.
    pub open spec fn row_on(self, line: u8, height: u8) -> int {
        if self.attributes & 0x40 != 0 {
            height - 1 - (line - (self.y - 16))
        } else {
            line - (self.y - 16)
        }
    }

    /// The tile that holds a row of the sprite. A sprite sixteen lines high
    /// takes its upper eight rows from the tile with bit 0 of the index
    /// cleared and its lower eight from the one with bit 0 set.
    pub open spec fn tile_of_row(self, row: int, height: u8) -> u8 {
        if height == 16 {
            if row < 8 {
                self.tile_index & 0xFE
            } else {
                self.tile_index | 0x01
            }
        } else {
            self.tile_index
        }
    }

    /// The colour ID of the sprite at one of its eight columns, counted from
    /// its left edge on the screen: a horizontal flip turns the columns
    /// around. Sprite tiles are always addressed unsigned.
    pub open spec fn pixel(self, vram: Seq<u8>, line: u8, height: u8, column: int) -> u8 {
        let row = self.row_on(line, height);
        tile_pixel(
            vram,
            self.tile_of_row(row, height),
            (if self.attributes & 0x20 != 0 {
                7 - column
            } else {
                column
            }) as u8,
            (row % 8) as u8,
            true,
        )
    }

    /// Whether the sprite has a pixel to show at screen column `x`: it covers
    /// the line and the column, its colour there is not the transparent
    /// colour 0, and it is in front of the background or the background is
    /// colour 0 there.
    pub open spec fn shows(
        self,
        vram: Seq<u8>,
        line: u8,
        height: u8,
        below: Seq<u8>,
        x: int,
    ) -> bool {
        &&& self.on_line(line, height)
        &&& 0 <= x - (self.x - 8) < 8
        &&& self.pixel(vram, line, height, x - (self.x - 8)) != 0
        &&& (self.attributes & 0x80 == 0 || below[x] == 0)
    }

    /// The shade of the sprite at screen column `x`, through the palette its
    /// attributes select.
    pub open spec fn shade(
        self,
        vram: Seq<u8>,
        registers: PpuRegisters,
        line: u8,
        x: int,
    ) -> u8 {
        palette_color(
            if self.attributes & 0x10 != 0 {
                registers.obp1
            } else {
                registers.obp0
            },
            self.pixel(vram, line, registers.sprite_height(), x - (self.x - 8)),
        )
    }
}

impl SpriteLayer {
    /// The layer with no sprite drawn.
    pub open spec fn empty() -> SpriteLayer {
        SpriteLayer { shades: Seq::new(160, |x: int| 0u8), covered: Seq::new(160, |x: int| false) }
    }

    /// The layer after one more sprite is drawn, of which the columns left of
    /// `limit` (counted from the left edge of the sprite) are done. A column
    /// that a sprite has covered before is left as it is.
    pub open spec fn draw_columns(
        self,
        vram: Seq<u8>,
        registers: PpuRegisters,
        sprite: Sprite,
        line: u8,
        below: Seq<u8>,
        limit: int,
    ) -> SpriteLayer {
        SpriteLayer {
            shades: Seq::new(
                160,
                |x: int|
                    if !self.covered[x] && x - (sprite.x - 8) < limit && sprite.shows(
                        vram,
                        line,
                        registers.sprite_height(),
                        below,
                        x,
                    ) {
                        sprite.shade(vram, registers, line, x)
                    } else {
                        self.shades[x]
                    },
            ),
            covered: Seq::new(
                160,
                |x: int|
                    self.covered[x] || (x - (sprite.x - 8) < limit && sprite.shows(
                        vram,
                        line,
                        registers.sprite_height(),
                        below,
                        x,
                    )),
            ),
        }
    }

    /// The layer after one more sprite is drawn.
    pub open spec fn draw(
        self,
        vram: Seq<u8>,
        registers: PpuRegisters,
        sprite: Sprite,
        line: u8,
        below: Seq<u8>,
    ) -> SpriteLayer {
        self.draw_columns(vram, registers, sprite, line, below, 8)
    }

    /// The layer after the first `count` sprites of a list are drawn, the last
    /// of them first.
    pub open spec fn draw_all(
        self,
        vram: Seq<u8>,
        registers: PpuRegisters,
        sprites: Seq<Sprite>,
        count: int,
        line: u8,
        below: Seq<u8>,
    ) -> SpriteLayer
        decreases count,
    {
        if count <= 0 {
            self
        } else {
            self.draw(vram, registers, sprites[count - 1], line, below).draw_all(
                vram,
                registers,
                sprites,
                count - 1,
                line,
                below,
            )
        }
    }
}

/// The sprite layer of a scanline: the sprites found for the line, drawn from
/// the last to the first over the finished background and window, or nothing
/// while LCDC bit 1 is clear.
pub open spec fn sprite_layer(
    vram: Seq<u8>,
    registers: PpuRegisters,
    sprites: Seq<Sprite>,
    line: u8,
    below: Seq<u8>,
) -> SpriteLayer {
    if registers.lcdc & 0x02 != 0 {
        SpriteLayer::empty().draw_all(vram, registers, sprites, sprites.len() as int, line, below)
    } else {
        SpriteLayer::empty()
    }
}

/// Whether sprite `k` of a list has a pixel to show at screen column `x`.
pub open spec fn shows_at(
    vram: Seq<u8>,
    registers: PpuRegisters,
    sprites: Seq<Sprite>,
    k: int,
    line: u8,
    below: Seq<u8>,
    x: int,
) -> bool {
    sprites[k].shows(vram, line, registers.sprite_height(), below, x)
}

/// What drawing the first `count` sprites of a list does to one column of a
/// layer. A column that was covered stays as it was. A column that was not is
/// covered if one of the sprites has a pixel to show there, and takes the
/// shade of the last such sprite in the list.
pub proof fn lemma_last_sprite_shows(
    start: SpriteLayer,
    vram: Seq<u8>,
    registers: PpuRegisters,
    sprites: Seq<Sprite>,
    count: int,
    line: u8,
    below: Seq<u8>,
    x: int,
)
    requires
        0 <= count <= sprites.len(),
        0 <= x < 160,
        start.shades.len() == 160,
        start.covered.len() == 160,
    ensures
        ({
            let layer = start.draw_all(vram, registers, sprites, count, line, below);
            &&& layer.shades.len() == 160
            &&& layer.covered.len() == 160
            &&& start.covered[x] ==> layer.covered[x] && layer.shades[x] == start.shades[x]
            &&& (forall|k: int|
                0 <= k < count ==> !#[trigger] shows_at(vram, registers, sprites, k, line, below, x))
                ==> layer.covered[x] == start.covered[x] && layer.shades[x] == start.shades[x]
            &&& forall|k: int|
                0 <= k < count && !start.covered[x] && #[trigger] shows_at(
                    vram,
                    registers,
                    sprites,
                    k,
                    line,
                    below,
                    x,
                ) && (forall|j: int|
                    k < j < count ==> !#[trigger] shows_at(
                        vram,
                        registers,
                        sprites,
                        j,
                        line,
                        below,
                        x,
                    )) ==> layer.covered[x] && layer.shades[x] == sprites[k].shade(
                    vram,
                    registers,
                    line,
                    x,
                )
        }),
    decreases count,
{
    if count > 0 {
        let first = sprites[count - 1];
        let next = start.draw(vram, registers, first, line, below);
        lemma_last_sprite_shows(next, vram, registers, sprites, count - 1, line, below, x);
        let layer = start.draw_all(vram, registers, sprites, count, line, below);
        assert(layer == next.draw_all(vram, registers, sprites, count - 1, line, below));
        assert(next.covered[x] == (start.covered[x] || shows_at(
            vram,
            registers,
            sprites,
            count - 1,
            line,
            below,
            x,
        )));
        assert forall|k: int|
            0 <= k < count && !start.covered[x] && #[trigger] shows_at(
                vram,
                registers,
                sprites,
                k,
                line,
                below,
                x,
            ) && (forall|j: int|
                k < j < count ==> !#[trigger] shows_at(
                    vram,
                    registers,
                    sprites,
                    j,
                    line,
                    below,
                    x,
                )) implies layer.covered[x] && layer.shades[x] == sprites[k].shade(
            vram,
            registers,
            line,
            x,
        ) by {
            if k < count - 1 {
                assert(!shows_at(vram, registers, sprites, count - 1, line, below, x));
            }
        }
    }
}

/// Entry `index` of the object attribute memory.
pub open spec fn sprite_at(oam: Seq<u8>, index: int) -> Sprite {
    Sprite {
        y: oam[index * 4],
        x: oam[index * 4 + 1],
        tile_index: oam[index * 4 + 2],
        attributes: oam[index * 4 + 3],
    }
}

/// Of the first `count` entries of the object attribute memory, those that
/// cover the line, in the order of the memory; no more than ten.
pub open spec fn visible_sprites(oam: Seq<u8>, line: u8, height: u8, count: int) -> Seq<Sprite>
    decreases count,
{
    if count <= 0 {
        Seq::empty()
    } else {
        let before = visible_sprites(oam, line, height, count - 1);
        if before.len() < 10 && sprite_at(oam, count - 1).on_line(line, height) {
            before.push(sprite_at(oam, count - 1))
        } else {
            before
        }
    }
}

/// A list ordered by X with one more sprite put in: behind every sprite whose
/// X is not greater than its own.
pub open spec fn insert_by_x(sprites: Seq<Sprite>, sprite: Sprite) -> Seq<Sprite>
    decreases sprites.len(),
{
    if sprites.len() == 0 || sprites.last().x <= sprite.x {
        sprites.push(sprite)
    } else {
        insert_by_x(sprites.drop_last(), sprite).push(sprites.last())
    }
}

/// A list of sprites ordered by X, sprites of equal X in the order they had.
pub open spec fn sorted_by_x(sprites: Seq<Sprite>) -> Seq<Sprite>
    decreases sprites.len(),
{
    if sprites.len() == 0 {
        Seq::empty()
    } else {
        insert_by_x(sorted_by_x(sprites.drop_last()), sprites.last())
    }
}

/// What the search through the object attribute memory finds for a scanline:
/// the first ten entries that cover the line, ordered by X.
pub open spec fn scan_sprites(oam: Seq<u8>, line: u8, height: u8) -> Seq<Sprite> {
    sorted_by_x(visible_sprites(oam, line, height, 40))
}

/// Whether a list of sprites is ordered by X.
pub open spec fn ordered_by_x(sprites: Seq<Sprite>) -> bool {
    forall|i: int, j: int| 0 <= i < j < sprites.len() ==> sprites[i].x <= sprites[j].x
}

/// Putting a sprite into an ordered list puts it at the position behind the
/// last sprite whose X is not greater, and keeps the list ordered.
pub proof fn lemma_insert_position(sprites: Seq<Sprite>, sprite: Sprite, position: int)
    requires
        0 <= position <= sprites.len(),
        forall|j: int| position <= j < sprites.len() ==> sprites[j].x > sprite.x,
        position == 0 || sprites[position - 1].x <= sprite.x,
    ensures
        insert_by_x(sprites, sprite) == sprites.insert(position, sprite),
        ordered_by_x(sprites) ==> ordered_by_x(sprites.insert(position, sprite)),
    decreases sprites.len() - position,
{
    if position == sprites.len() {
        assert(sprites.push(sprite) =~= sprites.insert(position, sprite));
    } else {
        lemma_insert_position(sprites.drop_last(), sprite, position);
        assert(sprites.drop_last().insert(position, sprite).push(sprites.last())
            =~= sprites.insert(position, sprite));
    }
    if ordered_by_x(sprites) {
        let after = sprites.insert(position, sprite);
        assert forall|i: int, j: int| 0 <= i < j < after.len() implies after[i].x
            <= after[j].x by {
            if i < position && j > position {
                assert(sprites[i].x <= sprites[position - 1].x || i == position - 1);
            }
        }
    }
}

/// Among the first `count` entries the search finds no more than ten sprites,
/// and no more than `count`.
pub proof fn lemma_scan_bounds(oam: Seq<u8>, line: u8, height: u8, count: int)
    ensures
        visible_sprites(oam, line, height, count).len() <= 10,
        visible_sprites(oam, line, height, count).len() <= count || count < 0,
    decreases count,
{
    if count > 0 {
        lemma_scan_bounds(oam, line, height, count - 1);
    }
}

impl Sprite {
    /// Reads a sprite from its four bytes in the object attribute memory.
    pub fn from_oam(oam_data: &[u8; 4]) -> (r: Self)
        ensures
            r == (Sprite {
                y: oam_data[0],
                x: oam_data[1],
                tile_index: oam_data[2],
                attributes: oam_data[3],
            }),
    {
        Self {
            y: oam_data[0],
            x: oam_data[1],
            tile_index: oam_data[2],
            attributes: oam_data[3],
        }
    }

    /// The scanline of the top row of the sprite; negative above the screen.
    pub fn screen_y(&self) -> (r: i16)
        ensures
            r == self.y - 16,
    {
        self.y as i16 - 16
    }

    /// The screen column of the left edge of the sprite; negative left of the
    /// screen.
    pub fn screen_x(&self) -> (r: i16)
        ensures
            r == self.x - 8,
    {
        self.x as i16 - 8
    }

    /// Whether the sprite is drawn in front of the background: attribute bit
    /// 7 is clear.
    pub fn has_priority(&self) -> (r: bool)
        ensures
            r == (self.attributes & 0x80 == 0),
    {
        self.attributes & 0x80 == 0
    }

    /// Attribute bit 6: the sprite is flipped vertically.
    pub fn is_y_flipped(&self) -> (r: bool)
        ensures
            r == (self.attributes & 0x40 != 0),
    {
        self.attributes & 0x40 != 0
    }

    /// Attribute bit 5: the sprite is flipped horizontally.
    pub fn is_x_flipped(&self) -> (r: bool)
        ensures
            r == (self.attributes & 0x20 != 0),
    {
        self.attributes & 0x20 != 0
    }

    /// Attribute bit 4: 0 for palette OBP0, 1 for OBP1.
    pub fn palette(&self) -> (r: u8)
        ensures
            r == (if self.attributes & 0x10 != 0 { 1u8 } else { 0u8 }),
    {
        if self.attributes & 0x10 != 0 {
            1
        } else {
            0
        }
    }

    /// Whether the sprite covers a scanline, for sprites `sprite_height` lines
    /// high.
    pub fn is_on_line(&self, line: u8, sprite_height: u8) -> (r: bool)
        ensures
            r == self.on_line(line, sprite_height),
    {
        let sprite_y = self.screen_y();
        let line_i16 = line as i16;
        line_i16 >= sprite_y && line_i16 < sprite_y + (sprite_height as i16)
    }
}

/// Puts a sprite into a list ordered by X, behind every sprite whose X is not
/// greater than its own.
fn insert_sorted(sprites: &mut Vec<Sprite>, sprite: Sprite)
    ensures
        final(sprites)@ == insert_by_x(old(sprites)@, sprite),
        final(sprites).len() == old(sprites).len() + 1,
        ordered_by_x(old(sprites)@) ==> ordered_by_x(final(sprites)@),
{
    let mut position: usize = sprites.len();
    while position > 0 && sprites[position - 1].x > sprite.x
        invariant
            position <= sprites.len(),
            *sprites == *old(sprites),
            forall|j: int| position <= j < sprites.len() ==> sprites[j].x > sprite.x,
        decreases position,
    {
        position -= 1;
    }
    proof {
        lemma_insert_position(sprites@, sprite, position as int);
    }
    sprites.insert(position, sprite);
}

/// Finds and draws the sprites of a scanline.
pub struct SpriteRenderer {
    /// The sprites found for the current line, ordered by X.
    pub line_sprites: Vec<Sprite>,
}

impl SpriteRenderer {
    pub fn new() -> (r: Self)
        ensures
            r.line_sprites@ == Seq::<Sprite>::empty(),
    {
        Self { line_sprites: Vec::new() }
    }

    /// Searches the object attribute memory for the sprites of a scanline:
    /// the first ten that cover it, ordered by X.
    pub fn scan_sprites_for_line(&mut self, oam: &[u8; 0xA0], line: u8, sprite_height: u8)
        ensures
            final(self).line_sprites@ == scan_sprites(oam@, line, sprite_height),
            final(self).line_sprites.len() <= 10,
            ordered_by_x(final(self).line_sprites@),
    {
        self.line_sprites.clear();
        let mut index: usize = 0;
        while index < 40
            invariant
                index <= 40,
                self.line_sprites@ == sorted_by_x(
                    visible_sprites(oam@, line, sprite_height, index as int),
                ),
                self.line_sprites.len() == visible_sprites(
                    oam@,
                    line,
                    sprite_height,
                    index as int,
                ).len(),
                self.line_sprites.len() <= 10,
                ordered_by_x(self.line_sprites@),
            decreases 40 - index,
        {
            let sprite_data: [u8; 4] = [
                oam[index * 4],
                oam[index * 4 + 1],
                oam[index * 4 + 2],
                oam[index * 4 + 3],
            ];
            let sprite = Sprite::from_oam(&sprite_data);
            if self.line_sprites.len() < 10 && sprite.is_on_line(line, sprite_height) {
                let ghost before = visible_sprites(oam@, line, sprite_height, index as int);
                assert(sprite == sprite_at(oam@, index as int));
                assert(before.push(sprite).drop_last() =~= before);
                insert_sorted(&mut self.line_sprites, sprite);
            }
            index += 1;
        }
    }

    /// Draws the sprites found for a scanline into the two sprite buffers,
    /// over the finished background and window in `bg_buffer`.
    pub fn render_sprites_line(
        &self,
        vram: &[u8; 0x2000],
        registers: &PpuRegisters,
        line: u8,
        bg_buffer: &[u8; 160],
        sprite_buffer: &mut [u8; 160],
        priority_buffer: &mut [bool; 160],
    )
        ensures
            (SpriteLayer { shades: final(sprite_buffer)@, covered: final(priority_buffer)@ })
                == sprite_layer(vram@, *registers, self.line_sprites@, line, bg_buffer@),
            forall|x: int| 0 <= x < 160 ==> final(sprite_buffer)[x] <= 3,
    {
        let mut x: usize = 0;
        while x < 160
            invariant
                x <= 160,
                forall|j: int| 0 <= j < x ==> sprite_buffer[j] == 0 && !priority_buffer[j],
            decreases 160 - x,
        {
            sprite_buffer[x] = 0;
            priority_buffer[x] = false;
            x += 1;
        }
        assert((SpriteLayer { shades: sprite_buffer@, covered: priority_buffer@ })
            =~~= SpriteLayer::empty());
        if !registers.is_sprites_enabled() {
            return ;
        }
        let mut count: usize = self.line_sprites.len();
        while count > 0
            invariant
                count <= self.line_sprites.len(),
                registers.lcdc & 0x02 != 0,
                forall|j: int| 0 <= j < 160 ==> sprite_buffer[j] <= 3,
                (SpriteLayer { shades: sprite_buffer@, covered: priority_buffer@ }).draw_all(
                    vram@,
                    *registers,
                    self.line_sprites@,
                    count as int,
                    line,
                    bg_buffer@,
                ) == sprite_layer(vram@, *registers, self.line_sprites@, line, bg_buffer@),
            decreases count,
        {
            self.render_sprite(
                &self.line_sprites[count - 1],
                vram,
                registers,
                line,
                bg_buffer,
                sprite_buffer,
                priority_buffer,
            );
            count -= 1;
        }
    }

    /// Draws one sprite into the two sprite buffers.
    fn render_sprite(
        &self,
        sprite: &Sprite,
        vram: &[u8; 0x2000],
        registers: &PpuRegisters,
        line: u8,
        bg_buffer: &[u8; 160],
        sprite_buffer: &mut [u8; 160],
        priority_buffer: &mut [bool; 160],
    )
        requires
            forall|x: int| 0 <= x < 160 ==> old(sprite_buffer)[x] <= 3,
        ensures
            (SpriteLayer { shades: final(sprite_buffer)@, covered: final(priority_buffer)@ }) == (
            SpriteLayer { shades: old(sprite_buffer)@, covered: old(priority_buffer)@ }).draw(
                vram@,
                *registers,
                *sprite,
                line,
                bg_buffer@,
            ),
            forall|x: int| 0 <= x < 160 ==> final(sprite_buffer)[x] <= 3,
    {
        let height: u8 = if registers.sprite_size() { 16 } else { 8 };
        let ghost start = SpriteLayer { shades: sprite_buffer@, covered: priority_buffer@ };
        if !sprite.is_on_line(line, height) {
            assert((SpriteLayer { shades: sprite_buffer@, covered: priority_buffer@ })
                =~~= start.draw(vram@, *registers, *sprite, line, bg_buffer@));
            return ;
        }
        let offset: i16 = line as i16 - sprite.screen_y();
        let row: u8 = if sprite.is_y_flipped() {
            ((height as i16 - 1) - offset) as u8
        } else {
            offset as u8
        };
        let tile_index: u8 = if height == 16 {
            if row < 8 {
                sprite.tile_index & 0xFE
            } else {
                sprite.tile_index | 0x01
            }
        } else {
            sprite.tile_index
        };
        let left = sprite.screen_x();
        let mut column: u8 = 0;
        while column < 8
            invariant
                column <= 8,
                height == registers.sprite_height(),
                sprite.on_line(line, height),
                row == sprite.row_on(line, height),
                tile_index == sprite.tile_of_row(row as int, height),
                left == sprite.x - 8,
                start.shades.len() == 160,
                start.covered.len() == 160,
                forall|x: int| 0 <= x < 160 ==> start.shades[x] <= 3,
                (SpriteLayer { shades: sprite_buffer@, covered: priority_buffer@ })
                    == start.draw_columns(
                    vram@,
                    *registers,
                    *sprite,
                    line,
                    bg_buffer@,
                    column as int,
                ),
                forall|x: int| 0 <= x < 160 ==> sprite_buffer[x] <= 3,
            decreases 8 - column,
        {
            let screen_x: i16 = left + column as i16;
            if 0 <= screen_x && screen_x < 160 {
                let at = screen_x as usize;
                let tile_column: u8 = if sprite.is_x_flipped() { 7 - column } else { column };
                let color_id = pixel_of_tile(vram, tile_index, tile_column, row % 8, true);
                if color_id != 0 && !priority_buffer[at] && (sprite.has_priority()
                    || bg_buffer[at] == 0) {
                    sprite_buffer[at] = shade_of(
                        if sprite.palette() == 0 { registers.obp0 } else { registers.obp1 },
                        color_id,
                    );
                    priority_buffer[at] = true;
                }
            }
            assert((SpriteLayer { shades: sprite_buffer@, covered: priority_buffer@ })
                =~~= start.draw_columns(
                vram@,
                *registers,
                *sprite,
                line,
                bg_buffer@,
                column + 1,
            ));
            column += 1;
        }
    }

    /// The number of sprites found for the current line.
    pub fn sprite_count(&self) -> (r: usize)
        ensures
            r == self.line_sprites.len(),
    {
        self.line_sprites.len()
    }
}

} // verus!
