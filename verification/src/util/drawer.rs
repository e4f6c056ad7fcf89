//! Drawing a rectangle of pixels into a picture.
//!
//! A picture is a buffer of colours, row after row. An entity is a smaller
//! picture with a place in the larger one. Its rows that lie below the
//! picture's last row are left out. Its pixels are not cut off on the
//! right: a row of the entity that reaches past the end of a row of the
//! picture goes on at the start of the next.
use crate::video::color::Color;
use vstd::prelude::*;

verus! {

/// A rectangle of pixels, `data` holding its rows one after the other, and
/// the place of its top left corner in a picture.
pub struct Entity {
    pub width: usize,
    pub height: usize,
    pub x: usize,
    pub y: usize,
    pub data: Vec<Color>,
}

/// What an `Entity` holds, as plain values.
pub struct EntityShape {
    pub width: usize,
    pub height: usize,
    pub x: usize,
    pub y: usize,
    pub data: Seq<Color>,
}

impl View for Entity {
    type V = EntityShape;

    open spec fn view(&self) -> EntityShape {
        EntityShape {
            width: self.width,
            height: self.height,
            x: self.x,
            y: self.y,
            data: self.data@,
        }
    }
}

impl EntityShape {
    /// Whether row `row` of the entity lies within a picture of `rows`
    /// rows.
    pub open spec fn row_shown(&self, row: int, rows: int) -> bool {
        0 <= row < self.height && row + self.y < rows
    }

    /// The place in the buffer of the first pixel of row `row`, in a
    /// picture of `columns` columns.
    pub open spec fn row_start(&self, row: int, columns: int) -> int {
        (row + self.y) * columns + self.x
    }

    /// Whether the entity can be drawn into a buffer of `length` colours
    /// that holds a picture of the dimensions given: every pixel of a row
    /// that is shown is there in `data` and has its place in the buffer,
    /// and no place is beyond what the machine can count.
    pub open spec fn fits(&self, dimensions: (usize, usize), length: int) -> bool {
        &&& self.y + self.height <= usize::MAX
        &&& dimensions.0 * dimensions.1 <= usize::MAX
        &&& forall|row: int| #[trigger]
            self.row_shown(row, dimensions.1 as int) ==> (row + 1) * self.width
                <= self.data.len() && self.row_start(row, dimensions.0 as int) + self.width
                <= length
    }

    /// The colour at place `index` of the buffer once the first `rows` rows
    /// of the entity are drawn, `before` being the colour that was there.
    /// With `transparency`, white pixels are not drawn.
    pub open spec fn painted(
        &self,
        before: Color,
        dimensions: (usize, usize),
        transparency: bool,
        index: int,
        rows: int,
    ) -> Color
        decreases rows,
    {
        if rows <= 0 {
            before
        } else {
            let row = rows - 1;
            let column = index - self.row_start(row, dimensions.0 as int);
            let below = self.painted(before, dimensions, transparency, index, row);
            if self.row_shown(row, dimensions.1 as int) && 0 <= column < self.width && (
            !transparency || self.data[row * self.width + column] != Color::White) {
                self.data[row * self.width + column]
            } else {
                below
            }
        }
    }

    /// The buffer once the entity is drawn into it.
    pub open spec fn drawn(
        &self,
        buffer: Seq<Color>,
        dimensions: (usize, usize),
        transparency: bool,
    ) -> Seq<Color> {
        Seq::new(
            buffer.len(),
            |index: int|
                self.painted(buffer[index], dimensions, transparency, index, self.height as int),
        )
    }
}

/// Draws every pixel of `entity` into `buf`.
pub fn draw_entity(entity: Entity, dimensions: (usize, usize), buf: &mut Vec<Color>)
    requires
        entity@.fits(dimensions, old(buf)@.len() as int),
    ensures
        final(buf)@ == entity@.drawn(old(buf)@, dimensions, false),
{
    draw_entity_with_transparency(entity, dimensions, buf, false);
}

/// Draws `entity` into `buf`; with `transparency`, its white pixels are
/// left out, so that what was in the buffer shows through.
pub fn draw_entity_with_transparency(
    entity: Entity,
    dimensions: (usize, usize),
    buf: &mut Vec<Color>,
    transparency: bool,
)
    requires
        entity@.fits(dimensions, old(buf)@.len() as int),
    ensures
        final(buf)@ == entity@.drawn(old(buf)@, dimensions, transparency),
{
    let ghost columns = dimensions.0 as int;
    let ghost rows = dimensions.1 as int;
    assert(entity.data@.len() == entity.data.len() && buf@.len() == buf.len());
    let mut entity_y: usize = 0;
    while entity_y < entity.height
        invariant
            entity_y <= entity.height,
            entity@.fits(dimensions, old(buf)@.len() as int),
            columns == dimensions.0,
            rows == dimensions.1,
            buf@.len() == old(buf)@.len(),
            buf@.len() <= usize::MAX,
            entity.data@.len() <= usize::MAX,
            forall|index: int|
                0 <= index < buf@.len() ==> buf@[index] == entity@.painted(
                    old(buf)@[index],
                    dimensions,
                    transparency,
                    index,
                    entity_y as int,
                ),
        decreases entity.height - entity_y,
    {
        let y: usize = entity_y + entity.y;
        if y < dimensions.1 {
            assert(entity@.row_shown(entity_y as int, rows));
            assert(y * dimensions.0 <= dimensions.0 * dimensions.1) by (nonlinear_arith)
                requires
                    y < dimensions.1,
            ;
            let base_idx: usize = y * dimensions.0;
            assert(entity_y * entity.width <= (entity_y + 1) * entity.width) by (nonlinear_arith);
            let entity_base_idx: usize = entity_y * entity.width;
            assert((entity_y + 1) * entity.width == entity_base_idx + entity.width)
                by (nonlinear_arith)
                requires
                    entity_base_idx == entity_y * entity.width,
            ;
            let mut x: usize = 0;
            while x < entity.width
                invariant
                    x <= entity.width,
                    entity_y < entity.height,
                    entity@.row_shown(entity_y as int, rows),
                    entity@.fits(dimensions, old(buf)@.len() as int),
                    columns == dimensions.0,
                    rows == dimensions.1,
                    base_idx == (entity_y + entity.y) * columns,
                    entity_base_idx == entity_y * entity.width,
                    entity_base_idx + entity.width <= entity.data@.len(),
                    base_idx + entity.x + entity.width <= buf@.len(),
                    buf@.len() == old(buf)@.len(),
                    buf@.len() <= usize::MAX,
                    entity.data@.len() <= usize::MAX,
                    forall|index: int|
                        0 <= index < buf@.len() ==> buf@[index] == if base_idx + entity.x <= index
                            < base_idx + entity.x + x && (!transparency
                            || entity.data@[entity_base_idx + index - base_idx - entity.x]
                            != Color::White) {
                            entity.data@[entity_base_idx + index - base_idx - entity.x]
                        } else {
                            entity@.painted(
                                old(buf)@[index],
                                dimensions,
                                transparency,
                                index,
                                entity_y as int,
                            )
                        },
                decreases entity.width - x,
            {
                let buf_idx: usize = base_idx + entity.x + x;
                let entity_idx: usize = entity_base_idx + x;
                let color: Color = entity.data[entity_idx];
                if !transparency || color != Color::White {
                    buf.set(buf_idx, entity.data[entity_idx]);
                }
                x = x + 1;
            }
        } else {
            assert(!entity@.row_shown(entity_y as int, rows));
        }
        entity_y = entity_y + 1;
    }
}

} // verus!
