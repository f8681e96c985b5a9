use vstd::prelude::*;
use crate::color::Color;

verus! {

/// A decoded image: RGBA bytes, row by row, four bytes per texel.
#[derive(Debug, Clone)]
pub struct Texture {
    pub data: Vec<u8>,
    pub width: usize,
    pub height: usize,
}

/// A raw texel coordinate held inside `[0, extent - 1]`.
pub open spec fn clamp_coord(raw: int, extent: int) -> int {
    if raw < extent - 1 { raw } else { extent - 1 }
}

/// Byte offset of the texel that raw coordinates `(raw_x, raw_y)` land on.
pub open spec fn texel_offset(width: int, height: int, raw_x: int, raw_y: int) -> int {
    (clamp_coord(raw_y, height) * width + clamp_coord(raw_x, width)) * 4
}

proof fn lemma_offset_in_bounds(width: int, height: int, raw_x: int, raw_y: int)
    requires
        width >= 1,
        height >= 1,
        raw_x >= 0,
        raw_y >= 0,
    ensures
        0 <= texel_offset(width, height, raw_x, raw_y),
        texel_offset(width, height, raw_x, raw_y) + 4 <= width * height * 4,
{
    let x = clamp_coord(raw_x, width);
    let y = clamp_coord(raw_y, height);
    assert(0 <= y * width + x < width * height) by (nonlinear_arith)
        requires
            0 <= x < width,
            0 <= y < height,
    ;
}

impl Texture {
    /// Well-formed: at least one texel, and four bytes for each.
    pub open spec fn wf(&self) -> bool {
        &&& self.width >= 1
        &&& self.height >= 1
        &&& self.data@.len() == self.width * self.height * 4
    }

    /// Builds a texture when `data` holds exactly four bytes for each of
    /// `width * height >= 1` texels.
    pub fn new(data: Vec<u8>, width: usize, height: usize) -> (t: Option<Texture>)
        ensures
            t is Some <==> (width >= 1 && height >= 1 && data@.len() == width * height * 4),
            t matches Some(t) ==> t.wf() && t.data@ == data@ && t.width == width
                && t.height == height,
    {
        let t = Texture { data, width, height };
        if t.is_valid() {
            Some(t)
        } else {
            None
        }
    }

    /// Whether the texture is well-formed.
    pub fn is_valid(&self) -> (b: bool)
        ensures
            b == self.wf(),
    {
        let len = self.data.len();
        if self.width == 0 || self.height == 0 {
            return false;
        }
        match self.width.checked_mul(self.height) {
            Some(n) => match n.checked_mul(4) {
                Some(m) => len == m,
                None => false,
            },
            None => {
                proof {
                    assert(self.width * self.height * 4 > usize::MAX) by (nonlinear_arith)
                        requires self.width * self.height > usize::MAX;
                }
                false
            },
        }
    }

    /// Clamps a raw texel coordinate to `[0, extent - 1]`.
    pub fn clamp_coord(raw: usize, extent: usize) -> (c: usize)
        requires
            extent >= 1,
        ensures
            c == clamp_coord(raw as int, extent as int),
    {
        if raw < extent - 1 {
            raw
        } else {
            extent - 1
        }
    }

    /// The color of the texel at raw coordinates `(raw_x, raw_y)`, each first
    /// clamped into the image; the alpha byte is not read.
    pub fn sample(&self, raw_x: usize, raw_y: usize) -> (c: Color)
        requires
            self.wf(),
        ensures
            c.r == self.data@[texel_offset(self.width as int, self.height as int, raw_x as int, raw_y as int)],
            c.g == self.data@[texel_offset(self.width as int, self.height as int, raw_x as int, raw_y as int) + 1],
            c.b == self.data@[texel_offset(self.width as int, self.height as int, raw_x as int, raw_y as int) + 2],
    {
        proof {
            lemma_offset_in_bounds(self.width as int, self.height as int, raw_x as int, raw_y as int);
        }
        let x = Texture::clamp_coord(raw_x, self.width);
        let y = Texture::clamp_coord(raw_y, self.height);
        proof {
            assert((y * self.width + x) * 4 + 4 <= self.width * self.height * 4) by (nonlinear_arith)
                requires
                    x < self.width,
                    y < self.height,
            ;
        }
        let len = self.data.len();
        let index = (y * self.width + x) * 4;
        Color::new(self.data[index], self.data[index + 1], self.data[index + 2])
    }
}

/// For every image of at least one texel, raw coordinates `(0, 0)` reach the
/// first texel, coordinates equal to the width and height reach the last one,
/// and no raw coordinates reach past the end of the data.
pub proof fn lemma_sample_corners(width: int, height: int)
    requires
        width >= 1,
        height >= 1,
    ensures
        texel_offset(width, height, 0, 0) == 0,
        texel_offset(width, height, width, height) == (width * height - 1) * 4,
        forall|raw_x: int, raw_y: int| raw_x >= 0 && raw_y >= 0 ==> {
            &&& 0 <= #[trigger] texel_offset(width, height, raw_x, raw_y)
            &&& texel_offset(width, height, raw_x, raw_y) + 4 <= width * height * 4
        },
{
    assert((height - 1) * width + (width - 1) == width * height - 1) by (nonlinear_arith);
    assert(clamp_coord(0, height) == 0);
    assert(clamp_coord(0, width) == 0);
    assert((0 * width + 0) * 4 == 0) by (nonlinear_arith);
    assert forall|raw_x: int, raw_y: int| raw_x >= 0 && raw_y >= 0 implies {
        &&& 0 <= #[trigger] texel_offset(width, height, raw_x, raw_y)
        &&& texel_offset(width, height, raw_x, raw_y) + 4 <= width * height * 4
    } by {
        lemma_offset_in_bounds(width, height, raw_x, raw_y);
    }
}

} // verus!
