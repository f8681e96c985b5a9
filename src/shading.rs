use vstd::prelude::*;
use crate::color::{Color, color_sum};

verus! {

/// The color of a pixel whose ray meets no solid.
pub open spec fn background_spec() -> Color {
    Color { r: 9, g: 20, b: 55 }
}

/// The flat dark blue-gray shown where a ray meets no solid.
pub fn background() -> (c: Color)
    ensures
        c == background_spec(),
{
    Color::new(9, 20, 55)
}

/// Whether index `i` holds the nearest hit of `keys`: it is a hit, no hit
/// has a smaller key, and every earlier hit has a strictly larger key.
pub open spec fn is_nearest(keys: Seq<Option<u32>>, i: int) -> bool {
    &&& 0 <= i < keys.len()
    &&& keys[i] is Some
    &&& forall|j: int| 0 <= j < keys.len() && #[trigger] keys[j] is Some
        ==> keys[i]->0 <= keys[j]->0
    &&& forall|j: int| 0 <= j < i && #[trigger] keys[j] is Some
        ==> keys[i]->0 < keys[j]->0
}

/// Whether `keys` holds no hit at all.
pub open spec fn no_hit(keys: Seq<Option<u32>>) -> bool {
    forall|j: int| 0 <= j < keys.len() ==> #[trigger] keys[j] is None
}

/// Picks the nearest of the candidate hits of one ray.
///
/// `keys[j]` is `None` when candidate `j` was missed, and otherwise its depth
/// key: a smaller key is nearer. A candidate replaces the best so far only when
/// its key is strictly smaller, so among equal keys the first one wins.
pub fn nearest_hit(keys: &Vec<Option<u32>>) -> (best: Option<usize>)
    ensures
        best is None <==> no_hit(keys@),
        best matches Some(i) ==> is_nearest(keys@, i as int),
{
    let mut best: Option<usize> = None;
    let mut j: usize = 0;
    while j < keys.len()
        invariant
            j <= keys@.len(),
            best is None <==> no_hit(keys@.subrange(0, j as int)),
            best matches Some(i) ==> is_nearest(keys@.subrange(0, j as int), i as int),
        decreases keys@.len() - j,
    {
        let ghost prefix = keys@.subrange(0, j as int);
        let ghost next = keys@.subrange(0, j as int + 1);
        assert(forall|k: int| 0 <= k < j ==> next[k] == prefix[k]);
        match keys[j] {
            Some(key) => {
                let replace = match best {
                    None => true,
                    Some(i) => match keys[i] {
                        Some(current) => key < current,
                        None => true,
                    },
                };
                if replace {
                    best = Some(j);
                }
            },
            None => {},
        }
        j = j + 1;
    }
    assert(keys@.subrange(0, keys@.len() as int) == keys@);
    best
}

/// Two indices that both hold the nearest hit are the same index: the
/// choice among equal keys is fixed by the order of the candidates.
pub proof fn lemma_nearest_unique(keys: Seq<Option<u32>>, i: int, k: int)
    requires
        is_nearest(keys, i),
        is_nearest(keys, k),
    ensures
        i == k,
{
    if i < k {
        assert(keys[k]->0 < keys[i]->0);
    } else if k < i {
        assert(keys[i]->0 < keys[k]->0);
    }
}

/// Of two solids hit along one ray, the one with the strictly smaller key is
/// the nearest; on equal keys the first is.
pub proof fn lemma_two_hits(first: u32, second: u32)
    ensures
        second < first ==> is_nearest(seq![Some(first), Some(second)], 1),
        first <= second ==> is_nearest(seq![Some(first), Some(second)], 0),
{
    let keys = seq![Some(first), Some(second)];
    assert(keys[0] == Some(first) && keys[1] == Some(second));
}

/// The scaled lighting layers of the nearest hit, each already weighted by
/// its reflectance and the light's intensity.
#[derive(Debug, Clone, Copy, PartialEq, Eq, Structural)]
pub struct Shading {
    /// The material's diffuse color under the light.
    pub diffuse: Color,
    /// The sampled texel under the same diffuse weighting, when the material
    /// has a texture.
    pub texture: Option<Color>,
    /// The light's color in the specular highlight.
    pub specular: Color,
    /// The material's own light.
    pub emission: Color,
}

/// The final color of a lit hit: diffuse, plus texture, plus specular, plus
/// emission, each sum saturating.
pub open spec fn shade_spec(s: Shading) -> Color {
    let lit = match s.texture {
        Some(t) => color_sum(s.diffuse, t),
        None => s.diffuse,
    };
    color_sum(color_sum(lit, s.specular), s.emission)
}

/// The color of one pixel: the background when the ray met nothing, else
/// the layered sum of the nearest hit's shading.
pub open spec fn pixel_spec(hit: Option<Shading>) -> Color {
    match hit {
        None => background_spec(),
        Some(s) => shade_spec(s),
    }
}

/// Sums the lighting layers of a hit. A texture adds to the diffuse color
/// rather than replacing it.
pub fn shade(s: &Shading) -> (c: Color)
    ensures
        c == shade_spec(*s),
{
    let mut lit = s.diffuse;
    match s.texture {
        Some(t) => lit.add_assign(t),
        None => {},
    }
    lit + s.specular + s.emission
}

/// The color of one pixel from the shading of its nearest hit, if any.
pub fn pixel_color(hit: Option<Shading>) -> (c: Color)
    ensures
        c == pixel_spec(hit),
{
    match hit {
        None => background(),
        Some(s) => shade(&s),
    }
}

/// A ray that meets no solid gets exactly the background color.
pub proof fn lemma_miss_is_background(keys: Seq<Option<u32>>)
    requires
        no_hit(keys),
    ensures
        forall|i: int| !is_nearest(keys, i),
        pixel_spec(None) == background_spec(),
{
}

/// Without texture, specular light or emission, the pixel is the diffuse
/// color alone.
pub proof fn lemma_diffuse_only(d: Color)
    ensures
        pixel_spec(Some(Shading {
            diffuse: d,
            texture: None,
            specular: Color { r: 0, g: 0, b: 0 },
            emission: Color { r: 0, g: 0, b: 0 },
        })) == d,
{
}

} // verus!
