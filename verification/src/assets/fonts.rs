//! Font atlases: the glyph table read from the atlas bytes, and the glyph
//! drawn for each grapheme of a text.
use vstd::prelude::*;
use unicode_segmentation::UnicodeSegmentation;
use crate::error::{Error, ErrorType};
use crate::text::str_chars;
use crate::shapes::AABB;

verus! {

/// The little-endian word at byte `offset` of `b`.
pub open spec fn word_at(b: Seq<u8>, offset: int) -> u32 {
    (b[offset] as int + b[offset + 1] as int * 256 + b[offset + 2] as int * 65536 + b[offset + 3] as int
        * 16777216) as u32
}

/// Bytes taken by the atlas header.
pub const ATLAS_HEADER_BYTES: usize = 32;
/// Bytes taken by each glyph record.
pub const ATLAS_GLYPH_BYTES: usize = 40;

/// The offset of glyph record `i`.
pub open spec fn glyph_offset(i: int) -> int {
    ATLAS_HEADER_BYTES + ATLAS_GLYPH_BYTES * i
}

/// The number of glyph records, read from the header.
pub open spec fn atlas_glyph_count(b: Seq<u8>) -> u32 {
    word_at(b, 24)
}

/// The size of the glyph table, read from the header.
pub open spec fn atlas_glyph_max(b: Seq<u8>) -> u32 {
    word_at(b, 28)
}

/// The code point of glyph record `i`.
pub open spec fn record_unicode(b: Seq<u8>, i: int) -> u32 {
    word_at(b, glyph_offset(i))
}

/// Whether `b` holds a whole atlas: the header, every glyph record it
/// announces, and each record for a code point inside the glyph table.
pub open spec fn atlas_complete(b: Seq<u8>) -> bool {
    &&& b.len() >= ATLAS_HEADER_BYTES
    &&& b.len() >= glyph_offset(atlas_glyph_count(b) as int)
    &&& forall|i: int| 0 <= i < atlas_glyph_count(b) ==> #[trigger] record_unicode(b, i) < atlas_glyph_max(b)
}

/// The words of one glyph record: its code point, then its advance and its
/// two bounds, each a 32-bit float in its bits.
#[derive(Debug, Clone, Copy)]
pub struct GlyphWords {
    pub unicode: u32,
    pub advance: u32,
    pub atlas_bound: [u32; 4],
    pub plane_bound: [u32; 4],
}

/// Whether `g` holds the words of the record at byte `offset` of `b`.
pub open spec fn glyph_read(g: GlyphWords, b: Seq<u8>, offset: int) -> bool {
    &&& g.unicode == word_at(b, offset)
    &&& g.advance == word_at(b, offset + 4)
    &&& g.atlas_bound@ == seq![word_at(b, offset + 8), word_at(b, offset + 12), word_at(b, offset + 16), word_at(b, offset + 20)]
    &&& g.plane_bound@ == seq![word_at(b, offset + 24), word_at(b, offset + 28), word_at(b, offset + 32), word_at(b, offset + 36)]
}

/// Whether every word of `g` is zero: the glyph of a code point the atlas lacks.
pub open spec fn glyph_blank(g: GlyphWords) -> bool {
    &&& g.unicode == 0
    &&& g.advance == 0
    &&& g.atlas_bound@ == seq![0u32, 0u32, 0u32, 0u32]
    &&& g.plane_bound@ == seq![0u32, 0u32, 0u32, 0u32]
}

/// The last of the first `n` records for code point `u`, or -1.
pub open spec fn last_record_for(b: Seq<u8>, n: int, u: int) -> int
    decreases n,
{
    if n <= 0 {
        -1
    } else if record_unicode(b, n - 1) == u {
        n - 1
    } else {
        last_record_for(b, n - 1, u)
    }
}

/// The header and glyph table of a font atlas, in words.
#[derive(Debug, Clone)]
pub struct AtlasWords {
    /// Size, width, height, line height, ascender and descender, each a
    /// 32-bit float in its bits.
    pub metrics: [u32; 6],
    pub glyph_count: u32,
    pub glyph_max: u32,
    /// The glyph of each code point below `glyph_max`.
    pub glyphs: Vec<GlyphWords>,
    pub texture_id: u32,
}

/// The message of the error for atlas bytes that are not word aligned.
pub open spec fn unaligned_atlas_message() -> Seq<char> {
    "Failed to parse font atlas data. Data must be aligned to 4 bytes"@
}

fn read_word(b: &[u8], offset: usize) -> (w: u32)
    requires
        offset + 4 <= b@.len(),
    ensures
        w == word_at(b@, offset as int),
{
    (b[offset] as u32) + (b[offset + 1] as u32) * 256 + (b[offset + 2] as u32) * 65536 + (b[offset + 3] as u32)
        * 16777216
}

fn read_glyph(b: &[u8], offset: usize) -> (g: GlyphWords)
    requires
        offset + ATLAS_GLYPH_BYTES <= b.len(),
    ensures
        glyph_read(g, b@, offset as int),
{
    let g = GlyphWords {
        unicode: read_word(b, offset),
        advance: read_word(b, offset + 4),
        atlas_bound: [read_word(b, offset + 8), read_word(b, offset + 12), read_word(b, offset + 16), read_word(b, offset + 20)],
        plane_bound: [read_word(b, offset + 24), read_word(b, offset + 28), read_word(b, offset + 32), read_word(b, offset + 36)],
    };
    assert(g.atlas_bound@ =~= seq![word_at(b@, offset + 8), word_at(b@, offset + 12), word_at(b@, offset + 16), word_at(b@, offset + 20)]);
    assert(g.plane_bound@ =~= seq![word_at(b@, offset + 24), word_at(b@, offset + 28), word_at(b@, offset + 32), word_at(b@, offset + 36)]);
    g
}

/// Whether `b` holds a whole atlas (see `atlas_complete`).
pub fn atlas_is_complete(b: &[u8]) -> (ok: bool)
    ensures
        ok == atlas_complete(b@),
{
    if b.len() < ATLAS_HEADER_BYTES {
        return false;
    }
    let count = read_word(b, 24);
    let max = read_word(b, 28);
    if (count as u128) * 40 + 32 > b.len() as u128 {
        return false;
    }
    let mut i: usize = 0;
    while i < count as usize
        invariant
            b@.len() >= ATLAS_HEADER_BYTES,
            b@.len() == b.len(),
            count == atlas_glyph_count(b@),
            max == atlas_glyph_max(b@),
            b@.len() >= glyph_offset(count as int),
            i <= count,
            forall|j: int| 0 <= j < i ==> #[trigger] record_unicode(b@, j) < max,
        decreases count - i,
    {
        let u = read_word(b, ATLAS_HEADER_BYTES + ATLAS_GLYPH_BYTES * i);
        assert(record_unicode(b@, i as int) == u);
        if u >= max {
            return false;
        }
        i = i + 1;
    }
    true
}

/// Reads a font atlas: a header of six float metrics, the number of glyph
/// records and the size of the glyph table, then the glyph records. Each
/// record is filed under its code point; a later record for the same code
/// point replaces an earlier one, and code points without a record get a
/// blank glyph. `aligned` tells whether the bytes start on a word boundary:
/// bytes that do not, or whose length is no whole number of words, are
/// refused.
pub fn read_font_atlas(texture_id: u32, b: &[u8], aligned: bool) -> (r: Result<AtlasWords, Error>)
    requires
        aligned && b@.len() % 4 == 0 ==> atlas_complete(b@),
    ensures
        r is Ok <==> aligned && b@.len() % 4 == 0,
        r matches Err(e) ==> e.inner.ty == ErrorType::Assets && e.inner.message@ == unaligned_atlas_message()
            && e.inner.chained is None,
        r matches Ok(a) ==> {
            &&& a.texture_id == texture_id
            &&& a.metrics@ == seq![word_at(b@, 0), word_at(b@, 4), word_at(b@, 8), word_at(b@, 12), word_at(b@, 16), word_at(b@, 20)]
            &&& a.glyph_count == atlas_glyph_count(b@)
            &&& a.glyph_max == atlas_glyph_max(b@)
            &&& a.glyphs@.len() == a.glyph_max
            &&& forall|u: int| 0 <= u < a.glyph_max ==> {
                let k = last_record_for(b@, a.glyph_count as int, u);
                if k >= 0 {
                    glyph_read(#[trigger] a.glyphs@[u], b@, glyph_offset(k))
                } else {
                    glyph_blank(a.glyphs@[u])
                }
            }
        },
{
    if !aligned || b.len() % 4 != 0 {
        return Err(
            Error::new(
                ErrorType::Assets,
                "src/assets/fonts.rs",
                201,
                "Failed to parse font atlas data. Data must be aligned to 4 bytes".to_string(),
            ),
        );
    }
    let metrics = [read_word(b, 0), read_word(b, 4), read_word(b, 8), read_word(b, 12), read_word(b, 16), read_word(b, 20)];
    assert(metrics@ =~= seq![word_at(b@, 0), word_at(b@, 4), word_at(b@, 8), word_at(b@, 12), word_at(b@, 16), word_at(b@, 20)]);
    let glyph_count = read_word(b, 24);
    let glyph_max = read_word(b, 28);
    let blank = GlyphWords { unicode: 0, advance: 0, atlas_bound: [0, 0, 0, 0], plane_bound: [0, 0, 0, 0] };
    assert(blank.atlas_bound@ =~= seq![0u32, 0u32, 0u32, 0u32]);
    assert(blank.plane_bound@ =~= seq![0u32, 0u32, 0u32, 0u32]);
    let mut glyphs: Vec<GlyphWords> = Vec::new();
    let mut u: usize = 0;
    while u < glyph_max as usize
        invariant
            u <= glyph_max,
            glyphs@.len() == u,
            glyph_blank(blank),
            forall|v: int| 0 <= v < u ==> glyph_blank(#[trigger] glyphs@[v]),
        decreases glyph_max - u,
    {
        glyphs.push(blank);
        u = u + 1;
    }
    let mut i: usize = 0;
    while i < glyph_count as usize
        invariant
            atlas_complete(b@),
            b@.len() == b.len(),
            glyph_count == atlas_glyph_count(b@),
            glyph_max == atlas_glyph_max(b@),
            i <= glyph_count,
            glyphs@.len() == glyph_max,
            forall|v: int| 0 <= v < glyph_max ==> {
                let k = last_record_for(b@, i as int, v);
                if k >= 0 {
                    glyph_read(#[trigger] glyphs@[v], b@, glyph_offset(k))
                } else {
                    glyph_blank(glyphs@[v])
                }
            },
        decreases glyph_count - i,
    {
        let g = read_glyph(b, ATLAS_HEADER_BYTES + ATLAS_GLYPH_BYTES * i);
        assert(record_unicode(b@, i as int) < glyph_max);
        glyphs.set(g.unicode as usize, g);
        i = i + 1;
    }
    Ok(AtlasWords { metrics, glyph_count, glyph_max, glyphs, texture_id })
}

/// Where a glyph is drawn, and the region of the atlas it is drawn from.
#[derive(Debug, Clone, Copy, Default)]
pub struct ComputedGlyph<N> {
    pub position: AABB<N>,
    pub texcoord: AABB<N>,
}

/// The grapheme clusters of a text, as `UnicodeSegmentation::graphemes`
/// (extended clusters) splits it.
pub uninterp spec fn grapheme_clusters(text: Seq<char>) -> Seq<Seq<char>>;

/// The extended grapheme clusters of `text` (`UnicodeSegmentation::graphemes`
/// with `is_extended` set). Claimed: the result is named by
/// `grapheme_clusters`; the clusters are non-empty and, put back together,
/// give the text, since the iterator hands out the slices between
/// consecutive boundaries from the start of the text to its end. Where
/// the boundaries fall is left to the name.
#[verifier::external_body]
fn graphemes_of(text: &str) -> (g: Vec<String>)
    ensures
        g@.map_values(|s: String| s@) == grapheme_clusters(text@),
        g@.map_values(|s: String| s@).flatten() == text@,
        forall|i: int| 0 <= i < g@.len() ==> #[trigger] g@[i]@.len() > 0,
{
    text.graphemes(true).map(String::from).collect()
}

/// The character whose glyph draws grapheme `g`: its only character when
/// it is a single ASCII character, else `?`.
pub open spec fn glyph_char(g: Seq<char>) -> char {
    if g.len() == 1 && (g[0] as u32) < 128 { g[0] } else { '?' }
}

/// The character drawn for each grapheme cluster of `text`.
pub fn glyph_chars(text: &str) -> (v: Vec<char>)
    ensures
        v@ == grapheme_clusters(text@).map_values(|g: Seq<char>| glyph_char(g)),
{
    let clusters = graphemes_of(text);
    let ghost views = clusters@.map_values(|s: String| s@);
    let mut v: Vec<char> = Vec::new();
    let mut i: usize = 0;
    while i < clusters.len()
        invariant
            i <= clusters@.len(),
            views == clusters@.map_values(|s: String| s@),
            views == grapheme_clusters(text@),
            v@.len() == i,
            forall|j: int| 0 <= j < i ==> #[trigger] v@[j] == glyph_char(views[j]),
        decreases clusters@.len() - i,
    {
        let chars = str_chars(clusters[i].as_str());
        let c = if chars.len() == 1 && (chars[0] as u32) < 128 { chars[0] } else { '?' };
        assert(chars@ == views[i as int]);
        v.push(c);
        i = i + 1;
    }
    assert(v@ =~= views.map_values(|g: Seq<char>| glyph_char(g)));
    v
}

} // verus!
