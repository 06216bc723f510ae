//! The rows of the asset index and of the unit and resource sprite sheets.
use vstd::prelude::*;
use crate::error::{Error, ErrorType};
use crate::text::chars_match;
use crate::shapes::AABB;
use super::csv::split_on;
use super::csv::split_chars;
use super::textures::{TextureTable, texture_entries, assets_error};
use super::fonts::{AtlasWords, atlas_complete, read_font_atlas, unaligned_atlas_message};
use super::sprites::StaticResourceSlot;
use super::sprites::AnimatedResourceSlot;
use super::sprites::static_resource_slot;
use super::sprites::animated_resource_slot;
use super::sprites::match_static_resource;
use super::sprites::match_animated_resource;
use super::sprites::DynamiteGoblinAnimationSlot;
use super::sprites::TorchGoblinAnimationSlot;
use super::sprites::SheepAnimationSlot;
use super::sprites::PawnAnimationSlot;
use super::sprites::ArcherAnimationSlot;
use super::sprites::WarriorAnimationSlot;
use super::sprites::gobindynamite_animation_slot;
use super::sprites::gobintorch_animation_slot;
use super::sprites::sheep_animation_slot;
use super::sprites::pawn_animation_slot;
use super::sprites::archer_animation_slot;
use super::sprites::warrior_animation_slot;
use super::sprites::match_gobindynamite_animation;
use super::sprites::match_gobintorch_animation;
use super::sprites::match_sheep_animation;
use super::sprites::match_pawn_animation;
use super::sprites::match_archer_animation;
use super::sprites::match_warrior_animation;

verus! {

/// Whether `c` is an ASCII digit.
pub open spec fn is_digit(c: char) -> bool {
    '0' <= c <= '9'
}

/// The value of a string of decimal digits.
pub open spec fn digits_value(s: Seq<char>) -> int
    decreases s.len(),
{
    if s.len() == 0 {
        0
    } else {
        digits_value(s.drop_last()) * 10 + (s.last() as int - '0' as int)
    }
}

/// The digits of a number: without its `+` sign, if it has one.
pub open spec fn unsigned_digits(s: Seq<char>) -> Seq<char> {
    if s.len() > 0 && s[0] == '+' { s.drop_first() } else { s }
}

/// The `u32` that `s` writes in decimal, with an optional `+` sign; none when
/// `s` is no such number or the number does not fit.
pub open spec fn parse_u32_spec(s: Seq<char>) -> Option<u32> {
    let d = unsigned_digits(s);
    if d.len() > 0 && (forall|i: int| 0 <= i < d.len() ==> is_digit(#[trigger] d[i]))
        && digits_value(d) <= u32::MAX {
        Some(digits_value(d) as u32)
    } else {
        None
    }
}

proof fn lemma_digits_value_grows(s: Seq<char>, k: int)
    requires
        0 <= k <= s.len(),
        forall|i: int| 0 <= i < s.len() ==> is_digit(#[trigger] s[i]),
    ensures
        digits_value(s) >= digits_value(s.subrange(0, k)) >= 0,
    decreases s.len(),
{
    if s.len() > 0 {
        if k == s.len() {
            assert(s.subrange(0, k) =~= s);
            lemma_digits_value_grows(s.drop_last(), k - 1);
            assert(s.drop_last().subrange(0, k - 1) =~= s.drop_last());
        } else {
            lemma_digits_value_grows(s.drop_last(), k);
            assert(s.drop_last().subrange(0, k) =~= s.subrange(0, k));
        }
    }
}

/// Reads a `u32` written in decimal, with an optional `+` sign.
pub fn parse_u32(s: &Vec<char>) -> (r: Option<u32>)
    ensures
        r == parse_u32_spec(s@),
{
    let start: usize = if s.len() > 0 && s[0] == '+' { 1 } else { 0 };
    let ghost d = unsigned_digits(s@);
    proof {
        assert(d =~= s@.subrange(start as int, s@.len() as int));
    }
    if start >= s.len() {
        return None;
    }
    let mut acc: u64 = 0;
    let mut i = start;
    while i < s.len()
        invariant
            start <= i <= s@.len(),
            start == 0 || start == 1,
            d == s@.subrange(start as int, s@.len() as int),
            d == unsigned_digits(s@),
            acc == digits_value(d.subrange(0, i - start)),
            acc <= u32::MAX,
            forall|j: int| 0 <= j < i - start ==> is_digit(#[trigger] d[j]),
        decreases s@.len() - i,
    {
        let c = s[i];
        if !('0' <= c && c <= '9') {
            assert(!is_digit(d[i - start]));
            return None;
        }
        proof {
            assert(d.subrange(0, i - start + 1).drop_last() =~= d.subrange(0, i - start));
        }
        acc = acc * 10 + (c as u64 - '0' as u64);
        i = i + 1;
        if acc > u32::MAX as u64 {
            proof {
                if forall|j: int| 0 <= j < d.len() ==> is_digit(#[trigger] d[j]) {
                    lemma_digits_value_grows(d, i - start);
                }
            }
            return None;
        }
    }
    proof {
        assert(d.subrange(0, d.len() as int) =~= d);
    }
    Some(acc as u32)
}

/// The number of frames of a sprite sheet row: its second column, or 1 when
/// that is not a number.
pub open spec fn frame_count_of(field: Seq<char>) -> u32 {
    match parse_u32_spec(field) {
        Some(n) => n,
        None => 1,
    }
}

/// The sprite of a resource: its region of the static sprite sheet.
#[derive(Debug, Clone, Copy, Default)]
pub struct ResourceBase<N> {
    pub aabb: AABB<N>,
}

/// What a row of the static sprite sheet says about resources.
#[derive(Debug, Clone, Copy, PartialEq, Eq, Structural)]
pub enum ResourceRow {
    /// A still sprite.
    Still(StaticResourceSlot),
    /// An animation, with the index of its last frame.
    Animated(AnimatedResourceSlot, u8),
    /// A row that names no resource sprite.
    Unnamed,
}

/// The index of the last of `frame_count` frames, in the byte the animation
/// keeps: the count is cut to a byte and one taken from it, wrapping round.
pub open spec fn last_frame_of(frame_count: u32) -> u8 {
    if frame_count % 256 == 0 { 255 } else { (frame_count % 256 - 1) as u8 }
}

/// What a sprite sheet row, named in its first column and with its frame
/// count in the second, says about resources: a single frame is a still
/// sprite, several frames an animation.
pub fn classify_resource_row(name: &Vec<char>, frames: &Vec<char>) -> (r: ResourceRow)
    ensures
        frame_count_of(frames@) == 1 ==> r == match static_resource_slot(name@) {
            Some(s) => ResourceRow::Still(s),
            None => ResourceRow::Unnamed,
        },
        frame_count_of(frames@) != 1 ==> r == match animated_resource_slot(name@) {
            Some(s) => ResourceRow::Animated(s, last_frame_of(frame_count_of(frames@))),
            None => ResourceRow::Unnamed,
        },
{
    let frame_count = match parse_u32(frames) {
        Some(n) => n,
        None => 1,
    };
    if frame_count == 1 {
        match match_static_resource(name) {
            Some(s) => ResourceRow::Still(s),
            None => ResourceRow::Unnamed,
        }
    } else {
        match match_animated_resource(name) {
            Some(s) => {
                let count_byte = (frame_count % 256) as u8;
                let last: u8 = if count_byte == 0 { 255 } else { count_byte - 1 };
                ResourceRow::Animated(s, last)
            },
            None => ResourceRow::Unnamed,
        }
    }
}

/// An animation of a unit.
#[derive(Debug, Clone, Copy, PartialEq, Eq, Structural)]
pub enum UnitAnimationSlot {
    DynamiteGoblin(DynamiteGoblinAnimationSlot),
    TorchGoblin(TorchGoblinAnimationSlot),
    Sheep(SheepAnimationSlot),
    Pawn(PawnAnimationSlot),
    Archer(ArcherAnimationSlot),
    Warrior(WarriorAnimationSlot),
}

/// The kind of sprite a row of the unit sheet is about: its name up to the first `_`.
pub open spec fn sprite_type(name: Seq<char>) -> Seq<char> {
    split_on(name, '_')[0]
}

/// The unit animation a row of the unit sprite sheet describes: the kind of
/// unit is read from the start of the name, then the name is looked up among
/// the animations of that unit.
pub open spec fn unit_animation_slot(name: Seq<char>) -> Option<UnitAnimationSlot> {
    let t = sprite_type(name);
    if t == "gobindynamite"@ {
        match gobindynamite_animation_slot(name) {
            Some(s) => Some(UnitAnimationSlot::DynamiteGoblin(s)),
            None => None,
        }
    } else if t == "gobintorch"@ {
        match gobintorch_animation_slot(name) {
            Some(s) => Some(UnitAnimationSlot::TorchGoblin(s)),
            None => None,
        }
    } else if t == "sheep"@ {
        match sheep_animation_slot(name) {
            Some(s) => Some(UnitAnimationSlot::Sheep(s)),
            None => None,
        }
    } else if t == "pawn"@ {
        match pawn_animation_slot(name) {
            Some(s) => Some(UnitAnimationSlot::Pawn(s)),
            None => None,
        }
    } else if t == "archer"@ {
        match archer_animation_slot(name) {
            Some(s) => Some(UnitAnimationSlot::Archer(s)),
            None => None,
        }
    } else if t == "warrior"@ {
        match warrior_animation_slot(name) {
            Some(s) => Some(UnitAnimationSlot::Warrior(s)),
            None => None,
        }
    } else {
        None
    }
}

/// The unit animation a row of the unit sprite sheet describes.
pub fn match_unit_animation(name: &Vec<char>) -> (r: Option<UnitAnimationSlot>)
    ensures
        r == unit_animation_slot(name@),
{
    let parts = split_chars(name, '_');
    proof {
        super::csv::lemma_split_on_nonempty(name@, '_');
    }
    let t = &parts[0];
    if chars_match(t, "gobindynamite") {
        match match_gobindynamite_animation(name) {
            Some(s) => Some(UnitAnimationSlot::DynamiteGoblin(s)),
            None => None,
        }
    } else if chars_match(t, "gobintorch") {
        match match_gobintorch_animation(name) {
            Some(s) => Some(UnitAnimationSlot::TorchGoblin(s)),
            None => None,
        }
    } else if chars_match(t, "sheep") {
        match match_sheep_animation(name) {
            Some(s) => Some(UnitAnimationSlot::Sheep(s)),
            None => None,
        }
    } else if chars_match(t, "pawn") {
        match match_pawn_animation(name) {
            Some(s) => Some(UnitAnimationSlot::Pawn(s)),
            None => None,
        }
    } else if chars_match(t, "archer") {
        match match_archer_animation(name) {
            Some(s) => Some(UnitAnimationSlot::Archer(s)),
            None => None,
        }
    } else if chars_match(t, "warrior") {
        match match_warrior_animation(name) {
            Some(s) => Some(UnitAnimationSlot::Warrior(s)),
            None => None,
        }
    } else {
        None
    }
}

} // verus!

verus! {

/// What a row of the asset index asks for, once its texture, if any, is filed.
#[derive(Debug)]
pub enum IndexRow {
    /// A texture, filed already.
    Texture,
    /// The csv text of that name.
    Csv(Vec<char>),
    /// The font atlas of that name.
    Font(Vec<char>),
    /// A shader, which the engine loads by itself.
    Shader,
}

/// `s` quoted as Rust's `Debug` writes a string.
pub uninterp spec fn debug_text(s: Seq<char>) -> Seq<char>;

/// The `Debug` form of a string (`format!("{:?}", ..)`): the string in double
/// quotes, with quotes, backslashes and other special characters escaped.
/// Claimed: the result is named by `debug_text`; the escaping rules are left
/// to the name.
#[verifier::external_body]
fn debug_quoted(s: &Vec<char>) -> (q: String)
    ensures
        q@ == debug_text(s@),
{
    let text: String = s.iter().collect();
    format!("{:?}", text)
}

/// The message of the error for an asset index row of an unknown type.
pub open spec fn unknown_asset_message(kind: Seq<char>) -> Seq<char> {
    "Unknown asset type "@ + debug_text(kind)
}

/// Handles one row of the asset index (type, name, ...). A `TEXTURE` row
/// files the texture at once; `CSV` and `FONT` rows name the asset to load;
/// a row without a name, or of another type, is refused.
pub fn import_index_row(textures: &mut TextureTable, args: &Vec<Vec<char>>) -> (r: Result<IndexRow, Error>)
    requires
        args@.len() >= 1,
    ensures
        args@[0]@ == "TEXTURE"@ ==> {
            &&& (r is Ok <==> args@.len() >= 2)
            &&& (r is Ok ==> (r matches Ok(IndexRow::Texture) && texture_entries(*final(textures))
                == texture_entries(*old(textures)).insert(args@[1]@, texture_entries(*old(textures)).len() as u32)))
            &&& (r matches Err(e) ==> assets_error(e, "Missing texture name"@))
        },
        args@[0]@ != "TEXTURE"@ ==> *final(textures) == *old(textures),
        args@[0]@ == "CSV"@ ==> if args@.len() >= 2 {
            r matches Ok(IndexRow::Csv(name)) && name@ == args@[1]@
        } else {
            r matches Err(e) && assets_error(e, "Missing csv name"@)
        },
        args@[0]@ == "FONT"@ ==> if args@.len() >= 2 {
            r matches Ok(IndexRow::Font(name)) && name@ == args@[1]@
        } else {
            r matches Err(e) && assets_error(e, "Missing font name"@)
        },
        args@[0]@ == "SHADER"@ ==> r matches Ok(IndexRow::Shader),
        args@[0]@ != "TEXTURE"@ && args@[0]@ != "CSV"@ && args@[0]@ != "FONT"@ && args@[0]@ != "SHADER"@
            ==> (r matches Err(e) && e.inner.ty == ErrorType::Assets && e.inner.message@ == unknown_asset_message(
                args@[0]@,
            ) && e.inner.chained is None),
{
    proof {
        reveal_strlit("TEXTURE");
        reveal_strlit("CSV");
        reveal_strlit("FONT");
        reveal_strlit("SHADER");
        assert("TEXTURE"@[0] != "CSV"@[0]);
        assert("TEXTURE"@[0] != "FONT"@[0]);
        assert("TEXTURE"@[0] != "SHADER"@[0]);
        assert("CSV"@[0] != "FONT"@[0]);
        assert("CSV"@[0] != "SHADER"@[0]);
        assert("FONT"@[0] != "SHADER"@[0]);
    }
    let kind = &args[0];
    if chars_match(kind, "TEXTURE") {
        match textures.load_texture(args) {
            Ok(()) => Ok(IndexRow::Texture),
            Err(e) => Err(e),
        }
    } else if chars_match(kind, "CSV") {
        if args.len() < 2 {
            return Err(Error::new(ErrorType::Assets, "src/assets/index.rs", 397, "Missing csv name".to_string()));
        }
        Ok(IndexRow::Csv(args[1].clone()))
    } else if chars_match(kind, "FONT") {
        if args.len() < 2 {
            return Err(Error::new(ErrorType::Assets, "src/assets/index.rs", 402, "Missing font name".to_string()));
        }
        Ok(IndexRow::Font(args[1].clone()))
    } else if chars_match(kind, "SHADER") {
        Ok(IndexRow::Shader)
    } else {
        let mut message = "Unknown asset type ".to_string();
        let quoted = debug_quoted(kind);
        message.append(quoted.as_str());
        Err(Error::new(ErrorType::Assets, "src/assets/index.rs", 411, message))
    }
}

/// The sprite sheet or table a csv text of the asset index holds.
#[derive(Debug, Clone, Copy, PartialEq, Eq, Structural)]
pub enum CsvKind {
    TerrainSprites,
    StaticSprites,
    UnitsSprites,
    Gui,
    /// A csv the game does not know.
    Unknown,
}

/// The kind of csv a name of the asset index stands for.
pub open spec fn csv_kind_of(name: Seq<char>) -> CsvKind {
    if name == "terrain_sprites"@ {
        CsvKind::TerrainSprites
    } else if name == "static_sprites"@ {
        CsvKind::StaticSprites
    } else if name == "units_sprites"@ {
        CsvKind::UnitsSprites
    } else if name == "gui"@ {
        CsvKind::Gui
    } else {
        CsvKind::Unknown
    }
}

/// The kind of a csv of the asset index, given its name and the text
/// uploaded under that name, if any: a csv without text is refused.
pub fn csv_source(name: &Vec<char>, text: Option<&String>) -> (r: Result<CsvKind, Error>)
    ensures
        r is Ok <==> text is Some,
        r matches Ok(k) ==> k == csv_kind_of(name@),
        r matches Err(e) ==> assets_error(e, "Failed to match csv name to csv data"@),
{
    if text.is_none() {
        return Err(
            Error::new(ErrorType::Assets, "src/assets/index.rs", 451, "Failed to match csv name to csv data".to_string()),
        );
    }
    if chars_match(name, "terrain_sprites") {
        Ok(CsvKind::TerrainSprites)
    } else if chars_match(name, "static_sprites") {
        Ok(CsvKind::StaticSprites)
    } else if chars_match(name, "units_sprites") {
        Ok(CsvKind::UnitsSprites)
    } else if chars_match(name, "gui") {
        Ok(CsvKind::Gui)
    } else {
        Ok(CsvKind::Unknown)
    }
}

/// Loads the font atlas named `name` of the asset index, given the bytes
/// uploaded under that name, if any, and whether they start on a word
/// boundary: its texture gets the next id and is filed under the font's
/// name. A font without bytes, or whose bytes are refused, files nothing.
pub fn register_font(textures: &mut TextureTable, name: &Vec<char>, data: Option<&[u8]>, aligned: bool) -> (r: Result<
    AtlasWords,
    Error,
>)
    requires
        data matches Some(b) ==> (aligned && b@.len() % 4 == 0 ==> atlas_complete(b@)),
    ensures
        r is Ok <==> (data matches Some(b) && aligned && b@.len() % 4 == 0),
        r matches Ok(a) ==> a.texture_id == texture_entries(*old(textures)).len() as u32
            && texture_entries(*final(textures)) == texture_entries(*old(textures)).insert(name@, a.texture_id),
        r is Err ==> *final(textures) == *old(textures),
        data is None ==> (r matches Err(e) && assets_error(e, "Failed to match font name to font data"@)),
        data is Some ==> (r matches Err(e) ==> assets_error(e, unaligned_atlas_message())),
{
    let bytes = match data {
        Some(b) => b,
        None => {
            return Err(
                Error::new(ErrorType::Assets, "src/assets/index.rs", 489, "Failed to match font name to font data".to_string()),
            );
        },
    };
    let id = textures.next_id();
    let atlas = read_font_atlas(id, bytes, aligned);
    match atlas {
        Ok(a) => {
            textures.insert(name, id);
            Ok(a)
        },
        Err(e) => Err(e),
    }
}

} // verus!
