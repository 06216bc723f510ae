use game::assets::csv::{split_chars, split_csv};
use game::assets::fonts::{atlas_is_complete, glyph_chars, read_font_atlas};
use game::assets::index::{
    classify_resource_row, csv_source, import_index_row, match_unit_animation, parse_u32, register_font, CsvKind,
    IndexRow, ResourceRow, UnitAnimationSlot,
};
use game::assets::sprites::{
    AnimatedResourceSlot, DecorationBundle, GuiBundle, PawnAnimationSlot, StaticResourceSlot, StructuresBundle,
};
use game::assets::terrain::TerrainCell;
use game::assets::textures::{Texture, TextureTable};

fn chars(s: &str) -> Vec<char> {
    s.chars().collect()
}

fn row(fields: &[&str]) -> Vec<Vec<char>> {
    fields.iter().map(|f| chars(f)).collect()
}

fn parse_num(v: &Vec<char>) -> i64 {
    v.iter().collect::<String>().parse::<i64>().unwrap_or(0)
}

#[test]
fn csv_rows_fit_columns() {
    let rows = split_csv("a,1,2\n\nb,3\nc,4,5,6,7\n", 3);
    assert_eq!(rows.len(), 3);
    assert_eq!(rows[0], row(&["a", "1", "2"]));
    assert_eq!(rows[1], row(&["b", "3", ""]));
    assert_eq!(rows[2], row(&["c", "4", "5"]));
    assert!(split_csv("", 2).is_empty());
    assert_eq!(split_chars(&chars("x__y"), '_'), row(&["x", "", "y"]));
}

#[test]
fn numbers_parse_like_u32() {
    assert_eq!(parse_u32(&chars("12")), Some(12));
    assert_eq!(parse_u32(&chars("+7")), Some(7));
    assert_eq!(parse_u32(&chars("4294967295")), Some(4294967295));
    assert_eq!(parse_u32(&chars("4294967296")), None);
    assert_eq!(parse_u32(&chars("")), None);
    assert_eq!(parse_u32(&chars("+")), None);
    assert_eq!(parse_u32(&chars("-1")), None);
    assert_eq!(parse_u32(&chars("1x")), None);
}

#[test]
fn resource_rows() {
    assert_eq!(classify_resource_row(&chars("gold"), &chars("1")), ResourceRow::Still(StaticResourceSlot::Gold));
    assert_eq!(classify_resource_row(&chars("wood"), &chars("oops")), ResourceRow::Still(StaticResourceSlot::Wood));
    assert_eq!(
        classify_resource_row(&chars("tree_idle"), &chars("8")),
        ResourceRow::Animated(AnimatedResourceSlot::TreeIdle, 7)
    );
    assert_eq!(
        classify_resource_row(&chars("gold_spawn"), &chars("256")),
        ResourceRow::Animated(AnimatedResourceSlot::GoldSpawn, 255)
    );
    assert_eq!(classify_resource_row(&chars("tree_idle"), &chars("1")), ResourceRow::Unnamed);
    assert_eq!(classify_resource_row(&chars("gold"), &chars("3")), ResourceRow::Unnamed);
}

#[test]
fn unit_animation_rows() {
    assert_eq!(
        match_unit_animation(&chars("pawn_walk_hold")),
        Some(UnitAnimationSlot::Pawn(PawnAnimationSlot::WalkHold))
    );
    assert_eq!(match_unit_animation(&chars("pawn_fly")), None);
    assert_eq!(match_unit_animation(&chars("death_skull")), None);
    assert_eq!(match_unit_animation(&chars("")), None);
}

#[test]
fn bundles_take_last_matching_row() {
    let sheet = "sign_1,1,10,20,30,40\nnothing,1,1,1,1,1\nsign_1,1,11,21,31,41\nrock_big,1,5,6,7,8\n";
    let mut d: DecorationBundle<i64> = DecorationBundle::default();
    d.load(sheet, parse_num);
    assert_eq!((d.sign1.aabb.left, d.sign1.aabb.top, d.sign1.aabb.right, d.sign1.aabb.bottom), (11, 21, 31, 41));
    assert_eq!(d.rock_big.aabb.bottom, 8);
    assert_eq!(d.bone1.aabb.left, 0);
    let mut g: GuiBundle<i64> = GuiBundle::default();
    g.load("solid,1,2,3,4\ninfo_panel,5,6,7,8\n", parse_num);
    assert_eq!((g.solid.left, g.solid.bottom), (1, 4));
    assert_eq!((g.info_panel.left, g.info_panel.bottom), (5, 8));
    let mut s: StructuresBundle<i64> = StructuresBundle::default();
    s.load("nothing,1,2,3,4,5\n", parse_num);
    assert_eq!(s.knights_castle.left, 0);
}

#[test]
fn textures_get_consecutive_ids() {
    let mut t = TextureTable::new();
    assert_eq!(t.len(), 0);
    assert!(t.load_texture(&row(&["TEXTURE", "units", "", "", ""])).is_ok());
    assert!(t.load_texture(&row(&["TEXTURE", "static_resources", "", "", ""])).is_ok());
    assert_eq!(t.get("units"), Some(Texture { id: 0 }));
    assert_eq!(t.get("static_resources"), Some(Texture { id: 1 }));
    assert_eq!(t.get("gui"), None);
    assert_eq!(t.next_id(), 2);
    let (units, resources) = t.world_textures().ok().unwrap();
    assert_eq!((units.id, resources.id), (0, 1));
    let e = t.load_texture(&row(&["TEXTURE"])).err().unwrap();
    assert_eq!(e.inner.message, "Missing texture name");
    assert_eq!(t.len(), 2);
}

#[test]
fn world_textures_missing() {
    let mut t = TextureTable::new();
    let e = t.world_textures().err().unwrap();
    assert_eq!(e.inner.message, "units texture missing");
    t.load_texture(&row(&["TEXTURE", "units"])).ok().unwrap();
    let e = t.world_textures().err().unwrap();
    assert_eq!(e.inner.message, "static_resources texture missing");
}

#[test]
fn asset_index_rows() {
    let mut t = TextureTable::new();
    assert!(matches!(import_index_row(&mut t, &row(&["TEXTURE", "terrain", "", "", ""])), Ok(IndexRow::Texture)));
    assert_eq!(t.get("terrain"), Some(Texture { id: 0 }));
    match import_index_row(&mut t, &row(&["CSV", "gui", "", "", ""])) {
        Ok(IndexRow::Csv(name)) => assert_eq!(name, chars("gui")),
        _ => panic!("a csv row"),
    }
    match import_index_row(&mut t, &row(&["FONT", "roboto", "", "", ""])) {
        Ok(IndexRow::Font(name)) => assert_eq!(name, chars("roboto")),
        _ => panic!("a font row"),
    }
    assert!(matches!(import_index_row(&mut t, &row(&["SHADER", "x", "", "", ""])), Ok(IndexRow::Shader)));
    let e = import_index_row(&mut t, &row(&["SOUND", "boom", "", "", ""])).err().unwrap();
    assert_eq!(e.inner.message, "Unknown asset type \"SOUND\"");
    let e = import_index_row(&mut t, &row(&["CSV"])).err().unwrap();
    assert_eq!(e.inner.message, "Missing csv name");
    let e = import_index_row(&mut t, &row(&["FONT"])).err().unwrap();
    assert_eq!(e.inner.message, "Missing font name");
    assert_eq!(t.len(), 1);
}

#[test]
fn csv_kinds() {
    let text = String::from("a,b");
    assert_eq!(csv_source(&chars("terrain_sprites"), Some(&text)).ok(), Some(CsvKind::TerrainSprites));
    assert_eq!(csv_source(&chars("static_sprites"), Some(&text)).ok(), Some(CsvKind::StaticSprites));
    assert_eq!(csv_source(&chars("units_sprites"), Some(&text)).ok(), Some(CsvKind::UnitsSprites));
    assert_eq!(csv_source(&chars("gui"), Some(&text)).ok(), Some(CsvKind::Gui));
    assert_eq!(csv_source(&chars("music"), Some(&text)).ok(), Some(CsvKind::Unknown));
    let e = csv_source(&chars("gui"), None).err().unwrap();
    assert_eq!(e.inner.message, "Failed to match csv name to csv data");
}

fn atlas_bytes(count: u32, max: u32, records: &[(u32, u32)]) -> Vec<u8> {
    let mut words: Vec<u32> = vec![10, 11, 12, 13, 14, 15, count, max];
    for (unicode, fill) in records {
        words.push(*unicode);
        for k in 0..9 {
            words.push(fill + k);
        }
    }
    words.iter().flat_map(|w| w.to_le_bytes()).collect()
}

#[test]
fn font_atlas_layout() {
    let bytes = atlas_bytes(3, 4, &[(1, 100), (3, 200), (1, 300)]);
    assert!(atlas_is_complete(&bytes));
    let a = read_font_atlas(9, &bytes, true).ok().unwrap();
    assert_eq!(a.texture_id, 9);
    assert_eq!(a.metrics, [10, 11, 12, 13, 14, 15]);
    assert_eq!((a.glyph_count, a.glyph_max), (3, 4));
    assert_eq!(a.glyphs.len(), 4);
    assert_eq!(a.glyphs[1].unicode, 1);
    assert_eq!(a.glyphs[1].advance, 300);
    assert_eq!(a.glyphs[1].atlas_bound, [301, 302, 303, 304]);
    assert_eq!(a.glyphs[1].plane_bound, [305, 306, 307, 308]);
    assert_eq!(a.glyphs[3].advance, 200);
    assert_eq!(a.glyphs[0].unicode, 0);
    assert_eq!(a.glyphs[0].advance, 0);
    assert_eq!(a.glyphs[2].plane_bound, [0, 0, 0, 0]);
}

#[test]
fn font_atlas_refusals() {
    let bytes = atlas_bytes(1, 2, &[(5, 0)]);
    assert!(!atlas_is_complete(&bytes));
    assert!(!atlas_is_complete(&bytes[..20]));
    let short = atlas_bytes(2, 4, &[(1, 0)]);
    assert!(!atlas_is_complete(&short));
    let good = atlas_bytes(1, 2, &[(1, 0)]);
    let e = read_font_atlas(0, &good, false).err().unwrap();
    assert_eq!(e.inner.message, "Failed to parse font atlas data. Data must be aligned to 4 bytes");
    let mut odd = good.clone();
    odd.push(0);
    assert!(read_font_atlas(0, &odd, true).is_err());
}

#[test]
fn fonts_register_textures() {
    let mut t = TextureTable::new();
    t.load_texture(&row(&["TEXTURE", "units"])).ok().unwrap();
    let good = atlas_bytes(1, 2, &[(1, 0)]);
    let a = register_font(&mut t, &chars("roboto"), Some(&good[..]), true).ok().unwrap();
    assert_eq!(a.texture_id, 1);
    assert_eq!(t.get("roboto"), Some(Texture { id: 1 }));
    let e = register_font(&mut t, &chars("mono"), None, true).err().unwrap();
    assert_eq!(e.inner.message, "Failed to match font name to font data");
    assert!(register_font(&mut t, &chars("mono"), Some(&good[..]), false).is_err());
    assert_eq!(t.get("mono"), None);
    assert_eq!(t.len(), 2);
}

#[test]
fn glyphs_per_grapheme() {
    assert_eq!(glyph_chars("ab"), vec!['a', 'b']);
    assert_eq!(glyph_chars("a\r\nb"), vec!['a', '?', 'b']);
    assert_eq!(glyph_chars("e\u{301}x"), vec!['?', 'x']);
    assert_eq!(glyph_chars("é"), vec!['?']);
    assert!(glyph_chars("").is_empty());
}

#[test]
fn terrain_cells() {
    assert_eq!(TerrainCell::Grass.index(), 0);
    assert_eq!(TerrainCell::Water.index(), 2);
    assert_eq!(TerrainCell::Last.index(), 3);
}
