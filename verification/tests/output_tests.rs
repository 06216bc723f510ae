use game::output::{
    batch_sprites, gui_mesh_params, gui_quad_indices, next_animation_frame, sprite_flags, DrawSpriteParams,
    DrawUpdateType,
};
use game::pathfinding::PathfindingState;
use game::random::{drop_angles_degrees, gold_drop_offset, idle_timer_ms, wander_offset};

use game::gui::layout::GuiOutputSprite;
use game::gui::resources::GuiColor;
use game::output::{render_gui, GuiVertex, UpdateGuiParams};
use game::shapes::AABB;
use game::assets::terrain::TerrainCell::{Grass, Sand, Water};
use game::flags::{DemoGameFlags, SYNC_TERRAIN, SYNC_VIEW};
use game::output::{update_terrain, UpdateTerrainChunkParams};
use game::output::projectile_draw_command;

#[test]
fn draw_update_codes() {
    assert_eq!(DrawUpdateType::Undefined.code(), 0);
    assert_eq!(DrawUpdateType::UpdateGui.code(), 5);
    assert_eq!(DrawUpdateType::DrawDebugInfo.code(), 7);
}

#[test]
fn sprites_batched_by_texture() {
    let b = batch_sprites(&vec![1, 1, 2, 2, 2, 1]);
    assert_eq!(
        b,
        vec![
            DrawSpriteParams { instance_base: 0, instance_count: 2, texture_id: 1 },
            DrawSpriteParams { instance_base: 2, instance_count: 3, texture_id: 2 },
            DrawSpriteParams { instance_base: 5, instance_count: 1, texture_id: 1 },
        ]
    );
    assert_eq!(batch_sprites(&vec![]), vec![DrawSpriteParams { instance_base: 0, instance_count: 0, texture_id: 0 }]);
}

#[test]
fn gui_indices_two_triangles_per_quad() {
    assert_eq!(gui_quad_indices(2), vec![0, 3, 2, 1, 0, 3, 4, 7, 6, 5, 4, 7]);
    assert!(gui_quad_indices(0).is_empty());
    let p = gui_mesh_params(3);
    assert_eq!((p.indices_count, p.vertex_count), (18, 12));
}

#[test]
fn animation_frames_wrap() {
    assert_eq!(next_animation_frame(0, 5), 1);
    assert_eq!(next_animation_frame(5, 5), 0);
    assert_eq!(next_animation_frame(3, 0), 0);
    assert_eq!(sprite_flags(false, false), 0);
    assert_eq!(sprite_flags(true, false), 1);
    assert_eq!(sprite_flags(false, true), 2);
    assert_eq!(sprite_flags(true, true), 3);
}

#[test]
fn random_values_in_range() {
    for _ in 0..200 {
        let a = drop_angles_degrees();
        assert!(120 <= a[0] && a[0] < 180);
        assert!(120 <= a[1] - a[0] && a[1] - a[0] < 180);
        assert!(120 <= a[2] - a[1] && a[2] - a[1] < 180);
        let (x, y) = wander_offset();
        assert!((-100..100).contains(&x) && (-100..100).contains(&y));
        let t = idle_timer_ms();
        assert!((6000..10000).contains(&t));
        let (gy, gx) = gold_drop_offset();
        assert!((30..60).contains(&gy) && (-110..110).contains(&gx));
    }
}

#[test]
fn freed_path_is_reused() {
    let mut s: PathfindingState<(i32, i32)> = PathfindingState::new();
    let a = s.compute_new_path((0, 0), vec![(0, 0), (5, 0), (5, 5)], true).unwrap();
    let b = s.compute_new_path((1, 1), vec![(1, 1)], true).unwrap();
    assert_eq!((a.path_id, b.path_id), (0, 1));
    let none = s.compute_new_path((2, 2), vec![], false);
    assert!(none.is_none());
    assert!(s.paths[2].free);
    let mut walker = a;
    assert!(!s.compute_path(&mut walker));
    assert_eq!(walker.next_position, (5, 0));
    assert!(!s.compute_path(&mut walker));
    assert_eq!(walker.next_position, (5, 5));
    assert!(s.compute_path(&mut walker));
    assert_eq!(walker.current_node_index, 2);
    s.free_path(a);
    assert_eq!(s.new_path(), 0);
    assert_eq!(s.new_path(), 2);
    assert_eq!(s.new_path(), 3);
    s.clear();
    assert!(s.paths.iter().all(|p| p.free && p.nodes.is_empty()));
}

#[test]
fn gui_render_mesh() {
    let sprite = |left: f32, flags: u8| GuiOutputSprite {
        positions: AABB { left, top: 2.0, right: left + 10.0, bottom: 12.0 },
        texcoord: AABB { left: 0.0, top: 0.5, right: 0.25, bottom: 1.0 },
        color: GuiColor { r: 1, g: 2, b: 3 },
        flags,
    };
    let sprites = vec![sprite(0.0, 1), sprite(100.0, 0)];
    let mut indices: Vec<u16> = vec![9];
    let mut vertex: Vec<GuiVertex<f32>> = Vec::new();

    // no change since the last frame: nothing is sent or touched
    assert_eq!(render_gui(false, &sprites, &mut indices, &mut vertex), None);
    assert_eq!(indices, vec![9]);
    assert!(vertex.is_empty());

    let r = render_gui(true, &sprites, &mut indices, &mut vertex);
    assert_eq!(r, Some(UpdateGuiParams { indices_count: 12, vertex_count: 8 }));
    assert_eq!(indices, vec![0, 3, 2, 1, 0, 3, 4, 7, 6, 5, 4, 7]);
    assert_eq!(vertex.len(), 8);
    assert_eq!(vertex[0].position, [0.0, 2.0]);
    assert_eq!(vertex[1].position, [10.0, 2.0]);
    assert_eq!(vertex[2].position, [0.0, 12.0]);
    assert_eq!(vertex[3].position, [10.0, 12.0]);
    assert_eq!(vertex[3].texcoord, [0.25, 1.0]);
    assert_eq!(vertex[0].color, [1, 2, 3, 1]);
    assert_eq!(vertex[5].position, [110.0, 2.0]);
    assert_eq!(vertex[6].texcoord, [0.0, 1.0]);
    assert_eq!(vertex[7].color, [1, 2, 3, 0]);

    // a changed gui with no sprite: the buffers are emptied, no command is sent
    let empty: Vec<GuiOutputSprite<f32>> = Vec::new();
    assert_eq!(render_gui(true, &empty, &mut indices, &mut vertex), None);
    assert!(indices.is_empty() && vertex.is_empty());
}

#[test]
fn terrain_sync_flag() {
    let ids = vec![10, 11, 12];
    let cells = vec![vec![Grass, Sand], vec![Water], vec![Sand, Sand, Water]];

    // flag not set: nothing happens
    let mut flags = DemoGameFlags { inner: SYNC_VIEW };
    let mut updates = vec![true, false, true];
    let mut data = vec![Water];
    assert!(update_terrain(&mut flags, &mut updates, &ids, &cells, &mut data).is_empty());
    assert_eq!(flags.inner, SYNC_VIEW);
    assert_eq!(updates, vec![true, false, true]);
    assert_eq!(data, vec![Water]);

    // flag set: it is cleared, the dirty chunks are sent after the cells already there
    flags.set_sync_terrain();
    let r = update_terrain(&mut flags, &mut updates, &ids, &cells, &mut data);
    assert_eq!(flags.inner, SYNC_VIEW);
    assert_eq!(flags.inner & SYNC_TERRAIN, 0);
    assert_eq!(
        r,
        vec![
            UpdateTerrainChunkParams { chunk_id: 10, chunk_data_offset: 1 },
            UpdateTerrainChunkParams { chunk_id: 12, chunk_data_offset: 3 },
        ]
    );
    assert_eq!(data, vec![Water, Grass, Sand, Sand, Sand, Water]);
    assert_eq!(updates, vec![false; 3]);
}

#[test]
fn projectile_command() {
    assert_eq!(projectile_draw_command(0, 4), None);
    assert_eq!(
        projectile_draw_command(3, 4),
        Some(DrawSpriteParams { instance_base: 0, instance_count: 3, texture_id: 4 })
    );
}
