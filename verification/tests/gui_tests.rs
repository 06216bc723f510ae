use game::gui::resources::{DynamicResource, GuiColor, GuiImage, GuiResourceId};
use game::gui::tree::GuiTree;
use game::gui::layout::{GuiAlignItems, ItemsAlign, ItemsDirection, ItemsPosition};
use game::gui::{Gui, GuiUpdateFlags, ALL, COMPUTE_LAYOUT_POSITIONS, COMPUTE_LAYOUT_SIZES};
use game::shapes::AABB;

#[test]
fn update_flags_passes() {
    let mut f = GuiUpdateFlags(0);
    assert!(!f.generate_sprites());
    f.set(COMPUTE_LAYOUT_POSITIONS);
    assert!(!f.compute_layout_sizes());
    assert!(f.compute_layout_positions());
    assert!(f.generate_sprites());
    f.set(COMPUTE_LAYOUT_SIZES);
    assert!(f.compute_layout_sizes());
    assert!(f.compute_layout_positions());
    f.set(ALL);
    assert_eq!(f.0, 0b011);
    assert!(f.compute_layout_sizes());
    f.clear();
    assert_eq!(f.0, 0);
    assert!(!f.generate_sprites());
}

#[test]
fn resource_ids_round_trip() {
    let id: GuiResourceId<u8> = GuiResourceId::new(5);
    assert_eq!(id.index(), 5);
    assert!(!id.is_dyn());
    let d: GuiResourceId<u8> = GuiResourceId::new_dyn(3, 9);
    assert_eq!(d.index(), 3);
    assert_eq!(d.dyn_index(), 9);
    assert!(d.is_dyn());
    let n: GuiResourceId<u8> = GuiResourceId::default();
    assert!(!n.is_dyn());
    assert_eq!(n.copy().index(), n.index());
}

#[test]
fn colors_and_images() {
    let w = GuiColor::white();
    assert_eq!(w.splat(), [255, 255, 255]);
    let c = GuiColor { r: 1, g: 2, b: 3 };
    assert_eq!(c.splat(), [1, 2, 3]);
    let img = GuiImage::from_aabb(AABB { left: 1, top: 2, right: 3, bottom: 4 });
    assert_eq!(img.texcoord.right, 3);
    assert!(DynamicResource::new().users.is_empty());
}

#[test]
fn align_items_default() {
    let a = GuiAlignItems::default();
    assert_eq!(a.direction, ItemsDirection::Column);
    assert_eq!(a.alignment, ItemsAlign::Center);
    assert_eq!(a.position, ItemsPosition::Center);
}

#[test]
fn tree_nesting_and_roots() {
    let mut t = GuiTree::new();
    let root = t.open_node();
    let a = t.add_leaf();
    let group = t.open_node();
    let b = t.add_leaf();
    assert_eq!(t.close_node(), group);
    assert_eq!(t.close_node(), root);
    let second = t.add_leaf();
    assert_eq!((root, a, group, b, second), (0, 1, 2, 3, 4));
    assert_eq!(t.roots(), vec![0, 4]);
    assert_eq!(t.children(0), vec![1, 2]);
    assert_eq!(t.children(2), vec![3]);
    assert!(t.children(4).is_empty());
    assert_eq!(t.node(0).children_count, 2);
    assert_eq!(t.node(0).descendants_count, 3);
    for k in 0..4 {
        assert_eq!(t.node(k).root_index, 0);
    }
    assert_eq!(t.node(4).root_index, 4);
    t.clear();
    assert!(t.len() == 0);
}

#[test]
fn tree_tag_roots_marks_holders() {
    let mut t = GuiTree::new();
    t.open_node();
    t.add_leaf();
    t.close_node();
    t.add_leaf();
    for k in 0..3 {
        t.set_dirty(k, false);
    }
    t.tag_roots(&vec![1]);
    assert!(t.node(0).dirty);
    assert!(!t.node(1).dirty);
    assert!(!t.node(2).dirty);
}

#[test]
fn gui_resources_and_components() {
    let mut gui: Gui<u32, &'static str> = Gui::new();
    assert!(!gui.needs_sync());
    let img = gui.image(7);
    assert_eq!(img.index(), 0);
    assert!(!img.is_dyn());
    let dimg = gui.dyn_image(0);
    assert!(dimg.is_dyn());
    assert_eq!(dimg.index(), 1);
    let txt = gui.static_text("hello");
    assert_eq!(txt.index(), 0);
    let dtxt = gui.dyn_static_text("");
    assert!(dtxt.is_dyn());
    let root = gui.open_component();
    let leaf = gui.add_component(Some(dimg.dyn_index()));
    gui.close_component();
    assert_eq!((root, leaf), (0, 1));
    gui.finish_build();
    assert!(gui.needs_sync());
    gui.finish_sprites();
    assert!(!gui.needs_sync());
    gui.tree.set_dirty(0, false);
    gui.set_image(dimg.copy(), 42);
    assert_eq!(gui.images[1], 42);
    assert!(gui.tree.node(0).dirty);
    gui.clear_image(dimg.copy(), 0);
    assert_eq!(gui.images[1], 0);
    gui.set_text(dtxt.copy(), "bye");
    assert_eq!(gui.text[1], "bye");
    gui.clear();
    assert!(gui.images.is_empty());
    assert_eq!(gui.update_flags.0, ALL);
}

#[test]
fn gui_build_errors() {
    let mut gui: Gui<u32, &'static str> = Gui::new();
    let txt = gui.static_text("hi");
    let mut error = None;
    gui.open_component();
    assert_eq!(gui.label(&txt, &mut error), Some(1));
    let missing: GuiResourceId<&'static str> = GuiResourceId::new(5);
    assert_eq!(gui.label(&missing, &mut error), None);
    let missing_image: GuiResourceId<u32> = GuiResourceId::new(0);
    assert_eq!(gui.image_display(&missing_image, &mut error), None);
    gui.close_component();
    let e = gui.end_build(error).err().unwrap();
    assert_eq!(
        e.to_text(),
        "[ERROR][src/gui/mod.rs:612] Undefined - Unknown text with ID 5 in gui\n[ERROR][src/gui/mod.rs:612] Undefined - Unknown image with ID 0 in gui"
    );
    assert!(gui.tree.len() == 0);
    assert_eq!(gui.update_flags.0, ALL);

    let mut ok_gui: Gui<u32, &'static str> = Gui::new();
    let img = ok_gui.image(3);
    let mut none = None;
    assert_eq!(ok_gui.image_display(&img, &mut none), Some(0));
    assert!(ok_gui.end_build(none).is_ok());
    assert_eq!(ok_gui.update_flags.0, COMPUTE_LAYOUT_POSITIONS);
}

#[test]
fn dirty_roots_and_cleaning() {
    let mut t = GuiTree::new();
    t.open_node();
    t.add_leaf();
    t.close_node();
    t.add_leaf();
    t.open_node();
    t.add_leaf();
    t.close_node();
    assert_eq!(t.dirty_roots(), vec![0, 2, 3]);
    t.clean_subtree(0);
    assert!(!t.node(0).dirty && !t.node(1).dirty);
    assert!(t.node(2).dirty);
    assert_eq!(t.dirty_roots(), vec![2, 3]);
    t.clean_subtree(3);
    assert_eq!(t.dirty_roots(), vec![2]);
    t.tag_roots(&vec![4]);
    assert_eq!(t.dirty_roots(), vec![2, 3]);
}

#[test]
fn closed_group_counts() {
    let mut t = GuiTree::new();
    let outer = t.open_node();
    let group = t.open_node();
    t.add_leaf();
    let inner = t.open_node();
    t.add_leaf();
    t.add_leaf();
    assert!(!t.is_complete());
    assert_eq!(t.close_node(), inner);
    t.add_leaf();
    assert_eq!(t.close_node(), group);
    // three direct children: a leaf, the inner group and a leaf
    assert_eq!(t.node(group).children_count, 3);
    assert_eq!(t.node(group).descendants_count as usize, t.len() - group - 1);
    assert_eq!(t.node(inner).children_count, 2);
    assert_eq!(t.node(inner).descendants_count, 2);
    for k in group..t.len() {
        assert_eq!(t.node(k).root_index, outer as u32);
    }
    assert_eq!(t.close_node(), outer);
    assert!(t.is_complete());
    assert_eq!(t.len(), 7);
    assert_eq!(t.dirty_roots(), vec![0]);
}
