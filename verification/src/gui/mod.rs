//! The gui: its component tree and the resources its components show.
pub mod tree;
pub mod resources;
pub mod layout;

use vstd::prelude::*;
use tree::{forest, GuiTree, GuiNode, fresh_node, tagged};
use resources::{DynamicResource, GuiResourceId};
use crate::error::{merge_error, merged, Error, ErrorType};
use crate::text::{decimal, push_decimal};

verus! {

/// Every pass must run.
pub const ALL: u8 = 0b011;
/// The layout positions must be computed.
pub const COMPUTE_LAYOUT_POSITIONS: u8 = 0b01;
/// The layout sizes must be computed.
pub const COMPUTE_LAYOUT_SIZES: u8 = 0b10;

/// The passes the gui needs before its sprites are up to date.
#[derive(Debug, Clone, Copy)]
pub struct GuiUpdateFlags(pub u8);

impl GuiUpdateFlags {
    pub fn set(&mut self, flags: u8)
        ensures
            final(self).0 == flags,
    {
        self.0 = flags;
    }

    pub fn clear(&mut self)
        ensures
            final(self).0 == 0,
    {
        self.0 = 0;
    }

    /// Whether the sprites must be generated again.
    pub fn generate_sprites(&self) -> (b: bool)
        ensures
            b == (self.0 != 0),
    {
        self.0 != 0
    }

    /// Whether the sizing pass must run.
    pub fn compute_layout_sizes(&self) -> (b: bool)
        ensures
            b == (self.0 & COMPUTE_LAYOUT_SIZES > 0),
    {
        self.0 & COMPUTE_LAYOUT_SIZES > 0
    }

    /// Whether the positioning pass must run.
    pub fn compute_layout_positions(&self) -> (b: bool)
        ensures
            b == (self.0 & (COMPUTE_LAYOUT_POSITIONS | COMPUTE_LAYOUT_SIZES) > 0),
    {
        self.0 & (COMPUTE_LAYOUT_POSITIONS | COMPUTE_LAYOUT_SIZES) > 0
    }
}

/// New sizes always mean new positions, and any pending pass means new sprites.
/// `ALL` asks for every pass, positions alone skip the sizing, and no flag asks for nothing.
pub proof fn lemma_update_passes(f: u8)
    ensures
        f & COMPUTE_LAYOUT_SIZES > 0 ==> f & (COMPUTE_LAYOUT_POSITIONS | COMPUTE_LAYOUT_SIZES) > 0,
        f & (COMPUTE_LAYOUT_POSITIONS | COMPUTE_LAYOUT_SIZES) > 0 ==> f != 0,
        ALL & COMPUTE_LAYOUT_SIZES > 0,
        COMPUTE_LAYOUT_POSITIONS & COMPUTE_LAYOUT_SIZES == 0,
        COMPUTE_LAYOUT_POSITIONS & (COMPUTE_LAYOUT_POSITIONS | COMPUTE_LAYOUT_SIZES) > 0,
        0u8 & (COMPUTE_LAYOUT_POSITIONS | COMPUTE_LAYOUT_SIZES) == 0,
{
    assert(f & 2u8 > 0 ==> f & (1u8 | 2u8) > 0) by (bit_vector);
    assert(f & (1u8 | 2u8) > 0 ==> f != 0) by (bit_vector);
    assert(3u8 & 2u8 > 0) by (bit_vector);
    assert(1u8 & 2u8 == 0) by (bit_vector);
    assert(1u8 & (1u8 | 2u8) > 0) by (bit_vector);
    assert(0u8 & (1u8 | 2u8) == 0) by (bit_vector);
}

/// The structure and resources of the gui: what its components are, how they
/// nest, and the images and texts they show.
pub struct Gui<I, T> {
    pub tree: GuiTree,
    pub images: Vec<I>,
    pub text: Vec<T>,
    pub dynamic_resources: Vec<DynamicResource>,
    pub update_flags: GuiUpdateFlags,
}

impl<I, T> Gui<I, T> {
    /// The tree is well formed and every listed user of a resource is a component.
    pub open spec fn wf(&self) -> bool {
        &&& self.tree.wf()
        &&& forall|d: int, w: int|
            0 <= d < self.dynamic_resources@.len() && 0 <= w < self.dynamic_resources@[d].users@.len()
                ==> #[trigger] self.dynamic_resources@[d].users@[w] < self.tree.node_list().len()
    }

    /// An empty gui with nothing to compute.
    pub fn new() -> (g: Self)
        ensures
            g.wf(),
            g.tree.complete(),
            g.tree.node_list().len() == 0,
            g.images@.len() == 0,
            g.text@.len() == 0,
            g.dynamic_resources@.len() == 0,
            g.update_flags.0 == 0,
    {
        Gui {
            tree: GuiTree::new(),
            images: Vec::new(),
            text: Vec::new(),
            dynamic_resources: Vec::new(),
            update_flags: GuiUpdateFlags(0),
        }
    }

    /// Removes every component and resource; every pass must run again.
    pub fn clear(&mut self)
        ensures
            final(self).wf(),
            final(self).tree.complete(),
            final(self).tree.node_list().len() == 0,
            final(self).images@.len() == 0,
            final(self).text@.len() == 0,
            final(self).dynamic_resources@.len() == 0,
            final(self).update_flags.0 == ALL,
    {
        self.images.clear();
        self.text.clear();
        self.dynamic_resources.clear();
        self.tree.clear();
        self.update_flags.set(ALL);
    }

    /// Whether the sprites of the gui are out of date.
    pub fn needs_sync(&self) -> (b: bool)
        ensures
            b == (self.update_flags.0 > 0),
    {
        self.update_flags.0 > 0
    }

    /// Adds an image that never changes.
    pub fn image(&mut self, image: I) -> (id: GuiResourceId<I>)
        requires
            old(self).images@.len() < u32::MAX,
        ensures
            final(self).images@ == old(self).images@.push(image),
            id.value == old(self).images@.len(),
            id.dynamic_id == u32::MAX,
            final(self).tree == old(self).tree,
            final(self).text == old(self).text,
            final(self).dynamic_resources == old(self).dynamic_resources,
    {
        self.images.push(image);
        GuiResourceId::new(self.images.len() - 1)
    }

    /// Adds an image that can change, starting as `empty`.
    pub fn dyn_image(&mut self, empty: I) -> (id: GuiResourceId<I>)
        requires
            old(self).wf(),
            old(self).images@.len() < u32::MAX,
            old(self).dynamic_resources@.len() < u32::MAX,
        ensures
            final(self).wf(),
            final(self).images@ == old(self).images@.push(empty),
            final(self).dynamic_resources@.len() == old(self).dynamic_resources@.len() + 1,
            final(self).dynamic_resources@.last().users@.len() == 0,
            forall|d: int| 0 <= d < old(self).dynamic_resources@.len() ==> #[trigger] final(self).dynamic_resources@[d] == old(self).dynamic_resources@[d],
            id.value == old(self).images@.len(),
            id.dynamic_id == old(self).dynamic_resources@.len(),
            final(self).tree == old(self).tree,
            final(self).text == old(self).text,
    {
        let image_index = self.images.len();
        let image_dyn_index = self.dynamic_resources.len();
        self.images.push(empty);
        self.dynamic_resources.push(DynamicResource::new());
        proof {
            assert forall|d: int, w: int|
                0 <= d < self.dynamic_resources@.len() && 0 <= w < self.dynamic_resources@[d].users@.len()
                    implies #[trigger] self.dynamic_resources@[d].users@[w] < self.tree.node_list().len() by {
                assert(d < old(self).dynamic_resources@.len());
                assert(self.dynamic_resources@[d] == old(self).dynamic_resources@[d]);
            }
        }
        GuiResourceId::new_dyn(image_index, image_dyn_index)
    }

    /// Adds a text that never changes.
    pub fn static_text(&mut self, text: T) -> (id: GuiResourceId<T>)
        requires
            old(self).text@.len() < u32::MAX,
        ensures
            final(self).text@ == old(self).text@.push(text),
            id.value == old(self).text@.len(),
            id.dynamic_id == u32::MAX,
            final(self).tree == old(self).tree,
            final(self).images == old(self).images,
            final(self).dynamic_resources == old(self).dynamic_resources,
    {
        self.text.push(text);
        GuiResourceId::new(self.text.len() - 1)
    }

    /// Adds a text that can change, starting as `empty`.
    pub fn dyn_static_text(&mut self, empty: T) -> (id: GuiResourceId<T>)
        requires
            old(self).wf(),
            old(self).text@.len() < u32::MAX,
            old(self).dynamic_resources@.len() < u32::MAX,
        ensures
            final(self).wf(),
            final(self).text@ == old(self).text@.push(empty),
            final(self).dynamic_resources@.len() == old(self).dynamic_resources@.len() + 1,
            final(self).dynamic_resources@.last().users@.len() == 0,
            forall|d: int| 0 <= d < old(self).dynamic_resources@.len() ==> #[trigger] final(self).dynamic_resources@[d] == old(self).dynamic_resources@[d],
            id.value == old(self).text@.len(),
            id.dynamic_id == old(self).dynamic_resources@.len(),
            final(self).tree == old(self).tree,
            final(self).images == old(self).images,
    {
        let text_index = self.text.len();
        let text_dyn_index = self.dynamic_resources.len();
        self.text.push(empty);
        self.dynamic_resources.push(DynamicResource::new());
        proof {
            assert forall|d: int, w: int|
                0 <= d < self.dynamic_resources@.len() && 0 <= w < self.dynamic_resources@[d].users@.len()
                    implies #[trigger] self.dynamic_resources@[d].users@[w] < self.tree.node_list().len() by {
                assert(d < old(self).dynamic_resources@.len());
                assert(self.dynamic_resources@[d] == old(self).dynamic_resources@[d]);
            }
        }
        GuiResourceId::new_dyn(text_index, text_dyn_index)
    }
}

} // verus!

verus! {

/// The nodes after the top-level components that show the users of `d` are marked dirty.
pub open spec fn retagged<I, T>(old_gui: &Gui<I, T>, new_nodes: Seq<GuiNode>, d: int) -> bool {
    &&& new_nodes.len() == old_gui.tree.node_list().len()
    &&& forall|k: int|
        0 <= k < new_nodes.len() ==> #[trigger] new_nodes[k] == (GuiNode {
            dirty: old_gui.tree.node_list()[k].dirty || tagged(
                old_gui.tree.node_list(),
                old_gui.dynamic_resources@[d].users@,
                k,
            ),
            ..old_gui.tree.node_list()[k]
        })
}

impl<I, T> Gui<I, T> {
    /// Opens a component that holds the components added until it is closed.
    pub fn open_component(&mut self) -> (index: usize)
        requires
            old(self).wf(),
            old(self).tree.node_list().len() + 1 < u32::MAX,
        ensures
            final(self).wf(),
            index == old(self).tree.node_list().len(),
            final(self).tree.node_list() == old(self).tree.node_list().push(
                fresh_node(old(self).tree.current_root(), old(self).tree.node_list().len() as int),
            ),
            final(self).tree.open_frames().len() == old(self).tree.open_frames().len() + 1,
            final(self).images == old(self).images,
            final(self).text == old(self).text,
            final(self).dynamic_resources == old(self).dynamic_resources,
    {
        self.tree.open_node()
    }

    /// Closes the innermost open component.
    pub fn close_component(&mut self) -> (index: usize)
        requires
            old(self).wf(),
            old(self).tree.open_frames().len() > 0,
        ensures
            final(self).wf(),
            index == old(self).tree.open_frames().last().index,
            final(self).tree.node_list().len() == old(self).tree.node_list().len(),
            final(self).tree.node_list()[index as int].children_count == old(self).tree.open_frames().last().children_count,
            final(self).tree.node_list()[index as int].descendants_count == old(self).tree.open_frames().last().descendants_count,
            final(self).tree.open_frames().len() == old(self).tree.open_frames().len() - 1,
            final(self).tree.node_list()[index as int].descendants_count == old(self).tree.node_list().len() - index - 1,
            forest(final(self).tree.node_list(), index + 1, old(self).tree.node_list().len() as int) == Some(
                final(self).tree.node_list()[index as int].children_count as nat,
            ),
            forall|k: int|
                index <= k < old(self).tree.node_list().len() ==> #[trigger] final(self).tree.node_list()[k].root_index
                    == old(self).tree.open_frames()[0].index,
            final(self).images == old(self).images,
            final(self).text == old(self).text,
            final(self).dynamic_resources == old(self).dynamic_resources,
    {
        self.tree.close_node()
    }

    /// Adds a component without children. When it shows a resource that can
    /// change, it is listed among the users of that resource.
    pub fn add_component(&mut self, dyn_index: Option<usize>) -> (index: usize)
        requires
            old(self).wf(),
            old(self).tree.node_list().len() + 1 < u32::MAX,
            dyn_index matches Some(d) ==> d < old(self).dynamic_resources@.len(),
        ensures
            final(self).wf(),
            index == old(self).tree.node_list().len(),
            final(self).tree.node_list() == old(self).tree.node_list().push(
                fresh_node(old(self).tree.current_root(), old(self).tree.node_list().len() as int),
            ),
            final(self).tree.open_frames().len() == old(self).tree.open_frames().len(),
            final(self).dynamic_resources@.len() == old(self).dynamic_resources@.len(),
            forall|d: int|
                0 <= d < old(self).dynamic_resources@.len() ==> #[trigger] final(self).dynamic_resources@[d].users@
                    == (if dyn_index matches Some(e) && e as int == d {
                        old(self).dynamic_resources@[d].users@.push(index as u32)
                    } else {
                        old(self).dynamic_resources@[d].users@
                    }),
            final(self).images == old(self).images,
            final(self).text == old(self).text,
    {
        let index = self.tree.len();
        let ghost old_dyn = self.dynamic_resources@;
        match dyn_index {
            Some(d) => {
                let mut users = self.dynamic_resources[d].users.clone();
                assert(users@ == old_dyn[d as int].users@);
                users.push(index as u32);
                self.dynamic_resources.set(d, DynamicResource { users });
            },
            None => {},
        }
        proof {
            assert forall|d: int|
                0 <= d < old_dyn.len() implies #[trigger] self.dynamic_resources@[d].users@
                    == (if dyn_index matches Some(e) && e as int == d {
                        old_dyn[d].users@.push(index as u32)
                    } else {
                        old_dyn[d].users@
                    }) by {
                if let Some(e) = dyn_index {
                    if e as int == d {
                    } else {
                        assert(self.dynamic_resources@[d] == old_dyn[d]);
                    }
                } else {
                    assert(self.dynamic_resources@[d] == old_dyn[d]);
                }
            }
        }
        let i = self.tree.add_leaf();
        proof {
            assert forall|d: int, w: int|
                0 <= d < self.dynamic_resources@.len() && 0 <= w < self.dynamic_resources@[d].users@.len()
                    implies #[trigger] self.dynamic_resources@[d].users@[w] < self.tree.node_list().len() by {
                if dyn_index matches Some(e) && e as int == d {
                    if w < old_dyn[d].users@.len() {
                        assert(self.dynamic_resources@[d].users@[w] == old_dyn[d].users@[w]);
                    }
                } else {
                    assert(self.dynamic_resources@[d].users@[w] == old_dyn[d].users@[w]);
                }
            }
        }
        i
    }

    fn tag_dynamic_resource(&mut self, resource_index: usize)
        requires
            old(self).wf(),
            resource_index < old(self).dynamic_resources@.len(),
        ensures
            final(self).wf(),
            retagged(old(self), final(self).tree.node_list(), resource_index as int),
            final(self).tree.open_frames() == old(self).tree.open_frames(),
            final(self).tree.current_root() == old(self).tree.current_root(),
            final(self).images == old(self).images,
            final(self).text == old(self).text,
            final(self).dynamic_resources == old(self).dynamic_resources,
            final(self).update_flags == old(self).update_flags,
    {
        let users = &self.dynamic_resources[resource_index].users;
        self.tree.tag_roots(users);
    }

    /// Replaces an image that can change, and marks its users for a new layout.
    /// Ids out of range are ignored.
    pub fn set_image(&mut self, image_id: GuiResourceId<I>, image: I)
        requires
            old(self).wf(),
        ensures
            final(self).wf(),
            ({
                let i = image_id.value as int;
                let d = image_id.dynamic_id as int;
                if i >= old(self).images@.len() || d >= old(self).dynamic_resources@.len() {
                    *final(self) == *old(self)
                } else {
                    &&& final(self).images@ == old(self).images@.update(i, image)
                    &&& retagged(old(self), final(self).tree.node_list(), d)
                    &&& final(self).update_flags.0 == ALL
                    &&& final(self).text == old(self).text
                    &&& final(self).dynamic_resources == old(self).dynamic_resources
                }
            }),
    {
        let image_index = image_id.index();
        let dyn_index = image_id.dyn_index();
        if image_index >= self.images.len() || dyn_index >= self.dynamic_resources.len() {
            return;
        }
        self.images.set(image_index, image);
        self.tag_dynamic_resource(dyn_index);
        self.update_flags.set(ALL);
    }

    /// Empties an image that can change, and marks its users for a new layout.
    /// Ids out of range are ignored.
    pub fn clear_image(&mut self, image_id: GuiResourceId<I>, empty: I)
        requires
            old(self).wf(),
        ensures
            final(self).wf(),
            ({
                let i = image_id.value as int;
                let d = image_id.dynamic_id as int;
                if i >= old(self).images@.len() || d >= old(self).dynamic_resources@.len() {
                    *final(self) == *old(self)
                } else {
                    &&& final(self).images@ == old(self).images@.update(i, empty)
                    &&& retagged(old(self), final(self).tree.node_list(), d)
                    &&& final(self).update_flags == old(self).update_flags
                    &&& final(self).text == old(self).text
                    &&& final(self).dynamic_resources == old(self).dynamic_resources
                }
            }),
    {
        let image_index = image_id.index();
        let dyn_index = image_id.dyn_index();
        if image_index >= self.images.len() || dyn_index >= self.dynamic_resources.len() {
            return;
        }
        self.images.set(image_index, empty);
        self.tag_dynamic_resource(dyn_index);
    }

    /// Replaces a text that can change, and marks its users for a new layout.
    /// Ids out of range are ignored.
    pub fn set_text(&mut self, text_id: GuiResourceId<T>, text: T)
        requires
            old(self).wf(),
        ensures
            final(self).wf(),
            ({
                let i = text_id.value as int;
                let d = text_id.dynamic_id as int;
                if i >= old(self).text@.len() || d >= old(self).dynamic_resources@.len() {
                    *final(self) == *old(self)
                } else {
                    &&& final(self).text@ == old(self).text@.update(i, text)
                    &&& retagged(old(self), final(self).tree.node_list(), d)
                    &&& final(self).update_flags == old(self).update_flags
                    &&& final(self).images == old(self).images
                    &&& final(self).dynamic_resources == old(self).dynamic_resources
                }
            }),
    {
        let text_index = text_id.index();
        let dyn_index = text_id.dyn_index();
        if text_index >= self.text.len() || dyn_index >= self.dynamic_resources.len() {
            return;
        }
        self.text.set(text_index, text);
        self.tag_dynamic_resource(dyn_index);
    }

    /// Empties a text that can change, and marks its users for a new layout.
    /// Ids out of range are ignored.
    pub fn clear_text(&mut self, text_id: GuiResourceId<T>, empty: T)
        requires
            old(self).wf(),
        ensures
            final(self).wf(),
            ({
                let i = text_id.value as int;
                let d = text_id.dynamic_id as int;
                if i >= old(self).text@.len() || d >= old(self).dynamic_resources@.len() {
                    *final(self) == *old(self)
                } else {
                    &&& final(self).text@ == old(self).text@.update(i, empty)
                    &&& retagged(old(self), final(self).tree.node_list(), d)
                    &&& final(self).update_flags == old(self).update_flags
                    &&& final(self).images == old(self).images
                    &&& final(self).dynamic_resources == old(self).dynamic_resources
                }
            }),
    {
        let text_index = text_id.index();
        let dyn_index = text_id.dyn_index();
        if text_index >= self.text.len() || dyn_index >= self.dynamic_resources.len() {
            return;
        }
        self.text.set(text_index, empty);
        self.tag_dynamic_resource(dyn_index);
    }

    /// After a successful build, only the positions are left to compute:
    /// the sizes were computed while building.
    pub fn finish_build(&mut self)
        ensures
            final(self).update_flags.0 == COMPUTE_LAYOUT_POSITIONS,
            final(self).tree == old(self).tree,
            final(self).images == old(self).images,
            final(self).text == old(self).text,
            final(self).dynamic_resources == old(self).dynamic_resources,
    {
        self.update_flags.set(COMPUTE_LAYOUT_POSITIONS);
    }

    /// After a new view size, every pass must run again if there is anything to lay out.
    pub fn mark_resized(&mut self)
        ensures
            final(self).update_flags.0 == (if old(self).tree.node_list().len() > 0 { ALL } else { old(self).update_flags.0 }),
            final(self).tree == old(self).tree,
            final(self).images == old(self).images,
            final(self).text == old(self).text,
            final(self).dynamic_resources == old(self).dynamic_resources,
    {
        if self.tree.len() > 0 {
            self.update_flags.set(ALL);
        }
    }

    /// After the sprites were generated, nothing is left to compute.
    pub fn finish_sprites(&mut self)
        ensures
            final(self).update_flags.0 == 0,
            final(self).tree == old(self).tree,
            final(self).images == old(self).images,
            final(self).text == old(self).text,
            final(self).dynamic_resources == old(self).dynamic_resources,
    {
        self.update_flags.clear();
    }
}

/// Whether `e` is a single gui error with message `message`.
pub open spec fn gui_error(e: Error, message: Seq<char>) -> bool {
    &&& e.inner.ty == ErrorType::Undefined
    &&& e.inner.message@ == message
    &&& e.inner.chained is None
}

/// The message of the error for a component showing a text the gui lacks.
pub open spec fn unknown_text_message(id: u32) -> Seq<char> {
    "Unknown "@ + "text"@ + " with ID "@ + decimal(id as nat) + " in gui"@
}

/// The message of the error for a component showing an image the gui lacks.
pub open spec fn unknown_image_message(id: u32) -> Seq<char> {
    "Unknown "@ + "image"@ + " with ID "@ + decimal(id as nat) + " in gui"@
}

/// Whether `new` is `old` with a component without children added at
/// `index`, listed among the users of resource `dyn_index` if any.
pub open spec fn leaf_added<I, T>(old: Gui<I, T>, new: Gui<I, T>, index: usize, dyn_index: Option<usize>) -> bool {
    &&& new.wf()
    &&& index == old.tree.node_list().len()
    &&& new.tree.node_list() == old.tree.node_list().push(fresh_node(old.tree.current_root(), old.tree.node_list().len() as int))
    &&& new.tree.open_frames().len() == old.tree.open_frames().len()
    &&& new.dynamic_resources@.len() == old.dynamic_resources@.len()
    &&& forall|d: int|
        0 <= d < old.dynamic_resources@.len() ==> #[trigger] new.dynamic_resources@[d].users@ == (if dyn_index
            matches Some(e) && e as int == d {
            old.dynamic_resources@[d].users@.push(index as u32)
        } else {
            old.dynamic_resources@[d].users@
        })
    &&& new.images == old.images
    &&& new.text == old.text
}

/// The resource slot of the users of a resource that can change, if it can.
pub open spec fn users_slot<R>(id: GuiResourceId<R>) -> Option<usize> {
    if id.dynamic_id != u32::MAX { Some(id.dynamic_id as usize) } else { None }
}

fn unknown_resource_error(kind: &str, id: u32) -> (e: Error)
    ensures
        e.inner.ty == ErrorType::Undefined,
        e.inner.message@ == "Unknown "@ + kind@ + " with ID "@ + decimal(id as nat) + " in gui"@,
        e.inner.chained is None,
{
    let mut message = "Unknown ".to_string();
    message.append(kind);
    message.append(" with ID ");
    push_decimal(&mut message, id);
    message.append(" in gui");
    Error::new(ErrorType::Undefined, "src/gui/mod.rs", 612, message)
}

impl<I, T> Gui<I, T> {
    /// Adds a label showing the text `text_id`. A text the gui lacks adds no
    /// component and records an error in `error`, which fails the build.
    pub fn label(&mut self, text_id: &GuiResourceId<T>, error: &mut Option<Error>) -> (r: Option<usize>)
        requires
            old(self).wf(),
            old(self).tree.node_list().len() + 1 < u32::MAX,
            users_slot(*text_id) matches Some(d) ==> d < old(self).dynamic_resources@.len(),
        ensures
            r is Some <==> text_id.value < old(self).text@.len(),
            r matches Some(i) ==> leaf_added(*old(self), *final(self), i, users_slot(*text_id)) && *final(error)
                == *old(error),
            r is None ==> *final(self) == *old(self) && exists|e: Error|
                gui_error(e, unknown_text_message(text_id.value)) && #[trigger] merged(*old(error), e, *final(error)),
    {
        if text_id.index() >= self.text.len() {
            let e = unknown_resource_error("text", text_id.value);
            assert(e.inner.message@ == unknown_text_message(text_id.value));
            let ghost e_view = e;
            merge_error(error, e);
            assert(merged(*old(error), e_view, *error));
            return None;
        }
        let d = if text_id.is_dyn() { Some(text_id.dyn_index()) } else { None };
        Some(self.add_component(d))
    }

    /// Adds a component showing the image `image_id`. An image the gui lacks
    /// adds no component and records an error in `error`, which fails the build.
    pub fn image_display(&mut self, image_id: &GuiResourceId<I>, error: &mut Option<Error>) -> (r: Option<usize>)
        requires
            old(self).wf(),
            old(self).tree.node_list().len() + 1 < u32::MAX,
            users_slot(*image_id) matches Some(d) ==> d < old(self).dynamic_resources@.len(),
        ensures
            r is Some <==> image_id.value < old(self).images@.len(),
            r matches Some(i) ==> leaf_added(*old(self), *final(self), i, users_slot(*image_id)) && *final(error)
                == *old(error),
            r is None ==> *final(self) == *old(self) && exists|e: Error|
                gui_error(e, unknown_image_message(image_id.value)) && #[trigger] merged(*old(error), e, *final(error)),
    {
        if image_id.index() >= self.images.len() {
            let e = unknown_resource_error("image", image_id.value);
            assert(e.inner.message@ == unknown_image_message(image_id.value));
            let ghost e_view = e;
            merge_error(error, e);
            assert(merged(*old(error), e_view, *error));
            return None;
        }
        let d = if image_id.is_dyn() { Some(image_id.dyn_index()) } else { None };
        Some(self.add_component(d))
    }

    /// Ends a build: a build that recorded an error leaves the gui empty and
    /// fails with that error; otherwise only the positions are left to compute.
    pub fn end_build(&mut self, error: Option<Error>) -> (r: Result<(), Error>)
        ensures
            error is None ==> r is Ok && final(self).update_flags.0 == COMPUTE_LAYOUT_POSITIONS && final(self).tree
                == old(self).tree && final(self).images == old(self).images && final(self).text == old(self).text
                && final(self).dynamic_resources == old(self).dynamic_resources,
            error matches Some(e) ==> r == Err::<(), Error>(e) && final(self).wf() && final(self).tree.node_list().len()
                == 0 && final(self).images@.len() == 0 && final(self).text@.len() == 0
                && final(self).dynamic_resources@.len() == 0 && final(self).update_flags.0 == ALL,
    {
        match error {
            Some(e) => {
                self.clear();
                Err(e)
            },
            None => {
                self.finish_build();
                Ok(())
            },
        }
    }
}

} // verus!
