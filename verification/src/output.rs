//! What the game hands to the engine each frame: draw commands, batches of
//! sprites per texture, and the index buffer of the gui.
use vstd::prelude::*;
use crate::assets::terrain::TerrainCell;
use crate::flags::{has_flag, DemoGameFlags, SYNC_TERRAIN};
use crate::gui::layout::GuiOutputSprite;
use crate::shapes::AABB;

verus! {

/// The engine module that processes a draw update.
#[derive(Debug, Clone, Copy, PartialEq, Eq, Structural)]
pub enum DrawUpdateType {
    Undefined,
    DrawSprites,
    UpdateTerrainChunk,
    DrawTerrainChunk,
    UpdateViewOffset,
    UpdateGui,
    DrawProjectileSprites,
    DrawDebugInfo,
}

/// The number the engine knows a draw update type by.
pub open spec fn draw_update_code(t: DrawUpdateType) -> u32 {
    match t {
        DrawUpdateType::Undefined => 0,
        DrawUpdateType::DrawSprites => 1,
        DrawUpdateType::UpdateTerrainChunk => 2,
        DrawUpdateType::DrawTerrainChunk => 3,
        DrawUpdateType::UpdateViewOffset => 4,
        DrawUpdateType::UpdateGui => 5,
        DrawUpdateType::DrawProjectileSprites => 6,
        DrawUpdateType::DrawDebugInfo => 7,
    }
}

impl DrawUpdateType {
    /// The number the engine knows this type by.
    pub fn code(&self) -> (c: u32)
        ensures
            c == draw_update_code(*self),
    {
        match self {
            DrawUpdateType::Undefined => 0,
            DrawUpdateType::DrawSprites => 1,
            DrawUpdateType::UpdateTerrainChunk => 2,
            DrawUpdateType::DrawTerrainChunk => 3,
            DrawUpdateType::UpdateViewOffset => 4,
            DrawUpdateType::UpdateGui => 5,
            DrawUpdateType::DrawProjectileSprites => 6,
            DrawUpdateType::DrawDebugInfo => 7,
        }
    }
}

/// A run of sprites that share a texture.
#[derive(Debug, Clone, Copy, PartialEq, Eq, Structural)]
pub struct DrawSpriteParams {
    pub instance_base: u32,
    pub instance_count: u32,
    pub texture_id: u32,
}

/// A terrain chunk to send again, and where its cells start in the terrain buffer.
#[derive(Debug, Clone, Copy, PartialEq, Eq, Structural)]
pub struct UpdateTerrainChunkParams {
    pub chunk_id: u32,
    pub chunk_data_offset: u32,
}

/// The size of the gui mesh.
#[derive(Debug, Clone, Copy, PartialEq, Eq, Structural)]
pub struct UpdateGuiParams {
    pub indices_count: u32,
    pub vertex_count: u32,
}

/// The debug pass takes no parameter.
#[derive(Debug, Clone, Copy, PartialEq, Eq, Structural)]
pub struct DrawDebugParams;

/// `batches` cut the sprites, in order, into maximal runs of one texture.
/// With no sprite, there is a single empty run on texture 0.
pub open spec fn batches_of(ids: Seq<u32>, batches: Seq<DrawSpriteParams>) -> bool {
    &&& batches.len() >= 1
    &&& batches[0].instance_base == 0
    &&& batches[0].texture_id == (if ids.len() == 0 { 0 } else { ids[0] })
    &&& batches.last().instance_base + batches.last().instance_count == ids.len()
    &&& forall|k: int|
        0 <= k < batches.len() - 1 ==> #[trigger] batches[k + 1].instance_base == batches[k].instance_base
            + batches[k].instance_count && batches[k + 1].texture_id != batches[k].texture_id
            && batches[k + 1].instance_count > 0
    &&& forall|k: int, i: int|
        0 <= k < batches.len() && batches[k].instance_base <= i < batches[k].instance_base
            + batches[k].instance_count ==> #[trigger] ids[i] == #[trigger] batches[k].texture_id
}

/// Cuts the sprites, listed by texture and in drawing order, into runs that
/// one draw call each can render.
pub fn batch_sprites(texture_ids: &Vec<u32>) -> (r: Vec<DrawSpriteParams>)
    requires
        texture_ids@.len() < u32::MAX,
    ensures
        batches_of(texture_ids@, r@),
{
    let ids = texture_ids;
    let first = if ids.len() > 0 { ids[0] } else { 0 };
    let mut current = DrawSpriteParams { instance_base: 0, instance_count: 0, texture_id: first };
    let mut out: Vec<DrawSpriteParams> = Vec::new();
    let mut i: usize = 0;
    while i < ids.len()
        invariant
            i <= ids@.len(),
            ids@.len() < u32::MAX,
            current.instance_base + current.instance_count == i,
            i > 0 ==> current.instance_count > 0,
            i > 0 ==> ids@[i - 1] == current.texture_id,
            i == 0 && ids@.len() > 0 ==> current.texture_id == ids@[0],
            ({
                let all = out@.push(current);
                &&& all[0].instance_base == 0
                &&& all[0].texture_id == (if ids@.len() == 0 { 0 } else { ids@[0] })
                &&& forall|k: int|
                    0 <= k < all.len() - 1 ==> #[trigger] all[k + 1].instance_base == all[k].instance_base
                        + all[k].instance_count && all[k + 1].texture_id != all[k].texture_id
                        && all[k + 1].instance_count > 0
                &&& forall|k: int, j: int|
                    0 <= k < all.len() && all[k].instance_base <= j < all[k].instance_base
                        + all[k].instance_count ==> #[trigger] ids@[j] == #[trigger] all[k].texture_id
            }),
        decreases ids@.len() - i,
    {
        let id = ids[i];
        let ghost before = out@.push(current);
        let ghost c0 = current;
        if id != current.texture_id {
            out.push(current);
            current = DrawSpriteParams {
                instance_base: i as u32,
                instance_count: 0,
                texture_id: id,
            };
        }
        current.instance_count = current.instance_count + 1;
        proof {
            let all = out@.push(current);
            if id != c0.texture_id {
                assert(i > 0);
                assert(all.len() == before.len() + 1);
                assert forall|k: int| 0 <= k < before.len() implies #[trigger] all[k] == before[k] by {}
                assert forall|k: int, j: int|
                    0 <= k < all.len() && all[k].instance_base <= j < all[k].instance_base
                        + all[k].instance_count implies #[trigger] ids@[j] == #[trigger] all[k].texture_id by {
                    if k < before.len() {
                        assert(all[k] == before[k]);
                    }
                }
                assert forall|k: int|
                    0 <= k < all.len() - 1 implies #[trigger] all[k + 1].instance_base == all[k].instance_base
                        + all[k].instance_count && all[k + 1].texture_id != all[k].texture_id
                        && all[k + 1].instance_count > 0 by {
                    if k + 1 < before.len() {
                        assert(all[k] == before[k]);
                        assert(all[k + 1] == before[k + 1]);
                    } else {
                        assert(all[k] == before.last());
                    }
                }
            } else {
                assert(all.len() == before.len());
                assert forall|k: int| 0 <= k < before.len() - 1 implies #[trigger] all[k] == before[k] by {}
                assert forall|k: int, j: int|
                    0 <= k < all.len() && all[k].instance_base <= j < all[k].instance_base
                        + all[k].instance_count implies #[trigger] ids@[j] == #[trigger] all[k].texture_id by {
                    if k < before.len() - 1 {
                        assert(all[k] == before[k]);
                    } else if j < i {
                        assert(before[k] == c0);
                        assert(ids@[j] == before[k].texture_id);
                    }
                }
                assert forall|k: int|
                    0 <= k < all.len() - 1 implies #[trigger] all[k + 1].instance_base == all[k].instance_base
                        + all[k].instance_count && all[k + 1].texture_id != all[k].texture_id
                        && all[k + 1].instance_count > 0 by {
                    assert(all[k] == before[k]);
                    if k + 1 < before.len() - 1 {
                        assert(all[k + 1] == before[k + 1]);
                    } else {
                        assert(before[k + 1] == c0);
                    }
                }
            }
        }
        i = i + 1;
    }
    out.push(current);
    out
}

/// The draw command of the projectiles (arrows), drawn from the static
/// resources texture `texture_id`: none when there is no projectile,
/// otherwise one run of all `total_sprites` projectile sprites.
pub fn projectile_draw_command(total_sprites: usize, texture_id: u32) -> (r: Option<DrawSpriteParams>)
    ensures
        r == (if total_sprites == 0 {
            None
        } else {
            Some(DrawSpriteParams { instance_base: 0, instance_count: total_sprites as u32, texture_id })
        }),
{
    if total_sprites == 0 {
        return None;
    }
    Some(DrawSpriteParams { instance_base: 0, instance_count: total_sprites as u32, texture_id })
}

/// The index of the `j`-th corner of the two triangles of quad `k`.
pub open spec fn quad_index(k: int, j: int) -> int {
    4 * k + if j == 0 || j == 4 {
        0int
    } else if j == 1 || j == 5 {
        3int
    } else if j == 2 {
        2int
    } else {
        1int
    }
}

/// The index buffer of `count` quads of four vertices each: two triangles per quad.
pub fn gui_quad_indices(count: usize) -> (r: Vec<u16>)
    requires
        count < 16384,
    ensures
        r@.len() == 6 * count,
        forall|k: int, j: int| 0 <= k < count && 0 <= j < 6 ==> #[trigger] r@[6 * k + j] == quad_index(k, j),
{
    let mut r: Vec<u16> = Vec::new();
    let mut v: u16 = 0;
    let mut k: usize = 0;
    while k < count
        invariant
            k <= count < 16384,
            v == 4 * k,
            r@.len() == 6 * k,
            forall|a: int, j: int| 0 <= a < k && 0 <= j < 6 ==> #[trigger] r@[6 * a + j] == quad_index(a, j),
        decreases count - k,
    {
        let ghost before = r@;
        r.push(v);
        r.push(v + 3);
        r.push(v + 2);
        r.push(v + 1);
        r.push(v);
        r.push(v + 3);
        proof {
            assert forall|a: int, j: int| 0 <= a < k + 1 && 0 <= j < 6 implies #[trigger] r@[6 * a + j] == quad_index(a, j) by {
                if a < k {
                    assert(r@[6 * a + j] == before[6 * a + j]);
                }
            }
        }
        v = v + 4;
        k = k + 1;
    }
    r
}

/// The size of the gui mesh for `count` quads.
pub fn gui_mesh_params(count: usize) -> (p: UpdateGuiParams)
    requires
        count < 16384,
    ensures
        p.indices_count == 6 * count,
        p.vertex_count == 4 * count,
{
    UpdateGuiParams { indices_count: (6 * count) as u32, vertex_count: (4 * count) as u32 }
}

/// A vertex of the gui mesh: where it is drawn, where it reads the gui
/// texture, and its color, whose last byte holds the rendering flags.
#[derive(Debug, Clone, Copy)]
pub struct GuiVertex<N> {
    pub position: [N; 2],
    pub texcoord: [N; 2],
    pub color: [u8; 4],
}

/// Corner `c` of a box: 0 top left, 1 top right, 2 bottom left, 3 bottom right.
pub open spec fn box_corner<N>(b: AABB<N>, c: int) -> Seq<N> {
    seq![if c == 1 || c == 3 { b.right } else { b.left }, if c >= 2 { b.bottom } else { b.top }]
}

/// `v` is corner `c` of the quad of sprite `s`.
pub open spec fn is_sprite_corner<N>(v: GuiVertex<N>, s: GuiOutputSprite<N>, c: int) -> bool {
    &&& v.position@ == box_corner(s.positions, c)
    &&& v.texcoord@ == box_corner(s.texcoord, c)
    &&& v.color@ == seq![s.color.r, s.color.g, s.color.b, s.flags]
}

/// `indices` and `vertex` are the gui mesh of `sprites`: one quad per sprite,
/// in order, made of its four corners and drawn as two triangles.
pub open spec fn is_gui_mesh<N>(sprites: Seq<GuiOutputSprite<N>>, indices: Seq<u16>, vertex: Seq<GuiVertex<N>>) -> bool {
    &&& indices.len() == 6 * sprites.len()
    &&& vertex.len() == 4 * sprites.len()
    &&& forall|k: int, j: int| 0 <= k < sprites.len() && 0 <= j < 6 ==> #[trigger] indices[6 * k + j] == quad_index(k, j)
    &&& forall|k: int, c: int|
        0 <= k < sprites.len() && 0 <= c < 4 ==> is_sprite_corner(#[trigger] vertex[4 * k + c], sprites[k], c)
}

fn sprite_vertex<N: Copy>(s: &GuiOutputSprite<N>, c: usize) -> (v: GuiVertex<N>)
    requires
        c < 4,
    ensures
        is_sprite_corner(v, *s, c as int),
{
    let x = if c == 1 || c == 3 { s.positions.right } else { s.positions.left };
    let y = if c >= 2 { s.positions.bottom } else { s.positions.top };
    let tx = if c == 1 || c == 3 { s.texcoord.right } else { s.texcoord.left };
    let ty = if c >= 2 { s.texcoord.bottom } else { s.texcoord.top };
    let v = GuiVertex { position: [x, y], texcoord: [tx, ty], color: [s.color.r, s.color.g, s.color.b, s.flags] };
    assert(v.position@ =~= box_corner(s.positions, c as int));
    assert(v.texcoord@ =~= box_corner(s.texcoord, c as int));
    assert(v.color@ =~= seq![s.color.r, s.color.g, s.color.b, s.flags]);
    v
}

/// Sends the gui to the engine when it changed since it was last sent
/// (`needs_sync`): the index and vertex buffers are then replaced by the
/// mesh of `sprites`, and the update command is returned when the mesh has
/// at least one quad. When the gui did not change, nothing is touched.
pub fn render_gui<N: Copy>(
    needs_sync: bool,
    sprites: &Vec<GuiOutputSprite<N>>,
    indices: &mut Vec<u16>,
    vertex: &mut Vec<GuiVertex<N>>,
) -> (r: Option<UpdateGuiParams>)
    requires
        sprites@.len() < 16384,
    ensures
        !needs_sync ==> final(indices)@ == old(indices)@ && final(vertex)@ == old(vertex)@,
        needs_sync ==> is_gui_mesh(sprites@, final(indices)@, final(vertex)@),
        r == (if needs_sync && sprites@.len() > 0 {
            Some(UpdateGuiParams { indices_count: (6 * sprites@.len()) as u32, vertex_count: (4 * sprites@.len()) as u32 })
        } else {
            None
        }),
{
    if !needs_sync {
        return None;
    }
    let n = sprites.len();
    let new_indices = gui_quad_indices(n);
    let mut new_vertex: Vec<GuiVertex<N>> = Vec::new();
    let mut k: usize = 0;
    while k < n
        invariant
            n == sprites@.len() < 16384,
            k <= n,
            new_vertex@.len() == 4 * k,
            forall|a: int, c: int|
                0 <= a < k && 0 <= c < 4 ==> is_sprite_corner(#[trigger] new_vertex@[4 * a + c], sprites@[a], c),
        decreases n - k,
    {
        let ghost before = new_vertex@;
        let mut c: usize = 0;
        while c < 4
            invariant
                n == sprites@.len(),
                k < n,
                c <= 4,
                before.len() == 4 * k,
                new_vertex@.len() == 4 * k + c,
                forall|j: int| 0 <= j < 4 * k ==> new_vertex@[j] == before[j],
                forall|j: int| 0 <= j < c ==> is_sprite_corner(#[trigger] new_vertex@[4 * k + j], sprites@[k as int], j),
            decreases 4 - c,
        {
            new_vertex.push(sprite_vertex(&sprites[k], c));
            c = c + 1;
        }
        proof {
            assert forall|a: int, c: int| 0 <= a < k + 1 && 0 <= c < 4 implies is_sprite_corner(
                #[trigger] new_vertex@[4 * a + c],
                sprites@[a],
                c,
            ) by {
                if a < k {
                    assert(new_vertex@[4 * a + c] == before[4 * a + c]);
                }
            }
        }
        k = k + 1;
    }
    *indices = new_indices;
    *vertex = new_vertex;
    if n > 0 {
        Some(gui_mesh_params(n))
    } else {
        None
    }
}

/// The frame after `current` in an animation whose last frame is `last_frame`:
/// past the last frame the animation starts over at frame 0.
pub fn next_animation_frame(current: u8, last_frame: u8) -> (f: u8)
    requires
        current < 255,
    ensures
        f == (if current + 1 <= last_frame { current + 1 } else { 0 }),
{
    let next = current + 1;
    if next <= last_frame { next } else { 0 }
}

/// The flags of a sprite for the shader: bit 0 when selected, bit 1 when flipped.
pub fn sprite_flags(selected: bool, flipped: bool) -> (d: i32)
    ensures
        d == (if selected { 1int } else { 0int }) + (if flipped { 2int } else { 0int }),
{
    let mut d: i32 = 0;
    if selected {
        d = d + 1;
    }
    if flipped {
        d = d + 2;
    }
    d
}

/// An animation frame stays within the animation.
pub proof fn lemma_frame_in_animation(current: u8, last_frame: u8)
    requires
        current < 255,
    ensures
        (if current + 1 <= last_frame { current + 1 } else { 0 }) <= last_frame,
{
}

/// The cells of the first `n` chunks that need sending again.
pub open spec fn dirty_cells(updates: Seq<bool>, counts: Seq<u32>, n: int) -> int
    decreases n,
{
    if n <= 0 {
        0
    } else {
        dirty_cells(updates, counts, n - 1) + if updates[n - 1] { counts[n - 1] as int } else { 0 }
    }
}

/// The chunk updates for the first `n` chunks: one per chunk that needs
/// sending again, in order, each starting where the cells of the previous
/// ones end, after `base` cells already in the terrain buffer.
pub open spec fn chunk_plan(updates: Seq<bool>, ids: Seq<u32>, counts: Seq<u32>, base: int, n: int) -> Seq<
    UpdateTerrainChunkParams,
>
    decreases n,
{
    if n <= 0 {
        Seq::empty()
    } else {
        let p = chunk_plan(updates, ids, counts, base, n - 1);
        if updates[n - 1] {
            p.push(
                UpdateTerrainChunkParams {
                    chunk_id: ids[n - 1],
                    chunk_data_offset: (base + dirty_cells(updates, counts, n - 1)) as u32,
                },
            )
        } else {
            p
        }
    }
}

proof fn lemma_dirty_cells_grow(updates: Seq<bool>, counts: Seq<u32>, n: int, m: int)
    requires
        0 <= n <= m,
    ensures
        dirty_cells(updates, counts, n) <= dirty_cells(updates, counts, m),
    decreases m - n,
{
    if n < m {
        lemma_dirty_cells_grow(updates, counts, n, m - 1);
    }
}

/// The terrain chunks to send to the engine again: for each chunk whose
/// update flag is set, in order, its id and where its cells start in the
/// terrain buffer, which already holds `base` cells; chunk `i` has
/// `counts[i]` cells. Every flag is cleared.
pub fn terrain_chunk_updates(updates: &mut Vec<bool>, ids: &Vec<u32>, counts: &Vec<u32>, base: u32) -> (r: Vec<
    UpdateTerrainChunkParams,
>)
    requires
        ids@.len() == old(updates)@.len(),
        counts@.len() == old(updates)@.len(),
        base + dirty_cells(old(updates)@, counts@, old(updates)@.len() as int) <= u32::MAX,
    ensures
        r@ == chunk_plan(old(updates)@, ids@, counts@, base as int, old(updates)@.len() as int),
        final(updates)@.len() == old(updates)@.len(),
        forall|i: int| 0 <= i < final(updates)@.len() ==> !#[trigger] final(updates)@[i],
{
    let ghost u = updates@;
    let mut r: Vec<UpdateTerrainChunkParams> = Vec::new();
    let mut offset: u32 = base;
    let mut i: usize = 0;
    while i < updates.len()
        invariant
            updates@.len() == u.len(),
            ids@.len() == u.len(),
            counts@.len() == u.len(),
            i <= u.len(),
            base + dirty_cells(u, counts@, u.len() as int) <= u32::MAX,
            offset == base + dirty_cells(u, counts@, i as int),
            r@ == chunk_plan(u, ids@, counts@, base as int, i as int),
            forall|j: int| i <= j < u.len() ==> #[trigger] updates@[j] == u[j],
            forall|j: int| 0 <= j < i ==> !#[trigger] updates@[j],
        decreases u.len() - i,
    {
        if updates[i] {
            proof {
                lemma_dirty_cells_grow(u, counts@, i + 1, u.len() as int);
            }
            r.push(UpdateTerrainChunkParams { chunk_id: ids[i], chunk_data_offset: offset });
            offset = offset + counts[i];
            updates.set(i, false);
        }
        i = i + 1;
    }
    r
}

/// How many cells each chunk has.
pub open spec fn cell_counts(chunk_cells: Seq<Vec<TerrainCell>>) -> Seq<u32> {
    Seq::new(chunk_cells.len(), |i: int| chunk_cells[i]@.len() as u32)
}

/// The cells of the first `n` chunks that need sending again, chunk after
/// chunk, each chunk's cells in their own order.
pub open spec fn dirty_chunk_cells(updates: Seq<bool>, chunk_cells: Seq<Vec<TerrainCell>>, n: int) -> Seq<TerrainCell>
    decreases n,
{
    if n <= 0 {
        Seq::empty()
    } else {
        dirty_chunk_cells(updates, chunk_cells, n - 1) + if updates[n - 1] {
            chunk_cells[n - 1]@
        } else {
            Seq::empty()
        }
    }
}

proof fn lemma_dirty_cells_count(updates: Seq<bool>, chunk_cells: Seq<Vec<TerrainCell>>, n: int)
    requires
        0 <= n <= updates.len(),
        updates.len() == chunk_cells.len(),
        dirty_chunk_cells(updates, chunk_cells, n).len() <= u32::MAX,
    ensures
        dirty_cells(updates, cell_counts(chunk_cells), n) == dirty_chunk_cells(updates, chunk_cells, n).len(),
    decreases n,
{
    if n > 0 {
        lemma_dirty_cells_count(updates, chunk_cells, n - 1);
    }
}

proof fn lemma_dirty_chunk_cells_grow(updates: Seq<bool>, chunk_cells: Seq<Vec<TerrainCell>>, n: int, m: int)
    requires
        0 <= n <= m,
    ensures
        dirty_chunk_cells(updates, chunk_cells, n).len() <= dirty_chunk_cells(updates, chunk_cells, m).len(),
    decreases m - n,
{
    if n < m {
        lemma_dirty_chunk_cells_grow(updates, chunk_cells, n, m - 1);
    }
}

/// Sends the terrain to the engine when the terrain flag is set: the flag is
/// cleared, and for each chunk whose update flag is set, in order, its cells
/// are appended to the terrain buffer and its update is returned, with its id
/// and where its cells start in the buffer; every chunk flag is then cleared.
/// When the terrain flag is not set, nothing is touched.
pub fn update_terrain(
    flags: &mut DemoGameFlags,
    updates: &mut Vec<bool>,
    ids: &Vec<u32>,
    chunk_cells: &Vec<Vec<TerrainCell>>,
    terrain_data: &mut Vec<TerrainCell>,
) -> (r: Vec<UpdateTerrainChunkParams>)
    requires
        ids@.len() == old(updates)@.len(),
        chunk_cells@.len() == old(updates)@.len(),
        has_flag(old(flags).inner, SYNC_TERRAIN) ==> old(terrain_data)@.len() + dirty_chunk_cells(
            old(updates)@,
            chunk_cells@,
            old(updates)@.len() as int,
        ).len() <= u32::MAX,
    ensures
        !has_flag(old(flags).inner, SYNC_TERRAIN) ==> {
            &&& r@.len() == 0
            &&& *final(flags) == *old(flags)
            &&& final(updates)@ == old(updates)@
            &&& final(terrain_data)@ == old(terrain_data)@
        },
        has_flag(old(flags).inner, SYNC_TERRAIN) ==> {
            &&& final(flags).inner == old(flags).inner & !SYNC_TERRAIN
            &&& r@ == chunk_plan(
                old(updates)@,
                ids@,
                cell_counts(chunk_cells@),
                old(terrain_data)@.len() as int,
                old(updates)@.len() as int,
            )
            &&& final(terrain_data)@ == old(terrain_data)@ + dirty_chunk_cells(
                old(updates)@,
                chunk_cells@,
                old(updates)@.len() as int,
            )
            &&& final(updates)@.len() == old(updates)@.len()
            &&& forall|i: int| 0 <= i < final(updates)@.len() ==> !#[trigger] final(updates)@[i]
        },
{
    let mut r: Vec<UpdateTerrainChunkParams> = Vec::new();
    if !flags.get_sync_terrain() {
        return r;
    }
    flags.clear_sync_terrain();
    let ghost u = updates@;
    let ghost cells = chunk_cells@;
    let ghost start = terrain_data@;
    let ghost total = dirty_chunk_cells(u, cells, u.len() as int);
    let mut i: usize = 0;
    while i < updates.len()
        invariant
            updates@.len() == u.len(),
            ids@.len() == u.len(),
            chunk_cells@ == cells,
            cells.len() == u.len(),
            i <= u.len(),
            total == dirty_chunk_cells(u, cells, u.len() as int),
            start.len() + total.len() <= u32::MAX,
            terrain_data@ == start + dirty_chunk_cells(u, cells, i as int),
            r@ == chunk_plan(u, ids@, cell_counts(cells), start.len() as int, i as int),
            forall|j: int| i <= j < u.len() ==> #[trigger] updates@[j] == u[j],
            forall|j: int| 0 <= j < i ==> !#[trigger] updates@[j],
        decreases u.len() - i,
    {
        proof {
            lemma_dirty_chunk_cells_grow(u, cells, i as int, u.len() as int);
            lemma_dirty_chunk_cells_grow(u, cells, i + 1, u.len() as int);
            lemma_dirty_cells_count(u, cells, i as int);
        }
        if updates[i] {
            r.push(UpdateTerrainChunkParams { chunk_id: ids[i], chunk_data_offset: terrain_data.len() as u32 });
            let row = &chunk_cells[i];
            let ghost before = terrain_data@;
            let mut c: usize = 0;
            while c < row.len()
                invariant
                    c <= row@.len(),
                    terrain_data@ == before + row@.subrange(0, c as int),
                decreases row@.len() - c,
            {
                terrain_data.push(row[c]);
                c = c + 1;
                proof {
                    assert(row@.subrange(0, c as int) =~= row@.subrange(0, c - 1).push(row@[c - 1]));
                }
            }
            proof {
                assert(row@.subrange(0, row@.len() as int) =~= row@);
                assert(cells[i as int]@.len() == row@.len());
            }
            updates.set(i, false);
        }
        proof {
            assert(terrain_data@ =~= start + dirty_chunk_cells(u, cells, i + 1));
        }
        i = i + 1;
    }
    r
}

} // verus!
