//! The textures the engine was asked to load, by name.
use vstd::prelude::*;
use crate::error::{Error, ErrorType};

verus! {

/// A texture of the engine.
#[derive(Debug, Clone, Copy, PartialEq, Eq, Structural)]
pub struct Texture {
    /// The unique id of the texture, also its index in the engine's texture array.
    pub id: u32,
}

/// The textures by name, in an FNV-hashed map (`fnv::FnvHashMap`). Verus
/// does not see inside: what the map holds is named by `texture_entries`, and
/// the methods below that call the map state what they do to it.
#[verifier::external_body]
pub struct TextureTable {
    map: fnv::FnvHashMap<String, Texture>,
}

/// The id of each texture of a table, by name.
pub uninterp spec fn texture_entries(t: TextureTable) -> Map<Seq<char>, u32>;

impl TextureTable {
    /// An empty table (`FnvHashMap::default`). Claimed: no name is filed.
    #[verifier::external_body]
    pub fn new() -> (table: Self)
        ensures
            texture_entries(table).dom() == Set::<Seq<char>>::empty(),
    {
        TextureTable { map: fnv::FnvHashMap::default() }
    }

    /// The number of names in the table (`HashMap::len`). Claimed: the size
    /// of the set of names filed.
    #[verifier::external_body]
    pub fn len(&self) -> (count: usize)
        ensures
            count == texture_entries(*self).len(),
    {
        self.map.len()
    }

    /// Files texture `id` under `name`, replacing what was filed under it
    /// (`HashMap::insert`). Claimed: the entries afterwards are those before
    /// with `name` mapped to `id`.
    #[verifier::external_body]
    pub(crate) fn insert(&mut self, name: &Vec<char>, id: u32)
        ensures
            texture_entries(*final(self)) == texture_entries(*old(self)).insert(name@, id),
    {
        let key: String = name.iter().collect();
        self.map.insert(key, Texture { id });
    }

    /// The texture filed under `name`, if any (`HashMap::get`, copied).
    /// Claimed: the texture whose id is filed under `name`, or none when
    /// the name is not filed.
    #[verifier::external_body]
    pub fn get(&self, name: &str) -> (r: Option<Texture>)
        ensures
            r == (if texture_entries(*self).dom().contains(name@) {
                Some(Texture { id: texture_entries(*self)[name@] })
            } else {
                None
            }),
    {
        self.map.get(name).copied()
    }

    /// The id the next texture gets: the number of textures so far.
    pub fn next_id(&self) -> (id: u32)
        ensures
            id == texture_entries(*self).len() as u32,
    {
        self.len() as u32
    }

    /// Files the texture named in the second column of an asset index row,
    /// with the next id; a row without that column is refused.
    pub fn load_texture(&mut self, args: &Vec<Vec<char>>) -> (r: Result<(), Error>)
        ensures
            args@.len() >= 2 <==> r is Ok,
            r is Ok ==> texture_entries(*final(self)) == texture_entries(*old(self)).insert(
                args@[1]@,
                texture_entries(*old(self)).len() as u32,
            ),
            r matches Err(e) ==> assets_error(e, "Missing texture name"@) && *final(self) == *old(self),
    {
        if args.len() < 2 {
            return Err(Error::new(ErrorType::Assets, "src/assets/textures.rs", 92, "Missing texture name".to_string()));
        }
        let id = self.next_id();
        self.insert(&args[1], id);
        Ok(())
    }

    /// The textures of the units and of the static resources, which the world needs.
    pub fn world_textures(&self) -> (r: Result<(Texture, Texture), Error>)
        ensures
            r is Ok <==> texture_entries(*self).dom().contains("units"@)
                && texture_entries(*self).dom().contains("static_resources"@),
            r matches Ok((units, resources)) ==> units.id == texture_entries(*self)["units"@]
                && resources.id == texture_entries(*self)["static_resources"@],
            r matches Err(e) ==> if !texture_entries(*self).dom().contains("units"@) {
                assets_error(e, "units texture missing"@)
            } else {
                assets_error(e, "static_resources texture missing"@)
            },
    {
        let units = match self.get("units") {
            Some(t) => t,
            None => {
                return Err(Error::new(ErrorType::Assets, "src/assets/textures.rs", 115, "units texture missing".to_string()));
            },
        };
        let resources = match self.get("static_resources") {
            Some(t) => t,
            None => {
                return Err(
                    Error::new(ErrorType::Assets, "src/assets/textures.rs", 122, "static_resources texture missing".to_string()),
                );
            },
        };
        Ok((units, resources))
    }
}

/// Whether `e` is a single assets error with message `message`.
pub open spec fn assets_error(e: Error, message: Seq<char>) -> bool {
    &&& e.inner.ty == ErrorType::Assets
    &&& e.inner.message@ == message
    &&& e.inner.chained is None
}

/// The ids of a table are unique and are the positions `0..len` of the
/// textures in the engine's texture array.
pub open spec fn ids_unique(m: Map<Seq<char>, u32>) -> bool {
    &&& m.dom().finite()
    &&& forall|k: Seq<char>| #[trigger] m.dom().contains(k) ==> m[k] < m.len()
    &&& forall|k1: Seq<char>, k2: Seq<char>|
        #[trigger] m.dom().contains(k1) && #[trigger] m.dom().contains(k2) && k1 != k2 ==> m[k1] != m[k2]
}

/// Filing a texture under a new name with the next id keeps the ids unique.
pub proof fn lemma_new_texture_keeps_ids_unique(m: Map<Seq<char>, u32>, name: Seq<char>)
    requires
        ids_unique(m),
        !m.dom().contains(name),
        m.len() < u32::MAX,
    ensures
        ids_unique(m.insert(name, m.len() as u32)),
{
    let n = m.insert(name, m.len() as u32);
    assert(n.dom() =~= m.dom().insert(name));
    assert(n.len() == m.len() + 1);
}

} // verus!
