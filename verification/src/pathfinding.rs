//! A pool of paths: each moving unit holds one path while it walks it.
use vstd::prelude::*;

verus! {

/// The progress of one unit along its path.
#[derive(Debug, Clone, Copy)]
pub struct PathFindingData<P> {
    pub next_position: P,
    pub path_id: u32,
    pub current_node_index: u32,
}

/// The points a unit walks through to reach its destination.
#[derive(Debug)]
pub struct PathfindingGraph<P> {
    pub nodes: Vec<P>,
    pub free: bool,
}

/// The paths of every unit; a freed path is reused by the next unit.
#[derive(Debug)]
pub struct PathfindingState<P> {
    pub paths: Vec<PathfindingGraph<P>>,
}

/// `r` is the first free path, or the end of the pool when every path is in use.
pub open spec fn first_free_slot<P>(paths: Seq<PathfindingGraph<P>>, r: int) -> bool {
    &&& 0 <= r <= paths.len()
    &&& r < paths.len() ==> paths[r].free
    &&& forall|j: int| 0 <= j < r ==> !(#[trigger] paths[j]).free
}

impl<P: Copy> PathfindingState<P> {
    /// An empty pool.
    pub fn new() -> (s: Self)
        ensures
            s.paths@.len() == 0,
    {
        PathfindingState { paths: Vec::new() }
    }

    /// Frees every path.
    pub fn clear(&mut self)
        ensures
            final(self).paths@.len() == old(self).paths@.len(),
            forall|i: int|
                0 <= i < final(self).paths@.len() ==> (#[trigger] final(self).paths@[i]).free
                    && final(self).paths@[i].nodes@.len() == 0,
    {
        let mut i: usize = 0;
        while i < self.paths.len()
            invariant
                i <= self.paths@.len(),
                self.paths@.len() == old(self).paths@.len(),
                forall|j: int|
                    0 <= j < i ==> (#[trigger] self.paths@[j]).free && self.paths@[j].nodes@.len() == 0,
            decreases self.paths@.len() - i,
        {
            self.paths.set(i, PathfindingGraph { nodes: Vec::new(), free: true });
            i = i + 1;
        }
    }

    /// Takes the first free path, or a new one when every path is in use.
    pub fn new_path(&mut self) -> (id: u32)
        requires
            old(self).paths@.len() < u32::MAX,
        ensures
            first_free_slot(old(self).paths@, id as int),
            id < old(self).paths@.len() ==> final(self).paths@ == old(self).paths@.update(
                id as int,
                PathfindingGraph { free: false, ..old(self).paths@[id as int] },
            ),
            id == old(self).paths@.len() ==> final(self).paths@.len() == old(self).paths@.len() + 1
                && final(self).paths@.subrange(0, id as int) == old(self).paths@
                && !final(self).paths@[id as int].free
                && final(self).paths@[id as int].nodes@.len() == 0,
    {
        let mut i: usize = 0;
        while i < self.paths.len()
            invariant
                i <= self.paths@.len(),
                self.paths@ == old(self).paths@,
                self.paths@.len() < u32::MAX,
                forall|j: int| 0 <= j < i ==> !(#[trigger] self.paths@[j]).free,
            decreases self.paths@.len() - i,
        {
            if self.paths[i].free {
                self.paths[i].free = false;
                assert(self.paths@ =~= old(self).paths@.update(
                    i as int,
                    PathfindingGraph { free: false, ..old(self).paths@[i as int] },
                ));
                return i as u32;
            }
            i = i + 1;
        }
        let id = self.paths.len() as u32;
        self.paths.push(PathfindingGraph { nodes: Vec::new(), free: false });
        assert(self.paths@.subrange(0, id as int) =~= old(self).paths@);
        id
    }

    /// Gives a path to a unit that starts at `start`. `route` holds the points
    /// the navigation mesh found and `found` whether it found a way: when it
    /// did not, the path is freed again and no path is given.
    pub fn compute_new_path(&mut self, start: P, route: Vec<P>, found: bool) -> (r: Option<PathFindingData<P>>)
        requires
            old(self).paths@.len() < u32::MAX,
        ensures
            exists|id: int| #![trigger final(self).paths@[id]]
                first_free_slot(old(self).paths@, id)
                && final(self).paths@.len() == (if id < old(self).paths@.len() { old(self).paths@.len() } else { old(self).paths@.len() + 1 })
                && final(self).paths@[id].nodes@ == route@
                && final(self).paths@[id].free == !found
                && (forall|j: int| 0 <= j < old(self).paths@.len() && j != id ==> #[trigger] final(self).paths@[j] == old(self).paths@[j])
                && (found ==> r == Some(PathFindingData { next_position: start, path_id: id as u32, current_node_index: 0 }))
                && (!found ==> r is None),
    {
        let ghost old_paths = self.paths@;
        let path_id = self.new_path();
        self.paths.set(path_id as usize, PathfindingGraph { nodes: route, free: !found });
        proof {
            let id = path_id as int;
            assert(final(self).paths@[id].nodes@ == route@);
            assert forall|j: int| 0 <= j < old_paths.len() && j != id implies #[trigger] self.paths@[j] == old_paths[j] by {
            }
        }
        if !found {
            return None;
        }
        Some(PathFindingData { next_position: start, path_id, current_node_index: 0 })
    }

    /// Moves a unit to the next point of its path. Returns `true`, and leaves
    /// the unit as it is, when the last point was already reached.
    pub fn compute_path(&self, path_data: &mut PathFindingData<P>) -> (done: bool)
        requires
            old(path_data).path_id < self.paths@.len(),
            old(path_data).current_node_index < u32::MAX,
        ensures
            ({
                let nodes = self.paths@[old(path_data).path_id as int].nodes@;
                let next = old(path_data).current_node_index + 1;
                if next >= nodes.len() {
                    done && *final(path_data) == *old(path_data)
                } else {
                    !done && *final(path_data) == (PathFindingData {
                        next_position: nodes[next],
                        path_id: old(path_data).path_id,
                        current_node_index: next as u32,
                    })
                }
            }),
    {
        let graph = &self.paths[path_data.path_id as usize];
        let next_node_index = (path_data.current_node_index + 1) as usize;
        if next_node_index >= graph.nodes.len() {
            return true;
        }
        path_data.next_position = graph.nodes[next_node_index];
        path_data.current_node_index = next_node_index as u32;
        false
    }

    /// Gives a path back to the pool.
    pub fn free_path(&mut self, path_data: PathFindingData<P>)
        requires
            path_data.path_id < old(self).paths@.len(),
        ensures
            final(self).paths@.len() == old(self).paths@.len(),
            final(self).paths@[path_data.path_id as int].free,
            final(self).paths@[path_data.path_id as int].nodes@.len() == 0,
            forall|j: int|
                0 <= j < old(self).paths@.len() && j != path_data.path_id ==> #[trigger] final(self).paths@[j]
                    == old(self).paths@[j],
    {
        self.paths.set(path_data.path_id as usize, PathfindingGraph { nodes: Vec::new(), free: true });
    }
}

/// A path that was given back is reused by the next request, unless an
/// earlier path is free too.
pub proof fn lemma_freed_path_reused<P>(paths: Seq<PathfindingGraph<P>>, freed: int, next: int)
    requires
        0 <= freed < paths.len(),
        paths[freed].free,
        first_free_slot(paths, next),
    ensures
        next <= freed,
        next < paths.len(),
{
}

} // verus!
