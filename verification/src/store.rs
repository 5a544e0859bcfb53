//! The geometry store: three tables of loaded buffers, each reached by the
//! id that its load returned. One counter issues the ids of all three
//! tables, and every id in use lies below it, so an id is never issued
//! twice. No buffer is ever removed or changed.

use vstd::prelude::*;
use std::collections::HashMap;
use crate::error::{BufferKind, RasterError};
use crate::handles::{ColBuf, IndBuf, PosBuf};
use crate::vector::{IndexTriple, Vec3};

verus! {

/// One load, as the store's model sees it.
pub enum Load {
    Positions(Seq<Vec3>),
    Indices(Seq<IndexTriple>),
    Colors(Seq<Vec3>),
}

/// The mathematical content of a geometry store.
pub struct StoreView {
    pub positions: Map<nat, Seq<Vec3>>,
    pub indices: Map<nat, Seq<IndexTriple>>,
    pub colors: Map<nat, Seq<Vec3>>,
    /// The id that the next load will issue.
    pub next_id: nat,
}

impl StoreView {
    /// Every id in use was issued before `next_id`.
    pub open spec fn wf(self) -> bool {
        &&& forall|k: nat| self.positions.contains_key(k) ==> k < self.next_id
        &&& forall|k: nat| self.indices.contains_key(k) ==> k < self.next_id
        &&& forall|k: nat| self.colors.contains_key(k) ==> k < self.next_id
    }

    /// The store that holds nothing and has issued no id.
    pub open spec fn empty() -> StoreView {
        StoreView {
            positions: Map::empty(),
            indices: Map::empty(),
            colors: Map::empty(),
            next_id: 0,
        }
    }

    /// The store after one load: the buffer stands under the id
    /// `self.next_id`, and the counter has moved on by one.
    pub open spec fn load(self, l: Load) -> StoreView {
        match l {
            Load::Positions(data) => StoreView {
                positions: self.positions.insert(self.next_id, data),
                next_id: self.next_id + 1,
                ..self
            },
            Load::Indices(data) => StoreView {
                indices: self.indices.insert(self.next_id, data),
                next_id: self.next_id + 1,
                ..self
            },
            Load::Colors(data) => StoreView {
                colors: self.colors.insert(self.next_id, data),
                next_id: self.next_id + 1,
                ..self
            },
        }
    }

    /// The store after a sequence of loads, first to last.
    pub open spec fn load_all(self, loads: Seq<Load>) -> StoreView
        decreases loads.len(),
    {
        if loads.len() == 0 {
            self
        } else {
            self.load_all(loads.drop_last()).load(loads.last())
        }
    }

    /// The id that load number `i` of `loads` is issued.
    pub open spec fn issued(self, loads: Seq<Load>, i: int) -> nat {
        self.load_all(loads.take(i)).next_id
    }
}

/// The buffers of a table, each as the sequence it holds.
pub closed spec fn table_view<T>(m: Map<usize, Vec<T>>) -> Map<nat, Seq<T>> {
    Map::new(
        |k: nat| k <= usize::MAX && m.contains_key(k as usize),
        |k: nat| m[k as usize]@,
    )
}

/// The handle-indexed buffer store.
pub struct GeometryStore {
    pos_buf: HashMap<usize, Vec<Vec3>>,
    ind_buf: HashMap<usize, Vec<IndexTriple>>,
    col_buf: HashMap<usize, Vec<Vec3>>,
    next_id: usize,
}

impl View for GeometryStore {
    type V = StoreView;

    closed spec fn view(&self) -> StoreView {
        StoreView {
            positions: table_view(self.pos_buf@),
            indices: table_view(self.ind_buf@),
            colors: table_view(self.col_buf@),
            next_id: self.next_id as nat,
        }
    }
}

impl GeometryStore {
    #[verifier::type_invariant]
    spec fn inv(self) -> bool {
        &&& forall|k: usize| self.pos_buf@.contains_key(k) ==> k < self.next_id
        &&& forall|k: usize| self.ind_buf@.contains_key(k) ==> k < self.next_id
        &&& forall|k: usize| self.col_buf@.contains_key(k) ==> k < self.next_id
    }

    /// An empty store.
    pub fn new() -> (s: Self)
        ensures
            s@ == StoreView::empty(),
            s@.wf(),
    {
        let s = GeometryStore {
            pos_buf: HashMap::new(),
            ind_buf: HashMap::new(),
            col_buf: HashMap::new(),
            next_id: 0,
        };
        assert(s@.positions =~= Map::<nat, Seq<Vec3>>::empty());
        assert(s@.indices =~= Map::<nat, Seq<IndexTriple>>::empty());
        assert(s@.colors =~= Map::<nat, Seq<Vec3>>::empty());
        s
    }

    /// The id that the next load will issue.
    pub fn next_id(&self) -> (id: usize)
        ensures
            id == self@.next_id,
            self@.wf(),
    {
        proof {
            use_type_invariant(self);
        }
        self.next_id
    }

    /// Stores a position buffer and returns its handle.
    pub fn load_positions(&mut self, positions: Vec<Vec3>) -> (h: PosBuf)
        requires
            old(self)@.next_id < usize::MAX,
        ensures
            h.id() == old(self)@.next_id,
            final(self)@ == old(self)@.load(Load::Positions(positions@)),
            old(self)@.wf(),
            final(self)@.wf(),
    {
        proof {
            use_type_invariant(&*self);
        }
        let id = self.next_id;
        // The table is taken out while it grows, so that the store never
        // holds an id that its counter has not passed.
        let mut table: HashMap<usize, Vec<Vec3>> = HashMap::new();
        core::mem::swap(&mut self.pos_buf, &mut table);
        table.insert(id, positions);
        self.next_id = id + 1;
        core::mem::swap(&mut self.pos_buf, &mut table);
        assert(self@.positions =~= old(self)@.positions.insert(id as nat, positions@));
        PosBuf::new(id)
    }

    /// Stores an index buffer and returns its handle.
    pub fn load_indices(&mut self, indices: Vec<IndexTriple>) -> (h: IndBuf)
        requires
            old(self)@.next_id < usize::MAX,
        ensures
            h.id() == old(self)@.next_id,
            final(self)@ == old(self)@.load(Load::Indices(indices@)),
            old(self)@.wf(),
            final(self)@.wf(),
    {
        proof {
            use_type_invariant(&*self);
        }
        let id = self.next_id;
        let mut table: HashMap<usize, Vec<IndexTriple>> = HashMap::new();
        core::mem::swap(&mut self.ind_buf, &mut table);
        table.insert(id, indices);
        self.next_id = id + 1;
        core::mem::swap(&mut self.ind_buf, &mut table);
        assert(self@.indices =~= old(self)@.indices.insert(id as nat, indices@));
        IndBuf::new(id)
    }

    /// Stores a color buffer and returns its handle.
    pub fn load_colors(&mut self, colors: Vec<Vec3>) -> (h: ColBuf)
        requires
            old(self)@.next_id < usize::MAX,
        ensures
            h.id() == old(self)@.next_id,
            final(self)@ == old(self)@.load(Load::Colors(colors@)),
            old(self)@.wf(),
            final(self)@.wf(),
    {
        proof {
            use_type_invariant(&*self);
        }
        let id = self.next_id;
        let mut table: HashMap<usize, Vec<Vec3>> = HashMap::new();
        core::mem::swap(&mut self.col_buf, &mut table);
        table.insert(id, colors);
        self.next_id = id + 1;
        core::mem::swap(&mut self.col_buf, &mut table);
        assert(self@.colors =~= old(self)@.colors.insert(id as nat, colors@));
        ColBuf::new(id)
    }

    /// The position buffer that `h` names.
    pub fn positions(&self, h: &PosBuf) -> (r: Result<&Vec<Vec3>, RasterError>)
        ensures
            self@.positions.contains_key(h.id()) ==> (r matches Ok(buf) && buf@
                == self@.positions[h.id()]),
            !self@.positions.contains_key(h.id()) ==> r == Err::<&Vec<Vec3>, RasterError>(
                RasterError::InvalidHandle { kind: BufferKind::Position },
            ),
    {
        match self.pos_buf.get(h.pos_id()) {
            Some(buf) => Ok(buf),
            None => Err(RasterError::InvalidHandle { kind: BufferKind::Position }),
        }
    }

    /// The index buffer that `h` names.
    pub fn indices(&self, h: &IndBuf) -> (r: Result<&Vec<IndexTriple>, RasterError>)
        ensures
            self@.indices.contains_key(h.id()) ==> (r matches Ok(buf) && buf@
                == self@.indices[h.id()]),
            !self@.indices.contains_key(h.id()) ==> r == Err::<&Vec<IndexTriple>, RasterError>(
                RasterError::InvalidHandle { kind: BufferKind::Index },
            ),
    {
        match self.ind_buf.get(h.ind_id()) {
            Some(buf) => Ok(buf),
            None => Err(RasterError::InvalidHandle { kind: BufferKind::Index }),
        }
    }

    /// The color buffer that `h` names.
    pub fn colors(&self, h: &ColBuf) -> (r: Result<&Vec<Vec3>, RasterError>)
        ensures
            self@.colors.contains_key(h.id()) ==> (r matches Ok(buf) && buf@
                == self@.colors[h.id()]),
            !self@.colors.contains_key(h.id()) ==> r == Err::<&Vec<Vec3>, RasterError>(
                RasterError::InvalidHandle { kind: BufferKind::Color },
            ),
    {
        match self.col_buf.get(h.col_id()) {
            Some(buf) => Ok(buf),
            None => Err(RasterError::InvalidHandle { kind: BufferKind::Color }),
        }
    }
}

} // verus!
