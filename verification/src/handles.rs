//! Opaque handles to the buffers held by the geometry store. A handle is
//! an id issued by a load; it grants no access to the buffer itself.

use vstd::prelude::*;

verus! {

/// Handle to a loaded position buffer.
pub struct PosBuf {
    pos_id: usize,
}

impl PosBuf {
    /// The id this handle carries.
    pub closed spec fn id(&self) -> nat {
        self.pos_id as nat
    }

    pub fn new(id: usize) -> (h: Self)
        ensures
            h.id() == id,
    {
        Self { pos_id: id }
    }

    pub fn pos_id(&self) -> (id: &usize)
        ensures
            *id == self.id(),
    {
        &self.pos_id
    }

    pub fn set(&mut self, v: usize)
        ensures
            final(self).id() == v,
    {
        self.pos_id = v;
    }
}

impl Clone for PosBuf {
    fn clone(&self) -> (h: Self)
        ensures
            h == *self,
    {
        Self { pos_id: self.pos_id }
    }
}

/// Handle to a loaded index buffer.
pub struct IndBuf {
    ind_id: usize,
}

impl IndBuf {
    /// The id this handle carries.
    pub closed spec fn id(&self) -> nat {
        self.ind_id as nat
    }

    pub fn new(id: usize) -> (h: Self)
        ensures
            h.id() == id,
    {
        Self { ind_id: id }
    }

    pub fn ind_id(&self) -> (id: &usize)
        ensures
            *id == self.id(),
    {
        &self.ind_id
    }

    pub fn set(&mut self, v: usize)
        ensures
            final(self).id() == v,
    {
        self.ind_id = v;
    }
}

impl Clone for IndBuf {
    fn clone(&self) -> (h: Self)
        ensures
            h == *self,
    {
        Self { ind_id: self.ind_id }
    }
}

/// Handle to a loaded color buffer.
pub struct ColBuf {
    col_id: usize,
}

impl ColBuf {
    /// The id this handle carries.
    pub closed spec fn id(&self) -> nat {
        self.col_id as nat
    }

    pub fn new(id: usize) -> (h: Self)
        ensures
            h.id() == id,
    {
        Self { col_id: id }
    }

    pub fn col_id(&self) -> (id: &usize)
        ensures
            *id == self.id(),
    {
        &self.col_id
    }

    pub fn set(&mut self, v: usize)
        ensures
            final(self).id() == v,
    {
        self.col_id = v;
    }
}

impl Clone for ColBuf {
    fn clone(&self) -> (h: Self)
        ensures
            h == *self,
    {
        Self { col_id: self.col_id }
    }
}

} // verus!
