use rasterizer::error::{BufferKind, RasterError};
use rasterizer::handles::{ColBuf, IndBuf, PosBuf};
use rasterizer::store::GeometryStore;
use rasterizer::vector::{IndexTriple, Vec3};

#[test]
fn new_store_holds_nothing() {
    let s = GeometryStore::new();
    assert_eq!(s.next_id(), 0);
    assert_eq!(
        s.positions(&PosBuf::new(0)),
        Err(RasterError::InvalidHandle { kind: BufferKind::Position })
    );
    assert_eq!(
        s.indices(&IndBuf::new(0)),
        Err(RasterError::InvalidHandle { kind: BufferKind::Index })
    );
    assert_eq!(
        s.colors(&ColBuf::new(0)),
        Err(RasterError::InvalidHandle { kind: BufferKind::Color })
    );
}

#[test]
fn store_gives_back_what_was_loaded() {
    let mut s = GeometryStore::new();
    let pos = vec![Vec3::new(1, 2, 3), Vec3::new(4, 5, 6)];
    let ind = vec![IndexTriple::new(0, 1, 0)];
    let col = vec![Vec3::new(7, 8, 9)];
    let p = s.load_positions(pos.clone());
    let i = s.load_indices(ind.clone());
    let c = s.load_colors(col.clone());
    assert_eq!(s.positions(&p), Ok(&pos));
    assert_eq!(s.indices(&i), Ok(&ind));
    assert_eq!(s.colors(&c), Ok(&col));
    assert_eq!(s.next_id(), 3);
}

#[test]
fn later_loads_leave_earlier_buffers_as_they_were() {
    let mut s = GeometryStore::new();
    let first = vec![Vec3::new(1, 1, 1)];
    let second = vec![Vec3::new(2, 2, 2), Vec3::new(3, 3, 3)];
    let a = s.load_positions(first.clone());
    let b = s.load_positions(second.clone());
    let c = s.load_colors(vec![]);
    assert!(*a.pos_id() < *b.pos_id() && *b.pos_id() < *c.col_id());
    assert_eq!(s.positions(&a), Ok(&first));
    assert_eq!(s.positions(&b), Ok(&second));
    assert_eq!(s.colors(&c), Ok(&vec![]));
}

#[test]
fn ids_of_one_table_are_unknown_to_the_others() {
    let mut s = GeometryStore::new();
    let p = s.load_positions(vec![Vec3::new(1, 1, 1)]);
    assert_eq!(
        s.indices(&IndBuf::new(*p.pos_id())),
        Err(RasterError::InvalidHandle { kind: BufferKind::Index })
    );
    assert_eq!(
        s.colors(&ColBuf::new(*p.pos_id())),
        Err(RasterError::InvalidHandle { kind: BufferKind::Color })
    );
    assert_eq!(
        s.positions(&PosBuf::new(*p.pos_id() + 1)),
        Err(RasterError::InvalidHandle { kind: BufferKind::Position })
    );
}
