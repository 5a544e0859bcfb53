use rasterizer::handles::{ColBuf, IndBuf, PosBuf};
use rasterizer::rasterizer::Rasterizer;
use rasterizer::vector::{IndexTriple, Vec3};

#[test]
fn handle_carries_the_id_it_was_made_with() {
    assert_eq!(*PosBuf::new(7).pos_id(), 7);
    assert_eq!(*IndBuf::new(8).ind_id(), 8);
    assert_eq!(*ColBuf::new(9).col_id(), 9);
}

#[test]
fn handle_set_replaces_the_id() {
    let mut p = PosBuf::new(1);
    p.set(41);
    assert_eq!(*p.pos_id(), 41);
    let mut i = IndBuf::new(1);
    i.set(42);
    assert_eq!(*i.ind_id(), 42);
    let mut c = ColBuf::new(1);
    c.set(43);
    assert_eq!(*c.col_id(), 43);
}

#[test]
fn handle_clone_keeps_the_id() {
    let p = PosBuf::new(5);
    let q = p.clone();
    assert_eq!(*q.pos_id(), 5);
    assert_eq!(*IndBuf::new(6).clone().ind_id(), 6);
    assert_eq!(*ColBuf::new(7).clone().col_id(), 7);
}

#[test]
fn loads_issue_strictly_increasing_ids_across_kinds() {
    let mut r = Rasterizer::new(2, 2);
    assert_eq!(r.get_next_id(), 0);
    let a = r.load_positions(vec![Vec3::new(0, 0, 0)]);
    let b = r.load_indices(vec![IndexTriple::new(0, 0, 0)]);
    let c = r.load_colors(vec![Vec3::new(0, 0, 0)]);
    let d = r.load_positions(vec![]);
    let e = r.load_colors(vec![]);
    let ids = vec![*a.pos_id(), *b.ind_id(), *c.col_id(), *d.pos_id(), *e.col_id()];
    assert_eq!(ids, vec![0, 1, 2, 3, 4]);
    for i in 0..ids.len() {
        for j in (i + 1)..ids.len() {
            assert!(ids[i] < ids[j]);
        }
    }
    assert_eq!(r.get_next_id(), 5);
}
