use lau_complex_analysis::riemann_surface::{euler_characteristic, genus, Monodromy, Sheet};

#[test]
fn test_monodromy_identity() {
    let m = Monodromy::identity(3);
    assert!(m.is_identity());
    assert_eq!(m.apply(0), 0);
    assert_eq!(m.apply(1), 1);
}

#[test]
fn test_monodromy_transposition() {
    let m = Monodromy::transposition(3, 0, 1);
    assert_eq!(m.apply(0), 1);
    assert_eq!(m.apply(1), 0);
    assert_eq!(m.apply(2), 2);
    assert!(!m.is_identity());
}

#[test]
fn test_monodromy_compose() {
    let m1 = Monodromy::transposition(3, 0, 1);
    let m2 = Monodromy::transposition(3, 1, 2);
    let composed = m1.compose(&m2);
    assert_eq!(composed.apply(0), 2); // 0 -> 1 (by m1) -> 2 (by m2)
    assert_eq!(composed.apply(1), 0); // 1 -> 0 (by m1) -> 0 (by m2)
}

#[test]
fn test_euler_characteristic() {
    // Sphere: n=1, b=0 -> χ=2
    assert_eq!(euler_characteristic(1, 0), 2);
    // Torus-like: n=2, b=4 -> χ=0
    assert_eq!(euler_characteristic(2, 4), 0);
}

#[test]
fn test_genus() {
    assert_eq!(genus(2), 0); // sphere
    assert_eq!(genus(0), 1); // torus
}

#[test]
fn monodromy_new_keeps_permutation() {
    let m = Monodromy::new(vec![2, 0, 1]);
    assert_eq!(m.permutation, vec![2, 0, 1]);
    assert_eq!(m.apply(0), 2);
    assert_eq!(m.apply(2), 1);
}

#[test]
fn identity_of_no_sheets_is_empty_and_identity() {
    let m = Monodromy::identity(0);
    assert!(m.permutation.is_empty());
    assert!(m.is_identity());
}

#[test]
fn identity_lists_every_sheet() {
    assert_eq!(Monodromy::identity(5).permutation, vec![0, 1, 2, 3, 4]);
}

#[test]
fn transposition_of_a_sheet_with_itself_is_identity() {
    let m = Monodromy::transposition(4, 2, 2);
    assert!(m.is_identity());
    assert_eq!(m.permutation, vec![0, 1, 2, 3]);
}

#[test]
fn transposition_swaps_exactly_two_sheets() {
    assert_eq!(Monodromy::transposition(4, 3, 1).permutation, vec![0, 3, 2, 1]);
}

#[test]
fn is_identity_rejects_a_single_moved_sheet() {
    assert!(!Monodromy::new(vec![0, 1, 3, 3]).is_identity());
    assert!(Monodromy::new(vec![0, 1, 2, 3]).is_identity());
}

#[test]
fn compose_applies_first_then_second() {
    let p = Monodromy::new(vec![1, 2, 0]);
    let q = Monodromy::new(vec![2, 0, 1]);
    let pq = p.compose(&q);
    for s in 0..3 {
        assert_eq!(pq.apply(s), q.apply(p.apply(s)));
    }
    assert_eq!(pq.permutation, vec![0, 1, 2]);
}

#[test]
fn compose_into_a_larger_monodromy_keeps_own_length() {
    let p = Monodromy::new(vec![3, 0]);
    let q = Monodromy::new(vec![9, 8, 7, 6]);
    assert_eq!(p.compose(&q).permutation, vec![6, 9]);
}

#[test]
fn identity_is_neutral_for_compose() {
    let p = Monodromy::new(vec![2, 0, 3, 1]);
    let id = Monodromy::identity(4);
    assert_eq!(id.compose(&p).permutation, p.permutation);
    assert_eq!(p.compose(&id).permutation, p.permutation);
}

#[test]
fn compose_is_associative() {
    let p = Monodromy::new(vec![1, 2, 3, 0]);
    let q = Monodromy::transposition(4, 0, 3);
    let r = Monodromy::new(vec![3, 1, 0, 2]);
    let left = p.compose(&q).compose(&r);
    let right = p.compose(&q.compose(&r));
    assert_eq!(left.permutation, right.permutation);
}

#[test]
fn transposition_twice_is_identity() {
    let t = Monodromy::transposition(5, 1, 4);
    assert!(t.compose(&t).is_identity());
}

#[test]
fn genus_inverts_euler_characteristic() {
    for g in [-3i64, 0, 1, 2, 7] {
        assert_eq!(genus(2 - 2 * g), g);
    }
}

#[test]
fn genus_rounds_toward_zero() {
    assert_eq!(genus(1), 0);
    assert_eq!(genus(-1), 1);
    assert_eq!(genus(5), -1);
    assert_eq!(genus(i64::MIN + 3), i64::MAX / 2);
}

#[test]
fn euler_characteristic_of_branched_covers() {
    assert_eq!(euler_characteristic(0, 0), 0);
    assert_eq!(euler_characteristic(3, 2), 4);
    assert_eq!(euler_characteristic(1, 7), -5);
    assert_eq!(genus(euler_characteristic(2, 6)), 2);
}

#[test]
fn sheet_holds_index_and_label() {
    let s = Sheet { index: 1, label: "second".to_string() };
    let t = s.clone();
    assert_eq!(t.index, 1);
    assert_eq!(t.label, "second");
}

#[test]
fn euler_characteristic_wraps_counts_above_i64_max() {
    // The logarithm's surface has usize::MAX sheets, which converts to -1.
    if usize::BITS == 64 {
        assert_eq!(euler_characteristic(usize::MAX, 1), -3);
    }
}
