use cell_core::arc::ArcInterval;
use cell_core::arc::DhtArc;
use cell_core::arc::DhtArcSet;

/// One tenth of the circle, as in the ten-character arc pictures.
fn unit() -> u32 {
    u32::MAX / 10 + 1
}

/// Build an arc set from a ten-character picture: an `o` covers that tenth
/// of the circle.
fn ascii(s: &str) -> DhtArcSet {
    let mut pairs: Vec<(u32, u32)> = Vec::new();
    for (i, c) in s.chars().enumerate() {
        if c != ' ' {
            let lo = (i as u32) * unit();
            let hi = if i == 9 { u32::MAX - 1 } else { (i as u32 + 1) * unit() - 1 };
            pairs.push((lo, hi));
        }
    }
    DhtArcSet::from_pairs(pairs)
}

fn assert_intersection(a: DhtArcSet, b: DhtArcSet, e: DhtArcSet) {
    let empty = e.is_empty();
    assert!(DhtArcSet::intersection(&a, &b).same_coverage(&e));
    assert!(DhtArcSet::intersection(&b, &a).same_coverage(&e));
    if empty {
        assert!(!DhtArcSet::overlap(&a, &b));
        assert!(!DhtArcSet::overlap(&b, &a));
    } else {
        assert!(DhtArcSet::overlap(&a, &b));
        assert!(DhtArcSet::overlap(&b, &a));
    }
}

#[test]
fn test_intersection() {
    assert_intersection(ascii("oo       o"), ascii("o       oo"), ascii("o        o"));
    assert_intersection(ascii("  ooo     "), ascii("    ooo   "), ascii("    o     "));
    assert_intersection(ascii("o o o o o "), ascii(" o o o o o"), ascii("          "));
    assert_intersection(ascii("oooooooooo"), ascii("          "), ascii("          "));
}

#[test]
fn fullness() {
    assert!(DhtArcSet::from_pairs(vec![(0, u32::MAX)]).same_coverage(&DhtArcSet::new_full()));
    assert!(DhtArcSet::from_pairs(vec![(0, u32::MAX - 1)]).same_coverage(&DhtArcSet::new_full()));
    assert!(
        !DhtArcSet::from_pairs(vec![(0, u32::MAX - 2)]).same_coverage(&DhtArcSet::new_full())
    );

    assert!(DhtArcSet::from_pairs(vec![(11, 10)]).same_coverage(&DhtArcSet::new_full()));

    assert!(
        DhtArcSet::from_pairs(vec![(u32::MAX - 1, u32::MAX - 2)])
            .same_coverage(&DhtArcSet::new_full())
    );

    assert!(
        DhtArcSet::from_pairs(vec![(u32::MAX, u32::MAX - 1)])
            .same_coverage(&DhtArcSet::new_full())
    );
}

#[test]
fn arc_contains() {
    let convergent = ArcInterval::Bounded(10, 20);
    let divergent = ArcInterval::Bounded(20, 10);

    assert!(!convergent.contains(0));
    assert!(!convergent.contains(5));
    assert!(convergent.contains(10));
    assert!(convergent.contains(15));
    assert!(convergent.contains(20));
    assert!(!convergent.contains(25));
    assert!(!convergent.contains(u32::MAX));

    assert!(divergent.contains(0));
    assert!(divergent.contains(5));
    assert!(divergent.contains(10));
    assert!(!divergent.contains(15));
    assert!(divergent.contains(20));
    assert!(divergent.contains(25));
    assert!(divergent.contains(u32::MAX));
}

#[test]
fn an_arc_from_start_and_length_covers_its_span() {
    let a = ArcInterval::from_start_and_len(10, 5);
    assert!(a.contains(10) && a.contains(14));
    assert!(!a.contains(9) && !a.contains(15));
    // wrapping over the top of the space
    let w = ArcInterval::from_start_and_len(u32::MAX - 1, 4);
    assert!(w.contains(u32::MAX - 1) && w.contains(0) && w.contains(1));
    assert!(!w.contains(3));
    assert!(ArcInterval::from_start_and_len(7, 0).is_empty());
    assert!(matches!(
        ArcInterval::from_start_and_len(7, 0x1_0000_0000),
        ArcInterval::Full(7)
    ));
}

#[test]
fn a_union_covering_the_circle_collapses_to_full() {
    let a = DhtArcSet::from_bounds(0, 5);
    let b = DhtArcSet::from_bounds(6, u32::MAX - 1);
    let u = a.union(&b);
    assert!(matches!(u, DhtArcSet::Full));
    assert!(u.same_coverage(&DhtArcSet::new_full()));
    // a union short of the circle stays partial
    let c = DhtArcSet::from_bounds(8, u32::MAX - 1);
    let v = a.union(&c);
    assert!(matches!(v, DhtArcSet::Partial(_)));
    assert!(!v.contains(7));
}

#[test]
fn a_storage_arc_spans_its_half_length_to_each_side() {
    let a = DhtArc::new(100, 3);
    assert!(a.contains(98) && a.contains(100) && a.contains(102));
    assert!(!a.contains(97) && !a.contains(103));
    assert_eq!(a.length(), 5);
    // a half-length of zero stores nothing
    let none = DhtArc::new(100, 0);
    assert!(!none.contains(100));
    assert_eq!(none.length(), 0);
    // half the circle or more spans everything
    let full = DhtArc::new(0, 0x8000_0000);
    assert!(full.contains(0) && full.contains(u32::MAX - 1));
    assert_eq!(full.length(), 0x1_0000_0000);
    // arcs wrap around the top of the space
    let w = DhtArc::new(0, 2);
    assert!(w.contains(u32::MAX - 1) || w.contains(1));
    assert!(w.contains(1) && !w.contains(2));
    // overlap needs a shared location
    assert!(DhtArc::new(100, 3).overlaps(&DhtArc::new(104, 3)));
    assert!(!DhtArc::new(100, 2).overlaps(&DhtArc::new(104, 2)));
}
