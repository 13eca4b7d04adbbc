use solar_raster::raster::{assemble, rasterize, triangle, Fragment, ScreenPoint, Triangle, SUBPIXEL};

fn at(x: i32, y: i32) -> ScreenPoint {
    ScreenPoint { x: x * SUBPIXEL, y: y * SUBPIXEL }
}

fn places(fragments: &Vec<Fragment>) -> Vec<(usize, usize)> {
    fragments.iter().map(|f| (f.x, f.y)).collect()
}

#[test]
fn right_triangle_covers_its_closed_set_of_pixels() {
    let fragments = triangle(&at(0, 0), &at(4, 0), &at(0, 4), 100, 100);
    let mut expected = Vec::new();
    for y in 0..=4usize {
        for x in 0..=4usize {
            if x + y <= 4 {
                expected.push((x, y));
            }
        }
    }
    assert_eq!(expected.len(), 15);
    assert_eq!(places(&fragments), expected);
}

#[test]
fn right_triangle_has_no_pixel_twice() {
    let fragments = triangle(&at(0, 0), &at(4, 0), &at(0, 4), 100, 100);
    let mut seen = places(&fragments);
    seen.sort();
    seen.dedup();
    assert_eq!(seen.len(), fragments.len());
}

#[test]
fn winding_does_not_change_what_is_covered() {
    let one = triangle(&at(0, 0), &at(4, 0), &at(0, 4), 100, 100);
    let other = triangle(&at(0, 0), &at(0, 4), &at(4, 0), 100, 100);
    assert_eq!(places(&one), places(&other));
    assert_eq!(one.len(), 15);
}

#[test]
fn weights_add_up_to_twice_the_area() {
    let (a, b, c) = (at(0, 0), at(4, 0), at(0, 4));
    let area = 2 * (4 * 16) * (4 * 16) / 2;
    for f in triangle(&a, &b, &c, 100, 100) {
        assert_eq!(f.wa + f.wb + f.wc, area);
        assert!(0 <= f.wa && f.wa <= area);
        assert!(0 <= f.wb && f.wb <= area);
        assert!(0 <= f.wc && f.wc <= area);
    }
    for f in triangle(&a, &c, &b, 100, 100) {
        assert_eq!(f.wa + f.wb + f.wc, -area);
        assert!(f.wa <= 0 && f.wb <= 0 && f.wc <= 0);
    }
}

#[test]
fn weights_are_whole_at_the_corners() {
    let fragments = triangle(&at(0, 0), &at(4, 0), &at(0, 4), 100, 100);
    let corner_a = fragments.iter().find(|f| (f.x, f.y) == (0, 0)).unwrap();
    assert_eq!((corner_a.wa, corner_a.wb, corner_a.wc), (4096, 0, 0));
    let corner_b = fragments.iter().find(|f| (f.x, f.y) == (4, 0)).unwrap();
    assert_eq!((corner_b.wa, corner_b.wb, corner_b.wc), (0, 4096, 0));
    let corner_c = fragments.iter().find(|f| (f.x, f.y) == (0, 4)).unwrap();
    assert_eq!((corner_c.wa, corner_c.wb, corner_c.wc), (0, 0, 4096));
    let inner = fragments.iter().find(|f| (f.x, f.y) == (1, 2)).unwrap();
    assert_eq!((inner.wa, inner.wb, inner.wc), (1024, 1024, 2048));
}

#[test]
fn triangle_without_area_gives_nothing() {
    assert!(triangle(&at(0, 0), &at(2, 2), &at(4, 4), 100, 100).is_empty());
    assert!(triangle(&at(3, 3), &at(3, 3), &at(3, 3), 100, 100).is_empty());
    assert!(triangle(&at(0, 0), &at(5, 0), &at(9, 0), 100, 100).is_empty());
    assert!(triangle(&at(1, 1), &at(1, 1), &at(7, 2), 100, 100).is_empty());
}

#[test]
fn triangle_is_clipped_to_the_frame() {
    let fragments = triangle(&at(-2, -2), &at(6, -2), &at(-2, 6), 3, 2);
    let expected = vec![(0, 0), (1, 0), (2, 0), (0, 1), (1, 1), (2, 1)];
    assert_eq!(places(&fragments), expected);
}

#[test]
fn triangle_off_the_frame_gives_nothing() {
    assert!(triangle(&at(-9, -9), &at(-1, -9), &at(-9, -1), 100, 100).is_empty());
    assert!(triangle(&at(200, 0), &at(300, 0), &at(200, 50), 100, 100).is_empty());
    assert!(triangle(&at(0, 0), &at(4, 0), &at(0, 4), 0, 100).is_empty());
    assert!(triangle(&at(0, 0), &at(4, 0), &at(0, 4), 100, 0).is_empty());
}

#[test]
fn corners_between_pixels_are_taken_as_they_are() {
    let a = ScreenPoint { x: 8, y: 8 };
    let b = ScreenPoint { x: 40, y: 8 };
    let c = ScreenPoint { x: 8, y: 40 };
    let fragments = triangle(&a, &b, &c, 100, 100);
    assert_eq!(places(&fragments), vec![(1, 1), (2, 1), (1, 2)]);
    let small = triangle(
        &ScreenPoint { x: 17, y: 17 },
        &ScreenPoint { x: 31, y: 17 },
        &ScreenPoint { x: 17, y: 31 },
        100,
        100,
    );
    assert!(small.is_empty());
}

#[test]
fn triangles_that_share_an_edge_leave_no_gap() {
    let lower = triangle(&at(0, 0), &at(4, 0), &at(0, 4), 100, 100);
    let upper = triangle(&at(4, 0), &at(4, 4), &at(0, 4), 100, 100);
    let mut all = places(&lower);
    all.extend(places(&upper));
    all.sort();
    all.dedup();
    assert_eq!(all.len(), 25);
    let on_edge: Vec<(usize, usize)> =
        places(&lower).into_iter().filter(|p| places(&upper).contains(p)).collect();
    assert_eq!(on_edge, vec![(4, 0), (3, 1), (2, 2), (1, 3), (0, 4)]);
}

#[test]
fn far_corners_do_not_overflow() {
    let a = ScreenPoint { x: i32::MIN, y: i32::MIN };
    let b = ScreenPoint { x: i32::MAX, y: i32::MIN };
    let c = ScreenPoint { x: 0, y: i32::MAX };
    let fragments = triangle(&a, &b, &c, 3, 3);
    assert_eq!(fragments.len(), 9);
    for f in &fragments {
        assert!(f.wa > 0 && f.wb > 0 && f.wc > 0);
    }
}

#[test]
fn assemble_groups_vertices_in_threes() {
    assert!(assemble(0).is_empty());
    assert!(assemble(1).is_empty());
    assert!(assemble(2).is_empty());
    assert_eq!(assemble(3), vec![Triangle { a: 0, b: 1, c: 2 }]);
    assert_eq!(
        assemble(6),
        vec![Triangle { a: 0, b: 1, c: 2 }, Triangle { a: 3, b: 4, c: 5 }]
    );
}

#[test]
fn assemble_drops_what_is_left_over() {
    assert_eq!(assemble(4), vec![Triangle { a: 0, b: 1, c: 2 }]);
    assert_eq!(assemble(5), vec![Triangle { a: 0, b: 1, c: 2 }]);
    assert_eq!(assemble(8).len(), 2);
    assert_eq!(assemble(3000).len(), 1000);
    assert_eq!(assemble(3000)[999], Triangle { a: 2997, b: 2998, c: 2999 });
}

#[test]
fn rasterize_converts_every_whole_triangle() {
    let points = vec![
        at(0, 0),
        at(4, 0),
        at(0, 4),
        at(1, 1),
        at(1, 1),
        at(1, 1),
        at(10, 10),
        at(12, 10),
        at(10, 12),
        at(50, 50),
    ];
    let coverage = rasterize(&points, 100, 100);
    assert_eq!(coverage.len(), 3);
    assert_eq!(coverage[0], triangle(&points[0], &points[1], &points[2], 100, 100));
    assert_eq!(coverage[0].len(), 15);
    assert!(coverage[1].is_empty());
    assert_eq!(
        places(&coverage[2]),
        vec![(10, 10), (11, 10), (12, 10), (10, 11), (11, 11), (10, 12)]
    );
    assert!(rasterize(&Vec::new(), 100, 100).is_empty());
}
