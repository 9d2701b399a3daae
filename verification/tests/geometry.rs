use delay_vst::geometry::{logo_prisms, prism_wireframe, Line, Point, Prism, PRISM_EDGES};

fn line(a: (i32, i32), b: (i32, i32)) -> Line {
    Line { from: Point { x: a.0, y: a.1 }, to: Point { x: b.0, y: b.1 } }
}

#[test]
fn large_logo_box() {
    let (big, _) = logo_prisms();
    let e = prism_wireframe(big);
    assert_eq!(
        e,
        vec![
            line((150, 38), (185, 58)),
            line((185, 58), (150, 78)),
            line((150, 78), (115, 58)),
            line((115, 58), (150, 38)),
            line((150, 96), (185, 116)),
            line((185, 116), (150, 136)),
            line((150, 136), (115, 116)),
            line((115, 116), (150, 96)),
            line((150, 38), (150, 96)),
            line((185, 58), (185, 116)),
            line((150, 78), (150, 136)),
            line((115, 58), (115, 116)),
        ]
    );
}

#[test]
fn small_logo_box() {
    let (_, small) = logo_prisms();
    let e = prism_wireframe(small);
    assert_eq!(e.len(), PRISM_EDGES);
    assert_eq!(e[0], line((255, 54), (276, 66)));
    assert_eq!(e[3], line((234, 66), (255, 54)));
    assert_eq!(e[4], line((255, 86), (276, 98)));
    assert_eq!(e[6], line((255, 110), (234, 98)));
    assert_eq!(e[11], line((234, 66), (234, 98)));
}

#[test]
fn faces_close_and_bottom_is_shifted_top() {
    let p = Prism { center_x: -7, center_y: 3, half_width: 11, half_height: 5, depth: 40 };
    let e = prism_wireframe(p);
    for k in 0..4 {
        assert_eq!(e[k].to, e[(k + 1) % 4].from);
        assert_eq!(e[k + 4].to, e[(k + 1) % 4 + 4].from);
        assert_eq!(e[k + 4].from, Point { x: e[k].from.x, y: e[k].from.y + 40 });
        assert_eq!(e[k + 8], Line { from: e[k].from, to: e[k + 4].from });
    }
}

#[test]
fn logo_boxes_side_by_side() {
    let (big, small) = logo_prisms();
    let max_big = prism_wireframe(big).iter().map(|l| l.from.x.max(l.to.x)).max().unwrap();
    let min_small = prism_wireframe(small).iter().map(|l| l.from.x.min(l.to.x)).min().unwrap();
    assert!(max_big < min_small);
}
