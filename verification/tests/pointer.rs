use std::collections::HashMap;
use therminal_window::window::pointer::{
    hover_cursor_transition, HoverCursorTransition, ResizeDirection, ResizeEdge,
    EDGE_RESIZE_TOLERANCE,
};
use therminal_window::window::App;

const TOL: i64 = EDGE_RESIZE_TOLERANCE as i64;
const W: i64 = 800;
const H: i64 = 600;

fn hit(px: i64, py: i64) -> Option<ResizeEdge> {
    App::edge_hit_test_geom(px, py, W as u32, H as u32, EDGE_RESIZE_TOLERANCE)
}

#[test]
fn corner_nw() {
    assert_eq!(hit(2, 2), Some(ResizeEdge::NW));
    assert_eq!(hit(0, 0), Some(ResizeEdge::NW));
}

#[test]
fn corner_se() {
    assert_eq!(hit(798, 598), Some(ResizeEdge::SE));
    assert_eq!(hit(W - 1, H - 1), Some(ResizeEdge::SE));
}

#[test]
fn corner_ne() {
    assert_eq!(hit(W - 1, 1), Some(ResizeEdge::NE));
}

#[test]
fn corner_sw() {
    assert_eq!(hit(1, H - 1), Some(ResizeEdge::SW));
}

#[test]
fn edge_n() {
    assert_eq!(hit(400, 2), Some(ResizeEdge::N));
}

#[test]
fn edge_s() {
    assert_eq!(hit(400, H - 1), Some(ResizeEdge::S));
}

#[test]
fn edge_w() {
    assert_eq!(hit(2, 300), Some(ResizeEdge::W));
}

#[test]
fn edge_e() {
    assert_eq!(hit(W - 1, 300), Some(ResizeEdge::E));
}

#[test]
fn interior_none() {
    assert_eq!(hit(400, 300), None);
    assert_eq!(hit(TOL, TOL), None);
    assert_eq!(hit(W - TOL - 1, H - TOL - 1), None);
}

#[test]
fn out_of_bounds_none() {
    assert_eq!(hit(-1, 5), None);
    assert_eq!(hit(5, -1), None);
    assert_eq!(hit(W, 5), None);
    assert_eq!(hit(5, H), None);
}

#[test]
fn edge_to_resize_direction_mapping() {
    assert_eq!(ResizeEdge::N.to_resize_direction(), ResizeDirection::North);
    assert_eq!(ResizeEdge::S.to_resize_direction(), ResizeDirection::South);
    assert_eq!(ResizeEdge::E.to_resize_direction(), ResizeDirection::East);
    assert_eq!(ResizeEdge::W.to_resize_direction(), ResizeDirection::West);
    assert_eq!(
        ResizeEdge::NE.to_resize_direction(),
        ResizeDirection::NorthEast
    );
    assert_eq!(
        ResizeEdge::NW.to_resize_direction(),
        ResizeDirection::NorthWest
    );
    assert_eq!(
        ResizeEdge::SE.to_resize_direction(),
        ResizeDirection::SouthEast
    );
    assert_eq!(
        ResizeEdge::SW.to_resize_direction(),
        ResizeDirection::SouthWest
    );
}

type Cell = (usize, usize); // (row, col)

fn step(
    active: &mut bool,
    map: &HashMap<Cell, (bool, bool)>,
    row: usize,
    col: usize,
) -> HoverCursorTransition {
    let (link, hot) = map.get(&(row, col)).copied().unwrap_or((false, false));
    let t = hover_cursor_transition(*active, link, hot);
    match t {
        HoverCursorTransition::Activate => *active = true,
        HoverCursorTransition::Deactivate => *active = false,
        HoverCursorTransition::NoChange => {}
    }
    t
}

#[test]
fn plain_to_hotspot_activates() {
    let mut map: HashMap<Cell, (bool, bool)> = HashMap::new();
    map.insert((1, 5), (false, true));
    let mut active = false;
    assert_eq!(
        step(&mut active, &map, 0, 0),
        HoverCursorTransition::NoChange
    );
    assert_eq!(
        step(&mut active, &map, 1, 5),
        HoverCursorTransition::Activate
    );
    assert!(active);
}

#[test]
fn hotspot_to_hotspot_no_thrash() {
    let mut map: HashMap<Cell, (bool, bool)> = HashMap::new();
    map.insert((1, 5), (false, true));
    map.insert((1, 6), (false, true));
    let mut active = false;
    step(&mut active, &map, 1, 5);
    assert_eq!(
        step(&mut active, &map, 1, 6),
        HoverCursorTransition::NoChange
    );
}

#[test]
fn hotspot_to_plain_deactivates() {
    let mut map: HashMap<Cell, (bool, bool)> = HashMap::new();
    map.insert((1, 5), (false, true));
    let mut active = false;
    step(&mut active, &map, 1, 5);
    assert_eq!(
        step(&mut active, &map, 2, 0),
        HoverCursorTransition::Deactivate
    );
    assert!(!active);
}

#[test]
fn hyperlink_alone_activates() {
    let mut map: HashMap<Cell, (bool, bool)> = HashMap::new();
    map.insert((3, 3), (true, false));
    let mut active = false;
    assert_eq!(
        step(&mut active, &map, 3, 3),
        HoverCursorTransition::Activate
    );
}

#[test]
fn hyperlink_to_hotspot_no_thrash() {
    let mut map: HashMap<Cell, (bool, bool)> = HashMap::new();
    map.insert((0, 0), (true, false));
    map.insert((0, 1), (false, true));
    let mut active = false;
    step(&mut active, &map, 0, 0);
    assert_eq!(
        step(&mut active, &map, 0, 1),
        HoverCursorTransition::NoChange
    );
    assert!(active);
}

#[test]
fn full_walk_sequence() {
    // plain -> hotspot -> hotspot -> plain -> hyperlink -> plain
    let mut map: HashMap<Cell, (bool, bool)> = HashMap::new();
    map.insert((0, 1), (false, true));
    map.insert((0, 2), (false, true));
    map.insert((1, 0), (true, false));
    let mut active = false;
    let trail: Vec<HoverCursorTransition> = [(0, 0), (0, 1), (0, 2), (0, 3), (1, 0), (1, 1)]
        .iter()
        .map(|(r, c)| step(&mut active, &map, *r, *c))
        .collect();
    assert_eq!(
        trail,
        vec![
            HoverCursorTransition::NoChange,
            HoverCursorTransition::Activate,
            HoverCursorTransition::NoChange,
            HoverCursorTransition::Deactivate,
            HoverCursorTransition::Activate,
            HoverCursorTransition::Deactivate,
        ]
    );
}
