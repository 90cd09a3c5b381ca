use mctk::edges::{Corners, Edges};
use std::cell::Cell;

#[test]
fn edges_fields() {
    let edges = Edges { top: 10.0, right: 20.0, bottom: 30.0, left: 40.0 };
    assert_eq!(edges.top, 10.0);
    assert_eq!(edges.right, 20.0);
    assert_eq!(edges.bottom, 30.0);
    assert_eq!(edges.left, 40.0);
}

#[test]
fn edges_all_sets_every_side() {
    let uniform_edges = Edges::all(10.0);
    assert_eq!(uniform_edges.top, 10.0);
    assert_eq!(uniform_edges.right, 10.0);
    assert_eq!(uniform_edges.bottom, 10.0);
    assert_eq!(uniform_edges.left, 10.0);
    let named = Edges::all(String::from("pad"));
    assert_eq!(named, Edges { top: "pad".to_string(), right: "pad".to_string(), bottom: "pad".to_string(), left: "pad".to_string() });
}

#[test]
fn edges_map_applies_to_each_side() {
    let edges = Edges { top: 10, right: 20, bottom: 30, left: 40 };
    let edges_float = edges.map(|&value| value as f32 * 1.1);
    assert_eq!(edges_float, Edges { top: 11.0, right: 22.0, bottom: 33.0, left: 44.0 });
    let doubled = edges.map(|v| v * 2);
    assert_eq!(doubled, Edges { top: 20, right: 40, bottom: 60, left: 80 });
}

#[test]
fn edges_any_checks_each_side() {
    let edges = Edges { top: 10, right: 0, bottom: 5, left: 0 };
    assert!(edges.any(|value| *value == 0));
    assert!(edges.any(|value| *value > 0));
    assert!(!edges.any(|value| *value > 10));
}

#[test]
fn edges_any_stops_at_first_yes() {
    let asked = Cell::new(0);
    let edges = Edges { top: 1, right: 2, bottom: 3, left: 4 };
    assert!(edges.any(|v| {
        asked.set(asked.get() + 1);
        *v == 2
    }));
    assert_eq!(asked.get(), 2);
}

#[test]
fn corners_all_and_map() {
    let uniform_corners = Corners::all(5.0);
    assert_eq!(uniform_corners.top_left, 5.0);
    assert_eq!(uniform_corners.top_right, 5.0);
    assert_eq!(uniform_corners.bottom_right, 5.0);
    assert_eq!(uniform_corners.bottom_left, 5.0);
    let c = Corners { top_left: 1, top_right: 2, bottom_right: 3, bottom_left: 4 };
    assert_eq!(c.map(|v| v + 10), Corners { top_left: 11, top_right: 12, bottom_right: 13, bottom_left: 14 });
}
