use solar_sailer::scalar::Scalar;
use solar_sailer::source::{Entry, Point, Source, SourceKind};

fn s(x: f32) -> Scalar {
    Scalar::from_bits(x.to_bits())
}

fn at(x: f32, y: f32, z: f32) -> Point {
    Point { x: s(x), y: s(y), z: s(z) }
}

fn entry(key: &str, value: f32) -> Entry {
    Entry { key: key.to_string(), value: s(value) }
}

fn hand(id: u64, distance: f32, pinch_gap: f32, datamap: Vec<Entry>) -> Source {
    Source {
        id,
        kind: SourceKind::Hand { pinch_gap: s(pinch_gap), palm: at(0.0, 0.0, 0.0) },
        distance: s(distance),
        datamap,
    }
}

fn tip(id: u64, distance: f32, datamap: Vec<Entry>) -> Source {
    Source { id, kind: SourceKind::Tip { origin: at(0.0, 0.0, 0.0) }, distance: s(distance), datamap }
}

fn other(id: u64, distance: f32, datamap: Vec<Entry>) -> Source {
    Source { id, kind: SourceKind::Other, distance: s(distance), datamap }
}

#[test]
fn read_finds_a_named_number() {
    let source = tip(1, 0.0, vec![entry("grab", 0.25), entry("select", 0.75)]);
    assert_eq!(source.read("grab"), Some(s(0.25)));
    assert_eq!(source.read("select"), Some(s(0.75)));
}

#[test]
fn read_of_a_missing_key_is_none() {
    let source = tip(1, 0.0, vec![entry("grab", 0.25)]);
    assert_eq!(source.read("select"), None);
    assert_eq!(source.read("gra"), None);
    assert_eq!(source.read("grab "), None);
    assert_eq!(tip(2, 0.0, vec![]).read("grab"), None);
}

#[test]
fn read_takes_the_first_of_two_entries() {
    let source = tip(1, 0.0, vec![entry("grab", 0.25), entry("grab", 0.95)]);
    assert_eq!(source.read("grab"), Some(s(0.25)));
}

#[test]
fn reach_includes_the_capture_distance_itself() {
    assert!(hand(1, 0.03, 1.0, vec![]).is_reaching());
    assert!(hand(1, 0.0, 1.0, vec![]).is_reaching());
    assert!(hand(1, -0.01, 1.0, vec![]).is_reaching());
    assert!(hand(1, 0.05, 1.0, vec![]).is_reaching());
    assert!(!hand(1, 0.050000004, 1.0, vec![]).is_reaching());
    assert!(!hand(1, 0.06, 1.0, vec![]).is_reaching());
    assert!(!hand(1, f32::INFINITY, 1.0, vec![]).is_reaching());
    assert!(!hand(1, f32::NAN, 1.0, vec![]).is_reaching());
}

#[test]
fn a_hand_grips_by_grab_strength() {
    assert!(hand(1, 0.0, 1.0, vec![entry("grab_strength", 0.95)]).is_gripping());
    assert!(hand(1, 0.0, 1.0, vec![entry("grab_strength", 1.0)]).is_gripping());
    assert!(!hand(1, 0.0, 1.0, vec![entry("grab_strength", 0.90)]).is_gripping());
    assert!(!hand(1, 0.0, 1.0, vec![entry("grab_strength", 0.5)]).is_gripping());
    assert!(!hand(1, 0.0, 1.0, vec![entry("grab_strength", f32::NAN)]).is_gripping());
    // a hand is not asked for `grab`
    assert!(!hand(1, 0.0, 1.0, vec![entry("grab", 0.95)]).is_gripping());
}

#[test]
fn a_tip_grips_by_grab() {
    assert!(tip(1, 0.0, vec![entry("grab", 0.95)]).is_gripping());
    assert!(!tip(1, 0.0, vec![entry("grab", 0.90)]).is_gripping());
    assert!(!tip(1, 0.0, vec![entry("grab", 0.1)]).is_gripping());
    // a tip is not asked for `grab_strength`
    assert!(!tip(1, 0.0, vec![entry("grab_strength", 0.95)]).is_gripping());
}

#[test]
fn a_missing_key_is_no_gesture() {
    assert!(!hand(1, 0.0, 1.0, vec![]).is_gripping());
    assert!(!tip(1, 0.0, vec![]).is_gripping());
    assert!(!tip(1, 0.0, vec![]).is_gliding());
    assert!(!hand(1, 0.0, 1.0, vec![entry("select", 1.0)]).is_grabbing());
}

#[test]
fn another_kind_makes_no_gesture() {
    let all = vec![entry("grab_strength", 1.0), entry("grab", 1.0), entry("select", 1.0)];
    let source = other(1, 0.0, all);
    assert!(source.is_reaching());
    assert!(!source.is_gripping());
    assert!(!source.is_grabbing());
    assert!(!source.is_gliding());
    assert_eq!(source.handle_position(), None);
}

#[test]
fn grabbing_needs_reach_and_grip() {
    assert!(hand(1, 0.03, 1.0, vec![entry("grab_strength", 0.95)]).is_grabbing());
    assert!(!hand(1, 0.06, 1.0, vec![entry("grab_strength", 0.95)]).is_grabbing());
    assert!(!hand(1, 0.03, 1.0, vec![entry("grab_strength", 0.5)]).is_grabbing());
    assert!(!hand(1, 0.06, 1.0, vec![entry("grab_strength", 0.5)]).is_grabbing());
}

#[test]
fn a_hand_glides_by_pinching() {
    assert!(hand(1, 9.0, 0.02, vec![]).is_gliding());
    assert!(hand(1, 9.0, 0.0, vec![]).is_gliding());
    assert!(!hand(1, 9.0, 0.03, vec![]).is_gliding());
    assert!(!hand(1, 9.0, 0.1, vec![]).is_gliding());
    assert!(!hand(1, 9.0, f32::NAN, vec![]).is_gliding());
    // `select` is a tip's key
    assert!(!hand(1, 9.0, 0.1, vec![entry("select", 1.0)]).is_gliding());
}

#[test]
fn a_tip_glides_by_select() {
    assert!(tip(1, 9.0, vec![entry("select", 0.02)]).is_gliding());
    assert!(tip(1, 9.0, vec![entry("select", 1.0)]).is_gliding());
    assert!(!tip(1, 9.0, vec![entry("select", 0.01)]).is_gliding());
    assert!(!tip(1, 9.0, vec![entry("select", 0.0)]).is_gliding());
}

#[test]
fn gliding_does_not_ask_for_reach() {
    assert!(!hand(1, 9.0, 0.02, vec![]).is_reaching());
    assert!(hand(1, 9.0, 0.02, vec![]).is_gliding());
}

#[test]
fn the_handle_is_at_the_palm_or_the_origin() {
    let palm = at(1.0, 2.0, 3.0);
    let origin = at(-1.0, -2.0, -3.0);
    let a = Source {
        id: 1,
        kind: SourceKind::Hand { pinch_gap: s(0.0), palm },
        distance: s(0.0),
        datamap: vec![],
    };
    let b = Source { id: 2, kind: SourceKind::Tip { origin }, distance: s(0.0), datamap: vec![] };
    assert_eq!(a.handle_position(), Some(palm));
    assert_eq!(b.handle_position(), Some(origin));
}
