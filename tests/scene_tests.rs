use termtrace::scene::{
    line_kind, parse_scene, CameraKind, Group, LightKind, LineFault, LineKind, SceneError,
    ShapeKind,
};

fn lines(v: &[&str]) -> Vec<String> {
    v.iter().map(|s| s.to_string()).collect()
}

fn strings(v: &[&str]) -> Vec<String> {
    v.iter().map(|s| s.to_string()).collect()
}

const CAMERA: &str = "C O -1 0 0 10 0 0 2";

#[test]
fn full_scene() {
    let scene = lines(&[
        "// a demo",
        "P a 0 0 0",
        "P b 0 1 0",
        "P c 1 0 0",
        "OBJ",
        "M R 90 0 0 0 0 0 1",
        "M R 45 0 0 0 1 0 0",
        "T a b c #",
        "S a 1.5 @",
        "TRS 0 0 1 0 0 0 2 0.5 *",
        "END_OBJ",
        CAMERA,
        "C P 1 0 0 0 0 0 1 3",
        "L D 0 0 -1 0.8 N",
        "L P 1 2 3 5 R 10 0 0 0 0 0 1",
        "STL cube.stl N",
    ]);
    let s = parse_scene(scene, Some("scenes/demo.txt")).unwrap();
    assert_eq!(s.groups.len(), 2);
    match &s.groups[0] {
        Group::Object { children, motion } => {
            assert_eq!(children.len(), 3);
            assert_eq!(children[0].kind, ShapeKind::Triangle);
            assert_eq!(
                children[0].nums,
                strings(&["0", "0", "0", "0", "1", "0", "1", "0", "0"])
            );
            assert_eq!(children[0].color, '#');
            assert_eq!(children[1].kind, ShapeKind::Sphere);
            assert_eq!(children[1].nums, strings(&["0", "0", "0", "1.5"]));
            assert_eq!(children[1].color, '@');
            assert_eq!(children[2].kind, ShapeKind::Torus);
            assert_eq!(
                children[2].nums,
                strings(&["0", "0", "1", "0", "0", "0", "2", "0.5"])
            );
            let m = motion.as_ref().unwrap();
            assert_eq!(m.nums, strings(&["90", "0", "0", "0", "0", "0", "1"]));
        }
        _ => panic!("expected an object"),
    }
    match &s.groups[1] {
        Group::Mesh { path, motion } => {
            assert_eq!(path, "scenes/cube.stl");
            assert!(motion.is_none());
        }
        _ => panic!("expected a mesh"),
    }
    assert_eq!(s.camera.kind, CameraKind::Ortho);
    assert_eq!(s.camera.nums, strings(&["-1", "0", "0", "10", "0", "0", "2"]));
    assert_eq!(s.lights.len(), 2);
    assert_eq!(s.lights[0].kind, LightKind::Directional);
    assert_eq!(s.lights[0].nums, strings(&["0", "0", "-1", "0.8"]));
    assert!(s.lights[0].motion.is_none());
    assert_eq!(s.lights[1].kind, LightKind::Point);
    assert_eq!(
        s.lights[1].motion.as_ref().unwrap().nums,
        strings(&["10", "0", "0", "0", "0", "0", "1"])
    );
}

#[test]
fn later_point_definition_wins() {
    let scene = lines(&["P a 0 0 0", "P a 5 5 5", "OBJ", "S a 1 o", "END_OBJ", CAMERA]);
    let s = parse_scene(scene, None).unwrap();
    match &s.groups[0] {
        Group::Object { children, .. } => {
            assert_eq!(children[0].nums, strings(&["5", "5", "5", "1"]))
        }
        _ => panic!("expected an object"),
    }
}

#[test]
fn unknown_camera_kind_leaves_room_for_a_later_one() {
    let scene = lines(&["C X", "C P 1 0 0 0 0 0 1 3"]);
    let s = parse_scene(scene, None).unwrap();
    assert_eq!(s.camera.kind, CameraKind::Perspective);
    assert_eq!(s.camera.nums.len(), 8);
    assert!(s.groups.is_empty());
}

#[test]
fn open_object_at_end_is_dropped() {
    let scene = lines(&["P a 0 0 0", "OBJ", "S a 1 o", CAMERA]);
    let s = parse_scene(scene, None).unwrap();
    assert!(s.groups.is_empty());
}

#[test]
fn missing_camera() {
    assert_eq!(parse_scene(lines(&["// nothing"]), None).unwrap_err(), SceneError::NoCamera);
    assert_eq!(parse_scene(vec![], None).unwrap_err(), SceneError::NoCamera);
}

fn fault(v: &[&str], base: Option<&str>) -> SceneError {
    parse_scene(lines(v), base).unwrap_err()
}

#[test]
fn refused_lines() {
    let line = |line: usize, fault: LineFault| SceneError::Line { line, fault };
    assert_eq!(fault(&["P a 1 2"], None), line(0, LineFault::MissingField));
    assert_eq!(fault(&[CAMERA, "T a b c x"], None), line(1, LineFault::UnknownPoint));
    assert_eq!(fault(&["P a 0 0 0", "T a a a "], None), line(1, LineFault::EmptyGlyph));
    assert_eq!(fault(&["X 1 2"], None), line(0, LineFault::UnknownKind));
    assert_eq!(fault(&[""], None), line(0, LineFault::UnknownKind));
    assert_eq!(fault(&["L Q 0 0 1 1 N"], None), line(0, LineFault::UnknownLight));
    assert_eq!(fault(&["L D 0 0 1 1"], None), line(0, LineFault::MissingField));
    assert_eq!(fault(&["STL cube.stl N"], None), line(0, LineFault::MeshWithoutFile));
    assert_eq!(fault(&["STL cube.stl"], Some("a.txt")), line(0, LineFault::MissingField));
    assert_eq!(fault(&["M"], None), line(0, LineFault::MissingField));
    assert_eq!(fault(&["M R 1 2 3"], None), line(0, LineFault::MissingField));
    assert_eq!(fault(&["C O 1 0 0"], None), line(0, LineFault::MissingField));
    assert_eq!(fault(&["TRS 0 0 1 0 0 0 2 0.5"], None), line(0, LineFault::MissingField));
}

#[test]
fn first_fault_is_reported() {
    assert_eq!(
        fault(&["// ok", "X", "Y"], None),
        SceneError::Line { line: 1, fault: LineFault::UnknownKind }
    );
}

#[test]
fn keywords() {
    assert_eq!(line_kind(&"END_OBJ".to_string()), LineKind::Close);
    assert_eq!(line_kind(&"TRS".to_string()), LineKind::Torus);
    assert_eq!(line_kind(&"//".to_string()), LineKind::Comment);
    assert_eq!(line_kind(&"stl".to_string()), LineKind::Unknown);
}
