use termtrace::paths::same_dir_file;

#[test]
fn file_beside_scene_file() {
    assert_eq!(same_dir_file("mesh.stl", "scenes/cube.txt"), "scenes/mesh.stl");
    assert_eq!(same_dir_file("mesh.stl", "/data/scenes/cube.txt"), "/data/scenes/mesh.stl");
}

#[test]
fn scene_file_without_directory() {
    assert_eq!(same_dir_file("mesh.stl", "cube.txt"), "mesh.stl");
    assert_eq!(same_dir_file("mesh.stl", ""), "mesh.stl");
}

#[test]
fn absolute_file_name_is_kept() {
    assert_eq!(same_dir_file("/models/mesh.stl", "scenes/cube.txt"), "/models/mesh.stl");
}
