use game_core::render::{MeshId, is_drawable};

#[test]
fn mesh_slots_follow_load_order() {
    assert_eq!(MeshId::CubeGltf.slot(), 0);
    assert_eq!(MeshId::Cube.slot(), 1);
    assert_eq!(MeshId::Ground.slot(), 2);
}

#[test]
fn mesh_lookup_needs_enough_meshes() {
    assert_eq!(MeshId::Ground.lookup(3), Some(2));
    assert_eq!(MeshId::Ground.lookup(2), None);
    assert_eq!(MeshId::Cube.lookup(2), Some(1));
    assert_eq!(MeshId::CubeGltf.lookup(0), None);
}

#[test]
fn zero_area_surface_is_not_drawable() {
    assert!(is_drawable(1920, 1080));
    assert!(!is_drawable(0, 1080));
    assert!(!is_drawable(1920, 0));
    assert!(!is_drawable(0, 0));
    assert!(is_drawable(65536, 65536));
}
