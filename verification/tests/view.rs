use quest_scrcpy::mesh::mesh_indices;
use quest_scrcpy::scalar::{equal, exceeds, magnitude, HALF, ONE, QUARTER, THREE_QUARTERS, ZERO};
use quest_scrcpy::view::{
    needs_mesh, output_dims, ViewParams, QUEST2_K1, QUEST2_K2, QUEST2_TILT, QUEST3S_K1,
    QUEST3S_K2, QUEST3S_TILT, QUEST3_K1, QUEST3_K2, QUEST3_TILT, QUESTPRO_K1, QUESTPRO_K2,
    QUESTPRO_TILT, TILT_TOLERANCE,
};

#[test]
fn constants_encode_their_numbers() {
    assert_eq!(f32::from_bits(ZERO), 0.0);
    assert_eq!(f32::from_bits(QUARTER), 0.25);
    assert_eq!(f32::from_bits(HALF), 0.5);
    assert_eq!(f32::from_bits(THREE_QUARTERS), 0.75);
    assert_eq!(f32::from_bits(ONE), 1.0);
    assert_eq!(f32::from_bits(TILT_TOLERANCE), 0.01);
    assert_eq!(f32::from_bits(QUEST3_K1), 0.02);
    assert_eq!(f32::from_bits(QUEST3_K2), -0.20);
    assert_eq!(f32::from_bits(QUEST3_TILT), -1.0);
    assert_eq!(f32::from_bits(QUEST2_K1), 0.10);
    assert_eq!(f32::from_bits(QUEST2_K2), -0.25);
    assert_eq!(f32::from_bits(QUEST2_TILT), -1.0);
    assert_eq!(f32::from_bits(QUEST3S_K1), 0.07);
    assert_eq!(f32::from_bits(QUEST3S_K2), -0.22);
    assert_eq!(f32::from_bits(QUEST3S_TILT), -1.0);
    assert_eq!(f32::from_bits(QUESTPRO_K1), 0.01);
    assert_eq!(f32::from_bits(QUESTPRO_K2), -0.04);
    assert_eq!(f32::from_bits(QUESTPRO_TILT), 0.0);
}

#[test]
fn numbers_compare_as_floats_do() {
    let samples = [0.0f32, -0.0, 0.5, -0.5, 1.0, 0.01, 0.011, -0.02, f32::INFINITY,
        f32::NEG_INFINITY, f32::NAN, -f32::NAN, f32::MIN_POSITIVE, 1e-42, f32::MAX];
    for a in samples {
        assert_eq!(f32::from_bits(magnitude(a.to_bits())).to_bits(), a.abs().to_bits());
        assert_eq!(exceeds(a.to_bits(), TILT_TOLERANCE), a.abs() > 0.01);
        for b in samples {
            assert_eq!(equal(a.to_bits(), b.to_bits()), a == b);
        }
    }
}

#[test]
fn recordings_have_even_sizes() {
    assert_eq!(output_dims(0, 1), (2, 2));
    assert_eq!(output_dims(2, 3), (2, 2));
    assert_eq!(output_dims(961, 1080), (960, 1080));
    assert_eq!(output_dims(u32::MAX, 5), (u32::MAX - 1, 4));
}

#[test]
fn mesh_is_needed_for_lens_or_tilt() {
    assert!(needs_mesh(true, ZERO));
    assert!(!needs_mesh(false, ZERO));
    assert!(!needs_mesh(false, 0.01f32.to_bits()));
    assert!(needs_mesh(false, (-0.02f32).to_bits()));
    assert!(!needs_mesh(false, f32::NAN.to_bits()));
}

#[test]
fn default_view_shows_unchanged_at_full_size_only() {
    let v = ViewParams::default();
    assert!(v.shows_unchanged(1920, 1080, 1920, 1080));
    assert!(!v.shows_unchanged(1920, 1080, 1280, 720));
    let flattened = ViewParams { lens_correct: true, ..v };
    assert!(!flattened.shows_unchanged(8, 8, 8, 8));
    let not_a_number = ViewParams { rotation_deg: f32::NAN.to_bits(), ..v };
    assert!(!not_a_number.shows_unchanged(8, 8, 8, 8));
}

#[test]
fn mesh_of_two_by_two_cells() {
    assert_eq!(
        mesh_indices(2),
        vec![
            0, 1, 3, 1, 4, 3, //
            1, 2, 4, 2, 5, 4, //
            3, 4, 6, 4, 7, 6, //
            4, 5, 7, 5, 8, 7,
        ]
    );
    assert!(mesh_indices(0).is_empty());
}

#[test]
fn mesh_indices_name_vertices() {
    let indices = mesh_indices(48);
    assert_eq!(indices.len(), 6 * 48 * 48);
    assert!(indices.iter().all(|k| *k < 49 * 49));
    assert_eq!(indices.iter().max(), Some(&(49 * 49 - 1)));
}
