use viewer::material::{
    get_rand_rgba, new_phys_mat, wireframe_albedo, Srgba, BRIGHT_MAX, BRIGHT_MIN,
};

#[test]
fn bright_range_is_the_upper_half_of_a_channel() {
    assert_eq!(BRIGHT_MIN, 126);
    assert_eq!(BRIGHT_MAX, 255);
}

#[test]
fn opaque_colour_has_full_alpha() {
    assert_eq!(Srgba::new_opaque(1, 2, 3), Srgba { r: 1, g: 2, b: 3, a: 255 });
}

#[test]
fn random_channels_are_bright() {
    for _ in 0..2000 {
        for channel in get_rand_rgba() {
            assert!((126..=255).contains(&channel));
        }
    }
}

#[test]
fn random_channels_are_not_stuck_at_an_end_of_the_range() {
    let mut draws = Vec::new();
    for _ in 0..500 {
        draws.extend(get_rand_rgba());
    }
    assert!(draws.iter().any(|&channel| channel != BRIGHT_MIN));
    assert!(draws.iter().any(|&channel| channel != BRIGHT_MAX));
    let first = draws[0];
    assert!(draws.iter().any(|&channel| channel != first));
}

#[test]
fn random_channels_differ_from_each_other() {
    let mut all_equal = true;
    for _ in 0..200 {
        let [r, g, b, a] = get_rand_rgba();
        all_equal = all_equal && r == g && g == b && b == a;
    }
    assert!(!all_equal);
}

#[test]
fn fresh_solid_colour_is_bright_and_opaque() {
    for _ in 0..500 {
        let albedo = new_phys_mat();
        assert!(albedo.r >= 126);
        assert!(albedo.g >= 126);
        assert!(albedo.b >= 126);
        assert_eq!(albedo.a, 255);
    }
}

#[test]
fn wireframe_colour_is_fixed() {
    assert_eq!(wireframe_albedo(), Srgba { r: 220, g: 50, b: 50, a: 255 });
}
