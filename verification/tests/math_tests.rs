use vehicle_core::math::{div_units, isqrt64, normalize_units, vec_cross, vec_descale, Vec3Fix};

#[test]
fn isqrt_rounds_down() {
    assert_eq!(isqrt64(0), 0);
    assert_eq!(isqrt64(1), 1);
    assert_eq!(isqrt64(3), 1);
    assert_eq!(isqrt64(4), 2);
    assert_eq!(isqrt64(99), 9);
    assert_eq!(isqrt64(100), 10);
    assert_eq!(isqrt64(1_000_000_000_000), 1_000_000);
    assert_eq!(isqrt64(999_999_999_999), 999_999);
}

#[test]
fn division_truncates_toward_zero() {
    assert_eq!(div_units(7, 2), 3);
    assert_eq!(div_units(-7, 2), -3);
    assert_eq!(div_units(0, 5), 0);
    assert_eq!(div_units(-1, 5), 0);
    assert_eq!(div_units(1000, 1000), 1);
}

#[test]
fn normalize_gives_exact_unit_for_pythagorean_vectors() {
    let r = normalize_units(Vec3Fix { x: 3000, y: 4000, z: 0 });
    assert_eq!(r, Vec3Fix { x: 600, y: 800, z: 0 });
    let r = normalize_units(Vec3Fix { x: 0, y: -5000, z: 0 });
    assert_eq!(r, Vec3Fix { x: 0, y: -1000, z: 0 });
}

#[test]
fn cross_product_of_axes() {
    let x = Vec3Fix { x: 1000, y: 0, z: 0 };
    let y = Vec3Fix { x: 0, y: 1000, z: 0 };
    let c = vec_cross(x, y);
    assert_eq!(c, Vec3Fix { x: 0, y: 0, z: 1_000_000 });
    assert_eq!(vec_descale(c), Vec3Fix { x: 0, y: 0, z: 1000 });
}
