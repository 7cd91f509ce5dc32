use particle_life::math::euclidean_mod;

#[test]
fn test_euclidean_mod() {
    assert_eq!(euclidean_mod(7, 5), 2);
    assert_eq!(euclidean_mod(-3, 5), 2);
    assert_eq!(euclidean_mod(-8, 5), 2);
}

#[test]
fn test_euclidean_mod_edges() {
    assert_eq!(euclidean_mod(0, 7), 0);
    assert_eq!(euclidean_mod(7, 7), 0);
    assert_eq!(euclidean_mod(-7, 7), 0);
    assert_eq!(euclidean_mod(-1, 7), 6);
    assert_eq!(euclidean_mod(i32::MAX, 2), 1);
    assert_eq!(euclidean_mod(i32::MIN, 3), 1);
}
