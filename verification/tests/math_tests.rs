use spider::math::fast_sqrt;

#[test]
fn test_sanity() {
    for n in 0i16..16384i16 {
        assert_eq!(fast_sqrt(n), (n as f32).sqrt().floor() as i8);
    }
}

#[test]
fn test_fast_sqrt_edges() {
    assert_eq!(fast_sqrt(0), 0);
    assert_eq!(fast_sqrt(1), 1);
    assert_eq!(fast_sqrt(2), 1);
    assert_eq!(fast_sqrt(3), 1);
    assert_eq!(fast_sqrt(4), 2);
    assert_eq!(fast_sqrt(16128), 126);
    assert_eq!(fast_sqrt(16129), 127);
    assert_eq!(fast_sqrt(16383), 127);
}
