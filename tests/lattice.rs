use grunge::{gradient_index, GRADIENT_COUNT};

#[test]
fn gradient_index_has_known_values() {
    assert_eq!(gradient_index(0, 0, 0), 0);
    assert_eq!(gradient_index(1, 0, 0), 2);
    assert_eq!(gradient_index(0, 1, 0), 4);
    assert_eq!(gradient_index(-1, -1, 0), 5);
    assert_eq!(gradient_index(3, -7, 42), 0);
}

#[test]
fn gradient_index_depends_on_the_seed() {
    let by_seed: Vec<usize> = (0..8usize).map(|s| gradient_index(0, 0, s)).collect();
    assert_eq!(by_seed, vec![0, 5, 0, 7, 0, 2, 3, 1]);
}

#[test]
fn gradient_index_is_repeatable_and_in_range() {
    for i in -20i64..20 {
        for j in -20i64..20 {
            let g = gradient_index(i, j, 1234);
            assert!(g < GRADIENT_COUNT);
            assert_eq!(g, gradient_index(i, j, 1234));
        }
    }
}
