use screen_text_reader::calculate_simple_hash;

#[test]
fn identical_buffers_yield_identical_fingerprints() {
    let a: Vec<u8> = (0..=255).cycle().take(5000).map(|b: u16| b as u8).collect();
    let b = a.clone();
    assert_eq!(calculate_simple_hash(&a), calculate_simple_hash(&b));
}

#[test]
fn fingerprint_has_exact_known_values() {
    // Short buffers sample every byte, weighted by offset plus one:
    // 1*1 + 2*2 + 3*3 = 14.
    assert_eq!(calculate_simple_hash(&[1, 2, 3]), 14);
    assert_eq!(calculate_simple_hash(&[5]), 5);
    assert_eq!(calculate_simple_hash(&[0; 100]), 0);
    assert_eq!(calculate_simple_hash(&[]), 0);
}

#[test]
fn sampled_byte_difference_changes_the_fingerprint() {
    let a = vec![7u8; 3000];
    let mut b = a.clone();
    // Offset 0 is sampled whatever the stride.
    b[0] = 8;
    assert_ne!(calculate_simple_hash(&a), calculate_simple_hash(&b));
}

#[test]
fn long_buffers_sample_a_strided_subset() {
    // 2000 bytes: stride 2, offsets 0, 2, 4, ... are sampled.
    let a = vec![0u8; 2000];
    let mut b = a.clone();
    b[1] = 99;
    // An unsampled byte leaves the fingerprint alone.
    assert_eq!(calculate_simple_hash(&a), calculate_simple_hash(&b));
    let mut c = a.clone();
    c[2] = 99;
    assert_ne!(calculate_simple_hash(&a), calculate_simple_hash(&c));
}
