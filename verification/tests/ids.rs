use nasdaq_strategy::ids::AccountId;

#[test]
fn id_keeps_its_bytes() {
    let mut bytes = [0u8; 32];
    for (i, b) in bytes.iter_mut().enumerate() {
        *b = i as u8;
    }
    let id = AccountId::new(bytes);
    assert_eq!(id.to_bytes(), bytes);
    assert_eq!(id.bytes, bytes);
}

#[test]
fn ids_with_the_same_bytes_are_equal() {
    assert_eq!(AccountId::new([9; 32]), AccountId::new([9; 32]));
    assert!(AccountId::new([0; 32]) == AccountId { bytes: [0; 32] });
}

#[test]
fn ids_that_differ_in_one_byte_are_different() {
    for i in 0..32 {
        let mut bytes = [5u8; 32];
        bytes[i] = 6;
        assert_ne!(AccountId::new(bytes), AccountId::new([5; 32]));
        assert!(!(AccountId::new([5; 32]) == AccountId::new(bytes)));
    }
}
