use anchor_lang::prelude::Pubkey;
use rps_staking::Identity;

#[test]
fn default_identity_is_all_zero() {
    assert_eq!(Identity::default().to_bytes(), [0u8; 32]);
    assert!(Identity::default().is_default());
    assert_eq!(Identity::default().to_bytes(), Pubkey::default().to_bytes());
}

#[test]
fn any_nonzero_byte_makes_an_identity_real() {
    for at in 0..32 {
        let mut bytes = [0u8; 32];
        bytes[at] = 1;
        assert!(!Identity::new(bytes).is_default());
        assert_ne!(Identity::new(bytes), Identity::default());
    }
}

#[test]
fn identities_are_equal_by_their_bytes() {
    let a = Identity::new([7u8; 32]);
    let b = Identity::new([7u8; 32]);
    assert_eq!(a, b);
    for at in 0..32 {
        let mut bytes = [7u8; 32];
        bytes[at] = 8;
        assert_ne!(a, Identity::new(bytes));
    }
}

#[test]
fn identity_keeps_its_bytes() {
    let key = Pubkey::new_from_array([42u8; 32]);
    let id = Identity::new(key.to_bytes());
    assert_eq!(id.to_bytes(), [42u8; 32]);
    assert_eq!(Pubkey::new_from_array(id.to_bytes()), key);
}
