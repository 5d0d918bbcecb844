use drainer_registry::state::pubkey::system_program_id;
use drainer_registry::Pubkey;

#[test]
fn default_key_is_all_zero() {
    assert_eq!(Pubkey::default().to_bytes(), [0u8; 32]);
    assert_eq!(
        Pubkey::default().to_bytes(),
        anchor_lang::prelude::Pubkey::default().to_bytes()
    );
}

#[test]
fn system_program_id_is_all_zero() {
    assert_eq!(system_program_id().to_bytes(), [0u8; 32]);
    assert_eq!(
        system_program_id().to_bytes(),
        anchor_lang::system_program::ID.to_bytes()
    );
    assert_eq!(system_program_id(), Pubkey::default());
}

#[test]
fn keys_are_equal_when_all_bytes_are() {
    let a = Pubkey::new_from_array([7u8; 32]);
    let b = Pubkey::new_from_array([7u8; 32]);
    let mut other = [7u8; 32];
    other[31] = 8;
    let c = Pubkey::new_from_array(other);
    let mut first = [7u8; 32];
    first[0] = 0;
    let d = Pubkey::new_from_array(first);
    assert!(a == b);
    assert!(a != c);
    assert!(a != d);
    assert!(c != d);
    assert_eq!(
        a == c,
        anchor_lang::prelude::Pubkey::new_from_array([7u8; 32])
            == anchor_lang::prelude::Pubkey::new_from_array(other)
    );
}

#[test]
fn key_round_trips_through_bytes() {
    let mut bytes = [0u8; 32];
    for i in 0..32 {
        bytes[i] = (i * 3) as u8;
    }
    assert_eq!(Pubkey::new_from_array(bytes).to_bytes(), bytes);
    assert_eq!(Pubkey::new_from_array(bytes).bytes, bytes);
}
