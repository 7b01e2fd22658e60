use escrow::AccountId;
use escrow::escrow_authority;

fn id(n: u8) -> AccountId {
    AccountId { bytes: [n; 32] }
}

#[test]
fn authority_is_deterministic() {
    let key = id(42);
    let program = id(7);
    let a = escrow_authority(&key, &program).unwrap();
    let b = escrow_authority(&key, &program).unwrap();
    assert_eq!(a.0, b.0);
    assert_eq!(a.1, b.1);
}

#[test]
fn authority_is_derived_not_copied() {
    let key = id(42);
    let program = id(7);
    let (authority, _bump) = escrow_authority(&key, &program).unwrap();
    // the derivation hashes its inputs; it never hands back either of them
    assert_ne!(authority, key);
    assert_ne!(authority, program);
}

#[test]
fn authority_depends_on_record_identity() {
    let program = id(7);
    let (for_one, _) = escrow_authority(&id(1), &program).unwrap();
    let (for_two, _) = escrow_authority(&id(2), &program).unwrap();
    assert_ne!(for_one, for_two);
}

#[test]
fn authority_depends_on_program() {
    let key = id(42);
    let (under_one, _) = escrow_authority(&key, &id(1)).unwrap();
    let (under_two, _) = escrow_authority(&key, &id(2)).unwrap();
    assert_ne!(under_one, under_two);
}
