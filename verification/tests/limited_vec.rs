use pallet_service_provider::dispatch::{ensure_signed, DispatchError, Origin};
use pallet_service_provider::limited_vec::{LimitedVec, MAX_LEN};

#[test]
fn limited_vec_accepts_up_to_fifteen_bytes() {
    assert_eq!(MAX_LEN, 15);
    let v = LimitedVec::try_from(vec![7u8; 15]).unwrap();
    assert_eq!(v.len(), 15);
    assert_eq!(v.to_vec(), vec![7u8; 15]);
    assert_eq!(v.clone(), v);
    let empty = LimitedVec::new();
    assert_eq!(empty.len(), 0);
    assert_eq!(LimitedVec::try_from(Vec::new()).unwrap(), empty);
}

#[test]
fn limited_vec_refuses_sixteen_bytes_and_hands_them_back() {
    let long: Vec<u8> = (0u8..16).collect();
    assert_eq!(LimitedVec::try_from(long.clone()), Err(long));
}

#[test]
fn ensure_signed_returns_the_signer() {
    assert_eq!(ensure_signed::<()>(Origin::signed(9)), Ok(9));
    assert_eq!(ensure_signed::<()>(Origin::Root), Err(DispatchError::BadOrigin));
    assert_eq!(ensure_signed::<()>(Origin::Unsigned), Err(DispatchError::BadOrigin));
}
