use cketh_bridge::principal::{
    canister_deposit_principal, Account, PrincipalId, Subaccount, SubaccountError,
};

#[test]
fn principal_from_text_gives_the_bytes() {
    let p = PrincipalId::from_text("7hfb6-caaaa-aaaar-qadga-cai").unwrap();
    assert_eq!(p.to_vec(), b"\x00\x00\x00\x00\x02\x30\x00\xCC\x01\x01".to_vec());
    let m = PrincipalId::from_text("aaaaa-aa").unwrap();
    assert_eq!(m.to_vec(), Vec::<u8>::new());
    assert_eq!(m.len(), 0);
}

#[test]
fn principal_from_text_rejects_what_is_no_principal() {
    assert!(PrincipalId::from_text("").is_none());
    assert!(PrincipalId::from_text("not a principal").is_none());
    assert!(PrincipalId::from_text("7hfb6-caaaa-aaaar-qadga-caj").is_none());
}

#[test]
fn principal_from_slice_is_bounded() {
    assert!(PrincipalId::from_slice(&[7u8; 29]).is_some());
    assert!(PrincipalId::from_slice(&[7u8; 30]).is_none());
    let p = PrincipalId::from_slice(&[1, 2, 3]).unwrap();
    assert_eq!(p.to_vec(), vec![1, 2, 3]);
    assert!(p.equals(&p.clone()));
    assert!(!p.equals(&PrincipalId::from_slice(&[1, 2]).unwrap()));
}

#[test]
fn subaccount_of_a_principal_is_length_then_bytes() {
    let p = PrincipalId::from_text("b7pqa-qqaaa-aaaap-abdva-cai").unwrap();
    let s = Subaccount::from_principal(&p);
    assert_eq!(
        s.0,
        [
            10, 0, 0, 0, 0, 1, 224, 8, 234, 1, 1, 0, 0, 0, 0, 0, 0, 0, 0, 0, 0, 0, 0, 0, 0, 0, 0,
            0, 0, 0, 0, 0
        ]
    );
    assert_eq!(s.to_bytes32(), Ok(s.0));
}

#[test]
fn subaccount_that_holds_no_principal_has_no_bytes32() {
    assert_eq!(Subaccount([0u8; 32]).to_bytes32(), Err(SubaccountError::NotPrincipal));
    let mut bytes = [0u8; 32];
    bytes[0] = 30;
    assert_eq!(Subaccount(bytes).to_bytes32(), Err(SubaccountError::LengthError(30)));
    bytes[0] = 29;
    assert_eq!(Subaccount(bytes).to_bytes32(), Ok(bytes));
}

#[test]
fn deposit_principal_is_hex_of_the_subaccount() {
    let p = PrincipalId::from_text("b7pqa-qqaaa-aaaap-abdva-cai").unwrap();
    assert_eq!(
        canister_deposit_principal(&p),
        Ok("0x0a0000000001e008ea0101000000000000000000000000000000000000000000".to_string())
    );
    let q = PrincipalId::from_slice(&[0xAB, 0xCD, 0xEF]).unwrap();
    assert_eq!(
        canister_deposit_principal(&q),
        Ok("0x03abcdef00000000000000000000000000000000000000000000000000000000".to_string())
    );
}

#[test]
fn deposit_principal_of_the_empty_principal_is_an_error() {
    let empty = PrincipalId::from_slice(&[]).unwrap();
    assert_eq!(canister_deposit_principal(&empty), Err(SubaccountError::NotPrincipal));
}

#[test]
fn account_from_text_without_subaccount() {
    let a = Account::from_text("b7pqa-qqaaa-aaaap-abdva-cai").unwrap();
    assert_eq!(a.owner.to_vec(), vec![0, 0, 0, 0, 1, 224, 8, 234, 1, 1]);
    assert!(a.subaccount.is_none());
}

#[test]
fn account_from_text_with_subaccount() {
    let a = Account::from_text("b7pqa-qqaaa-aaaap-abdva-cai-vpwy45i.1").unwrap();
    assert_eq!(a.owner.to_vec(), vec![0, 0, 0, 0, 1, 224, 8, 234, 1, 1]);
    let mut expected = [0u8; 32];
    expected[31] = 1;
    assert_eq!(a.subaccount.unwrap().0, expected);
}

#[test]
fn account_from_text_rejects_bad_text() {
    assert!(Account::from_text("").is_none());
    assert!(Account::from_text("hello").is_none());
    assert!(Account::from_text("b7pqa-qqaaa-aaaap-abdva-cai-aaaaaaa.1").is_none());
    assert!(Account::from_text("é-abcdefg.1").is_none());
    assert!(Account::from_text("b7pqa-qqaaa-aaaap-abdva-cai.").is_none());
}

#[test]
fn subaccount_of_the_longest_principal_fills_thirty_bytes() {
    let bytes: Vec<u8> = (1..=29).collect();
    let p = PrincipalId::from_slice(&bytes).unwrap();
    let s = Subaccount::from_principal(&p);
    assert_eq!(s.0[0], 29);
    assert_eq!(&s.0[1..30], &bytes[..]);
    assert_eq!(&s.0[30..], &[0u8, 0u8]);
    assert_eq!(s.to_bytes32(), Ok(s.0));
}

#[test]
fn subaccount_of_the_empty_principal_is_all_zero() {
    let p = PrincipalId::from_slice(&[]).unwrap();
    assert_eq!(Subaccount::from_principal(&p).0, [0u8; 32]);
}

#[test]
fn account_new_keeps_owner_and_subaccount() {
    let owner = PrincipalId::from_slice(&[1, 2, 3]).unwrap();
    let account = Account::new(owner.clone(), Some(Subaccount([9u8; 32])));
    assert_eq!(account.owner, owner);
    assert_eq!(account.subaccount, Some(Subaccount([9u8; 32])));
}
