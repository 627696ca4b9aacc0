use meta_alkane::alkane::MetaAlkane;
use meta_alkane::error::AlkaneError;
use meta_alkane::message::{MetaAlkaneMessage, INITIALIZE_OPCODE, MINT_OPCODE};
use meta_alkane::response::{AlkaneId, AlkaneTransfer, CallResponse};

fn assert_empty(r: Result<CallResponse, AlkaneError>) {
    let resp = r.expect("expected a response");
    assert!(resp.alkanes.is_empty());
    assert!(resp.data.is_empty());
    assert!(resp.is_empty());
}

#[test]
fn initialize_answers_empty() {
    let alkane = MetaAlkane::default();
    assert_empty(alkane.execute(0, &vec![]));
    assert_empty(alkane.execute(0, &vec![5, 6, 7]));
    assert_empty(alkane.initialize());
}

#[test]
fn mint_answers_empty_for_zero() {
    let alkane = MetaAlkane::default();
    assert_empty(alkane.execute(77, &vec![0]));
    assert_empty(alkane.mint(0));
}

#[test]
fn mint_answers_empty_for_max() {
    let alkane = MetaAlkane::default();
    assert_empty(alkane.execute(77, &vec![u128::MAX]));
    assert_empty(alkane.mint(u128::MAX));
}

#[test]
fn mint_ignores_amount_and_extra_args() {
    let alkane = MetaAlkane::default();
    let a = alkane.execute(77, &vec![12345, 1, 2]).unwrap();
    let b = alkane.execute(77, &vec![u128::MAX - 1, 1, 2]).unwrap();
    assert_eq!(a.alkanes, b.alkanes);
    assert_eq!(a.data, b.data);
    assert!(a.data.is_empty());
}

#[test]
fn mint_without_amount_is_unimplemented() {
    let alkane = MetaAlkane::default();
    assert_eq!(alkane.execute(77, &vec![]).unwrap_err(), AlkaneError::Unimplemented);
}

#[test]
fn unknown_opcodes_are_unimplemented() {
    let alkane = MetaAlkane::default();
    for opcode in [1u128, 2, 50, 76, 78, 99, 1000, u128::MAX] {
        assert_eq!(alkane.execute(opcode, &vec![]).unwrap_err(), AlkaneError::Unimplemented);
        assert_eq!(alkane.execute(opcode, &vec![3]).unwrap_err(), AlkaneError::Unimplemented);
    }
}

#[test]
fn fallback_is_unimplemented() {
    let alkane = MetaAlkane::default();
    let e = alkane.fallback().unwrap_err();
    assert_eq!(e, AlkaneError::Unimplemented);
    assert_eq!(e.message(), "unimplemented");
}

#[test]
fn opcodes_are_zero_and_seventy_seven() {
    assert_eq!(INITIALIZE_OPCODE, 0);
    assert_eq!(MINT_OPCODE, 77);
}

#[test]
fn from_opcode_decodes_messages() {
    assert_eq!(MetaAlkaneMessage::from_opcode(0, &vec![]), Some(MetaAlkaneMessage::Initialize));
    assert_eq!(MetaAlkaneMessage::from_opcode(0, &vec![9]), Some(MetaAlkaneMessage::Initialize));
    assert_eq!(
        MetaAlkaneMessage::from_opcode(77, &vec![42, 7]),
        Some(MetaAlkaneMessage::Mint { amount: 42 })
    );
    assert_eq!(MetaAlkaneMessage::from_opcode(77, &vec![]), None);
    assert_eq!(MetaAlkaneMessage::from_opcode(3, &vec![42]), None);
}

#[test]
fn dispatch_answers_empty() {
    let alkane = MetaAlkane::default();
    assert_empty(MetaAlkaneMessage::Initialize.dispatch(&alkane));
    assert_empty(MetaAlkaneMessage::Mint { amount: 8 }.dispatch(&alkane));
}

#[test]
fn default_response_is_empty_and_filled_one_is_not() {
    assert!(CallResponse::default().is_empty());
    let with_data = CallResponse { alkanes: vec![], data: vec![1] };
    assert!(!with_data.is_empty());
    let transfer = AlkaneTransfer { id: AlkaneId { block: 2, tx: 1 }, value: 10 };
    let with_transfer = CallResponse { alkanes: vec![transfer], data: vec![] };
    assert!(!with_transfer.is_empty());
}
