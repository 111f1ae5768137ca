use tws_codec::message_ids::{FAMessageDataTypes, IncomingMessageIds, OutgoingMessageIds};

#[test]
fn incoming_table_entries() {
    assert_eq!(IncomingMessageIds::from_code(1), Some(IncomingMessageIds::TickPrice));
    assert_eq!(IncomingMessageIds::from_code(3), Some(IncomingMessageIds::OrderStatus));
    assert_eq!(IncomingMessageIds::from_code(4), Some(IncomingMessageIds::ErrMsg));
    assert_eq!(IncomingMessageIds::from_code(9), Some(IncomingMessageIds::NextValidId));
    assert_eq!(IncomingMessageIds::from_code(102), Some(IncomingMessageIds::CompletedOrdersEnd));
    assert_eq!(IncomingMessageIds::NextValidId.code(), 9);
}

#[test]
fn outgoing_table_entries() {
    assert_eq!(OutgoingMessageIds::from_code(1), Some(OutgoingMessageIds::ReqMktData));
    assert_eq!(OutgoingMessageIds::from_code(3), Some(OutgoingMessageIds::PlaceOrder));
    assert_eq!(OutgoingMessageIds::from_code(71), Some(OutgoingMessageIds::StartApi));
    assert_eq!(OutgoingMessageIds::StartApi.code(), 71);
    assert_eq!(OutgoingMessageIds::ReqCompletedOrders.code(), 99);
}

#[test]
fn unknown_codes_are_none() {
    for code in [0, -1, 22, 44, 48, 60, 103, i32::MAX, i32::MIN] {
        assert_eq!(IncomingMessageIds::from_code(code), None);
    }
    for code in [0, -1, 26, 48, 60, 100, i32::MAX] {
        assert_eq!(OutgoingMessageIds::from_code(code), None);
    }
}

#[test]
fn every_code_maps_back() {
    let mut incoming = 0;
    let mut outgoing = 0;
    for code in -5..200 {
        if let Some(k) = IncomingMessageIds::from_code(code) {
            assert_eq!(k.code(), code);
            incoming += 1;
        }
        if let Some(k) = OutgoingMessageIds::from_code(code) {
            assert_eq!(k.code(), code);
            outgoing += 1;
        }
    }
    assert_eq!(incoming, 77);
    assert_eq!(outgoing, 75);
}

#[test]
fn fa_data_types() {
    assert_eq!(FAMessageDataTypes::Groups.code(), 1);
    assert_eq!(FAMessageDataTypes::from_code(3), Some(FAMessageDataTypes::Aliases));
    assert_eq!(FAMessageDataTypes::from_code(4), None);
}
