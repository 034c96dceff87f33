use telegram::calendar::Date;
use telegram::callback_data::{
    category_statement_button, flow_button, nonce_of, parse, toggle_essential_button, undo_button,
    undo_purchase_button, ButtonValue, CallbackPayload, MAX_CALLBACK_BYTES,
};
use telegram::flows::answers::{EditChoice, RecordField, RecordKind};
use telegram::model::{
    AccountId, AccountKind, CardId, CategoryId, CategoryKind, Cents, DraftId, EntryId, GoalId,
    InvoiceId, PurchaseId, RecurrenceId, RecurrenceKind, RecurrenceMode,
};

fn every_value() -> Vec<ButtonValue> {
    let fixed = [
        ButtonValue::Skip,
        ButtonValue::Today,
        ButtonValue::Yesterday,
        ButtonValue::OtherDate,
        ButtonValue::Confirm,
        ButtonValue::Cancel,
    ];
    [fixed.to_vec(), values_with_payload()].concat()
}

fn values_with_payload() -> Vec<ButtonValue> {
    vec![
        ButtonValue::Category(CategoryId(0x9f3c_2a41_77d0_4e2b_8c61_0d5a_3e9b_12f4)),
        ButtonValue::Account(AccountId(0x0000_0000_0000_4000_8000_0000_0000_0001)),
        ButtonValue::Goal(GoalId(u128::MAX)),
        ButtonValue::Kind(AccountKind::Savings),
        ButtonValue::Card(CardId(0x1234_5678_9abc_4def_8123_4567_89ab_cdef)),
        ButtonValue::Invoice(InvoiceId(0x0fed_cba9_8765_4321_0fed_cba9_8765_4321)),
        ButtonValue::Installments(12),
        ButtonValue::Money(Cents::new(123_456)),
        ButtonValue::RecurrenceKind(RecurrenceKind::Income),
        ButtonValue::RecurrenceMode(RecurrenceMode::Confirm),
        ButtonValue::EditChoice(EditChoice::Category),
        ButtonValue::CategoryKind(CategoryKind::Income),
        ButtonValue::Essential(true),
        ButtonValue::Essential(false),
        ButtonValue::RecordKind(RecordKind::Goal),
        ButtonValue::RecordField(RecordField::Deadline),
        ButtonValue::Recurrence(RecurrenceId(0xaaaa_bbbb_cccc_4ddd_8eee_ffff_0000_1111)),
    ]
}

#[test]
fn flow_buttons_round_trip_within_limit() {
    let nonce = nonce_of(DraftId(0x5b1e_93c2_0a7f_4d68_9e21_c3b4_a5d6_e7f8));
    for value in every_value() {
        let data = flow_button(&nonce, value);
        assert!(data.len() <= MAX_CALLBACK_BYTES, "{data} is {} bytes", data.len());
        assert_eq!(parse(&data), Some(CallbackPayload::Flow { nonce: nonce.clone(), value }));
    }
}

#[test]
fn toggle_essential_round_trips() {
    let category = CategoryId(0x3333_4444_5555_4666_8777_8888_9999_aaaa);
    let data = toggle_essential_button(category);
    assert_eq!(parse(&data), Some(CallbackPayload::ToggleEssential(category)));
    assert_eq!(parse("abc|es:2"), None);
}

#[test]
fn category_statement_round_trips_within_limit() {
    let category = CategoryId(0x0102_0304_0506_4708_8900_0a0b_0c0d_0e0f);
    let (from, to) = (Date::from_ymd_opt(2026, 9, 5).unwrap(), Date::from_ymd_opt(2026, 10, 4).unwrap());
    let data = category_statement_button(category, from, to);
    assert!(data.len() <= MAX_CALLBACK_BYTES, "{data} is {} bytes", data.len());
    assert_eq!(parse(&data), Some(CallbackPayload::CategoryStatement { category, from, to }));
    let id = "01020304-0506-4708-8900-0a0b0c0d0e0f";
    assert_eq!(parse(&format!("cs|{id}|20261304|20261004")), None);
    assert_eq!(parse(&format!("cs|{id}|20260905")), None);
}

#[test]
fn undo_round_trips() {
    let entry = EntryId(0x7777_6666_5555_4444_8333_2222_1111_0000);
    assert_eq!(parse(&undo_button(entry)), Some(CallbackPayload::Undo(entry)));
    let purchase = PurchaseId(0x1000_2000_3000_4000_8000_6000_7000_8000);
    assert_eq!(parse(&undo_purchase_button(purchase)), Some(CallbackPayload::UndoPurchase(purchase)));
}

#[test]
fn rejects_foreign_payloads() {
    for data in ["", "nonsense", "abc|zz", "abc|c:not-a-uuid", "abc|k:crypto", "u|bad", "abc|q:1"] {
        assert_eq!(parse(data), None, "{data}");
    }
}
