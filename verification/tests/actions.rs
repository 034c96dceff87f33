use telegram::bot::access::{Audience, Member};
use telegram::bot::category_statement::{oldest_first, statement_category};
use telegram::bot::entry_actions::{edit_entry_state, own_entry, ENTRY_GONE, NOT_THE_AUTHOR};
use telegram::bot::export::{export_caption, export_file_name};
use telegram::bot::recurrence_buttons::{deactivated_toast, recorded_html, skipped_html};
use telegram::bot::router::{bind_outcome, button_payload, message_button, BindOutcome, MessageButton};
use telegram::calendar::{Date, Time};
use telegram::callback_data::{
    delete_entry_button, parse, record_recurrence_button, skip_recurrence_button, CallbackPayload,
};
use telegram::flows::answers::Answer;
use telegram::flows::engine::Awaiting;
use telegram::flows::form::{Field, FormKind};
use telegram::ledger::{EntryKind, LedgerEntry};
use telegram::model::{CategoryId, CategoryKind, Cents, EntryId, MemberId, RecurrenceId};
use telegram::notifier::{backup_chats, recurrence_confirm_keyboard};
use telegram::render::catalog::{Category, Recurrence};
use telegram::render::errors::{error_text, AppError};
use telegram::render::notices::{backup_missing_text, budget_alerts_text, UtcMinute};
use telegram::render::report_text::Cycle;

fn member(id: u128, name: &str) -> Member {
    Member {
        id: MemberId(id),
        telegram_user_id: 10 + id as i64,
        display_name: name.into(),
        dm_chat_id: None,
        receives_backups: false,
    }
}

fn day(year: i32, month: u32, day: u32) -> Date {
    Date::from_ymd_opt(year, month, day).unwrap()
}

fn light_bill() -> Recurrence {
    Recurrence { id: RecurrenceId(0x1111_2222_3333_4444_8555_6666_7777_8888), description: "Luz & gás".into(), amount: Cents::new(12_000) }
}

fn entry(author: Option<MemberId>, kind: EntryKind) -> LedgerEntry {
    LedgerEntry {
        id: EntryId(0x0a0b_0c0d_0e0f_4a1b_8c2d_3e4f_5a6b_7c8d),
        kind,
        amount: Cents::new(1050),
        description: "feira".into(),
        accounting_date: day(2026, 3, 9),
        category_id: None,
        created_by: author,
    }
}

#[test]
fn backup_text_mentions_last_success() {
    assert!(backup_missing_text(None).contains("nunca"));
    let at = UtcMinute { date: day(2026, 3, 1), time: Time { hour: 6, minute: 0 } };
    assert!(backup_missing_text(Some(at)).contains("01/03 06:00 UTC"));
    assert_eq!(
        backup_missing_text(None),
        "⚠️ O backup do finbot nunca rodou com sucesso. Veja os logs do container backup."
    );
}

#[test]
fn backups_go_to_members_who_asked_in_private() {
    let mut ana = member(1, "Ana");
    ana.dm_chat_id = Some(501);
    ana.receives_backups = true;
    let mut bia = member(2, "Bia");
    bia.dm_chat_id = Some(502);
    let mut caio = member(3, "Caio");
    caio.receives_backups = true;
    let mut duda = member(4, "Duda");
    duda.dm_chat_id = Some(504);
    duda.receives_backups = true;
    assert_eq!(backup_chats(&[ana, bia, caio, duda]), vec![501, 504]);
    assert!(backup_chats(&[]).is_empty());
}

#[test]
fn no_alerts_means_no_message() {
    assert_eq!(budget_alerts_text(&[]), None);
}

#[test]
fn bills_to_confirm_offer_record_and_skip() {
    let date = day(2026, 3, 5);
    let keyboard = recurrence_confirm_keyboard(&light_bill(), date);
    assert_eq!(keyboard.rows.len(), 1);
    assert_eq!(keyboard.rows[0][0].label, "✅ Registrar R$ 120,00");
    assert_eq!(keyboard.rows[0][0].data, record_recurrence_button(light_bill().id, date));
    assert_eq!(keyboard.rows[0][1].label, "⏭️ Pular");
    assert_eq!(parse(&keyboard.rows[0][1].data), Some(CallbackPayload::SkipRecurrence(light_bill().id, date)));
    assert_eq!(keyboard.rows[0][1].data, skip_recurrence_button(light_bill().id, date));
}

#[test]
fn recurrence_buttons_leave_a_status() {
    let ana = member(1, "Ana <3");
    let date = day(2026, 3, 5);
    assert_eq!(
        recorded_html(&ana, true, &light_bill(), date),
        "✅ Registrado por Ana &lt;3: <b>Luz &amp; gás</b> R$ 120,00 (05/03)"
    );
    assert_eq!(
        recorded_html(&ana, false, &light_bill(), date),
        "✅ Já estava registrado: <b>Luz &amp; gás</b> R$ 120,00 (05/03)"
    );
    assert_eq!(skipped_html(&ana, Some(&light_bill()), date), "⏭️ Pulado por Ana &lt;3: <b>Luz &amp; gás</b> (05/03)");
    assert_eq!(skipped_html(&ana, None, date), "⏭️ Pulado por Ana &lt;3: <b>recorrência</b> (05/03)");
    assert_eq!(deactivated_toast(Some(&light_bill()), true), "Luz &amp; gás desativada");
    assert_eq!(deactivated_toast(None, true), "recorrência desativada");
    assert_eq!(deactivated_toast(Some(&light_bill()), false), "Já estava desativada");
}

#[test]
fn exports_are_named_by_the_cycle() {
    let cycle = Cycle { start: day(2026, 3, 5), end_exclusive: day(2026, 4, 5) };
    assert_eq!(export_file_name(cycle), "finbot-2026-03.csv");
    assert_eq!(export_caption(cycle), "📄 Lançamentos de 05/03/2026 a 04/04/2026");
    let new_year = Cycle { start: day(2025, 12, 25), end_exclusive: day(2026, 1, 1) };
    assert_eq!(export_caption(new_year), "📄 Lançamentos de 25/12/2025 a 31/12/2025");
}

#[test]
fn only_household_taps_with_known_payloads_are_taken() {
    let ana = member(1, "Ana");
    let data = delete_entry_button(EntryId(42));
    assert_eq!(
        button_payload(Audience::Household(ana.clone()), &data),
        Some((ana.clone(), CallbackPayload::DeleteEntry(EntryId(42))))
    );
    assert_eq!(button_payload(Audience::Household(ana.clone()), "nonsense"), None);
    assert_eq!(button_payload(Audience::Private(ana.clone()), &data), None);
    assert_eq!(button_payload(Audience::UnboundGroup(ana), &data), None);
    assert_eq!(button_payload(Audience::Stranger, &data), None);
}

#[test]
fn authors_and_automatic_entries_may_change() {
    let mine = entry(Some(MemberId(1)), EntryKind::Expense);
    assert_eq!(own_entry(Some(mine.clone()), MemberId(1)), Ok(mine.clone()));
    assert_eq!(own_entry(Some(mine), MemberId(2)), Err(NOT_THE_AUTHOR));
    let automatic = entry(None, EntryKind::Expense);
    assert_eq!(own_entry(Some(automatic.clone()), MemberId(2)), Ok(automatic));
    assert_eq!(own_entry(None, MemberId(1)), Err(ENTRY_GONE));
}

#[test]
fn editing_starts_with_the_target_chosen() {
    let today = day(2026, 3, 10);
    let state = edit_entry_state(&entry(None, EntryKind::Income), today);
    assert_eq!(state.form, FormKind::EditEntry);
    assert_ne!(state.awaiting, Awaiting::Field(Field::EditTarget));
    match state.answers.get(Field::EditTarget) {
        Some(Answer::Entry { id, income, label }) => {
            assert_eq!(*id, entry(None, EntryKind::Income).id);
            assert!(*income);
            assert_eq!(label, "R$ 10,50 · feira (ontem)");
        }
        other => panic!("unexpected target {other:?}"),
    }
    let expense = edit_entry_state(&entry(None, EntryKind::Expense), today);
    assert!(matches!(expense.answers.get(Field::EditTarget), Some(Answer::Entry { income: false, .. })));
}

#[test]
fn statements_find_their_category_and_read_oldest_first() {
    let home = Category {
        id: CategoryId(7),
        name: "casa".into(),
        kind: CategoryKind::Expense,
        emoji: None,
        archived: false,
        essential: true,
    };
    assert_eq!(statement_category(&[home.clone()], CategoryId(7)), Ok(&home));
    let missing = statement_category(&[home], CategoryId(8)).unwrap_err();
    assert_eq!(
        missing,
        AppError::NotFound { entity: "category".into(), id: "00000000-0000-0000-0000-000000000008".into() }
    );
    assert!(!error_text(&missing).is_empty());
    let mut newer = entry(None, EntryKind::Expense);
    newer.id = EntryId(2);
    let mut older = entry(None, EntryKind::Expense);
    older.id = EntryId(1);
    let ordered = oldest_first(vec![newer, older]);
    assert_eq!(ordered.iter().map(|e| e.id).collect::<Vec<_>>(), vec![EntryId(1), EntryId(2)]);
    assert!(oldest_first(Vec::new()).is_empty());
}

#[test]
fn binding_a_group_welcomes_leaves_or_explains() {
    assert_eq!(bind_outcome(&Ok(())), BindOutcome::Welcome);
    assert_eq!(bind_outcome(&Err(AppError::Conflict("bound".into()))), BindOutcome::Leave);
    let failure = AppError::Storage("db down".into());
    assert_eq!(bind_outcome(&Err(failure.clone())), BindOutcome::Reply(error_text(&failure)));
}

#[test]
fn message_buttons_route_to_their_handlers() {
    let date = day(2026, 3, 5);
    let id = light_bill().id;
    assert_eq!(message_button(&CallbackPayload::RecordRecurrence(id, date)), MessageButton::RecordRecurrence(id, date));
    assert_eq!(message_button(&CallbackPayload::SkipRecurrence(id, date)), MessageButton::SkipRecurrence(id, date));
    assert_eq!(message_button(&CallbackPayload::DeactivateRecurrence(id)), MessageButton::DeactivateRecurrence(id));
    assert_eq!(message_button(&CallbackPayload::ToggleEssential(CategoryId(3))), MessageButton::ToggleEssential(CategoryId(3)));
    assert_eq!(
        message_button(&CallbackPayload::CategoryStatement { category: CategoryId(3), from: date, to: date }),
        MessageButton::CategoryStatement { category: CategoryId(3), from: date, to: date }
    );
    assert_eq!(message_button(&CallbackPayload::Undo(EntryId(1))), MessageButton::Stale);
    assert_eq!(message_button(&CallbackPayload::DeleteEntry(EntryId(1))), MessageButton::Stale);
}
