use std::time::Duration;

use telegram::bot::commands::{parse_command, summary_date};
use telegram::bot::executor::{headline, Committed};
use telegram::bot::flow_runner::{card_outcome, cancel_placement, keeps_flow_after, undo_keyboard, undo_keyboard_for, Placement};
use telegram::bot::undo::{entry_undo_refusal, purchase_undo_refusal, undo_last_reply, ENTRY_ALREADY_UNDONE, NOTHING_TO_UNDO, ONLY_THE_AUTHOR, PURCHASE_ALREADY_UNDONE};
use telegram::gateway::{Button, Keyboard};
use telegram::render::card::CardView;
use telegram::render::errors::{error_text, AppError};
use telegram::bot::periods::{parse_month, YearMonth};
use telegram::calendar::Date;
use telegram::callback_data::{parse, undo_button, CallbackPayload};
use telegram::flows::form::FormKind;
use telegram::gateway::{api_error, api_message_id, display_name, ignore_not_modified, poll_timeout_secs, user_id_of, GatewayError};
use telegram::model::{AccountId, EntryId};
use telegram::gateway::{IncomingUpdate, UpdateKind};
use telegram::poller::{after_failure, after_updates, backoff, retry_wait, PollCursor, CONFLICT_WAIT_SECS, MAX_BACKOFF_SECS};

#[test]
fn parses_commands_with_bot_mentions_and_arguments() {
    assert_eq!(parse_command("/gasto"), Some(("gasto".into(), String::new())));
    assert_eq!(parse_command(" /GASTO@FinBot  10 mercado "), Some(("gasto".into(), "10 mercado".into())));
    assert_eq!(parse_command("gasto"), None);
    assert_eq!(parse_command("/"), None);
    assert_eq!(parse_command("/@bot"), None);
    assert_eq!(parse_command("/nova-categoria"), Some(("novacategoria".into(), String::new())));
    assert_eq!(parse_command("/Nova_Categoria@finbot"), Some(("novacategoria".into(), String::new())));
    assert_eq!(parse_command("/Saldo@finbot"), Some(("saldo".to_owned(), String::new())));
}

#[test]
fn summary_dates() {
    let today = Date::from_ymd_opt(2026, 1, 10).unwrap();
    let on = |year, month, day| Date::from_ymd_opt(year, month, day);
    assert_eq!(summary_date("", today), Some(today));
    assert_eq!(summary_date("05/01", today), on(2026, 1, 5));
    assert_eq!(summary_date("20/12", today), on(2025, 12, 20));
    assert_eq!(summary_date("20/12/2026", today), on(2026, 12, 20));
    assert_eq!(summary_date("amanhã", today), None);
}

#[test]
fn parses_month_and_year() {
    assert_eq!(parse_month("03/2026"), YearMonth::new(2026, 3));
    assert_eq!(parse_month(" 3 / 2026 "), YearMonth::new(2026, 3));
    assert_eq!(parse_month("13/2026"), None);
    assert_eq!(parse_month("março"), None);
}

#[test]
fn backoff_follows_error_kind() {
    let limited = GatewayError::RateLimited { retry_after: Duration::from_secs(7) };
    assert_eq!(backoff(&limited, 1), Duration::from_secs(7));
    assert_eq!(backoff(&GatewayError::Conflict, 1), Duration::from_secs(CONFLICT_WAIT_SECS));
    let transport = GatewayError::Transport("reset".into());
    assert_eq!(backoff(&transport, 1), Duration::from_secs(1));
    assert_eq!(backoff(&transport, 3), Duration::from_secs(4));
    assert_eq!(backoff(&transport, 40), Duration::from_secs(MAX_BACKOFF_SECS));
}

#[test]
fn api_errors_are_sorted_by_code() {
    assert_eq!(api_error(429, "slow".into(), Some(3)), GatewayError::RateLimited { retry_after: Duration::from_secs(3) });
    assert_eq!(api_error(429, "slow".into(), None), GatewayError::RateLimited { retry_after: Duration::from_secs(5) });
    assert_eq!(api_error(409, "x".into(), None), GatewayError::Conflict);
    assert_eq!(api_error(400, "bad".into(), None), GatewayError::Api { code: 400, description: "bad".into() });
}

#[test]
fn unchanged_edits_are_not_failures() {
    let same = Err(GatewayError::Api {
        code: 400,
        description: "Bad Request: message is not modified: specified new message content".into(),
    });
    assert_eq!(ignore_not_modified(same), Ok(()));
    let other = Err(GatewayError::Api { code: 400, description: "chat not found".into() });
    assert_eq!(ignore_not_modified(other.clone()), other);
}

#[test]
fn senders_get_full_names_and_signed_ids() {
    assert_eq!(display_name("Ana", Some("Luz")), "Ana Luz");
    assert_eq!(display_name("Ana", None), "Ana");
    assert_eq!(user_id_of(11), 11);
    assert_eq!(user_id_of(u64::MAX), i64::MAX);
}

#[test]
fn headlines_name_what_was_done() {
    assert_eq!(headline(FormKind::Income), "Entrada registrada");
    assert_eq!(headline(FormKind::NewCard), "Cartão cadastrado");
}

#[test]
fn undo_keyboard_is_one_button() {
    let entry = EntryId(0x0123_4567_89ab_cdef_0123_4567_89ab_cdef);
    let keyboard = undo_keyboard(undo_button(entry));
    assert_eq!(keyboard.rows.len(), 1);
    assert_eq!(keyboard.rows[0][0].label, "↩️ Desfazer");
    assert_eq!(parse(&keyboard.rows[0][0].data), Some(CallbackPayload::Undo(entry)));
    assert!(undo_keyboard_for(Committed::Account(AccountId(1))).is_none());
    assert!(undo_keyboard_for(Committed::Entry(entry)).is_some());
}

use telegram::bot::access::{authorized_member, identify, Audience, Member};
use telegram::bot::membership::{membership_action, MembershipAction};
use telegram::bot::router::{
    flow_button_accepted, household_route, private_route, text_route, unknown_command_text,
    HouseholdRoute, PrivateRoute, TextRoute,
};
use telegram::bot::undo::{can_undo, entry_summary, undone_purchase_html};
use telegram::callback_data::nonce_of;
use telegram::gateway::ChatKind;
use telegram::ledger::{CardPurchase, EntryKind, LedgerEntry};
use telegram::model::{Cents, DraftId, MemberId, PurchaseId};

fn ana() -> Member {
    Member { id: MemberId(1), telegram_user_id: 11, display_name: "Ana".into(), dm_chat_id: None, receives_backups: false }
}

#[test]
fn only_members_in_the_bound_group_are_the_household() {
    assert_eq!(identify(false, Some(ana()), ChatKind::Group, -5, Some(-5)), Audience::Household(ana()));
    assert_eq!(identify(false, Some(ana()), ChatKind::Group, -6, Some(-5)), Audience::Ignore);
    assert_eq!(identify(false, Some(ana()), ChatKind::Group, -6, None), Audience::UnboundGroup(ana()));
    assert_eq!(identify(false, None, ChatKind::Private, 11, None), Audience::Stranger);
    assert_eq!(identify(true, Some(ana()), ChatKind::Private, 11, None), Audience::Ignore);
    assert_eq!(authorized_member(Err(AppError::Forbidden(1))), Ok(None));
}

#[test]
fn messages_and_commands_find_their_route() {
    let command = Some(("gasto".to_owned(), "10".to_owned()));
    assert_eq!(
        text_route(Audience::Household(ana()), command),
        TextRoute::Household { member: ana(), command: "gasto".into(), args: "10".into() }
    );
    assert_eq!(text_route(Audience::UnboundGroup(ana()), Some(("start".into(), String::new()))), TextRoute::BindGroup(ana()));
    assert_eq!(text_route(Audience::Stranger, None), TextRoute::Refuse);
    assert_eq!(household_route("gasto"), HouseholdRoute::StartFlow(FormKind::Expense));
    assert_eq!(household_route("faturas"), HouseholdRoute::Invoices);
    assert_eq!(household_route("xyz"), HouseholdRoute::Unknown);
    assert_eq!(unknown_command_text("xyz"), "Não conheço /xyz. Veja /ajuda.");
    assert_eq!(private_route("start"), PrivateRoute::RegisterDm);
    assert_eq!(private_route("saldo"), PrivateRoute::UseGroup);
}

#[test]
fn only_the_open_flow_takes_its_buttons() {
    let draft = DraftId(0x5b1e_93c2_0a7f_4d68_9e21_c3b4_a5d6_e7f8);
    let nonce = nonce_of(draft);
    assert!(flow_button_accepted(Some(draft), &nonce));
    assert!(!flow_button_accepted(Some(DraftId(1)), &nonce));
    assert!(!flow_button_accepted(None, &nonce));
}

#[test]
fn joining_a_group_greets_or_leaves() {
    assert_eq!(membership_action(true, ChatKind::Group, true, None, -5), MembershipAction::Greet);
    assert_eq!(membership_action(true, ChatKind::Group, false, None, -5), MembershipAction::Leave);
    assert_eq!(membership_action(true, ChatKind::Group, true, Some(-9), -5), MembershipAction::LeaveOtherGroup);
    assert_eq!(membership_action(false, ChatKind::Group, true, None, -5), MembershipAction::Nothing);
}

#[test]
fn summary_escapes_description() {
    let entry = LedgerEntry {
        id: EntryId(3),
        kind: EntryKind::Expense,
        amount: Cents::new(1050),
        description: "<pão>".into(),
        accounting_date: Date::from_ymd_opt(2026, 3, 1).unwrap(),
        category_id: None,
        created_by: None,
    };
    assert_eq!(entry_summary(&entry), "R$ 10,50 · &lt;pão&gt;");
    assert_eq!(entry_summary(&LedgerEntry { description: String::new(), ..entry }), "R$ 10,50");
}

#[test]
fn only_the_author_may_undo() {
    assert!(can_undo(Some(MemberId(1)), MemberId(1)));
    assert!(!can_undo(Some(MemberId(2)), MemberId(1)));
    assert!(!can_undo(None, MemberId(1)));
    let purchase = CardPurchase { id: PurchaseId(4), total: Cents::new(30_000), installment_count: 3, created_by: None };
    assert_eq!(undone_purchase_html(&purchase, &ana()), "↩️ <s>R$ 300,00 em 3x no cartão</s>\nDesfeito por Ana.");
}

#[test]
fn rate_limits_are_waited_out_a_few_times() {
    let short = GatewayError::RateLimited { retry_after: Duration::from_secs(7) };
    assert_eq!(retry_wait(&short, 1), Some(Duration::from_secs(7)));
    assert_eq!(retry_wait(&short, 2), Some(Duration::from_secs(7)));
    assert_eq!(retry_wait(&short, 3), None);
    let edge = GatewayError::RateLimited { retry_after: Duration::from_secs(30) };
    assert_eq!(retry_wait(&edge, 1), Some(Duration::from_secs(30)));
    let long = GatewayError::RateLimited { retry_after: Duration::from_millis(30_001) };
    assert_eq!(retry_wait(&long, 1), None);
    assert_eq!(retry_wait(&GatewayError::Conflict, 1), None);
    assert_eq!(retry_wait(&GatewayError::Transport("reset".into()), 1), None);
}

#[test]
fn the_cursor_moves_past_handled_updates() {
    let start = PollCursor { offset: Some(5), failures: 3 };
    let updates = [
        IncomingUpdate { update_id: 7, kind: UpdateKind::Ignored },
        IncomingUpdate { update_id: 9, kind: UpdateKind::Ignored },
    ];
    assert_eq!(after_updates(start, &updates), PollCursor { offset: Some(10), failures: 0 });
    assert_eq!(after_updates(start, &[]), PollCursor { offset: Some(5), failures: 0 });
    let (failed, wait) = after_failure(start, &GatewayError::Transport("reset".into()));
    assert_eq!(failed, PollCursor { offset: Some(5), failures: 4 });
    assert_eq!(wait, Duration::from_secs(8));
    let (saturated, wait) = after_failure(PollCursor { offset: None, failures: u32::MAX }, &GatewayError::Conflict);
    assert_eq!(saturated.failures, u32::MAX);
    assert_eq!(wait, Duration::from_secs(10));
}

#[test]
fn api_ids_and_timeouts_fit_the_bot_api() {
    assert_eq!(api_message_id(42), 42);
    assert_eq!(api_message_id(-7), -7);
    assert_eq!(api_message_id(i64::from(i32::MAX) + 1), i32::MAX);
    assert_eq!(api_message_id(i64::MIN), i32::MAX);
    assert_eq!(poll_timeout_secs(50), 50);
    assert_eq!(poll_timeout_secs(u64::from(u32::MAX)), u32::MAX);
    assert_eq!(poll_timeout_secs(u64::from(u32::MAX) + 1), 50);
}

#[test]
fn failed_commits_keep_the_flow_only_for_storage_trouble() {
    assert!(keeps_flow_after(&AppError::Storage("disk".into())));
    assert!(!keeps_flow_after(&AppError::Conflict("dup".into())));
    assert!(!keeps_flow_after(&AppError::AlreadyCommitted));
    assert_eq!(cancel_placement(Some(9)), Placement::EditCard(9));
    assert_eq!(cancel_placement(None), Placement::NewCard);
    let keyboard = Keyboard { rows: vec![vec![Button { label: "Pular".into(), data: "x".into() }]] };
    assert_eq!(
        card_outcome(CardView::Ask { html: "q".into(), keyboard: keyboard.clone() }),
        ("q".to_owned(), Some(keyboard), true)
    );
    assert_eq!(card_outcome(CardView::Blocked { html: "b".into() }), ("b".to_owned(), None, false));
}

#[test]
fn undo_replies_and_refusals() {
    let entry = LedgerEntry {
        id: EntryId(3),
        kind: EntryKind::Expense,
        amount: Cents::new(1050),
        description: "pão".into(),
        accounting_date: Date::from_ymd_opt(2026, 3, 1).unwrap(),
        category_id: None,
        created_by: Some(MemberId(1)),
    };
    assert_eq!(undo_last_reply(&Ok(entry.clone())), "↩️ Desfeito: R$ 10,50 · pão");
    let missing = AppError::NotFound { entity: "entry".into(), id: "x".into() };
    assert_eq!(undo_last_reply(&Err(missing)), NOTHING_TO_UNDO);
    assert_eq!(undo_last_reply(&Err(AppError::Unauthorized)), error_text(&AppError::Unauthorized));
    assert_eq!(entry_undo_refusal(None, MemberId(1)), Some(ENTRY_ALREADY_UNDONE));
    assert_eq!(entry_undo_refusal(Some(&entry), MemberId(2)), Some(ONLY_THE_AUTHOR));
    assert_eq!(entry_undo_refusal(Some(&entry), MemberId(1)), None);
    let purchase = CardPurchase { id: PurchaseId(4), total: Cents::new(30_000), installment_count: 3, created_by: None };
    assert_eq!(purchase_undo_refusal(None, MemberId(1)), Some(PURCHASE_ALREADY_UNDONE));
    assert_eq!(purchase_undo_refusal(Some(&purchase), MemberId(1)), Some(ONLY_THE_AUTHOR));
}

#[test]
fn backoff_stays_between_one_and_thirty_seconds() {
    let transport = GatewayError::Transport("reset".into());
    let mut last = Duration::from_secs(0);
    for failures in 0..40 {
        let wait = backoff(&transport, failures);
        assert!(wait >= Duration::from_secs(1) && wait <= Duration::from_secs(30));
        assert!(wait >= last);
        last = wait;
    }
    let limited = GatewayError::RateLimited { retry_after: Duration::from_secs(20) };
    assert_eq!(backoff(&limited, 1), backoff(&limited, 99));
    assert_eq!(retry_wait(&limited, 1), Some(Duration::from_secs(20)));
}

#[test]
fn commands_split_at_any_unicode_space() {
    assert_eq!(parse_command("/saldo\u{2003}amanhã"), Some(("saldo".into(), "amanhã".into())));
    assert_eq!(parse_command("\u{3000}/Resumo\u{a0}15/09\u{85}"), Some(("resumo".into(), "15/09".into())));
    assert_eq!(parse_command("  /saldo  "), parse_command("/saldo"));
}

#[test]
fn whitespace_matches_std() {
    for v in (0u32..0x3100).chain([0xFEFF, 0x10FFFF]) {
        if let Some(c) = char::from_u32(v) {
            assert_eq!(telegram::text::is_whitespace(c), c.is_whitespace(), "{v:#x}");
        }
    }
}

#[test]
fn any_whitespace_around_a_command_is_ignored() {
    assert_eq!(parse_command("\t\n /Gasto 10 \u{2028}"), parse_command("/Gasto 10"));
    assert_eq!(parse_command("  /saldo "), Some(("saldo".into(), String::new())));
}
