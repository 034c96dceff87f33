use telegram::calendar::{Date, Time};
use telegram::callback_data::ButtonValue;
use telegram::flows::answers::{Answer, Answers, EditChoice};
use telegram::flows::command::{build_command, EntryRequest, FormCommand};
use telegram::flows::dates::{parse_typed_date, parse_typed_time, short_date};
use telegram::flows::engine::{Advance, Awaiting, FormInput, FormState};
use telegram::flows::form::{Field, FormKind};
use telegram::flows::interpret::{
    interpret, interpret_typed_date, Interpreted, BAD_AMOUNT, BAD_DATE, PICK_A_BUTTON,
};
use telegram::model::{AccountId, AccountKind, CardId, CategoryId, CategoryKind, Cents, GoalId, InvoiceId};

fn date(year: i32, month: u32, day: u32) -> Date {
    Date::from_ymd_opt(year, month, day).unwrap()
}

fn today() -> Date {
    date(2026, 3, 10)
}

fn typed(field: Field, text: &str) -> Result<Interpreted, String> {
    interpret(field, &FormInput::Text(text.into()), today())
}

fn tap(field: Field, value: ButtonValue) -> Result<Interpreted, String> {
    interpret(field, &FormInput::Button(value), today())
}

fn got(answer: Answer) -> Result<Interpreted, String> {
    Ok(Interpreted::Answer(answer))
}

#[test]
fn commands_round_trip() {
    for form in FormKind::all().into_iter().filter(|form| *form != FormKind::EditEntry) {
        assert_eq!(FormKind::from_command(form.command()), Some(form));
        assert!(!form.fields().is_empty() && !form.title().is_empty());
    }
    assert_eq!(FormKind::from_command("saldo"), None);
    assert_eq!(FormKind::from_command("editar"), None);
}

#[test]
fn expense_asks_amount_first_and_date_last() {
    let fields = FormKind::Expense.fields();
    assert_eq!((fields.first(), fields.last()), (Some(&Field::Amount), Some(&Field::Date)));
}

#[test]
fn positive_amounts() {
    assert_eq!(typed(Field::Amount, "10,50"), got(Answer::Money(Cents::new(1050))));
    assert_eq!(typed(Field::Amount, "abc"), Err(BAD_AMOUNT.into()));
    assert!(typed(Field::Amount, "0").is_err());
    assert!(tap(Field::GoalTarget, ButtonValue::Skip).is_err());
}

#[test]
fn zero_allowed_amounts() {
    let zero = got(Answer::Money(Cents::zero()));
    assert_eq!(typed(Field::InitialBalance, "R$ 0,00"), zero);
    assert_eq!(tap(Field::AlreadySaved, ButtonValue::Skip), zero);
    assert_eq!(typed(Field::AlreadySaved, "25"), got(Answer::Money(Cents::new(2500))));
}

#[test]
fn descriptions_and_names() {
    assert_eq!(typed(Field::Description, " feira "), got(Answer::Text("feira".into())));
    assert_eq!(tap(Field::Description, ButtonValue::Skip), got(Answer::Skipped));
    assert!(typed(Field::Description, &"a".repeat(121)).is_err());
    assert!(tap(Field::Description, ButtonValue::Confirm).is_err());
    assert!(typed(Field::AccountName, "   ").is_err());
    assert!(tap(Field::GoalName, ButtonValue::Skip).is_err());
    assert!(typed(Field::CategoryName, &"a".repeat(33)).is_err());
    assert_eq!(typed(Field::CategoryName, " pets "), got(Answer::Text("pets".into())));
}

#[test]
fn category_emoji_and_kind() {
    assert_eq!(typed(Field::CategoryEmoji, " 🐶 "), got(Answer::Text("🐶".into())));
    assert_eq!(typed(Field::CategoryEmoji, "👨‍👩‍👧"), got(Answer::Text("👨‍👩‍👧".into())));
    assert_eq!(tap(Field::CategoryEmoji, ButtonValue::Skip), got(Answer::Skipped));
    assert!(typed(Field::CategoryEmoji, "cachorro").is_err());
    let income = CategoryKind::Income;
    let chosen = tap(Field::CategoryKindChoice, ButtonValue::CategoryKind(income));
    assert_eq!(chosen, got(Answer::CategoryKind(income)));
    assert!(tap(Field::CategoryKindChoice, ButtonValue::Skip).is_err());
}

#[test]
fn dates() {
    let yesterday = date(2026, 3, 9);
    assert_eq!(tap(Field::Date, ButtonValue::Today), got(Answer::Date(today())));
    assert_eq!(tap(Field::Date, ButtonValue::Yesterday), got(Answer::Date(yesterday)));
    assert_eq!(tap(Field::Date, ButtonValue::OtherDate), Ok(Interpreted::AskTypedDate));
    assert_eq!(typed(Field::Date, "09/03"), got(Answer::Date(yesterday)));
    assert_eq!(tap(Field::Date, ButtonValue::Skip), Err(PICK_A_BUTTON.into()));
    let tapped = interpret_typed_date(&FormInput::Button(ButtonValue::Today), today());
    assert_eq!(tapped, Err(BAD_DATE.into()));
}

#[test]
fn yesterday_of_the_first_is_the_last_day_of_the_month_before() {
    let first = date(2024, 3, 1);
    let answer = interpret(Field::Date, &FormInput::Button(ButtonValue::Yesterday), first);
    assert_eq!(answer, got(Answer::Date(date(2024, 2, 29))));
}

#[test]
fn card_fields() {
    let (card, invoice) = (CardId(0x1111_2222_3333_4444_5555_6666_7777_8888), InvoiceId(42));
    assert_eq!(tap(Field::PaymentAccount, ButtonValue::Card(card)), got(Answer::Card(card)));
    assert_eq!(
        tap(Field::InvoiceChoice, ButtonValue::Invoice(invoice)),
        got(Answer::Invoice(invoice))
    );
    assert_eq!(tap(Field::Installments, ButtonValue::Installments(3)), got(Answer::Installments(3)));
    assert_eq!(typed(Field::Installments, "18x"), got(Answer::Installments(18)));
    assert!(
        typed(Field::Installments, "49").is_err() && tap(Field::Installments, ButtonValue::Skip).is_err()
    );
    assert_eq!(
        tap(Field::Amount, ButtonValue::Money(Cents::new(500))),
        got(Answer::Money(Cents::new(500)))
    );
}

#[test]
fn installments_problem_names_the_limit() {
    assert_eq!(
        typed(Field::Installments, "0"),
        Err("Escolha as parcelas ou digite um número de 1 a 48.".into())
    );
}

#[test]
fn goal_deadline() {
    let later = date(2030, 12, 31);
    assert_eq!(typed(Field::GoalDeadline, "31/12/2030"), got(Answer::Date(later)));
    assert_eq!(tap(Field::GoalDeadline, ButtonValue::Skip), got(Answer::Skipped));
    assert!(typed(Field::GoalDeadline, "01/01/2020").is_err() && typed(Field::GoalDeadline, "logo").is_err());
    assert!(tap(Field::GoalDeadline, ButtonValue::Today).is_err());
    assert_eq!(tap(Field::BudgetLimit, ButtonValue::Skip), got(Answer::Money(Cents::zero())));
}

#[test]
fn days_of_month() {
    assert_eq!(typed(Field::ClosingDay, " 5 "), got(Answer::Day(5)));
    assert!(typed(Field::DueDay, "32").is_err() && typed(Field::DueDay, "dez").is_err());
    assert!(tap(Field::ClosingDay, ButtonValue::Skip).is_err());
}

#[test]
fn balances_may_be_negative_or_zero() {
    assert_eq!(typed(Field::ActualBalance, "-50,10"), got(Answer::Money(Cents::new(-5010))));
    assert_eq!(typed(Field::ActualBalance, "1.234"), got(Answer::Money(Cents::new(123_400))));
    assert_eq!(tap(Field::ActualBalance, ButtonValue::Skip), got(Answer::Money(Cents::zero())));
    assert_eq!(typed(Field::ActualBalance, "-abc"), Err(BAD_AMOUNT.into()));
}

#[test]
fn settings_fields_keep_or_take_typed_values() {
    assert_eq!(tap(Field::CycleStartDay, ButtonValue::Skip), got(Answer::Skipped));
    assert_eq!(typed(Field::CycleStartDay, "5"), got(Answer::Day(5)));
    let nine = Time::from_hm_opt(21, 30).unwrap();
    assert_eq!(typed(Field::TodayReportTime, "21h30"), got(Answer::Time(nine)));
    assert!(typed(Field::YesterdayReportTime, "tarde").is_err());
    assert!(tap(Field::YesterdayReportTime, ButtonValue::Today).is_err());
    let early = Time::from_hm_opt(8, 0).unwrap();
    assert_eq!(typed(Field::YesterdayReportTime, "8h"), got(Answer::Time(early)));
    let refused = typed(Field::TodayReportTime, "18:59").unwrap_err();
    assert!(refused.contains("19:00"), "{refused}");
    assert_eq!(tap(Field::TodayReportTime, ButtonValue::Skip), got(Answer::Skipped));
}

#[test]
fn edit_choice_needs_an_edit_button() {
    let choice = EditChoice::Date;
    assert_eq!(tap(Field::EditFieldChoice, ButtonValue::EditChoice(choice)), got(Answer::EditChoice(choice)));
    assert_eq!(tap(Field::EditFieldChoice, ButtonValue::Skip), Err(PICK_A_BUTTON.into()));
}

#[test]
fn button_fields_need_matching_buttons() {
    let (category, account, goal) = (CategoryId(7), AccountId(8), GoalId(9));
    assert_eq!(tap(Field::ExpenseCategory, ButtonValue::Category(category)), got(Answer::Category(category)));
    assert_eq!(tap(Field::ToAccount, ButtonValue::Account(account)), got(Answer::Account(account)));
    assert_eq!(tap(Field::Goal, ButtonValue::Goal(goal)), got(Answer::Goal(goal)));
    assert!(tap(Field::AccountKind, ButtonValue::Kind(AccountKind::Pot)).is_err());
    assert!(tap(Field::PaymentAccount, ButtonValue::Category(category)).is_err());
    assert_eq!(typed(Field::IncomeCategory, "salário"), Err(PICK_A_BUTTON.into()));
}

fn next(state: FormState, input: &FormInput) -> FormState {
    match state.advance(input, today()) {
        Advance::Next(state) => state,
        other => panic!("expected Next, got {other:?}"),
    }
}

fn button(value: ButtonValue) -> FormInput {
    FormInput::Button(value)
}

#[test]
fn expense_walks_every_field_then_confirms() {
    let state = FormState::start(FormKind::Expense);
    assert_eq!(state.awaiting, Awaiting::Field(Field::Amount));
    let state = next(state, &FormInput::Text("10,50".into()));
    let state = next(state, &button(ButtonValue::Skip));
    let state = next(state, &button(ButtonValue::Category(CategoryId(1))));
    let state = next(state, &button(ButtonValue::Account(AccountId(2))));
    assert_eq!(state.awaiting, Awaiting::Field(Field::Date));
    let state = next(state, &button(ButtonValue::Today));
    assert_eq!(state.awaiting, Awaiting::Confirmation);
    assert!(matches!(state.advance(&button(ButtonValue::Confirm), today()), Advance::Complete(_)));
}

#[test]
fn other_date_waits_for_typed_date() {
    let mut state = FormState::start(FormKind::Expense);
    state.awaiting = Awaiting::Field(Field::Date);
    let state = next(state, &button(ButtonValue::OtherDate));
    assert_eq!(state.awaiting, Awaiting::TypedDate);
    let retry = state.clone().advance(&FormInput::Text("amanhã".into()), today());
    assert!(matches!(retry, Advance::Retry { .. }));
    let state = next(state, &FormInput::Text("01/03".into()));
    assert_eq!(state.answers.date(), Date::from_ymd_opt(2026, 3, 1));
}

#[test]
fn bad_input_retries_same_field_and_cancel_always_works() {
    let state = FormState::start(FormKind::Income);
    let Advance::Retry { state, problem } = state.advance(&FormInput::Text("dez".into()), today()) else {
        panic!("expected retry");
    };
    assert_eq!(state.awaiting, Awaiting::Field(Field::Amount));
    assert!(problem.contains("valor"));
    assert_eq!(state.advance(&button(ButtonValue::Cancel), today()), Advance::Cancelled);
}

#[test]
fn confirmation_only_accepts_confirm() {
    let mut state = FormState::start(FormKind::NewAccount);
    state.awaiting = Awaiting::Confirmation;
    assert!(matches!(state.advance(&FormInput::Text("sim".into()), today()), Advance::Retry { .. }));
}

#[test]
fn answered_field_is_not_asked_again() {
    let state = FormState::start(FormKind::Transfer);
    let state = next(state, &FormInput::Text("5".into()));
    assert_eq!(state.awaiting, Awaiting::Field(Field::FromAccount));
    assert_eq!(state.answers.money(Field::Amount), Some(Cents::new(500)));
}

#[test]
fn set_replaces_and_typed_getters_match_variant() {
    let mut answers = Answers::default();
    answers.set(Field::Amount, Answer::Money(Cents::new(1)));
    answers.set(Field::Amount, Answer::Money(Cents::new(2)));
    answers.set(Field::Description, Answer::Skipped);
    assert_eq!(answers.0.len(), 2);
    assert_eq!(answers.money(Field::Amount), Some(Cents::new(2)));
    assert_eq!(answers.text(Field::Description), Some(String::new()));
    assert_eq!(answers.category(Field::Amount), None);
    let nine = Time::from_hm_opt(21, 0).unwrap();
    answers.set(Field::TodayReportTime, Answer::Time(nine));
    assert_eq!((answers.time(Field::TodayReportTime), answers.time(Field::Amount)), (Some(nine), None));
    assert!(answers.has(Field::Amount) && !answers.has(Field::Date));
}

fn confirmed(form: FormKind, answers: Vec<(Field, Answer)>) -> FormState {
    FormState { form, answers: Answers(answers), awaiting: Awaiting::Confirmation }
}

fn money(cents: i64) -> Answer {
    Answer::Money(Cents::new(cents))
}

#[test]
fn expense_builds_record_request() {
    let (account, category) = (AccountId(31), CategoryId(32));
    let day = date(2026, 3, 1);
    let answers = vec![
        (Field::Amount, money(1050)),
        (Field::Description, Answer::Skipped),
        (Field::ExpenseCategory, Answer::Category(category)),
        (Field::PaymentAccount, Answer::Account(account)),
        (Field::Date, Answer::Date(day)),
    ];
    let state = confirmed(FormKind::Expense, answers);
    let Some(FormCommand::Record(EntryRequest::Expense(entry))) = build_command(&state) else {
        panic!("expected an expense request");
    };
    assert_eq!((entry.account_id, entry.category_id, entry.amount), (account, category, Cents::new(1050)));
    assert_eq!((entry.description.as_str(), entry.date), ("", Some(day)));
}

#[test]
fn pot_deposit_builds_move_into_goal() {
    let (goal, account) = (GoalId(41), AccountId(42));
    let answers = vec![
        (Field::Goal, Answer::Goal(goal)),
        (Field::Amount, money(5)),
        (Field::FromAccount, Answer::Account(account)),
    ];
    let Some(FormCommand::PotDeposit(request)) = build_command(&confirmed(FormKind::PotDeposit, answers)) else {
        panic!("expected a pot deposit");
    };
    assert_eq!((request.goal_id, request.account_id, request.amount), (goal, account, Cents::new(5)));
}

#[test]
fn setup_forms_build_their_requests() {
    let account_answers = vec![
        (Field::AccountName, Answer::Text("Nubank".into())),
        (Field::AccountKind, Answer::AccountKind(AccountKind::Checking)),
        (Field::InitialBalance, money(0)),
    ];
    assert!(matches!(
        build_command(&confirmed(FormKind::NewAccount, account_answers)),
        Some(FormCommand::OpenAccount(_))
    ));
    let goal_answers = vec![
        (Field::GoalName, Answer::Text("Casa".into())),
        (Field::GoalTarget, money(100)),
        (Field::AlreadySaved, money(0)),
    ];
    assert!(matches!(
        build_command(&confirmed(FormKind::NewGoal, goal_answers)),
        Some(FormCommand::CreateGoal(_))
    ));
}

#[test]
fn missing_answers_yield_none() {
    for form in FormKind::all() {
        assert_eq!(build_command(&confirmed(form, vec![])), None, "{form:?}");
    }
}

#[test]
fn card_payment_becomes_a_purchase() {
    let answers = vec![
        (Field::Amount, money(3000)),
        (Field::Description, Answer::Text("tv".into())),
        (Field::ExpenseCategory, Answer::Category(CategoryId(5))),
        (Field::PaymentAccount, Answer::Card(CardId(6))),
        (Field::Installments, Answer::Installments(3)),
        (Field::Date, Answer::Date(date(2026, 3, 2))),
    ];
    let Some(FormCommand::CardPurchase(request)) = build_command(&confirmed(FormKind::Expense, answers)) else {
        panic!("expected a card purchase");
    };
    assert_eq!((request.card_id, request.total, request.installments), (CardId(6), Cents::new(3000), 3));
    assert_eq!(request.description, "tv");
}

#[test]
fn parses_supported_shapes() {
    let today = date(2026, 3, 10);
    assert_eq!(parse_typed_date("05/03", today), Some(date(2026, 3, 5)));
    assert_eq!(parse_typed_date("31/12/25", today), Some(date(2025, 12, 31)));
    assert_eq!(parse_typed_date(" 1-2-2024 ", today), Some(date(2024, 2, 1)));
}

#[test]
fn rejects_impossible_or_malformed_dates() {
    let today = date(2026, 3, 10);
    for text in ["31/02", "abc", "10", "1/2/3", "1/2/2024/5", "32/01", "1/13"] {
        assert_eq!(parse_typed_date(text, today), None, "{text}");
    }
}

#[test]
fn parses_times_of_day() {
    let at = |hour, minute| Time::from_hm_opt(hour, minute);
    assert_eq!(parse_typed_time("21"), at(21, 0));
    assert_eq!(parse_typed_time(" 21H "), at(21, 0));
    assert_eq!(parse_typed_time("9:05"), at(9, 5));
    assert_eq!(parse_typed_time("24:00"), None);
    assert_eq!(parse_typed_time("noite"), None);
}

#[test]
fn short_date_hides_current_year() {
    let today = date(2026, 3, 10);
    assert_eq!(short_date(date(2026, 3, 5), today), "05/03");
    assert_eq!(short_date(date(2025, 12, 31), today), "31/12/2025");
}
