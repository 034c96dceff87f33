use std::collections::HashSet;

use telegram::calendar::Date;
use telegram::callback_data::ButtonValue;
use telegram::flows::answers::{Answer, Answers};
use telegram::flows::engine::{Awaiting, FormState};
use telegram::flows::form::{Field, FormKind};
use telegram::html::escape;
use telegram::model::{AccountId, AccountKind, CategoryId, Cents, GoalId};
use telegram::render::card::{
    card_view, committed_card, field_text, question, relative_date, CardContext, CardView,
};
use telegram::render::catalog::{kind_name, Account, Catalog, CatalogNeeds};
use telegram::render::category_statement::fit_lines;
use telegram::render::errors::{error_text, field_name, AppError};
use telegram::render::help::{commands, help_text, welcome_text};
use telegram::render::keyboards::{question_keyboard, typed_only};
use telegram::render::reports::progress_bar;

fn today() -> Date {
    Date::from_ymd_opt(2026, 3, 10).unwrap()
}

fn context(catalog: &Catalog) -> CardContext<'_> {
    CardContext { owner: "Ana", catalog, nonce: "n0nce", today: today() }
}

fn with_amount(form: FormKind) -> FormState {
    let mut answers = Answers::default();
    answers.set(Field::Amount, Answer::Money(Cents::new(1050)));
    FormState { form, answers, awaiting: Awaiting::Field(Field::Description) }
}

#[test]
fn card_shows_title_owner_answers_question_and_problem() {
    let catalog = Catalog::default();
    let CardView::Ask { html, keyboard } =
        card_view(&with_amount(FormKind::Expense), context(&catalog), Some("<oops>"))
    else {
        panic!("expected a question");
    };
    assert!(html.starts_with("⚠️ &lt;oops&gt;"), "{html}");
    assert!(html.contains("<b>Novo gasto</b> · Ana\n💰 Valor: R$ 10,50"), "{html}");
    assert!(html.ends_with("Descrição? (ex.: mercado, farmácia)"), "{html}");
    assert_eq!(keyboard.rows[0][0].label, "Pular");
}

#[test]
fn blocked_when_no_accounts() {
    let state = FormState { awaiting: Awaiting::Field(Field::PaymentAccount), ..with_amount(FormKind::Expense) };
    let view = card_view(&state, context(&Catalog::default()), None);
    assert!(matches!(view, CardView::Blocked { html } if html.contains("/novaconta")));
}

#[test]
fn committed_card_and_relative_dates() {
    let catalog = Catalog::default();
    let card = committed_card(&with_amount(FormKind::Income), context(&catalog), "Entrada registrada");
    assert_eq!(card, "✅ <b>Entrada registrada</b> · Ana\n💰 Valor: R$ 10,50");
    assert_eq!(relative_date(today(), today()), "hoje");
    assert_eq!(relative_date(Date::from_ymd_opt(2026, 3, 9).unwrap(), today()), "ontem");
    assert_eq!(relative_date(Date::from_ymd_opt(2026, 3, 1).unwrap(), today()), "01/03");
}

#[test]
fn every_question_has_text() {
    for form in FormKind::all() {
        for field in form.fields() {
            assert_ne!(question(form, Awaiting::Field(field)), "?", "{form:?} {field:?} has no question");
            assert_ne!(field_text(field), ("•", "Campo"), "{field:?} has no icon and label");
        }
    }
    assert_eq!(question(FormKind::Expense, Awaiting::TypedDate), "Digite a data (dd/mm):");
}

fn account(id: u128, name: &str, kind: AccountKind) -> Account {
    Account {
        id: AccountId(id),
        name: name.into(),
        kind,
        initial_balance: Cents::zero(),
        opened_on: Date::from_ymd_opt(2026, 1, 1).unwrap(),
        archived: false,
    }
}

#[test]
fn labels_escape_names_and_fall_back_when_missing() {
    let checking = account(1, "R&D <bank>", AccountKind::Checking);
    let catalog = Catalog { accounts: vec![checking.clone()], ..Catalog::default() };
    assert_eq!(catalog.account_label(checking.id), "🏦 R&amp;D &lt;bank&gt;");
    assert_eq!(catalog.account_label(AccountId(99)), "conta removida");
    assert_eq!(catalog.category_label(CategoryId(99)), "categoria removida");
    assert_eq!(catalog.goal_label(GoalId(99)), "meta removida");
}

#[test]
fn spendable_excludes_pots() {
    let catalog = Catalog {
        accounts: vec![account(1, "Nubank", AccountKind::Checking), account(2, "Casa", AccountKind::Pot)],
        ..Catalog::default()
    };
    assert_eq!(catalog.spendable_accounts().len(), 1);
    assert_eq!(kind_name(AccountKind::Cash), "Dinheiro");
}

#[test]
fn invoices_are_needed_only_to_pay_one() {
    assert!(CatalogNeeds::of(FormKind::PayInvoice).invoices);
    assert!(!CatalogNeeds::of(FormKind::Expense).invoices);
}

fn state(form: FormKind, awaiting: Awaiting) -> FormState {
    FormState { form, answers: Answers::default(), awaiting }
}

fn labels(state: &FormState, catalog: &Catalog) -> Vec<String> {
    let keyboard = question_keyboard(state, catalog, "n").unwrap();
    keyboard.rows.iter().flatten().map(|button| button.label.clone()).collect()
}

#[test]
fn transfer_destination_excludes_source() {
    let (nubank, itau) = (account(1, "Nubank", AccountKind::Checking), account(2, "Itaú", AccountKind::Checking));
    let catalog = Catalog { accounts: vec![nubank.clone(), itau], ..Catalog::default() };
    let mut asking = state(FormKind::Transfer, Awaiting::Field(Field::ToAccount));
    asking.answers.set(Field::FromAccount, Answer::Account(nubank.id));
    assert_eq!(labels(&asking, &catalog), vec!["🏦 Itaú", "✖️ Cancelar"]);
}

#[test]
fn empty_choices_block_the_flow() {
    let asking = state(FormKind::Expense, Awaiting::Field(Field::PaymentAccount));
    assert_eq!(question_keyboard(&asking, &Catalog::default(), "n"), None);
}

#[test]
fn text_questions_offer_cancel_and_dates_offer_three() {
    let catalog = Catalog::default();
    let amount = state(FormKind::Expense, Awaiting::Field(Field::Amount));
    assert_eq!(labels(&amount, &catalog), vec!["✖️ Cancelar"]);
    let date = state(FormKind::Expense, Awaiting::Field(Field::Date));
    assert_eq!(labels(&date, &catalog), vec!["Hoje", "Ontem", "Outra data", "✖️ Cancelar"]);
    assert!(typed_only(Field::Amount) && !typed_only(Field::Date));
}

#[test]
fn confirmation_button_carries_nonce() {
    let confirm = question_keyboard(&state(FormKind::NewGoal, Awaiting::Confirmation), &Catalog::default(), "n");
    assert_eq!(confirm.unwrap().rows[0][0].data, "n|ok");
}

#[test]
fn installments_come_four_to_a_row_and_cancel_is_last() {
    let keyboard = question_keyboard(&state(FormKind::Expense, Awaiting::Field(Field::Installments)), &Catalog::default(), "n").unwrap();
    let sizes: Vec<usize> = keyboard.rows.iter().map(|row| row.len()).collect();
    assert_eq!(sizes, vec![4, 4, 4, 1]);
    assert_eq!(keyboard.rows[0][0].label, "1x");
    assert_eq!(keyboard.rows[3][0].data, format!("n|{}", "x"));
    let _ = ButtonValue::Cancel;
}

#[test]
fn long_lists_are_cut_with_a_pointer_to_the_export() {
    let lines: Vec<String> = (0..10).map(|number| format!("linha {number}")).collect();
    let fitted = fit_lines(&lines, 30);
    assert!(fitted.starts_with("linha 0\nlinha 1\nlinha 2\n… e mais 7."), "{fitted}");
    assert_eq!(fit_lines(&lines[..2], 30), "linha 0\nlinha 1");
}

#[test]
fn progress_bar_fills_one_slot_per_ten_percent() {
    assert_eq!(progress_bar(3_500), "▓▓▓░░░░░░░");
    assert_eq!(progress_bar(-5), "░░░░░░░░░░");
    assert_eq!(progress_bar(25_000), "▓▓▓▓▓▓▓▓▓▓");
}

#[test]
fn translates_each_error_kind() {
    let invalid = AppError::Invalid { field: "amount".into(), value: "<5>".into(), rule: "at most 10".into() };
    assert_eq!(error_text(&invalid), "Não deu certo: valor inválido (&lt;5&gt;).");
    let missing = AppError::NotFound { entity: "entry".into(), id: "1".into() };
    assert!(error_text(&missing).contains("Não encontrei"));
    assert!(error_text(&AppError::Conflict("x".into())).contains("Já existe"));
    assert!(error_text(&AppError::AlreadyCommitted).contains("já foi registrado"));
    assert!(error_text(&AppError::Forbidden(1)).contains("acesso"));
    assert!(!error_text(&AppError::Storage("password=x".into())).contains("password"));
    let weird = AppError::Invalid { field: "weird".into(), value: "1".into(), rule: "x".into() };
    assert!(error_text(&weird).contains("weird"));
    assert_eq!(field_name("goal name"), "nome");
}

#[test]
fn help_lists_every_command_once() {
    let text = help_text();
    let all = commands();
    for (command, _) in &all {
        assert_eq!(text.matches(&format!("/{command} —")).count(), 1, "/{command} in {text}");
    }
    let unique: HashSet<&str> = all.iter().map(|(command, _)| *command).collect();
    assert_eq!(unique.len(), all.len(), "a command is listed twice");
    assert!(welcome_text().starts_with("Olá!"));
}

#[test]
fn forms_are_in_the_list() {
    let listed: HashSet<&str> = commands().iter().map(|(command, _)| *command).collect();
    let typed = FormKind::all().into_iter().filter(|form| *form != FormKind::EditEntry);
    for form in typed {
        assert!(listed.contains(form.command()), "/{} is missing from /ajuda", form.command());
    }
}

#[test]
fn descriptions_fit_the_menu() {
    for (command, description) in commands() {
        assert!((1..=256).contains(&description.len()), "/{command}: {description}");
        assert!(command.chars().all(|letter| letter.is_ascii_lowercase()), "/{command}");
    }
}

#[test]
fn leaves_plain_text_alone() {
    assert_eq!(escape("mercado 🛒 ção"), "mercado 🛒 ção");
}

#[test]
fn escapes_tags_and_ampersands() {
    assert_eq!(escape("<b>R&D</b>"), "&lt;b&gt;R&amp;D&lt;/b&gt;");
}
