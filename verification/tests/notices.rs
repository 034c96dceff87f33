use telegram::bot::access::Member;
use telegram::bot::undo::undone_html;
use telegram::calendar::Date;
use telegram::callback_data::{deactivate_recurrence_button, parse, CallbackPayload};
use telegram::flows::answers::{Answer, Answers, RecordKind};
use telegram::flows::form::Field;
use telegram::ledger::{EntryKind, LedgerEntry};
use telegram::model::{CardId, CategoryId, CategoryKind, Cents, EntryId, InvoiceId, MemberId, RecurrenceId};
use telegram::render::catalog::{Catalog, Category, CreditCard, Invoice, InvoiceStatement, InvoiceView, Recurrence};
use telegram::render::notices::{
    budget_alerts_text, invoice_closed_text, invoice_due_text, recurrence_confirm_text, recurrence_recorded_text,
    Budget, BudgetAlert, BudgetStatus,
};
use telegram::render::report_text::{budgets_section, cycle_totals, PeriodSummary};

fn day(year: i32, month: u32, day: u32) -> Date {
    Date::from_ymd_opt(year, month, day).unwrap()
}

fn bill() -> Recurrence {
    Recurrence { id: RecurrenceId(0x1234_5678_9abc_4def_8123_4567_89ab_cdef), description: "Aluguel <casa>".into(), amount: Cents::new(180_000) }
}

fn nubank() -> CreditCard {
    CreditCard { id: CardId(1), name: "Nu & Cia".into() }
}

fn invoice(owed: i64) -> InvoiceView {
    InvoiceView {
        invoice: Invoice { id: InvoiceId(2), due_date: day(2026, 3, 15) },
        statement: InvoiceStatement { outstanding: Cents::new(owed) },
    }
}

fn status(name: &str, spent: i64, limit: i64, used_bp: i64) -> BudgetStatus {
    BudgetStatus {
        category: Category { id: CategoryId(4), name: name.into(), kind: CategoryKind::Expense, emoji: None, archived: false, essential: false },
        spent: Cents::new(spent),
        budget: Budget { limit: Cents::new(limit) },
        used_bp,
    }
}

#[test]
fn recurrence_notices() {
    assert_eq!(
        recurrence_recorded_text(&bill(), day(2026, 3, 5)),
        "🔁 Registrado automaticamente: <b>Aluguel &lt;casa&gt;</b> R$ 1.800,00 (05/03)"
    );
    assert_eq!(
        recurrence_confirm_text(&bill(), day(2026, 3, 5)),
        "🔁 <b>Aluguel &lt;casa&gt;</b> (dia 05/03), valor previsto R$ 1.800,00.\nRegistrar? Se o valor mudou, toque em Pular e use /gasto."
    );
    let data = deactivate_recurrence_button(bill().id);
    assert_eq!(parse(&data), Some(CallbackPayload::DeactivateRecurrence(bill().id)));
    let catalog = Catalog { recurrences: vec![bill()], ..Catalog::default() };
    assert_eq!(catalog.recurrence_label(bill().id), "Aluguel &lt;casa&gt;");
    assert_eq!(catalog.recurrence_label(RecurrenceId(9)), "recorrente removida");
}

#[test]
fn invoice_notices() {
    assert_eq!(
        invoice_closed_text(&nubank(), &invoice(123_456)),
        "💳 A fatura do <b>Nu &amp; Cia</b> fechou: R$ 1.234,56, vence 15/03.\nPara pagar: /pagarfatura"
    );
    assert_eq!(
        invoice_due_text(&nubank(), &invoice(5_000), 0),
        "⚠️ A fatura do <b>Nu &amp; Cia</b> (R$ 50,00) vence <b>hoje</b>! /pagarfatura"
    );
    assert_eq!(
        invoice_due_text(&nubank(), &invoice(5_000), 3),
        "⏰ A fatura do <b>Nu &amp; Cia</b> (R$ 50,00) vence em 3 dias (15/03). /pagarfatura"
    );
}

#[test]
fn cycle_totals_compare_with_the_previous_cycle() {
    let summary = PeriodSummary {
        income: Cents::new(100_000),
        spending: Cents::new(56_000),
        saved: Cents::new(44_000),
        savings_rate_bp: Some(4400),
    };
    let previous = PeriodSummary { income: Cents::zero(), spending: Cents::new(50_000), saved: Cents::zero(), savings_rate_bp: None };
    assert_eq!(
        cycle_totals(&summary, &previous, Cents::new(10_000)),
        "Entradas: R$ 1.000,00\nGastos: R$ 560,00 (▲12% vs ciclo anterior)\nEconomizado: R$ 440,00 (44% das entradas)\nGuardado nas metas: R$ 100,00"
    );
}

#[test]
fn budget_sections_and_alerts_filter_and_join() {
    let budgets = [status("lazer", 9_000, 10_000, 9_000), status("casa", 1_000, 10_000, 1_000)];
    let warned = budgets_section(&budgets, 8_000).unwrap();
    assert!(warned.starts_with("<b>Orçamentos</b>\n"), "{warned}");
    assert!(warned.contains("lazer"), "{warned}");
    assert!(!warned.contains("casa"), "{warned}");
    assert_eq!(budgets_section(&budgets[1..], 8_000), None);
    assert!(budgets_section(&budgets, 0).unwrap().contains("casa"));
    let alerts = [
        BudgetAlert { status: status("lazer", 9_000, 10_000, 9_000), threshold: 80 },
        BudgetAlert { status: status("casa", 12_000, 10_000, 12_000), threshold: 100 },
    ];
    let text = budget_alerts_text(&alerts).unwrap();
    assert_eq!(text.lines().count(), 2, "{text}");
    assert!(text.starts_with("⚠️ Orçamento de <b>lazer</b> em 90%"), "{text}");
    assert!(text.contains("\n🚨 Orçamento de <b>casa</b> estourado: R$ 120,00 de R$ 100,00 (120%)."), "{text}");
}

#[test]
fn undone_entries_are_struck_through() {
    let entry = LedgerEntry {
        id: EntryId(1),
        kind: EntryKind::Expense,
        amount: Cents::new(2_500),
        description: "pão & café".into(),
        accounting_date: day(2026, 3, 1),
        category_id: None,
        created_by: Some(MemberId(1)),
    };
    let ana = Member { id: MemberId(1), telegram_user_id: 11, display_name: "Ana".into(), dm_chat_id: None, receives_backups: false };
    assert_eq!(undone_html(&entry, &ana), "↩️ <s>R$ 25,00 · pão &amp; café</s>\nDesfeito por Ana.");
}

#[test]
fn installment_answers_read_back() {
    let mut answers = Answers::default();
    assert_eq!(answers.first_installment(), 1);
    assert!(!answers.amount_is_per_installment());
    answers.set(Field::Installments, Answer::InstallmentsFrom { current: 3, total: 10 });
    assert_eq!(answers.first_installment(), 3);
    assert!(answers.amount_is_per_installment());
    answers.set(Field::Installments, Answer::Installments(4));
    assert_eq!(answers.first_installment(), 1);
    assert!(!answers.amount_is_per_installment());
    assert_eq!(answers.record_kind(), None);
    answers.set(Field::RecordKindChoice, Answer::RecordKind(RecordKind::Card));
    assert_eq!(answers.record_kind(), Some(RecordKind::Card));
}
