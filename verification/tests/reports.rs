use telegram::bot::access::Member;
use telegram::calendar::Date;
use telegram::ledger::{EntryKind, LedgerEntry};
use telegram::model::{AccountId, AccountKind, CategoryId, CategoryKind, Cents, EntryId, GoalId, MemberId};
use telegram::render::catalog::{Account, Catalog, Category, Goal, GoalTarget};
use telegram::render::installments::{installments_text, InstallmentProgress, PlanSource};
use telegram::render::living_cost::{essentials_view, living_cost_text, toggled_toast, LivingCost};
use telegram::render::outlook::{projection_text, CycleProjection, Flow};
use telegram::render::report_text::{
    closing_header, cycle_report_text, cycle_section, daily_header, daily_report_text, month_report_text, CycleReport, DailyReport, days_left, month_header, today_section, upcoming_section, Cycle,
};
use telegram::render::catalog::Recurrence;
use telegram::model::RecurrenceId;
use telegram::render::entries::{entry_label, entry_line, recent_entries_view};
use telegram::render::category_statement::{
    category_entries_text, statement_overview, CategoryActivity, StatementPeriod,
};
use telegram::render::notices::{budget_alert_text, budget_line, Budget, BudgetAlert, BudgetStatus};
use telegram::render::report_text::{
    category_breakdown, change_suffix, member_line, rate_suffix, weekday_date, PeriodSummary,
    PeriodTotals,
};
use telegram::render::reports::{
    accounts_text, balance_text, categories_text, goals_text, progress_bar, AccountBalance,
    BalanceSheet, GoalProgress, MoneyPosition,
};

fn account(name: &str, kind: AccountKind) -> Account {
    Account {
        id: AccountId(1),
        name: name.into(),
        kind,
        initial_balance: Cents::zero(),
        opened_on: Date::from_ymd_opt(2026, 1, 1).unwrap(),
        archived: false,
    }
}

fn sheet(accounts: Vec<(Account, i64)>, available: i64, reserved: i64) -> BalanceSheet {
    BalanceSheet {
        as_of: Date::from_ymd_opt(2026, 3, 10).unwrap(),
        accounts: accounts
            .into_iter()
            .map(|(account, cents)| AccountBalance { account, balance: Cents::new(cents) })
            .collect(),
        position: MoneyPosition { available: Cents::new(available), reserved_in_pots: Cents::new(reserved) },
    }
}

#[test]
fn balance_lists_spendable_and_reserved() {
    let text = balance_text(&sheet(
        vec![(account("Nubank", AccountKind::Checking), 123_456), (account("Casa", AccountKind::Pot), 2_000_000)],
        123_456,
        2_000_000,
    ));
    assert!(text.contains("🏦 Nubank: R$ 1.234,56"), "{text}");
    assert!(!text.contains("Casa:"), "{text}");
    assert!(text.contains("<b>Disponível: R$ 1.234,56</b>\n🎯 Reservado em metas: R$ 20.000,00"), "{text}");
    assert!(balance_text(&sheet(vec![], 0, 0)).contains("/novaconta"));
}

#[test]
fn accounts_list_includes_kinds() {
    let text = accounts_text(&sheet(vec![(account("Carteira", AccountKind::Cash), 5_000)], 5_000, 0));
    assert!(text.contains("💵 Carteira (Dinheiro): R$ 50,00"), "{text}");
    assert!(accounts_text(&sheet(vec![], 0, 0)).contains("/novaconta"));
}

#[test]
fn goals_show_bar_and_remaining() {
    let goal = Goal {
        id: GoalId(3),
        pot: account("Casa própria", AccountKind::Pot),
        target: GoalTarget { target: Cents::new(10_000_000), target_date: None },
    };
    let progress = GoalProgress {
        goal,
        saved: Cents::new(2_000_000),
        remaining: Cents::new(8_000_000),
        progress_bp: 2000,
    };
    let text = goals_text(&[progress]);
    assert!(
        text.contains("<b>Casa própria</b>: R$ 20.000,00 de R$ 100.000,00 (20%)\n▓▓░░░░░░░░ faltam R$ 80.000,00"),
        "{text}"
    );
    assert!(goals_text(&[]).contains("/novameta"));
    assert_eq!(progress_bar(15_000), "▓".repeat(10));
}

fn category(name: &str, kind: CategoryKind) -> Category {
    Category { id: CategoryId(9), name: name.into(), kind, emoji: None, archived: false, essential: false }
}

#[test]
fn categories_grouped_by_kind() {
    let text = categories_text(&[category("mercado", CategoryKind::Expense)]);
    assert_eq!(text, "<b>🏷️ Categorias</b>\nGastos: mercado\nEntradas: —");
}

fn period() -> StatementPeriod {
    let day = |month, day| Date::from_ymd_opt(2026, month, day).unwrap();
    StatementPeriod { from: day(9, 5), to: day(10, 4) }
}

fn market() -> Category {
    Category {
        id: CategoryId(0x0102_0304_0506_4708_8900_0a0b_0c0d_0e0f),
        name: "mercado".into(),
        kind: CategoryKind::Expense,
        emoji: Some("🛒".into()),
        archived: false,
        essential: true,
    }
}

fn bare_entry(kind: EntryKind, cents: i64, description: &str, day: Date) -> LedgerEntry {
    LedgerEntry {
        id: EntryId(77),
        kind,
        amount: Cents::new(cents),
        description: description.into(),
        accounting_date: day,
        category_id: None,
        created_by: None,
    }
}

#[test]
fn empty_cycle_has_no_buttons() {
    let (html, keyboard) = statement_overview(&[], period());
    assert!(html.contains("Nenhum lançamento com categoria"), "{html}");
    assert!(keyboard.is_none());
}

#[test]
fn overview_lists_each_kind_with_a_button_per_category() {
    let activity = [CategoryActivity { category: market(), total: Cents::new(8_966), entries: 2 }];
    let (html, keyboard) = statement_overview(&activity, period());
    assert!(html.starts_with("<b>📂 Extrato por categoria</b> · 05/09 → 04/10/2026\n\n"), "{html}");
    assert!(html.contains("<b>💸 Gastos</b>\n🛒 mercado: R$ 89,66 (2)\nTotal: R$ 89,66"), "{html}");
    assert!(!html.contains("Entradas"), "{html}");
    let keyboard = keyboard.unwrap();
    assert_eq!(keyboard.rows[0][0].label, "🛒 mercado");
    assert_eq!(keyboard.rows[0][0].data, "cs|01020304-0506-4708-8900-0a0b0c0d0e0f|20260905|20261004");
}

#[test]
fn refunds_are_negative_lines() {
    let day = Date::from_ymd_opt(2026, 9, 16).unwrap();
    let entries = [
        bare_entry(EntryKind::CardInstallment, 8_966, "rapé", day),
        bare_entry(EntryKind::Refund, 1_000, "", day),
    ];
    let text = category_entries_text(&market(), &entries, &[], period());
    assert!(text.contains("16/09 💳 R$ 89,66 — rapé (automático)"), "{text}");
    assert!(text.contains("16/09 ↩️ -R$ 10,00 (automático)"), "{text}");
    assert!(text.contains("Total: R$ 79,66 (2 lançamentos)"), "{text}");
}

#[test]
fn change_and_rate_suffixes() {
    assert_eq!(change_suffix(Cents::new(112), Cents::new(100)), " (▲12% vs ciclo anterior)");
    assert_eq!(change_suffix(Cents::new(50), Cents::new(100)), " (▼50% vs ciclo anterior)");
    assert_eq!(change_suffix(Cents::new(50), Cents::zero()), "");
    let summary = PeriodSummary {
        income: Cents::new(100),
        spending: Cents::new(66),
        saved: Cents::new(34),
        savings_rate_bp: Some(3400),
    };
    assert_eq!(rate_suffix(&summary), " (34% das entradas)");
}

#[test]
fn weekday_names_in_portuguese() {
    assert_eq!(weekday_date(Date::from_ymd_opt(2026, 3, 10).unwrap()), "terça, 10/03");
    assert_eq!(weekday_date(Date::from_ymd_opt(2026, 3, 15).unwrap()), "domingo, 15/03");
}

#[test]
fn breakdown_shows_each_share_of_the_spending() {
    let summary = PeriodSummary { income: Cents::zero(), spending: Cents::new(200), saved: Cents::zero(), savings_rate_bp: None };
    let totals = PeriodTotals {
        summary,
        by_category: vec![(Some(CategoryId(9)), Cents::new(150)), (None, Cents::new(50))],
        by_member: vec![(Some(MemberId(5)), Cents::new(200))],
    };
    let categories = [category("mercado", CategoryKind::Expense)];
    let text = category_breakdown(&totals, &categories);
    assert_eq!(text, "<b>Onde foi o dinheiro</b>\nmercado R$ 1,50 (75%)\nsem categoria R$ 0,50 (25%)");
    let ana = Member { id: MemberId(5), telegram_user_id: 11, display_name: "Ana".into(), dm_chat_id: None, receives_backups: false };
    assert_eq!(member_line(&totals, &[ana]), "Gastos por pessoa: Ana: R$ 2,00");
}

#[test]
fn budget_lines_and_alerts() {
    let status = BudgetStatus {
        category: category("mercado", CategoryKind::Expense),
        spent: Cents::new(85_000),
        budget: Budget { limit: Cents::new(100_000) },
        used_bp: 8_500,
    };
    assert_eq!(budget_line(&status), "mercado ▓▓▓▓▓▓▓▓░░ 85% (R$ 850,00 de R$ 1.000,00)");
    let warning = BudgetAlert { status: status.clone(), threshold: 80 };
    assert!(budget_alert_text(&warning).starts_with("⚠️ Orçamento de <b>mercado</b> em 85%"));
    let over = BudgetAlert { status, threshold: 100 };
    assert!(budget_alert_text(&over).contains("estourado"));
}

fn march_tenth() -> Date {
    Date::from_ymd_opt(2026, 3, 10).unwrap()
}

#[test]
fn uncategorized_kinds_are_named() {
    let catalog = Catalog::default();
    let line = |kind| entry_line(&bare_entry(kind, 500, "", march_tenth()), &catalog, &[], march_tenth());
    assert_eq!(line(EntryKind::Transfer), "hoje ↔️ R$ 5,00 · transferência (automático)");
    assert!(line(EntryKind::InvoicePayment).contains("🧾 R$ 5,00 · pagamento de fatura"));
    assert!(line(EntryKind::AdjustOut).contains("⚖️ R$ 5,00 · ajuste"));
    assert!(line(EntryKind::Refund).contains("↩️ R$ 5,00 · sem categoria"));
    assert!(line(EntryKind::CardInstallment).contains("💳"));
}

#[test]
fn label_escapes_and_skips_empty_description() {
    let entry = bare_entry(EntryKind::Expense, 1050, "<pão>", march_tenth());
    assert_eq!(entry_label(&entry, march_tenth()), "R$ 10,50 · &lt;pão&gt; (hoje)");
    let plain = LedgerEntry { description: String::new(), ..entry };
    assert_eq!(entry_label(&plain, march_tenth()), "R$ 10,50 (hoje)");
    assert_eq!(recent_entries_view(&[], &Catalog::default(), &[], march_tenth()).1, None);
}

#[test]
fn recent_entries_number_their_buttons() {
    let mut first = bare_entry(EntryKind::Expense, 1050, "feira", march_tenth());
    first.category_id = Some(CategoryId(9));
    let second = bare_entry(EntryKind::Income, 20_000, "", Date::from_ymd_opt(2026, 3, 9).unwrap());
    let (html, keyboard) = recent_entries_view(&[first, second], &Catalog::default(), &[], march_tenth());
    assert!(html.starts_with("<b>🧾 Últimos lançamentos</b>\n"), "{html}");
    assert!(html.contains("💸 R$ 10,50 · categoria removida — feira (automático)"), "{html}");
    assert!(html.ends_with("\n\n✏️ edita · 🗑️ apaga"), "{html}");
    let labels: Vec<String> = keyboard.unwrap().rows.concat().into_iter().map(|button| button.label).collect();
    assert_eq!(labels, vec!["✏️ 1", "🗑️ 1", "✏️ 2", "🗑️ 2"]);
}

fn plan(description: &str, source: PlanSource, paid: i64, total: i64) -> InstallmentProgress {
    InstallmentProgress {
        description: description.into(),
        source,
        category_id: CategoryId(5),
        count: 4,
        paid_count: 1,
        total: Cents::new(total),
        paid: Cents::new(paid),
        installment: Cents::new(total / 4),
        last_due: Date::from_ymd_opt(2026, 12, 21).unwrap(),
    }
}

#[test]
fn plans_with_totals_like_goals() {
    let plans = [
        plan("Enoxaparina", PlanSource::Card("Itau Black".into()), 102_675, 410_700),
        plan("", PlanSource::Account("BTG".into()), 0, 400_000),
    ];
    let text = installments_text(&plans, &[]);
    assert!(
        text.starts_with("<b>💳 Parcelamentos</b>\nFalta pagar: R$ 7.080,25 · por mês: R$ 2.026,75"),
        "{text}"
    );
    assert!(text.contains("<b>Enoxaparina</b> · 💳 Itau Black\nR$ 1.026,75 de R$ 4.107,00 (25%) · parcela 1 de 4"), "{text}");
    assert!(text.contains("▓▓░░░░░░░░ faltam R$ 3.080,25\nR$ 1.026,75/mês até 12/2026"), "{text}");
    assert!(text.contains("<b>Compra parcelada</b> · 🏦 BTG"), "{text}");
}

#[test]
fn no_plans() {
    assert!(installments_text(&[], &[]).contains("Nenhum parcelamento em andamento."));
}

#[test]
fn plan_titles_name_their_category() {
    let mut with_category = plan("<remédio>", PlanSource::Card("Nu".into()), 0, 0);
    with_category.category_id = CategoryId(0x0102_0304_0506_4708_8900_0a0b_0c0d_0e0f);
    let text = installments_text(&[with_category], &[market()]);
    assert!(text.contains("<b>&lt;remédio&gt;</b> · 💳 Nu · 🛒 mercado\nR$ 0,00 de R$ 0,00 (0%)"), "{text}");
    assert!(text.contains("░░░░░░░░░░ faltam R$ 0,00"), "{text}");
}

fn toggle(name: &str, kind: CategoryKind, essential: bool) -> Category {
    Category { id: CategoryId(3), name: name.into(), kind, emoji: None, archived: false, essential }
}

#[test]
fn living_cost_toggles_list_only_expense_categories() {
    let categories = [
        toggle("casa", CategoryKind::Expense, true),
        toggle("lazer", CategoryKind::Expense, false),
        toggle("salário", CategoryKind::Income, false),
    ];
    let (html, keyboard) = essentials_view(&categories);
    assert!(html.contains("formam o custo de vida básico (/custodevida)"), "{html}");
    let labels: Vec<String> =
        keyboard.unwrap().rows.concat().into_iter().map(|button| button.label).collect();
    assert_eq!(labels, vec!["✅ casa", "⬜ lazer"]);
    let (empty, none) = essentials_view(&categories[2..]);
    assert!(none.is_none());
    assert!(empty.contains("/novacategoria"));
    assert_eq!(toggled_toast(true), "Marcada como essencial ✅");
    assert_eq!(toggled_toast(false), "Não é mais essencial");
}

fn september_cycle() -> Cycle {
    Cycle {
        start: Date::from_ymd_opt(2026, 9, 5).unwrap(),
        end_exclusive: Date::from_ymd_opt(2026, 10, 5).unwrap(),
    }
}

fn cost(by_category: Vec<(Category, Cents)>, average: Option<i64>) -> LivingCost {
    LivingCost {
        cycle: september_cycle(),
        spent: Cents::new(321_000),
        still_coming: Cents::new(84_000),
        by_category,
        recent_average: average.map(Cents::new),
        averaged_cycles: usize::from(average.is_some()) * 3,
        expected_income: Cents::new(1_200_000),
        reserved: Cents::new(2_000_000),
        reserve_target: Cents::new(average.unwrap_or(405_000) * 6),
        reserve_tenths_of_month: Some(2_000_000 * 10 / average.unwrap_or(405_000)),
    }
}

fn check_full_cost_of_living() {
    let home = toggle("casa", CategoryKind::Expense, true);
    let text = living_cost_text(&cost(vec![(home, Cents::new(405_000))], Some(398_000)));
    assert!(text.starts_with("<b>🏠 Custo de vida básico</b> · 05/09 → 04/10/2026"), "{text}");
    assert!(text.contains("Ainda vem no ciclo: R$ 840,00"), "{text}");
    assert!(text.contains("<b>Previsto no ciclo: R$ 4.050,00</b>"), "{text}");
    assert!(text.contains("Média dos últimos 3 ciclos: R$ 3.980,00"), "{text}");
    assert!(text.contains("essencial = 33% (referência: até 50%)"), "{text}");
    assert!(text.contains("casa: R$ 4.050,00"), "{text}");
    assert!(
        text.contains("(6 meses): R$ 23.880,00\nGuardado em metas: R$ 20.000,00 → 5,0 meses"),
        "{text}"
    );
}

#[test]
fn living_cost_full_cost_of_living() {
    check_full_cost_of_living();
}

#[test]
fn outlook_full_cost_of_living() {
    check_full_cost_of_living();
}

#[test]
fn living_cost_nothing_essential_points_to_the_setup() {
    let text = living_cost_text(&cost(Vec::new(), None));
    assert!(text.contains("Marque as categorias em /essenciais."), "{text}");
}

#[test]
fn outlook_nothing_essential_points_to_the_setup() {
    let text = living_cost_text(&cost(Vec::new(), None));
    assert_eq!(
        text,
        "<b>🏠 Custo de vida básico</b> · 05/09 → 04/10/2026\nNada essencial nesse ciclo ainda. Marque as categorias em /essenciais."
    );
}

#[test]
fn outlook_toggles_list_only_expense_categories() {
    let categories = [
        toggle("casa", CategoryKind::Expense, true),
        toggle("lazer", CategoryKind::Expense, false),
        toggle("salário", CategoryKind::Income, false),
    ];
    let (_, keyboard) = essentials_view(&categories);
    let rows = keyboard.unwrap().rows;
    assert_eq!(rows.len(), 1);
    assert_eq!(rows[0][0].label, "✅ casa");
    assert_eq!(rows[0][1].label, "⬜ lazer");
    assert!(essentials_view(&categories[2..]).1.is_none());
}

#[test]
fn living_cost_without_income_or_reserve_measure() {
    let mut plain = cost(vec![(toggle("casa", CategoryKind::Expense, true), Cents::new(1))], None);
    plain.expected_income = Cents::zero();
    plain.still_coming = Cents::zero();
    plain.reserve_tenths_of_month = None;
    let text = living_cost_text(&plain);
    assert!(text.contains("Gasto até agora: R$ 3.210,00\n<b>Previsto no ciclo: R$ 3.210,00</b>\nMédia: aparece depois do primeiro ciclo completo.\n\n"), "{text}");
    assert!(!text.contains("Renda do ciclo"), "{text}");
    assert!(!text.contains("Ainda vem"), "{text}");
    assert!(text.ends_with("(6 meses): R$ 24.300,00"), "{text}");
}

fn projection(result_positive: bool) -> CycleProjection {
    let income = if result_positive { 1_200_000 } else { 300_000 };
    CycleProjection {
        cycle: september_cycle(),
        days_left: 13,
        income: Flow { recorded: Cents::new(income), coming: Cents::new(400_000) },
        spending: Flow { recorded: Cents::new(407_923), coming: Cents::new(313_890) },
        by_category: vec![(toggle("casa", CategoryKind::Expense, true), Cents::new(328_218))],
        available: Cents::new(540_384),
        due_from_accounts: Cents::new(313_890),
        bills_to_confirm: 1,
    }
}

#[test]
fn projection_shows_result_cash_and_warnings() {
    let text = projection_text(&projection(true));
    assert!(
        text.starts_with("<b>🔮 Projeção do ciclo</b> · 05/09 → 04/10/2026 (faltam 13 dias)"),
        "{text}"
    );
    assert!(
        text.contains("Entradas: R$ 16.000,00 (R$ 12.000,00 recebidas · R$ 4.000,00 a receber)"),
        "{text}"
    );
    assert!(
        text.contains("Gastos: R$ 7.218,13 (R$ 4.079,23 lançados · R$ 3.138,90 a lançar)"),
        "{text}"
    );
    assert!(text.contains("<b>Sobra prevista: R$ 8.781,87</b> (54% das entradas)"), "{text}");
    assert!(text.contains("Disponível hoje: R$ 5.403,84\n+ a receber: R$ 4.000,00"), "{text}");
    assert!(text.contains("<b>= no fim do ciclo: R$ 6.264,94</b>"), "{text}");
    assert!(text.contains("<b>Maiores gastos previstos</b>\ncasa: R$ 3.282,18"), "{text}");
    assert!(text.contains("⚠️ 1 recorrente(s) esperando confirmação"), "{text}");
}

#[test]
fn a_cycle_that_ends_short_says_falta() {
    let text = projection_text(&projection(false));
    assert!(text.contains("<b>Falta: R$ 218,13</b>"), "{text}");
    assert!(!text.contains("das entradas"), "no negative share: {text}");
}

#[test]
fn a_quiet_projection_has_three_sections() {
    let mut quiet = projection(true);
    quiet.by_category = Vec::new();
    quiet.bills_to_confirm = 0;
    quiet.income.coming = Cents::zero();
    let text = projection_text(&quiet);
    assert_eq!(text.matches("\n\n").count(), 2, "{text}");
    assert!(text.contains("Entradas: R$ 12.000,00\n"), "{text}");
    assert!(text.contains("<b>Caixa até 04/10</b>"), "{text}");
}

fn march_cycle() -> Cycle {
    Cycle { start: Date::from_ymd_opt(2026, 3, 5).unwrap(), end_exclusive: Date::from_ymd_opt(2026, 4, 5).unwrap() }
}

#[test]
fn daily_report_sections() {
    let today = march_tenth();
    assert_eq!(days_left(march_cycle(), today), 25);
    assert_eq!(days_left(march_cycle(), Date::from_ymd_opt(2026, 4, 4).unwrap()), 0);
    assert_eq!(daily_header(today), "<b>📊 Resumo de terça, 10/03</b>");
    assert_eq!(closing_header(march_cycle()), "<b>🗓️ Fechamento do ciclo 05/03 → 04/04</b>");
    assert_eq!(month_header(march_cycle(), today), "<b>📅 Ciclo atual 05/03 → 04/04</b> (faltam 25 dias)");
    assert_eq!(today_section(&[], Cents::zero(), &[], &[]), "<b>Hoje</b>\nNenhum lançamento hoje.");
    let entries = [
        bare_entry(EntryKind::Expense, 1050, "feira", today),
        bare_entry(EntryKind::Transfer, 20_000, "", today),
    ];
    assert_eq!(
        today_section(&entries, Cents::new(1050), &[], &[]),
        "<b>Hoje</b> (2 lançamentos)\n• automático: lançamento R$ 10,50 — feira\n• automático: ↔️ transferência R$ 200,00\nGasto hoje: R$ 10,50"
    );
    let bill = Recurrence { id: RecurrenceId(1), description: "Luz & gás".into(), amount: Cents::new(12_000) };
    assert_eq!(
        upcoming_section(&[(bill, Date::from_ymd_opt(2026, 3, 12).unwrap())]),
        "<b>Próximos dias</b>\n🔁 12/03 Luz &amp; gás R$ 120,00"
    );
    let summary = PeriodSummary {
        income: Cents::new(100_000),
        spending: Cents::new(66_000),
        saved: Cents::new(34_000),
        savings_rate_bp: Some(3400),
    };
    let totals = PeriodTotals { summary, by_category: Vec::new(), by_member: vec![(Some(MemberId(5)), Cents::new(66_000))] };
    let ana = Member { id: MemberId(5), telegram_user_id: 11, display_name: "Ana".into(), dm_chat_id: None, receives_backups: false };
    assert_eq!(
        cycle_section(march_cycle(), today, &totals, &[ana]),
        "<b>Ciclo 05/03 → 04/04</b> (faltam 25 dias)\nEntradas: R$ 1.000,00\nGastos: R$ 660,00\nSobra: R$ 340,00 (34% das entradas)\nGastos por pessoa: Ana: R$ 660,00"
    );
}

fn summary(income: i64, spending: i64) -> PeriodSummary {
    PeriodSummary {
        income: Cents::new(income),
        spending: Cents::new(spending),
        saved: Cents::new(income - spending),
        savings_rate_bp: if income > 0 { Some((income - spending) * 10_000 / income) } else { None },
    }
}

#[test]
fn breakdown_groups_the_rest_as_outros() {
    let by_category: Vec<(Option<CategoryId>, Cents)> =
        (1..=10).map(|i| (Some(CategoryId(100 + i as u128)), Cents::new(1_000 * (11 - i)))).collect();
    let totals = PeriodTotals { summary: summary(100_000, 55_000), by_category, by_member: Vec::new() };
    let text = category_breakdown(&totals, &[]);
    let lines: Vec<&str> = text.lines().collect();
    assert_eq!(lines.len(), 10, "{text}");
    assert_eq!(lines[0], "<b>Onde foi o dinheiro</b>");
    assert_eq!(lines[1], "sem categoria R$ 100,00 (18%)");
    assert_eq!(lines[9], "outros R$ 30,00 (5%)");
    let eight = PeriodTotals { by_category: totals.by_category[..8].to_vec(), ..totals.clone() };
    assert!(!category_breakdown(&eight, &[]).contains("outros"));
}

fn report_cycle() -> Cycle {
    Cycle { start: Date::from_ymd_opt(2026, 3, 5).unwrap(), end_exclusive: Date::from_ymd_opt(2026, 4, 5).unwrap() }
}

fn in_order(text: &str, parts: &[&str]) {
    let mut from = 0;
    for part in parts {
        let at = text[from..].find(part).unwrap_or_else(|| panic!("{part:?} missing after {from} in {text}"));
        from += at + part.len();
    }
}

#[test]
fn daily_report_puts_sections_in_order() {
    let today = Date::from_ymd_opt(2026, 3, 10).unwrap();
    let quiet = DailyReport {
        date: today,
        cycle: report_cycle(),
        today: PeriodTotals { summary: summary(0, 0), by_category: Vec::new(), by_member: Vec::new() },
        entries_today: Vec::new(),
        cycle_to_date: PeriodTotals { summary: summary(100_000, 40_000), by_category: Vec::new(), by_member: Vec::new() },
        balances: sheet(vec![(account("Nubank", AccountKind::Checking), 50_000)], 50_000, 0),
        budgets: Vec::new(),
        goals: Vec::new(),
        upcoming: Vec::new(),
        categories: Vec::new(),
        members: Vec::new(),
    };
    let text = daily_report_text(&quiet);
    assert!(
        text.starts_with("<b>📊 Resumo de terça, 10/03</b>\n\n<b>Hoje</b>\nNenhum lançamento hoje.\n\n<b>Ciclo 05/03 → 04/04</b> (faltam 25 dias)\nEntradas: R$ 1.000,00"),
        "{text}"
    );
    assert!(text.contains("Gastos por pessoa: —\n\n<b>💰 Saldo</b>"), "{text}");
    assert!(!text.contains("Orçamentos") && !text.contains("Próximos dias") && !text.contains("Metas"), "{text}");
    let bill = Recurrence { id: RecurrenceId(1), description: "Luz".into(), amount: Cents::new(12_000) };
    let mut busy = quiet.clone();
    busy.upcoming = vec![(bill, Date::from_ymd_opt(2026, 3, 12).unwrap())];
    busy.budgets = vec![status_at(9_000), status_at(1_000)];
    let text = daily_report_text(&busy);
    in_order(&text, &["<b>Hoje</b>", "<b>Ciclo", "<b>💰 Saldo</b>", "\n\n<b>Orçamentos</b>\n", "\n\n<b>Próximos dias</b>\n🔁 12/03 Luz R$ 120,00"]);
    assert!(text.ends_with("🔁 12/03 Luz R$ 120,00"), "{text}");
    assert_eq!(text.matches("lazer").count(), 1, "only budgets from 80%: {text}");
}

fn status_at(used_bp: i64) -> BudgetStatus {
    BudgetStatus {
        category: category("lazer", CategoryKind::Expense),
        spent: Cents::new(used_bp),
        budget: Budget { limit: Cents::new(10_000) },
        used_bp,
    }
}

#[test]
fn cycle_reports_share_their_body() {
    let report = CycleReport {
        cycle: report_cycle(),
        totals: PeriodTotals { summary: summary(100_000, 56_000), by_category: Vec::new(), by_member: Vec::new() },
        previous: summary(100_000, 50_000),
        saved_in_pots: Cents::new(10_000),
        balances: sheet(vec![(account("Nubank", AccountKind::Checking), 50_000)], 50_000, 0),
        budgets: vec![status_at(1_000)],
        goals: Vec::new(),
        categories: Vec::new(),
        members: Vec::new(),
    };
    let closing = cycle_report_text(&report);
    assert!(
        closing.starts_with("<b>🗓️ Fechamento do ciclo 05/03 → 04/04</b>\n\nEntradas: R$ 1.000,00\nGastos: R$ 560,00 (▲12% vs ciclo anterior)"),
        "{closing}"
    );
    in_order(
        &closing,
        &["\n\n<b>Onde foi o dinheiro</b>\nNenhum gasto no ciclo.", "\n\nGastos por pessoa: —", "\n\n<b>💰 Saldo</b>", "\n\n<b>Orçamentos</b>\nlazer"],
    );
    let month = month_report_text(&report, Date::from_ymd_opt(2026, 3, 10).unwrap());
    assert!(month.starts_with("<b>📅 Ciclo atual 05/03 → 04/04</b> (faltam 25 dias)\n\nEntradas:"), "{month}");
    assert_eq!(month.split_once("\n\n").unwrap().1, closing.split_once("\n\n").unwrap().1);
}
