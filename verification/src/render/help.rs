//! The command list: one source for `/ajuda` and for the menu Telegram
//! shows when someone types `/`.

use vstd::prelude::*;

use crate::flows::form::{FormKind, form_command};
use crate::text::{push_str, string_of};

verus! {

/// A block of `/ajuda`, in the order the couple usually needs it.
pub struct CommandSection {
    pub title: &'static str,
    pub commands: Vec<(&'static str, &'static str)>,
}

pub open spec fn pair_view(pair: (&'static str, &'static str)) -> (Seq<char>, Seq<char>) {
    (pair.0@, pair.1@)
}

pub open spec fn section_view(section: CommandSection) -> (Seq<char>, Seq<(Seq<char>, Seq<char>)>) {
    (section.title@, section.commands@.map_values(|pair: (&'static str, &'static str)| pair_view(pair)))
}

/// The sections of `/ajuda`: each title with its commands and descriptions.
pub open spec fn command_sections() -> Seq<(Seq<char>, Seq<(Seq<char>, Seq<char>)>)> {
    seq![
        ("💸 Registrar"@, seq![
            ("gasto"@, "Registrar um gasto"@),
            ("entrada"@, "Registrar uma entrada (salário, extra...)"@),
            ("transferir"@, "Mover dinheiro entre contas"@),
            ("guardar"@, "Guardar dinheiro numa meta"@),
            ("resgatar"@, "Tirar dinheiro de uma meta"@),
            ("pagarfatura"@, "Pagar a fatura de um cartão"@),
            ("estorno"@, "Registrar um estorno ou reembolso"@),
            ("ajuste"@, "Acertar o saldo de uma conta com o do banco"@),
        ]),
        ("👀 Ver"@, seq![
            ("saldo"@, "Saldo das contas e disponível"@),
            ("resumo"@, "Resumo de hoje; /resumo 15/09 para outro dia"@),
            ("ontem"@, "Resumo de ontem"@),
            ("mes"@, "Como está o ciclo até agora"@),
            ("projecao"@, "Como o ciclo deve terminar: entradas, gastos e caixa"@),
            ("extrato"@, "Gastos e entradas por categoria; /extrato 08/2026 para outro ciclo"@),
            ("custodevida"@, "Quanto custa a vida básica; /custodevida 08/2026 para outro ciclo"@),
            ("metas"@, "Progresso das metas"@),
            ("orcamentos"@, "Orçamentos do ciclo"@),
            ("exportar"@, "Planilha (CSV) do ciclo; /exportar 03/2026 para outro"@),
        ]),
        ("💳 Cartões e parcelas"@, seq![
            ("fatura"@, "Faturas dos cartões"@),
            ("parcelas"@, "Compras parceladas e financiamentos: quanto falta"@),
            ("cartoes"@, "Listar cartões"@),
            ("recorrentes"@, "Listar e desativar recorrentes"@),
        ]),
        ("✏️ Corrigir"@, seq![
            ("desfazer"@, "Desfazer seu último lançamento"@),
            ("ultimos"@, "Últimos lançamentos, com editar e apagar"@),
            ("cancelar"@, "Cancelar o que está preenchendo"@),
        ]),
        ("⚙️ Cadastrar e configurar"@, seq![
            ("novaconta"@, "Cadastrar uma conta"@),
            ("novocartao"@, "Cadastrar um cartão de crédito"@),
            ("novameta"@, "Criar uma meta de economia"@),
            ("novacategoria"@, "Criar uma categoria de gasto ou de entrada"@),
            ("recorrente"@, "Criar um lançamento recorrente ou financiamento"@),
            ("orcamento"@, "Definir ou remover o limite de uma categoria"@),
            ("essenciais"@, "Marcar as categorias do custo de vida básico"@),
            ("config"@, "Dia de início do ciclo e horários dos resumos"@),
            ("contas"@, "Listar contas"@),
            ("categorias"@, "Listar categorias"@),
            ("ajuda"@, "Mostrar os comandos"@),
        ]),
    ]
}

/// The sections of `/ajuda`, in the order the couple usually needs them.
pub fn sections() -> (all: Vec<CommandSection>)
    ensures
        all@.map_values(|section: CommandSection| section_view(section)) == command_sections(),
{
    let all = vec![
        CommandSection {
            title: "💸 Registrar",
            commands: vec![
                ("gasto", "Registrar um gasto"),
                ("entrada", "Registrar uma entrada (salário, extra...)"),
                ("transferir", "Mover dinheiro entre contas"),
                ("guardar", "Guardar dinheiro numa meta"),
                ("resgatar", "Tirar dinheiro de uma meta"),
                ("pagarfatura", "Pagar a fatura de um cartão"),
                ("estorno", "Registrar um estorno ou reembolso"),
                ("ajuste", "Acertar o saldo de uma conta com o do banco"),
            ],
        },
        CommandSection {
            title: "👀 Ver",
            commands: vec![
                ("saldo", "Saldo das contas e disponível"),
                ("resumo", "Resumo de hoje; /resumo 15/09 para outro dia"),
                ("ontem", "Resumo de ontem"),
                ("mes", "Como está o ciclo até agora"),
                ("projecao", "Como o ciclo deve terminar: entradas, gastos e caixa"),
                ("extrato", "Gastos e entradas por categoria; /extrato 08/2026 para outro ciclo"),
                ("custodevida", "Quanto custa a vida básica; /custodevida 08/2026 para outro ciclo"),
                ("metas", "Progresso das metas"),
                ("orcamentos", "Orçamentos do ciclo"),
                ("exportar", "Planilha (CSV) do ciclo; /exportar 03/2026 para outro"),
            ],
        },
        CommandSection {
            title: "💳 Cartões e parcelas",
            commands: vec![
                ("fatura", "Faturas dos cartões"),
                ("parcelas", "Compras parceladas e financiamentos: quanto falta"),
                ("cartoes", "Listar cartões"),
                ("recorrentes", "Listar e desativar recorrentes"),
            ],
        },
        CommandSection {
            title: "✏️ Corrigir",
            commands: vec![
                ("desfazer", "Desfazer seu último lançamento"),
                ("ultimos", "Últimos lançamentos, com editar e apagar"),
                ("cancelar", "Cancelar o que está preenchendo"),
            ],
        },
        CommandSection {
            title: "⚙️ Cadastrar e configurar",
            commands: vec![
                ("novaconta", "Cadastrar uma conta"),
                ("novocartao", "Cadastrar um cartão de crédito"),
                ("novameta", "Criar uma meta de economia"),
                ("novacategoria", "Criar uma categoria de gasto ou de entrada"),
                ("recorrente", "Criar um lançamento recorrente ou financiamento"),
                ("orcamento", "Definir ou remover o limite de uma categoria"),
                ("essenciais", "Marcar as categorias do custo de vida básico"),
                ("config", "Dia de início do ciclo e horários dos resumos"),
                ("contas", "Listar contas"),
                ("categorias", "Listar categorias"),
                ("ajuda", "Mostrar os comandos"),
            ],
        },
    ];
    assert(all@.map_values(|section: CommandSection| section_view(section)) =~~= command_sections());
    all
}

/// The commands of `sections`, one section after another.
pub open spec fn listed(sections: Seq<(Seq<char>, Seq<(Seq<char>, Seq<char>)>)>) -> Seq<(Seq<char>, Seq<char>)>
    decreases sections.len(),
{
    if sections.len() == 0 {
        Seq::empty()
    } else {
        listed(sections.drop_last()) + sections.last().1
    }
}

/// Every command with its description, in menu order.
pub open spec fn all_commands() -> Seq<(Seq<char>, Seq<char>)> {
    listed(command_sections())
}

/// `parts` with `separator` between each two.
pub open spec fn joined(parts: Seq<Seq<char>>, separator: Seq<char>) -> Seq<char>
    decreases parts.len(),
{
    if parts.len() == 0 {
        Seq::empty()
    } else if parts.len() == 1 {
        parts[0]
    } else {
        joined(parts.drop_last(), separator) + separator + parts.last()
    }
}

/// `/gasto — Registrar um gasto`.
pub open spec fn command_line(entry: (Seq<char>, Seq<char>)) -> Seq<char> {
    "/"@ + entry.0 + " — "@ + entry.1
}

/// A bold title, then one line per command.
pub open spec fn section_body(section: (Seq<char>, Seq<(Seq<char>, Seq<char>)>)) -> Seq<char> {
    "<b>"@ + section.0 + "</b>\n"@ + joined(
        section.1.map_values(|entry: (Seq<char>, Seq<char>)| command_line(entry)),
        "\n"@,
    )
}

/// The text of `/ajuda`.
pub open spec fn help_body() -> Seq<char> {
    "<b>Comandos</b>\n\n"@ + joined(
        command_sections().map_values(
            |section: (Seq<char>, Seq<(Seq<char>, Seq<char>)>)| section_body(section),
        ),
        "\n\n"@,
    )
}

/// The greeting when the bot joins a chat: a hello, then `/ajuda`.
pub open spec fn welcome_body() -> Seq<char> {
    "Olá! 👋 Vou registrar as finanças de vocês aqui.\n\n"@ + help_body()
}

/// Every command, for `setMyCommands`; the menu follows the same order.
pub fn commands() -> (all: Vec<(&'static str, &'static str)>)
    ensures
        all@.map_values(|pair: (&'static str, &'static str)| pair_view(pair)) == all_commands(),
{
    let sections = sections();
    let ghost views = command_sections();
    let mut all: Vec<(&'static str, &'static str)> = Vec::new();
    let mut i: usize = 0;
    while i < sections.len()
        invariant
            i <= sections@.len(),
            sections@.map_values(|section: CommandSection| section_view(section)) == views,
            views == command_sections(),
            all@.map_values(|pair: (&'static str, &'static str)| pair_view(pair)) == listed(views.take(i as int)),
        decreases sections@.len() - i,
    {
        let section = &sections[i];
        assert(views[i as int] == section_view(sections@[i as int]));
        let mut j: usize = 0;
        let ghost before = all@;
        while j < section.commands.len()
            invariant
                j <= section.commands@.len(),
                all@ == before + section.commands@.take(j as int),
            decreases section.commands@.len() - j,
        {
            all.push(section.commands[j]);
            assert(section.commands@.take(j + 1) =~= section.commands@.take(j as int).push(section.commands@[j as int]));
            j = j + 1;
        }
        proof {
            assert(section.commands@.take(j as int) =~= section.commands@);
            assert(views.take(i + 1).drop_last() =~= views.take(i as int));
            assert(all@.map_values(|pair: (&'static str, &'static str)| pair_view(pair)) =~= listed(views.take(i as int)) + views[i as int].1);
        }
        i = i + 1;
    }
    assert(views.take(i as int) =~= views);
    all
}

/// Appends `parts` with `separator` between each two.
pub fn push_joined(out: &mut Vec<char>, parts: &Vec<String>, separator: &str)
    ensures
        final(out)@ == old(out)@ + joined(parts@.map_values(|part: String| part@), separator@),
{
    let ghost views = parts@.map_values(|part: String| part@);
    let ghost start = out@;
    let mut i: usize = 0;
    while i < parts.len()
        invariant
            i <= parts@.len(),
            views == parts@.map_values(|part: String| part@),
            out@ == start + joined(views.take(i as int), separator@),
        decreases parts@.len() - i,
    {
        if i > 0 {
            push_str(out, separator);
        }
        push_str(out, parts[i].as_str());
        proof {
            assert(views.take(i + 1).drop_last() =~= views.take(i as int));
            if i == 0 {
                assert(views.take(1)[0] == views[0]);
            }
        }
        i = i + 1;
    }
    assert(views.take(i as int) =~= views);
}

/// `/ajuda` text for one section.
pub fn section_text(section: &CommandSection) -> (text: String)
    ensures
        text@ == section_body(section_view(*section)),
{
    let mut lines: Vec<String> = Vec::new();
    let mut i: usize = 0;
    while i < section.commands.len()
        invariant
            i <= section.commands@.len(),
            lines@.len() == i,
            forall|k: int| 0 <= k < i ==> (#[trigger] lines@[k])@ == command_line(pair_view(section.commands@[k])),
        decreases section.commands@.len() - i,
    {
        let (command, description) = section.commands[i];
        let mut line: Vec<char> = Vec::new();
        push_str(&mut line, "/");
        push_str(&mut line, command);
        push_str(&mut line, " — ");
        push_str(&mut line, description);
        lines.push(string_of(&line));
        i = i + 1;
    }
    let mut out: Vec<char> = Vec::new();
    push_str(&mut out, "<b>");
    push_str(&mut out, section.title);
    push_str(&mut out, "</b>\n");
    push_joined(&mut out, &lines, "\n");
    assert(lines@.map_values(|part: String| part@) =~= section_view(*section).1.map_values(
        |entry: (Seq<char>, Seq<char>)| command_line(entry),
    ));
    string_of(&out)
}

/// The full `/ajuda` text.
pub fn help_text() -> (text: String)
    ensures
        text@ == help_body(),
{
    let sections = sections();
    let mut blocks: Vec<String> = Vec::new();
    let mut i: usize = 0;
    while i < sections.len()
        invariant
            i <= sections@.len(),
            sections@.map_values(|section: CommandSection| section_view(section)) == command_sections(),
            blocks@.len() == i,
            forall|k: int| 0 <= k < i ==> (#[trigger] blocks@[k])@ == section_body(section_view(sections@[k])),
        decreases sections@.len() - i,
    {
        blocks.push(section_text(&sections[i]));
        i = i + 1;
    }
    let mut out: Vec<char> = Vec::new();
    push_str(&mut out, "<b>Comandos</b>\n\n");
    push_joined(&mut out, &blocks, "\n\n");
    assert(blocks@.map_values(|part: String| part@) =~= command_sections().map_values(
        |section: (Seq<char>, Seq<(Seq<char>, Seq<char>)>)| section_body(section),
    )) by {
        assert forall|k: int| 0 <= k < blocks@.len() implies (#[trigger] blocks@[k])@ == section_body(
            command_sections()[k],
        ) by {
            assert(command_sections()[k] == section_view(sections@[k]));
        }
    }
    string_of(&out)
}

/// The greeting when the bot joins a chat.
pub fn welcome_text() -> (text: String)
    ensures
        text@ == welcome_body(),
{
    let mut out: Vec<char> = Vec::new();
    push_str(&mut out, "Olá! 👋 Vou registrar as finanças de vocês aqui.\n\n");
    let help = help_text();
    push_str(&mut out, help.as_str());
    string_of(&out)
}

/// The command names, in menu order.
pub open spec fn command_names() -> Seq<Seq<char>> {
    all_commands().map_values(|entry: (Seq<char>, Seq<char>)| entry.0)
}

/// Where a command name stands in the menu (36 when it is none of them).
pub open spec fn menu_position(name: Seq<char>) -> int {
    if name == "gasto"@ {
        0
    } else if name == "entrada"@ {
        1
    } else if name == "transferir"@ {
        2
    } else if name == "guardar"@ {
        3
    } else if name == "resgatar"@ {
        4
    } else if name == "pagarfatura"@ {
        5
    } else if name == "estorno"@ {
        6
    } else if name == "ajuste"@ {
        7
    } else if name == "saldo"@ {
        8
    } else if name == "resumo"@ {
        9
    } else if name == "ontem"@ {
        10
    } else if name == "mes"@ {
        11
    } else if name == "projecao"@ {
        12
    } else if name == "extrato"@ {
        13
    } else if name == "custodevida"@ {
        14
    } else if name == "metas"@ {
        15
    } else if name == "orcamentos"@ {
        16
    } else if name == "exportar"@ {
        17
    } else if name == "fatura"@ {
        18
    } else if name == "parcelas"@ {
        19
    } else if name == "cartoes"@ {
        20
    } else if name == "recorrentes"@ {
        21
    } else if name == "desfazer"@ {
        22
    } else if name == "ultimos"@ {
        23
    } else if name == "cancelar"@ {
        24
    } else if name == "novaconta"@ {
        25
    } else if name == "novocartao"@ {
        26
    } else if name == "novameta"@ {
        27
    } else if name == "novacategoria"@ {
        28
    } else if name == "recorrente"@ {
        29
    } else if name == "orcamento"@ {
        30
    } else if name == "essenciais"@ {
        31
    } else if name == "config"@ {
        32
    } else if name == "contas"@ {
        33
    } else if name == "categorias"@ {
        34
    } else if name == "ajuda"@ {
        35
    } else {
        36
    }
}

/// `/ajuda` and the command menu list each command once: every name
/// stands at its own place in the menu, so no two commands share one.
pub proof fn lemma_commands_listed_once()
    ensures
        command_names().len() == 36,
        forall|k: int| 0 <= k < 36 ==> menu_position(#[trigger] command_names()[k]) == k,
        command_names().no_duplicates(),
{
    reveal_strlit("gasto");
    reveal_strlit("entrada");
    reveal_strlit("transferir");
    reveal_strlit("guardar");
    reveal_strlit("resgatar");
    reveal_strlit("pagarfatura");
    reveal_strlit("estorno");
    reveal_strlit("ajuste");
    reveal_strlit("saldo");
    reveal_strlit("resumo");
    reveal_strlit("ontem");
    reveal_strlit("mes");
    reveal_strlit("projecao");
    reveal_strlit("extrato");
    reveal_strlit("custodevida");
    reveal_strlit("metas");
    reveal_strlit("orcamentos");
    reveal_strlit("exportar");
    reveal_strlit("fatura");
    reveal_strlit("parcelas");
    reveal_strlit("cartoes");
    reveal_strlit("recorrentes");
    reveal_strlit("desfazer");
    reveal_strlit("ultimos");
    reveal_strlit("cancelar");
    reveal_strlit("novaconta");
    reveal_strlit("novocartao");
    reveal_strlit("novameta");
    reveal_strlit("novacategoria");
    reveal_strlit("recorrente");
    reveal_strlit("orcamento");
    reveal_strlit("essenciais");
    reveal_strlit("config");
    reveal_strlit("contas");
    reveal_strlit("categorias");
    reveal_strlit("ajuda");
    reveal_with_fuel(listed, 6);
    // Length, first three letters and last letter tell every two names apart.
    assert("gasto"@.len() == 5 && "gasto"@[0] == 'g' && "gasto"@[1] == 'a' && "gasto"@[2] == 's' && "gasto"@[4] == 'o');
    assert("entrada"@.len() == 7 && "entrada"@[0] == 'e' && "entrada"@[1] == 'n' && "entrada"@[2] == 't' && "entrada"@[6] == 'a');
    assert("transferir"@.len() == 10 && "transferir"@[0] == 't' && "transferir"@[1] == 'r' && "transferir"@[2] == 'a' && "transferir"@[9] == 'r');
    assert("guardar"@.len() == 7 && "guardar"@[0] == 'g' && "guardar"@[1] == 'u' && "guardar"@[2] == 'a' && "guardar"@[6] == 'r');
    assert("resgatar"@.len() == 8 && "resgatar"@[0] == 'r' && "resgatar"@[1] == 'e' && "resgatar"@[2] == 's' && "resgatar"@[7] == 'r');
    assert("pagarfatura"@.len() == 11 && "pagarfatura"@[0] == 'p' && "pagarfatura"@[1] == 'a' && "pagarfatura"@[2] == 'g' && "pagarfatura"@[10] == 'a');
    assert("estorno"@.len() == 7 && "estorno"@[0] == 'e' && "estorno"@[1] == 's' && "estorno"@[2] == 't' && "estorno"@[6] == 'o');
    assert("ajuste"@.len() == 6 && "ajuste"@[0] == 'a' && "ajuste"@[1] == 'j' && "ajuste"@[2] == 'u' && "ajuste"@[5] == 'e');
    assert("saldo"@.len() == 5 && "saldo"@[0] == 's' && "saldo"@[1] == 'a' && "saldo"@[2] == 'l' && "saldo"@[4] == 'o');
    assert("resumo"@.len() == 6 && "resumo"@[0] == 'r' && "resumo"@[1] == 'e' && "resumo"@[2] == 's' && "resumo"@[5] == 'o');
    assert("ontem"@.len() == 5 && "ontem"@[0] == 'o' && "ontem"@[1] == 'n' && "ontem"@[2] == 't' && "ontem"@[4] == 'm');
    assert("mes"@.len() == 3 && "mes"@[0] == 'm' && "mes"@[1] == 'e' && "mes"@[2] == 's' && "mes"@[2] == 's');
    assert("projecao"@.len() == 8 && "projecao"@[0] == 'p' && "projecao"@[1] == 'r' && "projecao"@[2] == 'o' && "projecao"@[7] == 'o');
    assert("extrato"@.len() == 7 && "extrato"@[0] == 'e' && "extrato"@[1] == 'x' && "extrato"@[2] == 't' && "extrato"@[6] == 'o');
    assert("custodevida"@.len() == 11 && "custodevida"@[0] == 'c' && "custodevida"@[1] == 'u' && "custodevida"@[2] == 's' && "custodevida"@[10] == 'a');
    assert("metas"@.len() == 5 && "metas"@[0] == 'm' && "metas"@[1] == 'e' && "metas"@[2] == 't' && "metas"@[4] == 's');
    assert("orcamentos"@.len() == 10 && "orcamentos"@[0] == 'o' && "orcamentos"@[1] == 'r' && "orcamentos"@[2] == 'c' && "orcamentos"@[9] == 's');
    assert("exportar"@.len() == 8 && "exportar"@[0] == 'e' && "exportar"@[1] == 'x' && "exportar"@[2] == 'p' && "exportar"@[7] == 'r');
    assert("fatura"@.len() == 6 && "fatura"@[0] == 'f' && "fatura"@[1] == 'a' && "fatura"@[2] == 't' && "fatura"@[5] == 'a');
    assert("parcelas"@.len() == 8 && "parcelas"@[0] == 'p' && "parcelas"@[1] == 'a' && "parcelas"@[2] == 'r' && "parcelas"@[7] == 's');
    assert("cartoes"@.len() == 7 && "cartoes"@[0] == 'c' && "cartoes"@[1] == 'a' && "cartoes"@[2] == 'r' && "cartoes"@[6] == 's');
    assert("recorrentes"@.len() == 11 && "recorrentes"@[0] == 'r' && "recorrentes"@[1] == 'e' && "recorrentes"@[2] == 'c' && "recorrentes"@[10] == 's');
    assert("desfazer"@.len() == 8 && "desfazer"@[0] == 'd' && "desfazer"@[1] == 'e' && "desfazer"@[2] == 's' && "desfazer"@[7] == 'r');
    assert("ultimos"@.len() == 7 && "ultimos"@[0] == 'u' && "ultimos"@[1] == 'l' && "ultimos"@[2] == 't' && "ultimos"@[6] == 's');
    assert("cancelar"@.len() == 8 && "cancelar"@[0] == 'c' && "cancelar"@[1] == 'a' && "cancelar"@[2] == 'n' && "cancelar"@[7] == 'r');
    assert("novaconta"@.len() == 9 && "novaconta"@[0] == 'n' && "novaconta"@[1] == 'o' && "novaconta"@[2] == 'v' && "novaconta"@[8] == 'a');
    assert("novocartao"@.len() == 10 && "novocartao"@[0] == 'n' && "novocartao"@[1] == 'o' && "novocartao"@[2] == 'v' && "novocartao"@[9] == 'o');
    assert("novameta"@.len() == 8 && "novameta"@[0] == 'n' && "novameta"@[1] == 'o' && "novameta"@[2] == 'v' && "novameta"@[7] == 'a');
    assert("novacategoria"@.len() == 13 && "novacategoria"@[0] == 'n' && "novacategoria"@[1] == 'o' && "novacategoria"@[2] == 'v' && "novacategoria"@[12] == 'a');
    assert("recorrente"@.len() == 10 && "recorrente"@[0] == 'r' && "recorrente"@[1] == 'e' && "recorrente"@[2] == 'c' && "recorrente"@[9] == 'e');
    assert("orcamento"@.len() == 9 && "orcamento"@[0] == 'o' && "orcamento"@[1] == 'r' && "orcamento"@[2] == 'c' && "orcamento"@[8] == 'o');
    assert("essenciais"@.len() == 10 && "essenciais"@[0] == 'e' && "essenciais"@[1] == 's' && "essenciais"@[2] == 's' && "essenciais"@[9] == 's');
    assert("config"@.len() == 6 && "config"@[0] == 'c' && "config"@[1] == 'o' && "config"@[2] == 'n' && "config"@[5] == 'g');
    assert("contas"@.len() == 6 && "contas"@[0] == 'c' && "contas"@[1] == 'o' && "contas"@[2] == 'n' && "contas"@[5] == 's');
    assert("categorias"@.len() == 10 && "categorias"@[0] == 'c' && "categorias"@[1] == 'a' && "categorias"@[2] == 't' && "categorias"@[9] == 's');
    assert("ajuda"@.len() == 5 && "ajuda"@[0] == 'a' && "ajuda"@[1] == 'j' && "ajuda"@[2] == 'u' && "ajuda"@[4] == 'a');
    let names = command_names();
    assert(names =~= seq!["gasto"@, "entrada"@, "transferir"@, "guardar"@, "resgatar"@, "pagarfatura"@, "estorno"@, "ajuste"@, "saldo"@, "resumo"@, "ontem"@, "mes"@, "projecao"@, "extrato"@, "custodevida"@, "metas"@, "orcamentos"@, "exportar"@, "fatura"@, "parcelas"@, "cartoes"@, "recorrentes"@, "desfazer"@, "ultimos"@, "cancelar"@, "novaconta"@, "novocartao"@, "novameta"@, "novacategoria"@, "recorrente"@, "orcamento"@, "essenciais"@, "config"@, "contas"@, "categorias"@, "ajuda"@]);
    assert forall|k: int| 0 <= k < 36 implies menu_position(#[trigger] names[k]) == k by {
        if k == 0 {} else if k == 1 {} else if k == 2 {} else if k == 3 {} else if k == 4 {} else if k == 5 {} else if k == 6 {} else if k == 7 {} else if k == 8 {} else if k == 9 {} else if k == 10 {} else if k == 11 {} else if k == 12 {} else if k == 13 {} else if k == 14 {} else if k == 15 {} else if k == 16 {} else if k == 17 {} else if k == 18 {} else if k == 19 {} else if k == 20 {} else if k == 21 {} else if k == 22 {} else if k == 23 {} else if k == 24 {} else if k == 25 {} else if k == 26 {} else if k == 27 {} else if k == 28 {} else if k == 29 {} else if k == 30 {} else if k == 31 {} else if k == 32 {} else if k == 33 {} else if k == 34 {} else {}
    }
    assert forall|i: int, j: int| 0 <= i < names.len() && 0 <= j < names.len() && i != j implies names[i]
        != names[j] by {
        assert(menu_position(names[i]) == i);
        assert(menu_position(names[j]) == j);
    }
}


/// How many of `names` are `name`.
pub open spec fn occurrences(names: Seq<Seq<char>>, name: Seq<char>) -> nat
    decreases names.len(),
{
    if names.len() == 0 {
        0
    } else {
        occurrences(names.drop_last(), name) + if names.last() == name { 1nat } else { 0nat }
    }
}

proof fn lemma_occurrences_absent(names: Seq<Seq<char>>, name: Seq<char>)
    requires
        !names.contains(name),
    ensures
        occurrences(names, name) == 0,
    decreases names.len(),
{
    if names.len() > 0 {
        assert(names.last() == names[names.len() - 1]);
        assert forall|i: int| 0 <= i < names.drop_last().len() implies names.drop_last()[i] != name by {
            assert(names.drop_last()[i] == names[i]);
        }
        lemma_occurrences_absent(names.drop_last(), name);
    }
}

proof fn lemma_occurrences_once(names: Seq<Seq<char>>, k: int)
    requires
        names.no_duplicates(),
        0 <= k < names.len(),
    ensures
        occurrences(names, names[k]) == 1,
    decreases names.len(),
{
    let rest = names.drop_last();
    assert(rest.no_duplicates()) by {
        assert forall|i: int, j: int| 0 <= i < rest.len() && 0 <= j < rest.len() && i != j implies rest[i]
            != rest[j] by {
            assert(rest[i] == names[i] && rest[j] == names[j]);
        }
    }
    if k == names.len() - 1 {
        assert forall|i: int| 0 <= i < rest.len() implies rest[i] != names[k] by {
            assert(rest[i] == names[i]);
        }
        lemma_occurrences_absent(rest, names[k]);
    } else {
        assert(rest[k] == names[k]);
        lemma_occurrences_once(rest, k);
        assert(names.last() == names[names.len() - 1]);
    }
}

/// `/ajuda` lists every command once: its command lines are the menu's
/// entries, one each, and each name occurs among them exactly once.
pub proof fn lemma_each_command_listed_once(k: int)
    requires
        0 <= k < all_commands().len(),
    ensures
        occurrences(command_names(), all_commands()[k].0) == 1,
        all_commands().len() == 36,
{
    lemma_commands_listed_once();
    lemma_occurrences_once(command_names(), k);
}

/// Every form started by typing a command has that command in `/ajuda`
/// and in the menu; the edit form, started from `/ultimos`, needs none.
pub proof fn lemma_forms_in_menu(form: FormKind)
    requires
        form != FormKind::EditEntry,
    ensures
        exists|k: int| 0 <= k < all_commands().len() && #[trigger] all_commands()[k].0 == form_command(form),
{
    reveal_with_fuel(listed, 6);
    assert(command_names() =~= seq!["gasto"@, "entrada"@, "transferir"@, "guardar"@, "resgatar"@, "pagarfatura"@, "estorno"@, "ajuste"@, "saldo"@, "resumo"@, "ontem"@, "mes"@, "projecao"@, "extrato"@, "custodevida"@, "metas"@, "orcamentos"@, "exportar"@, "fatura"@, "parcelas"@, "cartoes"@, "recorrentes"@, "desfazer"@, "ultimos"@, "cancelar"@, "novaconta"@, "novocartao"@, "novameta"@, "novacategoria"@, "recorrente"@, "orcamento"@, "essenciais"@, "config"@, "contas"@, "categorias"@, "ajuda"@]);
    assert(all_commands().len() == 36);
    assert forall|k: int| 0 <= k < 36 implies #[trigger] all_commands()[k].0 == command_names()[k] by {}
    match form {
        FormKind::Expense => assert(all_commands()[0].0 == form_command(form)),
        FormKind::Income => assert(all_commands()[1].0 == form_command(form)),
        FormKind::Transfer => assert(all_commands()[2].0 == form_command(form)),
        FormKind::PotDeposit => assert(all_commands()[3].0 == form_command(form)),
        FormKind::PotWithdraw => assert(all_commands()[4].0 == form_command(form)),
        FormKind::PayInvoice => assert(all_commands()[5].0 == form_command(form)),
        FormKind::Refund => assert(all_commands()[6].0 == form_command(form)),
        FormKind::Adjust => assert(all_commands()[7].0 == form_command(form)),
        FormKind::NewAccount => assert(all_commands()[25].0 == form_command(form)),
        FormKind::NewCard => assert(all_commands()[26].0 == form_command(form)),
        FormKind::NewGoal => assert(all_commands()[27].0 == form_command(form)),
        FormKind::NewCategory => assert(all_commands()[28].0 == form_command(form)),
        FormKind::NewRecurrence => assert(all_commands()[29].0 == form_command(form)),
        FormKind::SetBudget => assert(all_commands()[30].0 == form_command(form)),
        FormKind::Settings => assert(all_commands()[32].0 == form_command(form)),
        _ => {},
    }
}

} // verus!
