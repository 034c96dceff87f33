//! What scheduled messages carry besides their text: the buttons under a
//! bill that asks first, and who gets backup alerts.

use vstd::prelude::*;

use crate::bot::access::Member;
use crate::calendar::Date;
use crate::callback_data::{record_recurrence_button, recurrence_button_text, skip_recurrence_button};
use crate::gateway::{Button, Keyboard};
use crate::money::{brl_text, format_brl};
use crate::render::catalog::Recurrence;
use crate::render::keyboards::rows_view;
use crate::text::{push_str, string_of};

verus! {

/// [✅ Registrar R$ 120,00] [⏭️ Pular] under a bill that asks first.
pub open spec fn confirm_buttons(recurrence: Recurrence, date: Date) -> Seq<Seq<(Seq<char>, Seq<char>)>> {
    seq![
        seq![
            ("✅ Registrar "@ + brl_text(recurrence.amount.0 as int), recurrence_button_text(seq!['r', 'r'], recurrence.id, date)),
            ("⏭️ Pular"@, recurrence_button_text(seq!['r', 's'], recurrence.id, date)),
        ],
    ]
}

pub fn recurrence_confirm_keyboard(recurrence: &Recurrence, date: Date) -> (keyboard: Keyboard)
    requires
        date.valid(),
    ensures
        rows_view(keyboard.rows@) == confirm_buttons(*recurrence, date),
{
    let mut label: Vec<char> = Vec::new();
    push_str(&mut label, "✅ Registrar ");
    let amount = format_brl(recurrence.amount);
    push_str(&mut label, amount.as_str());
    let record = Button { label: string_of(&label), data: record_recurrence_button(recurrence.id, date) };
    let skip = Button { label: "⏭️ Pular".to_owned(), data: skip_recurrence_button(recurrence.id, date) };
    let mut row: Vec<Button> = Vec::new();
    row.push(record);
    row.push(skip);
    let mut rows: Vec<Vec<Button>> = Vec::new();
    rows.push(row);
    let keyboard = Keyboard { rows };
    assert(rows_view(keyboard.rows@)[0] =~= confirm_buttons(*recurrence, date)[0]);
    assert(rows_view(keyboard.rows@) =~= confirm_buttons(*recurrence, date));
    keyboard
}

/// The private chats of the members who receive backup alerts, in order.
pub open spec fn backup_chats_of(members: Seq<Member>) -> Seq<i64>
    decreases members.len(),
{
    if members.len() == 0 {
        Seq::empty()
    } else {
        let last = members.last();
        backup_chats_of(members.drop_last()) + match last.dm_chat_id {
            Some(chat) => if last.receives_backups { seq![chat] } else { Seq::empty() },
            None => Seq::empty(),
        }
    }
}

pub fn backup_chats(members: &[Member]) -> (chats: Vec<i64>)
    ensures
        chats@ == backup_chats_of(members@),
{
    let mut chats: Vec<i64> = Vec::new();
    let mut i: usize = 0;
    while i < members.len()
        invariant
            i <= members@.len(),
            chats@ == backup_chats_of(members@.take(i as int)),
        decreases members@.len() - i,
    {
        assert(members@.take(i + 1).drop_last() =~= members@.take(i as int));
        assert(members@.take(i + 1).last() == members@[i as int]);
        if members[i].receives_backups {
            match members[i].dm_chat_id {
                Some(chat) => chats.push(chat),
                None => {},
            }
        }
        i = i + 1;
    }
    assert(members@.take(i as int) =~= members@);
    chats
}

} // verus!
