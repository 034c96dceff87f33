//! `/exportar [mm/aaaa]`: the cycle's entries as a CSV document, named and
//! captioned by the cycle.

use vstd::prelude::*;

use crate::calendar::{day_month_year_text, format_day_month_year, format_year_month, year_month_text};
use crate::render::report_text::{Cycle, cycle_valid, last_day_of};
use crate::text::{push_str, string_of};

verus! {

pub const EXPORT_USAGE: &'static str = "Use /exportar para o ciclo atual ou /exportar 03/2026 para o ciclo que começa em março de 2026.";

/// `finbot-2026-03.csv`, by the month the cycle starts in.
pub open spec fn export_file_name_text(cycle: Cycle) -> Seq<char> {
    "finbot-"@ + year_month_text(cycle.start) + ".csv"@
}

pub fn export_file_name(cycle: Cycle) -> (name: String)
    requires
        cycle.start.valid(),
    ensures
        name@ == export_file_name_text(cycle),
{
    let mut out: Vec<char> = Vec::new();
    push_str(&mut out, "finbot-");
    let month = format_year_month(cycle.start);
    push_str(&mut out, month.as_str());
    push_str(&mut out, ".csv");
    string_of(&out)
}

/// `📄 Lançamentos de 05/03/2026 a 04/04/2026`.
pub open spec fn export_caption_text(cycle: Cycle) -> Seq<char> {
    "📄 Lançamentos de "@ + day_month_year_text(cycle.start) + " a "@ + day_month_year_text(last_day_of(cycle))
}

pub fn export_caption(cycle: Cycle) -> (caption: String)
    requires
        cycle_valid(cycle),
    ensures
        caption@ == export_caption_text(cycle),
{
    let mut out: Vec<char> = Vec::new();
    push_str(&mut out, "📄 Lançamentos de ");
    let first = format_day_month_year(cycle.start);
    push_str(&mut out, first.as_str());
    push_str(&mut out, " a ");
    let last = format_day_month_year(cycle.last_day());
    push_str(&mut out, last.as_str());
    string_of(&out)
}

} // verus!
