//! A limit row of a combined card: which of its parts show, and the tooltip of its meter.

use vstd::prelude::*;
use crate::text::{join, join_strs};

verus! {

/// Which parts of a combined limit row show, and where its tooltip goes.
#[derive(Debug, Clone, Copy, PartialEq, Eq, Structural)]
pub struct PartsLook {
    /// The flame beside the title.
    pub flame: bool,
    /// The note under the headline.
    pub note: bool,
    /// The forecast line.
    pub forecast: bool,
    /// The tooltip sits on the meter (compact rows) rather than on the whole row.
    pub tip_on_meter: bool,
}

/// The parts of a row: the flame shows when there is a note that asks for it, the note and
/// the forecast show when there are any, and a compact row puts its tooltip on the meter.
/// `note` is whether the row has a note, and with it whether the note carries a flame.
pub fn parts_look(note: Option<bool>, has_forecast: bool, compact: bool) -> (look: PartsLook)
    ensures
        look.flame == (note == Some(true)),
        look.note == note is Some,
        look.forecast == has_forecast,
        look.tip_on_meter == compact,
{
    let flame = match note {
        Some(f) => f,
        None => false,
    };
    PartsLook { flame, note: note.is_some(), forecast: has_forecast, tip_on_meter: compact }
}

/// The lines of the meter's tooltip: the trailing reading, the forecast when there is one,
/// and the breakdown.
pub open spec fn meter_tip_lines(trailing: Seq<char>, forecast: Option<Seq<char>>, breakdown: Seq<char>) -> Seq<Seq<char>> {
    seq![trailing] + (match forecast {
        Some(f) => seq![f],
        None => Seq::<Seq<char>>::empty(),
    }) + seq![breakdown]
}

/// The meter's tooltip of a compact row: its lines, one under the other.
pub fn meter_tip(trailing: &str, forecast: Option<&str>, breakdown: &str) -> (tip: String)
    ensures
        tip@ == join(
            meter_tip_lines(
                trailing@,
                match forecast {
                    Some(f) => Some(f@),
                    None => None,
                },
                breakdown@,
            ),
            "\n"@,
        ),
{
    let mut lines: Vec<&str> = Vec::new();
    lines.push(trailing);
    match forecast {
        Some(f) => lines.push(f),
        None => {},
    }
    lines.push(breakdown);
    let tip = join_strs(&lines, "\n");
    assert(lines@.map_values(|p: &str| p@) =~= meter_tip_lines(
        trailing@,
        match forecast {
            Some(f) => Some(f@),
            None => None,
        },
        breakdown@,
    ));
    tip
}

} // verus!
