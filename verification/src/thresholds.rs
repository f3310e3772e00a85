//! The alert threshold presets offered in the notification settings.

use vstd::prelude::*;
use crate::text::{decimal, decimal_string};

verus! {

/// An option of a picker: its value and the label it is shown with.
#[derive(Debug, Clone, PartialEq, Eq)]
pub struct Choice<T> {
    pub value: T,
    pub label: String,
}

/// The thresholds always offered.
pub open spec fn threshold_presets() -> Seq<u8> {
    seq![5u8, 10u8, 20u8, 30u8]
}

/// The label of a percent option.
pub open spec fn percent_label(value: u8) -> Seq<char> {
    decimal(value as nat) + "%"@
}

/// The values of some choices.
pub open spec fn choice_values(choices: Seq<Choice<u8>>) -> Seq<u8> {
    choices.map_values(|c: Choice<u8>| c.value)
}

/// The values offered: the presets and the current threshold, each once, ascending.
pub open spec fn offered(values: Seq<u8>, current: u8) -> bool {
    &&& forall|i: int, j: int| 0 <= i < j < values.len() ==> values[i] < values[j]
    &&& forall|v: u8| values.contains(v) <==> (threshold_presets().contains(v) || v == current)
}

fn percent_choice(value: u8) -> (c: Choice<u8>)
    ensures
        c.value == value,
        c.label@ == percent_label(value),
{
    Choice { value, label: decimal_string(value as usize).concat("%") }
}

fn offered_values(current: u8) -> (values: Vec<u8>)
    ensures
        offered(values@, current),
{
    let values = if current == 5 || current == 10 || current == 20 || current == 30 {
        vec![5, 10, 20, 30]
    } else if current < 5 {
        vec![current, 5, 10, 20, 30]
    } else if current < 10 {
        vec![5, current, 10, 20, 30]
    } else if current < 20 {
        vec![5, 10, current, 20, 30]
    } else if current < 30 {
        vec![5, 10, 20, current, 30]
    } else {
        vec![5, 10, 20, 30, current]
    };
    assert forall|v: u8| values@.contains(v) <==> (threshold_presets().contains(v) || v == current) by {
        if threshold_presets().contains(v) {
            let k = choose|k: int| 0 <= k < 4 && threshold_presets()[k] == v;
            assert(k == 0 || k == 1 || k == 2 || k == 3);
        }
        if values@.contains(v) {
            let k = choose|k: int| 0 <= k < values@.len() && values@[k] == v;
            assert(k == 0 || k == 1 || k == 2 || k == 3 || k == 4);
        }
        if v == 5 { assert(values@.contains(5u8) && threshold_presets()[0] == 5u8); }
        if v == 10 { assert(values@.contains(10u8) && threshold_presets()[1] == 10u8); }
        if v == 20 { assert(values@.contains(20u8) && threshold_presets()[2] == 20u8); }
        if v == 30 { assert(values@.contains(30u8) && threshold_presets()[3] == 30u8); }
    }
    values
}

/// The threshold options: the presets, with the current threshold added in order when it is
/// not one of them, each labelled with its percent.
pub fn percent_choices(current: u8) -> (choices: Vec<Choice<u8>>)
    ensures
        offered(choice_values(choices@), current),
        forall|i: int|
            0 <= i < choices@.len() ==> #[trigger] choices@[i].label@ == percent_label(
                choices@[i].value,
            ),
{
    let values = offered_values(current);
    let mut choices: Vec<Choice<u8>> = Vec::new();
    let mut i: usize = 0;
    while i < values.len()
        invariant
            i <= values@.len(),
            choices@.len() == i,
            forall|k: int| 0 <= k < i ==> #[trigger] choices@[k].value == values@[k],
            forall|k: int| 0 <= k < i ==> #[trigger] choices@[k].label@ == percent_label(
                choices@[k].value,
            ),
        decreases values.len() - i,
    {
        choices.push(percent_choice(values[i]));
        i = i + 1;
    }
    assert(choice_values(choices@) =~= values@);
    choices
}

} // verus!
