//! Report data that does not involve floating point: the x-axis labels of the
//! equity curve, written as a JSON array for the chart.

use vstd::prelude::*;

use crate::calendar::{date_format, date_label, utc_label, utc_text};

verus! {

/// The JSON text serde_json writes for an array of strings `items`.
pub uninterp spec fn json_string_array(items: Seq<Seq<char>>) -> Seq<char>;

/// serde_json: `to_string` of a `Vec<String>`. The contract claims only that
/// the JSON text is a function of the strings (`json_string_array`);
/// serializing strings cannot fail, so the result is unwrapped.
#[verifier::external_body]
fn to_json_string_array(items: &Vec<String>) -> (r: String)
    ensures
        r@ == json_string_array(items@.map_values(|s: String| s@)),
{
    serde_json::to_string(items).unwrap()
}

/// The labels of the equity curve: `"Start"` for the initial capital, then
/// the UTC date of each closed trade's entry, in order.
pub open spec fn equity_labels(entry_times: Seq<i64>) -> Seq<Seq<char>> {
    seq!["Start"@] + entry_times.map_values(|t: i64| utc_label(t, date_format()))
}

/// The equity-curve labels for trades entered at `entry_times` (one per
/// closed trade), as the JSON array the chart reads.
pub fn equity_labels_json(entry_times: &Vec<i64>) -> (json: String)
    ensures
        json@ == json_string_array(equity_labels(entry_times@)),
{
    let mut labels: Vec<String> = Vec::new();
    labels.push(String::from_str("Start"));
    let n = entry_times.len();
    let mut i: usize = 0;
    while i < n
        invariant
            n == entry_times@.len(),
            i <= n,
            labels@.len() == i + 1,
            labels@.map_values(|s: String| s@) =~= equity_labels(entry_times@.subrange(0, i as int)),
        decreases n - i,
    {
        let label = date_label(entry_times[i]);
        let ghost before = labels@;
        labels.push(label);
        proof {
            let pre = entry_times@.subrange(0, i as int);
            let post = entry_times@.subrange(0, i + 1);
            assert(post =~= pre.push(entry_times@[i as int]));
            assert(labels@ == before.push(label));
            assert(labels@.map_values(|s: String| s@) =~= before.map_values(|s: String| s@).push(
                label@,
            ));
            assert(equity_labels(post) =~= equity_labels(pre).push(
                utc_label(entry_times@[i as int], date_format()),
            ));
        }
        i += 1;
    }
    assert(entry_times@.subrange(0, n as int) =~= entry_times@);
    to_json_string_array(&labels)
}

/// One label per closed trade: the labels are `"Start"` followed by exactly
/// one entry per entry time, in order, and the entry after `"Start"` for
/// trade `i` is chrono's `%Y-%m-%d` text of that trade's own entry instant
/// (the epoch's date when chrono cannot write the instant).
pub proof fn lemma_one_label_per_trade(entry_times: Seq<i64>)
    ensures
        equity_labels(entry_times).len() == entry_times.len() + 1,
        equity_labels(entry_times)[0] == "Start"@,
        forall|i: int|
            0 <= i < entry_times.len() ==> (utc_text(#[trigger] entry_times[i], "%Y-%m-%d"@) matches Some(
                text,
            ) ==> equity_labels(entry_times)[i + 1] == text),
        forall|i: int|
            0 <= i < entry_times.len() ==> (utc_text(#[trigger] entry_times[i], "%Y-%m-%d"@) is None
                ==> equity_labels(entry_times)[i + 1] == utc_text(0, "%Y-%m-%d"@).unwrap()),
{
    assert forall|i: int| 0 <= i < entry_times.len() implies equity_labels(entry_times)[i + 1]
        == utc_label(#[trigger] entry_times[i], date_format()) by {}
}

} // verus!
