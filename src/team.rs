//! Team summaries: values folded over all records of one team, computed
//! on every request and never stored.

use vstd::prelude::*;
use crate::data::DataPoint;
use crate::reduced::teleop_coral;
use crate::schema::{join_strings, joined, views};
use crate::text::{decimal, decimal_string, push_decimal};

verus! {

/// Teleop coral summed over the records.
pub open spec fn coral_sum(v: Seq<DataPoint>) -> nat
    decreases v.len(),
{
    if v.len() == 0 {
        0
    } else {
        coral_sum(v.drop_last()) + teleop_coral(v.last())
    }
}

/// Autonomous coral summed over the records.
pub open spec fn auto_coral_sum(v: Seq<DataPoint>) -> nat
    decreases v.len(),
{
    if v.len() == 0 {
        0
    } else {
        auto_coral_sum(v.drop_last()) + v.last().auto_coral as nat
    }
}

/// Barge algae summed over the records.
pub open spec fn barge_sum(v: Seq<DataPoint>) -> nat
    decreases v.len(),
{
    if v.len() == 0 {
        0
    } else {
        barge_sum(v.drop_last()) + v.last().algae_barge as nat
    }
}

/// The number of records whose climb reads `c`.
pub open spec fn climb_count(v: Seq<DataPoint>, c: Seq<char>) -> nat
    decreases v.len(),
{
    if v.len() == 0 {
        0
    } else {
        climb_count(v.drop_last(), c) + if v.last().climb@ == c {
            1nat
        } else {
            0nat
        }
    }
}

/// The coral a record scored on reef level `level` (1 to 4).
pub open spec fn coral_on(r: DataPoint, level: int) -> u16 {
    if level == 1 {
        r.l1_coral
    } else if level == 2 {
        r.l2_coral
    } else if level == 3 {
        r.l3_coral
    } else {
        r.l4_coral
    }
}

/// Some record scored coral on reef level `level`.
pub open spec fn ever_scored(v: Seq<DataPoint>, level: int) -> bool {
    exists|i: int| 0 <= i < v.len() && coral_on(#[trigger] v[i], level) > 0
}

/// The label of reef level `level` when some record scored on it.
pub open spec fn level_if(v: Seq<DataPoint>, level: int, label: Seq<char>) -> Seq<Seq<char>> {
    if ever_scored(v, level) {
        seq![label]
    } else {
        Seq::empty()
    }
}

/// The reef levels on which some record scored, lowest first.
pub open spec fn scored_levels(v: Seq<DataPoint>) -> Seq<Seq<char>> {
    level_if(v, 1, "L1"@) + level_if(v, 2, "L2"@) + level_if(v, 3, "L3"@) + level_if(v, 4, "L4"@)
}

/// The scored levels joined by `", "`, or `"None"`.
pub open spec fn locations_text(v: Seq<DataPoint>) -> Seq<char> {
    if scored_levels(v).len() == 0 {
        "None"@
    } else {
        joined(scored_levels(v), ", "@)
    }
}

/// `sum / count` in tenths, rounded to the nearest tenth, halves upward.
pub open spec fn tenths(sum: nat, count: nat) -> nat
    recommends
        count > 0,
{
    (20 * sum + count) / (2 * count)
}

/// The mean `sum / count` with one decimal, or `"N/A"` for an empty group.
pub open spec fn mean_text(sum: nat, count: nat) -> Seq<char> {
    if count == 0 {
        "N/A"@
    } else {
        decimal(tenths(sum, count) / 10) + "."@ + decimal(tenths(sum, count) % 10)
    }
}

/// The labels of the team summary, in order.
pub open spec fn aggregate_labels() -> Seq<Seq<char>> {
    seq![
        "Avg Coral"@,
        "Avg Auto Coral"@,
        "Avg Barge Algae"@,
        "Scoring Locations"@,
        "Sum of Deep Climbs"@,
        "Sum of Not Attempted"@,
    ]
}

/// The team summary of the records, in the order of its labels.
pub open spec fn aggregate_values(v: Seq<DataPoint>) -> Seq<Seq<char>> {
    seq![
        mean_text(coral_sum(v), v.len()),
        mean_text(auto_coral_sum(v), v.len()),
        mean_text(barge_sum(v), v.len()),
        locations_text(v),
        decimal(climb_count(v, "Deep"@)),
        decimal(climb_count(v, "Not Attempted"@)),
    ]
}

/// The mean `sum / count` with one decimal, or `"N/A"` when `count` is 0.
pub fn mean_string(sum: u128, count: u128) -> (r: String)
    requires
        sum <= 0x1_0000_0000_0000_0000_0000_0000,
        count <= 0xffff_ffff_ffff_ffff,
    ensures
        r@ == mean_text(sum as nat, count as nat),
{
    if count == 0 {
        return String::from_str("N/A");
    }
    let t = (20 * sum + count) / (2 * count);
    let mut s = decimal_string(t / 10);
    s.append(".");
    push_decimal(&mut s, t % 10);
    proof {
        assert(s@ =~= mean_text(sum as nat, count as nat));
    }
    s
}

/// The labels of the team summary, in order.
pub fn aggregate_names() -> (r: Vec<String>)
    ensures
        views(r@) == aggregate_labels(),
{
    let mut r: Vec<String> = Vec::new();
    r.push(String::from_str("Avg Coral"));
    r.push(String::from_str("Avg Auto Coral"));
    r.push(String::from_str("Avg Barge Algae"));
    r.push(String::from_str("Scoring Locations"));
    r.push(String::from_str("Sum of Deep Climbs"));
    r.push(String::from_str("Sum of Not Attempted"));
    proof {
        assert(views(r@) =~= aggregate_labels());
    }
    r
}

/// The team summary of `records`, the records of one team, as
/// `(label, value)` pairs in the order of `aggregate_names`. The records are
/// only read. Means are given with one decimal, rounded half upward, and as
/// `"N/A"` when there is no record.
pub fn aggregate_row(records: &[DataPoint]) -> (r: Vec<(String, String)>)
    ensures
        r@.len() == aggregate_labels().len(),
        forall|i: int|
            0 <= i < r@.len() ==> r@[i].0@ == aggregate_labels()[i] && r@[i].1@
                == aggregate_values(records@)[i],
{
    let ghost v = records@;
    let deep = String::from_str("Deep");
    let not_attempted = String::from_str("Not Attempted");
    let mut coral: u128 = 0;
    let mut auto: u128 = 0;
    let mut barge: u128 = 0;
    let mut deep_count: u128 = 0;
    let mut skipped_count: u128 = 0;
    let mut on1 = false;
    let mut on2 = false;
    let mut on3 = false;
    let mut on4 = false;
    let mut i: usize = 0;
    while i < records.len()
        invariant
            v == records@,
            i <= records.len(),
            deep@ == "Deep"@,
            not_attempted@ == "Not Attempted"@,
            coral == coral_sum(v.take(i as int)),
            auto == auto_coral_sum(v.take(i as int)),
            barge == barge_sum(v.take(i as int)),
            deep_count == climb_count(v.take(i as int), "Deep"@),
            skipped_count == climb_count(v.take(i as int), "Not Attempted"@),
            coral <= i * 262140,
            auto <= i * 65535,
            barge <= i * 65535,
            deep_count <= i,
            skipped_count <= i,
            on1 == ever_scored(v.take(i as int), 1),
            on2 == ever_scored(v.take(i as int), 2),
            on3 == ever_scored(v.take(i as int), 3),
            on4 == ever_scored(v.take(i as int), 4),
        decreases records.len() - i,
    {
        let r = &records[i];
        proof {
            assert(v.take(i + 1).drop_last() =~= v.take(i as int));
            assert(v.take(i + 1).last() == v[i as int]);
            assert(*r == v[i as int]);
            assert forall|k: int| 1 <= k <= 4 implies ever_scored(v.take(i + 1), k) == (
            ever_scored(v.take(i as int), k) || coral_on(v[i as int], k) > 0) by {
                if ever_scored(v.take(i + 1), k) {
                    let j = choose|j: int|
                        0 <= j < v.take(i + 1).len() && coral_on(#[trigger] v.take(i + 1)[j], k)
                            > 0;
                    if j < i {
                        assert(v.take(i as int)[j] == v.take(i + 1)[j]);
                    }
                }
                if ever_scored(v.take(i as int), k) {
                    let j = choose|j: int|
                        0 <= j < v.take(i as int).len() && coral_on(#[trigger] v.take(i as int)[j], k)
                            > 0;
                    assert(v.take(i + 1)[j] == v.take(i as int)[j]);
                }
                if coral_on(v[i as int], k) > 0 {
                    assert(v.take(i + 1)[i as int] == v[i as int]);
                }
            }
        }
        coral = coral + r.l1_coral as u128 + r.l2_coral as u128 + r.l3_coral as u128
            + r.l4_coral as u128;
        auto = auto + r.auto_coral as u128;
        barge = barge + r.algae_barge as u128;
        if r.climb == deep {
            deep_count = deep_count + 1;
        }
        if r.climb == not_attempted {
            skipped_count = skipped_count + 1;
        }
        on1 = on1 || r.l1_coral > 0;
        on2 = on2 || r.l2_coral > 0;
        on3 = on3 || r.l3_coral > 0;
        on4 = on4 || r.l4_coral > 0;
        i += 1;
    }
    proof {
        assert(v.take(i as int) =~= v);
    }
    let mut levels: Vec<String> = Vec::new();
    if on1 {
        levels.push(String::from_str("L1"));
    }
    let ghost after1 = views(levels@);
    if on2 {
        levels.push(String::from_str("L2"));
    }
    let ghost after2 = views(levels@);
    if on3 {
        levels.push(String::from_str("L3"));
    }
    let ghost after3 = views(levels@);
    if on4 {
        levels.push(String::from_str("L4"));
    }
    proof {
        assert(after1 =~= level_if(v, 1, "L1"@));
        assert(after2 =~= level_if(v, 1, "L1"@) + level_if(v, 2, "L2"@));
        assert(after3 =~= level_if(v, 1, "L1"@) + level_if(v, 2, "L2"@) + level_if(v, 3, "L3"@));
        assert(views(levels@) =~= scored_levels(v));
    }
    let locations = if levels.len() == 0 {
        String::from_str("None")
    } else {
        join_strings(&levels, ", ")
    };
    let count = records.len() as u128;
    let names = aggregate_names();
    let mut values: Vec<String> = Vec::new();
    values.push(mean_string(coral, count));
    values.push(mean_string(auto, count));
    values.push(mean_string(barge, count));
    values.push(locations);
    values.push(decimal_string(deep_count));
    values.push(decimal_string(skipped_count));
    proof {
        assert(views(values@) =~= aggregate_values(v));
        assert(views(names@).len() == names@.len());
    }
    let mut r: Vec<(String, String)> = Vec::new();
    let mut k: usize = 0;
    while k < names.len()
        invariant
            k <= names.len(),
            names@.len() == 6,
            values@.len() == 6,
            views(names@) == aggregate_labels(),
            views(values@) == aggregate_values(v),
            v == records@,
            r@.len() == k,
            forall|j: int|
                0 <= j < k ==> r@[j].0@ == aggregate_labels()[j] && r@[j].1@ == aggregate_values(
                    v,
                )[j],
        decreases names.len() - k,
    {
        proof {
            assert(names@[k as int]@ == views(names@)[k as int]);
            assert(values@[k as int]@ == views(values@)[k as int]);
        }
        r.push((names[k].clone(), values[k].clone()));
        k += 1;
    }
    r
}

} // verus!
