//! Derived columns: a compact presentation of one record, computed on
//! every read and never stored.

use vstd::prelude::*;
use crate::data::DataPoint;
use crate::schema::{find_name, position, views};
use crate::text::{decimal, decimal_string};
use crate::value::FilterType;

verus! {

/// `"Yes"` or `"No"`.
pub open spec fn yes_no(b: bool) -> Seq<char> {
    if b {
        "Yes"@
    } else {
        "No"@
    }
}

/// Coral scored on all four levels during teleop.
pub open spec fn teleop_coral(r: DataPoint) -> nat {
    (r.l1_coral + r.l2_coral + r.l3_coral + r.l4_coral) as nat
}

/// Algae scored during teleop.
pub open spec fn teleop_algae(r: DataPoint) -> nat {
    (r.algae_barge + r.algae_floor_hole) as nat
}

/// The labels of the derived columns, in declared order.
pub open spec fn reduced_labels() -> Seq<Seq<char>> {
    seq!["Match"@, "Team"@, "Auto Coral"@, "Auto Leave"@, "Algae Clear"@, "Teleop Coral"@, "Teleop Algae"@, "Climb"@, "Defense"@]
}

/// The filter classes of the derived columns, in declared order.
pub open spec fn reduced_filters() -> Seq<FilterType> {
    seq![FilterType::Normal, FilterType::Normal, FilterType::Normal, FilterType::Select, FilterType::Select, FilterType::Normal, FilterType::Normal, FilterType::Checklist, FilterType::Select]
}

/// The derived columns of a record, in declared order.
pub open spec fn reduced_values(r: DataPoint) -> Seq<Seq<char>> {
    seq![
        decimal(r.match_number as nat),
        decimal(r.team_number as nat),
        decimal(r.auto_coral as nat),
        yes_no(r.auto_leave),
        yes_no(r.algae_clear),
        decimal(teleop_coral(r)),
        decimal(teleop_algae(r)),
        r.climb@,
        yes_no(r.defense_bot),
    ]
}

fn yes_no_string(b: bool) -> (r: String)
    ensures
        r@ == yes_no(b),
{
    if b {
        String::from_str("Yes")
    } else {
        String::from_str("No")
    }
}

impl DataPoint {
    /// The value of derived column `i`.
    fn reduced_value(&self, i: usize) -> (r: String)
        requires
            i < 9,
        ensures
            r@ == reduced_values(*self)[i as int],
    {
        if i == 0 {
            decimal_string(self.match_number as u128)
        } else if i == 1 {
            decimal_string(self.team_number as u128)
        } else if i == 2 {
            decimal_string(self.auto_coral as u128)
        } else if i == 3 {
            yes_no_string(self.auto_leave)
        } else if i == 4 {
            yes_no_string(self.algae_clear)
        } else if i == 5 {
            decimal_string(self.l1_coral as u128 + self.l2_coral as u128 + self.l3_coral as u128 + self.l4_coral as u128)
        } else if i == 6 {
            decimal_string(self.algae_barge as u128 + self.algae_floor_hole as u128)
        } else if i == 7 {
            self.climb.clone()
        } else {
            yes_no_string(self.defense_bot)
        }
    }

    /// The labels of the derived columns, in declared order.
    pub fn reduced_column_names() -> (r: Vec<String>)
        ensures
            views(r@) == reduced_labels(),
    {
        let mut r: Vec<String> = Vec::new();
        r.push(String::from_str("Match"));
        r.push(String::from_str("Team"));
        r.push(String::from_str("Auto Coral"));
        r.push(String::from_str("Auto Leave"));
        r.push(String::from_str("Algae Clear"));
        r.push(String::from_str("Teleop Coral"));
        r.push(String::from_str("Teleop Algae"));
        r.push(String::from_str("Climb"));
        r.push(String::from_str("Defense"));
        proof {
            assert(views(r@) =~= reduced_labels());
        }
        r
    }

    /// The `(label, filter class)` table of the derived columns, in declared order.
    pub fn reduced_column_filters() -> (r: Vec<(String, FilterType)>)
        ensures
            r@.len() == reduced_labels().len(),
            forall|i: int|
                0 <= i < r@.len() ==> r@[i].0@ == reduced_labels()[i] && r@[i].1
                    == reduced_filters()[i],
    {
        let names = Self::reduced_column_names();
        let filters = vec![FilterType::Normal, FilterType::Normal, FilterType::Normal, FilterType::Select, FilterType::Select, FilterType::Normal, FilterType::Normal, FilterType::Checklist, FilterType::Select];
        proof {
            assert(filters@ =~= reduced_filters());
            assert(views(names@).len() == names@.len());
        }
        let mut r: Vec<(String, FilterType)> = Vec::new();
        let mut i: usize = 0;
        while i < names.len()
            invariant
                i <= names.len(),
                views(names@) == reduced_labels(),
                names@.len() == reduced_labels().len(),
                filters@ == reduced_filters(),
                r@.len() == i,
                forall|j: int|
                    0 <= j < i ==> r@[j].0@ == reduced_labels()[j] && r@[j].1 == reduced_filters()[j],
            decreases names.len() - i,
        {
            proof {
                assert(names@[i as int]@ == views(names@)[i as int]);
            }
            r.push((names[i].clone(), filters[i]));
            i += 1;
        }
        r
    }

    /// The value of the derived column labelled `column_name`, if there is one.
    pub fn get_reduced_column(&self, column_name: &str) -> (r: Option<String>)
        ensures
            match position(reduced_labels(), column_name@) {
                Some(i) => r matches Some(v) && v@ == reduced_values(*self)[i],
                None => r is None,
            },
    {
        let names = Self::reduced_column_names();
        match find_name(&names, column_name) {
            Some(i) => Some(self.reduced_value(i)),
            None => None,
        }
    }

    /// Every derived column of this record as `(label, value)`, in declared
    /// order: one pair per label of `reduced_column_names`, never failing.
    pub fn get_reduced_columns(&self) -> (r: Vec<(String, String)>)
        ensures
            r@.len() == reduced_labels().len(),
            forall|i: int|
                0 <= i < r@.len() ==> r@[i].0@ == reduced_labels()[i] && r@[i].1@
                    == reduced_values(*self)[i],
    {
        let names = Self::reduced_column_names();
        proof {
            assert(views(names@).len() == names@.len());
        }
        let mut r: Vec<(String, String)> = Vec::new();
        let mut i: usize = 0;
        while i < names.len()
            invariant
                i <= names.len(),
                views(names@) == reduced_labels(),
                names@.len() == reduced_labels().len(),
                r@.len() == i,
                forall|j: int|
                    0 <= j < i ==> r@[j].0@ == reduced_labels()[j] && r@[j].1@ == reduced_values(
                        *self,
                    )[j],
            decreases names.len() - i,
        {
            proof {
                assert(names@[i as int]@ == views(names@)[i as int]);
            }
            r.push((names[i].clone(), self.reduced_value(i)));
            i += 1;
        }
        r
    }
}

} // verus!
