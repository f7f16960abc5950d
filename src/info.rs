//! What the match view shows: the teams of a match and their records.

use vstd::prelude::*;
use crate::data::DataPoint;

verus! {

/// The records of `v` made by team `team`, in their order.
pub open spec fn team_records(v: Seq<DataPoint>, team: u32) -> Seq<DataPoint>
    decreases v.len(),
{
    if v.len() == 0 {
        Seq::empty()
    } else if v.last().team_number == team {
        team_records(v.drop_last(), team).push(v.last())
    } else {
        team_records(v.drop_last(), team)
    }
}

/// `key` with every leading `"frc"` removed.
pub open spec fn strip_frc(key: Seq<char>) -> Seq<char>
    decreases key.len(),
{
    if key.len() >= 3 && key[0] == 'f' && key[1] == 'r' && key[2] == 'c' {
        strip_frc(key.skip(3))
    } else {
        key
    }
}

/// `c` is a decimal digit.
pub open spec fn is_digit(c: char) -> bool {
    '0' <= c <= '9'
}

/// The number that the decimal digits `s` spell.
pub open spec fn digits_value(s: Seq<char>) -> nat
    decreases s.len(),
{
    if s.len() == 0 {
        0
    } else {
        digits_value(s.drop_last()) * 10 + (s.last() as nat - '0' as nat) as nat
    }
}

/// Every character of `s` is a decimal digit.
pub open spec fn all_digits(s: Seq<char>) -> bool {
    forall|i: int| 0 <= i < s.len() ==> is_digit(#[trigger] s[i])
}

/// `s` without a leading `+`.
pub open spec fn unsigned_body(s: Seq<char>) -> Seq<char> {
    if s.len() > 0 && s[0] == '+' {
        s.skip(1)
    } else {
        s
    }
}

/// `s` read as an unsigned 32-bit number: an optional `+`, then one or more
/// decimal digits whose value fits.
pub open spec fn parsed_u32(s: Seq<char>) -> Option<u32> {
    let body = unsigned_body(s);
    if body.len() > 0 && all_digits(body) && digits_value(body) <= u32::MAX {
        Some(digits_value(body) as u32)
    } else {
        None
    }
}

/// The team number of a service team key such as `"frc118"`.
pub open spec fn team_key_number(key: Seq<char>) -> Option<u32> {
    parsed_u32(strip_frc(key))
}

/// The position after every leading `"frc"` of `key`.
fn frc_prefix_end(key: &str) -> (start: usize)
    ensures
        start <= key@.len(),
        strip_frc(key@) == key@.skip(start as int),
{
    let n = key.unicode_len();
    let mut start: usize = 0;
    proof {
        assert(key@.skip(0) =~= key@);
    }
    while n - start >= 3 && key.get_char(start) == 'f' && key.get_char(start + 1) == 'r'
        && key.get_char(start + 2) == 'c'
        invariant
            n == key@.len(),
            start <= n,
            strip_frc(key@.skip(start as int)) == strip_frc(key@),
        decreases n - start,
    {
        proof {
            assert(key@.skip(start as int).skip(3) =~= key@.skip(start + 3));
        }
        start = start + 3;
    }
    start
}

/// The characters of `key` from `start` on, read as an unsigned 32-bit number.
fn parse_u32_from(key: &str, start: usize) -> (r: Option<u32>)
    requires
        start <= key@.len(),
    ensures
        r == parsed_u32(key@.skip(start as int)),
{
    let n = key.unicode_len();
    let ghost rest = key@.skip(start as int);
    let mut first = start;
    if first < n && key.get_char(first) == '+' {
        first = first + 1;
    }
    let ghost body = unsigned_body(rest);
    proof {
        assert(key@.skip(first as int) =~= body);
    }
    if first >= n {
        proof {
            assert(body.len() == 0);
        }
        return None;
    }
    let mut value: u32 = 0;
    let mut overflow = false;
    let mut i: usize = first;
    while i < n
        invariant
            n == key@.len(),
            first < n,
            first <= i <= n,
            body == unsigned_body(key@.skip(start as int)),
            body == key@.skip(first as int),
            forall|k: int| 0 <= k < i - first ==> is_digit(#[trigger] body[k]),
            !overflow ==> value == digits_value(body.take(i - first)),
            overflow ==> digits_value(body.take(i - first)) > u32::MAX,
        decreases n - i,
    {
        let c = key.get_char(i);
        proof {
            assert(c == body[i - first]);
        }
        if c < '0' || c > '9' {
            proof {
                assert(!is_digit(body[i - first]));
                assert(!all_digits(body));
            }
            return None;
        }
        let d = (c as u32) - ('0' as u32);
        proof {
            assert(body.take(i - first + 1).drop_last() =~= body.take(i - first));
            assert(body.take(i - first + 1).last() == c);
        }
        if !overflow {
            if value > (u32::MAX - d) / 10 {
                overflow = true;
                proof {
                    assert(digits_value(body.take(i - first + 1)) > u32::MAX) by (nonlinear_arith)
                        requires
                            value > (u32::MAX - d) / 10,
                            d <= 9,
                            digits_value(body.take(i - first + 1)) == value * 10 + d,
                    ;
                }
            } else {
                proof {
                    assert(value * 10 + d <= u32::MAX) by (nonlinear_arith)
                        requires
                            value <= (u32::MAX - d) / 10,
                            d <= 9,
                    ;
                }
                value = value * 10 + d;
            }
        } else {
            proof {
                assert(digits_value(body.take(i - first + 1)) >= digits_value(body.take(i - first)))
                    by (nonlinear_arith)
                    requires
                        digits_value(body.take(i - first + 1)) == digits_value(body.take(i - first))
                            * 10 + d,
                ;
            }
        }
        i += 1;
    }
    proof {
        assert(body.take(i - first) =~= body);
    }
    if overflow {
        None
    } else {
        Some(value)
    }
}

/// The team number of a service team key such as `"frc118"`: every leading
/// `"frc"` is removed and the rest read as an unsigned 32-bit number.
pub fn team_number_of_key(key: &str) -> (r: Option<u32>)
    ensures
        r == team_key_number(key@),
{
    let start = frc_prefix_end(key);
    parse_u32_from(key, start)
}

/// The `(team number, name)` entries of `teams`, a list of `(key, name)`
/// pairs, in order; pairs whose key does not parse are left out.
pub open spec fn team_entries(teams: Seq<(String, String)>) -> Seq<(u32, Seq<char>)>
    decreases teams.len(),
{
    if teams.len() == 0 {
        Seq::empty()
    } else {
        let rest = team_entries(teams.drop_last());
        match team_key_number(teams.last().0@) {
            Some(n) => rest.push((n, teams.last().1@)),
            None => rest,
        }
    }
}

/// The `(team number, name)` entries of `teams`, a list of `(key, name)`
/// pairs, in order; pairs whose key does not parse are left out.
pub fn team_name_entries(teams: &Vec<(String, String)>) -> (r: Vec<(u32, String)>)
    ensures
        r@.len() == team_entries(teams@).len(),
        forall|i: int|
            0 <= i < r@.len() ==> r@[i].0 == team_entries(teams@)[i].0 && r@[i].1@
                == team_entries(teams@)[i].1,
{
    let ghost v = teams@;
    let mut r: Vec<(u32, String)> = Vec::new();
    let mut i: usize = 0;
    while i < teams.len()
        invariant
            v == teams@,
            i <= teams.len(),
            r@.len() == team_entries(v.take(i as int)).len(),
            forall|j: int|
                0 <= j < r@.len() ==> r@[j].0 == team_entries(v.take(i as int))[j].0 && r@[j].1@
                    == team_entries(v.take(i as int))[j].1,
        decreases teams.len() - i,
    {
        proof {
            assert(v.take(i + 1).drop_last() =~= v.take(i as int));
            assert(v.take(i + 1).last() == v[i as int]);
        }
        match team_number_of_key(teams[i].0.as_str()) {
            Some(n) => {
                r.push((n, teams[i].1.clone()));
            },
            None => {},
        }
        i += 1;
    }
    proof {
        assert(v.take(i as int) =~= v);
    }
    r
}

/// Why a list of team keys does not describe an alliance.
#[derive(Debug, Clone, Copy, PartialEq, Eq, Structural)]
pub enum AllianceError {
    /// The key at this position is not a team key.
    BadKey(usize),
    /// An alliance has three teams; this many keys were given.
    WrongCount(usize),
}

/// The position of the first key of `keys` that does not parse, if any.
pub open spec fn first_bad_key(keys: Seq<String>) -> Option<int> {
    if exists|i: int| 0 <= i < keys.len() && team_key_number(#[trigger] keys[i]@) is None {
        Some(
            choose|i: int|
                0 <= i < keys.len() && team_key_number(#[trigger] keys[i]@) is None && forall|
                    j: int,
                | 0 <= j < i ==> team_key_number(#[trigger] keys[j]@) is Some,
        )
    } else {
        None
    }
}

/// The three team numbers of an alliance, from its team keys. A key that
/// does not parse is reported first, then a count other than three.
pub fn alliance_teams(keys: &Vec<String>) -> (r: Result<[u32; 3], AllianceError>)
    ensures
        match first_bad_key(keys@) {
            Some(i) => r == Err::<[u32; 3], AllianceError>(AllianceError::BadKey(i as usize)),
            None => if keys@.len() != 3 {
                r == Err::<[u32; 3], AllianceError>(AllianceError::WrongCount(keys@.len() as usize))
            } else {
                r matches Ok(t) && forall|k: int|
                    0 <= k < 3 ==> team_key_number(keys@[k]@) == Some(#[trigger] t@[k])
            },
        },
{
    let mut numbers: Vec<u32> = Vec::new();
    let mut i: usize = 0;
    while i < keys.len()
        invariant
            i <= keys.len(),
            numbers@.len() == i,
            forall|j: int| 0 <= j < i ==> team_key_number(#[trigger] keys@[j]@) == Some(numbers@[j]),
        decreases keys.len() - i,
    {
        match team_number_of_key(keys[i].as_str()) {
            Some(n) => numbers.push(n),
            None => {
                proof {
                    let w = i as int;
                    assert(team_key_number(keys@[w]@) is None);
                    let c = choose|c: int|
                        0 <= c < keys@.len() && team_key_number(#[trigger] keys@[c]@) is None
                            && forall|j: int|
                            0 <= j < c ==> team_key_number(#[trigger] keys@[j]@) is Some;
                    assert(forall|j: int| 0 <= j < w ==> team_key_number(#[trigger] keys@[j]@) is Some);
                    if c < w {
                        assert(team_key_number(keys@[c]@) is Some);
                    } else if c > w {
                        assert(team_key_number(keys@[w]@) is Some);
                    }
                }
                return Err(AllianceError::BadKey(i));
            },
        }
        i += 1;
    }
    proof {
        if first_bad_key(keys@) is Some {
            let c = choose|c: int| 0 <= c < keys@.len() && team_key_number(#[trigger] keys@[c]@) is None;
            assert(team_key_number(keys@[c]@) == Some(numbers@[c]));
        }
    }
    if keys.len() != 3 {
        return Err(AllianceError::WrongCount(keys.len()));
    }
    let t = [numbers[0], numbers[1], numbers[2]];
    proof {
        assert(forall|k: int| 0 <= k < 3 ==> team_key_number(keys@[k]@) == Some(#[trigger] t@[k]));
    }
    Ok(t)
}

/// One team of a match.
#[derive(Debug, Clone)]
pub struct TeamInfo {
    /// The team number.
    pub team_number: u32,
    /// The team's name, when it is known.
    pub team_name: Option<String>,
    /// The team's records, when there are any.
    pub team_data: Option<Vec<DataPoint>>,
}

impl TeamInfo {
    /// Team `team_number` with those of `records` that the team made, in
    /// their order; no records gives `None`.
    pub fn from_records(team_number: u32, team_name: Option<String>, records: &[DataPoint]) -> (r:
        TeamInfo)
        ensures
            r.team_number == team_number,
            r.team_name == team_name,
            team_records(records@, team_number).len() == 0 ==> r.team_data is None,
            team_records(records@, team_number).len() > 0 ==> (r.team_data matches Some(d) && d@
                == team_records(records@, team_number)),
    {
        let ghost v = records@;
        let mut mine: Vec<DataPoint> = Vec::new();
        let mut i: usize = 0;
        while i < records.len()
            invariant
                v == records@,
                i <= records.len(),
                mine@ == team_records(v.take(i as int), team_number),
            decreases records.len() - i,
        {
            proof {
                assert(v.take(i + 1).drop_last() =~= v.take(i as int));
                assert(v.take(i + 1).last() == v[i as int]);
            }
            if records[i].team_number == team_number {
                mine.push(records[i].duplicate());
            }
            i += 1;
        }
        proof {
            assert(v.take(i as int) =~= v);
        }
        let team_data = if mine.len() == 0 {
            None
        } else {
            Some(mine)
        };
        TeamInfo { team_number, team_name, team_data }
    }
}

/// `t` is team `team` named `name`, holding those of `records` it made, or
/// `None` when it made none.
pub open spec fn slot_of(t: TeamInfo, team: u32, name: Option<String>, records: Seq<DataPoint>) -> bool {
    &&& t.team_number == team
    &&& t.team_name == name
    &&& team_records(records, team).len() == 0 ==> t.team_data is None
    &&& team_records(records, team).len() > 0 ==> (t.team_data matches Some(d) && d@
        == team_records(records, team))
}

fn copy_name(n: &Option<String>) -> (r: Option<String>)
    ensures
        r == *n,
{
    match n {
        Some(s) => Some(s.clone()),
        None => None,
    }
}

/// The placeholder for a team not yet known: number 0, no name, no records.
pub open spec fn is_blank(t: TeamInfo) -> bool {
    t.team_number == 0 && t.team_name is None && t.team_data is None
}

fn blank_team() -> (r: TeamInfo)
    ensures
        is_blank(r),
{
    TeamInfo { team_number: 0, team_name: None, team_data: None }
}

/// A match: its predicted start and the three teams of each alliance.
#[derive(Debug, Clone)]
pub struct MatchInfo {
    /// The predicted start, in seconds since the Unix epoch.
    pub predicted_time: i64,
    /// The red alliance.
    pub red: [TeamInfo; 3],
    /// The blue alliance.
    pub blue: [TeamInfo; 3],
}

impl MatchInfo {
    /// A match with no time and six blank teams.
    pub fn empty() -> (r: MatchInfo)
        ensures
            r.predicted_time == 0,
            forall|i: int| 0 <= i < 3 ==> is_blank(#[trigger] r.red@[i]) && is_blank(r.blue@[i]),
    {
        let r = MatchInfo {
            predicted_time: 0,
            red: [blank_team(), blank_team(), blank_team()],
            blue: [blank_team(), blank_team(), blank_team()],
        };
        proof {
            assert(is_blank(r.red@[0]) && is_blank(r.red@[1]) && is_blank(r.red@[2]));
            assert(is_blank(r.blue@[0]) && is_blank(r.blue@[1]) && is_blank(r.blue@[2]));
        }
        r
    }

    /// The match with the given start, or 0 when none is predicted, and each
    /// alliance slot filled with its team's name and records.
    pub fn assemble(
        predicted_time: Option<i64>,
        red: [u32; 3],
        red_names: [Option<String>; 3],
        blue: [u32; 3],
        blue_names: [Option<String>; 3],
        records: &[DataPoint],
    ) -> (r: MatchInfo)
        ensures
            r.predicted_time == match predicted_time {
                Some(t) => t,
                None => 0,
            },
            forall|k: int|
                0 <= k < 3 ==> slot_of(#[trigger] r.red@[k], red@[k], red_names@[k], records@)
                    && slot_of(r.blue@[k], blue@[k], blue_names@[k], records@),
    {
        let r = MatchInfo {
            predicted_time: match predicted_time {
                Some(t) => t,
                None => 0,
            },
            red: [
                TeamInfo::from_records(red[0], copy_name(&red_names[0]), records),
                TeamInfo::from_records(red[1], copy_name(&red_names[1]), records),
                TeamInfo::from_records(red[2], copy_name(&red_names[2]), records),
            ],
            blue: [
                TeamInfo::from_records(blue[0], copy_name(&blue_names[0]), records),
                TeamInfo::from_records(blue[1], copy_name(&blue_names[1]), records),
                TeamInfo::from_records(blue[2], copy_name(&blue_names[2]), records),
            ],
        };
        proof {
            assert(slot_of(r.red@[0], red@[0], red_names@[0], records@));
            assert(slot_of(r.red@[1], red@[1], red_names@[1], records@));
            assert(slot_of(r.red@[2], red@[2], red_names@[2], records@));
            assert(slot_of(r.blue@[0], blue@[0], blue_names@[0], records@));
            assert(slot_of(r.blue@[1], blue@[1], blue_names@[1], records@));
            assert(slot_of(r.blue@[2], blue@[2], blue_names@[2], records@));
        }
        r
    }
}

} // verus!
