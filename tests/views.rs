use blue_scout::data::DataPoint;
use blue_scout::info::{AllianceError, MatchInfo, TeamInfo, alliance_teams, team_name_entries, team_number_of_key};
use blue_scout::team::{aggregate_names, aggregate_row, mean_string};

fn record(team: u32, l: [u16; 4], auto: u16, barge: u16, climb: &str) -> DataPoint {
    DataPoint {
        name: "S".to_string(),
        match_number: 1,
        team_number: team,
        auto_coral: auto,
        auto_algae: 0,
        auto_leave: false,
        algae_clear: true,
        l1_coral: l[0],
        l2_coral: l[1],
        l3_coral: l[2],
        l4_coral: l[3],
        dropped_coral: 0,
        algae_barge: barge,
        algae_floor_hole: 3,
        climb: climb.to_string(),
        defense_bot: true,
        notes: String::new(),
    }
}

#[test]
fn reduced_columns_cover_every_label_in_order() {
    let r = record(118, [1, 2, 3, 4], 5, 6, "Deep");
    let names = DataPoint::reduced_column_names();
    let row = r.get_reduced_columns();
    assert_eq!(row.len(), names.len());
    for (i, (label, _)) in row.iter().enumerate() {
        assert_eq!(label, &names[i]);
    }
    assert_eq!(
        row.iter().map(|(_, v)| v.as_str()).collect::<Vec<_>>(),
        vec!["1", "118", "5", "No", "Yes", "10", "9", "Deep", "Yes"]
    );
    let filters = DataPoint::reduced_column_filters();
    assert_eq!(filters.len(), names.len());
    assert_eq!(filters[3].0, "Auto Leave");
}

#[test]
fn reduced_column_by_label() {
    let r = record(118, [1, 2, 3, 4], 5, 6, "Deep");
    assert_eq!(r.get_reduced_column("Teleop Coral"), Some("10".to_string()));
    assert_eq!(r.get_reduced_column("Teleop Algae"), Some("9".to_string()));
    assert_eq!(r.get_reduced_column("Climb"), Some("Deep".to_string()));
    assert_eq!(r.get_reduced_column("Notes"), None);
}

#[test]
fn reduced_coral_total_does_not_overflow() {
    let r = record(1, [u16::MAX; 4], 0, u16::MAX, "");
    assert_eq!(r.get_reduced_column("Teleop Coral"), Some("262140".to_string()));
    assert_eq!(r.get_reduced_column("Teleop Algae"), Some("65538".to_string()));
}

#[test]
fn team_summary_of_three_records() {
    let v = vec![
        record(118, [1, 0, 0, 2], 1, 2, "Deep"),
        record(118, [0, 0, 0, 4], 2, 0, "Not Attempted"),
        record(118, [0, 0, 0, 0], 2, 1, "Deep"),
    ];
    let before: Vec<Vec<_>> = v.iter().map(|d| d.to_sql()).collect();
    let row = aggregate_row(&v);
    let after: Vec<Vec<_>> = v.iter().map(|d| d.to_sql()).collect();
    assert_eq!(before, after);
    let names = aggregate_names();
    assert_eq!(row.len(), names.len());
    let values: Vec<&str> = row.iter().map(|(_, x)| x.as_str()).collect();
    assert_eq!(values, vec!["2.3", "1.7", "1.0", "L1, L4", "2", "1"]);
    assert_eq!(row[0].0, "Avg Coral");
    assert_eq!(row[5].0, "Sum of Not Attempted");
}

#[test]
fn team_summary_of_no_records() {
    let row = aggregate_row(&[]);
    let values: Vec<&str> = row.iter().map(|(_, x)| x.as_str()).collect();
    assert_eq!(values, vec!["N/A", "N/A", "N/A", "None", "0", "0"]);
}

#[test]
fn means_round_half_up_to_one_decimal() {
    assert_eq!(mean_string(1, 4), "0.3");
    assert_eq!(mean_string(7, 20), "0.4");
    assert_eq!(mean_string(2, 3), "0.7");
    assert_eq!(mean_string(10, 1), "10.0");
    assert_eq!(mean_string(0, 5), "0.0");
    assert_eq!(mean_string(5, 0), "N/A");
}

#[test]
fn match_info_starts_blank() {
    let m = MatchInfo::empty();
    assert_eq!(m.predicted_time, 0);
    for t in m.red.iter().chain(m.blue.iter()) {
        assert_eq!(t.team_number, 0);
        assert!(t.team_name.is_none());
        assert!(t.team_data.is_none());
    }
}

#[test]
fn team_info_keeps_only_the_teams_records() {
    let v = vec![
        record(118, [1, 0, 0, 0], 0, 0, ""),
        record(254, [2, 0, 0, 0], 0, 0, ""),
        record(118, [3, 0, 0, 0], 0, 0, ""),
    ];
    let t = TeamInfo::from_records(118, Some("Robonauts".to_string()), &v);
    assert_eq!(t.team_number, 118);
    assert_eq!(t.team_name.as_deref(), Some("Robonauts"));
    let d = t.team_data.unwrap();
    assert_eq!(d.iter().map(|x| x.l1_coral).collect::<Vec<_>>(), vec![1, 3]);
    let none = TeamInfo::from_records(1678, None, &v);
    assert!(none.team_data.is_none());
}

#[test]
fn team_keys_parse_like_the_service_writes_them() {
    assert_eq!(team_number_of_key("frc118"), Some(118));
    assert_eq!(team_number_of_key("frc0"), Some(0));
    assert_eq!(team_number_of_key("frcfrc254"), Some(254));
    assert_eq!(team_number_of_key("118"), Some(118));
    assert_eq!(team_number_of_key("frc+7"), Some(7));
    assert_eq!(team_number_of_key("frc4294967295"), Some(u32::MAX));
    assert_eq!(team_number_of_key("frc4294967296"), None);
    assert_eq!(team_number_of_key("frc99999999999x"), None);
    assert_eq!(team_number_of_key("frc"), None);
    assert_eq!(team_number_of_key("frc+"), None);
    assert_eq!(team_number_of_key("frc12b"), None);
    assert_eq!(team_number_of_key("fr118"), None);
    assert_eq!(team_number_of_key(""), None);
    assert_eq!(team_number_of_key("frc-1"), None);
}

#[test]
fn team_name_entries_skip_bad_keys() {
    let teams = vec![
        ("frc118".to_string(), "Robonauts".to_string()),
        ("frcX".to_string(), "Broken".to_string()),
        ("frc254".to_string(), "The Cheesy Poofs".to_string()),
    ];
    assert_eq!(
        team_name_entries(&teams),
        vec![(118, "Robonauts".to_string()), (254, "The Cheesy Poofs".to_string())]
    );
    assert!(team_name_entries(&Vec::new()).is_empty());
}

#[test]
fn alliance_needs_three_parsable_keys() {
    let keys = vec!["frc118".to_string(), "frc254".to_string(), "frc1678".to_string()];
    assert_eq!(alliance_teams(&keys), Ok([118, 254, 1678]));
    let two = vec!["frc118".to_string(), "frc254".to_string()];
    assert_eq!(alliance_teams(&two), Err(AllianceError::WrongCount(2)));
    let bad = vec!["frc118".to_string(), "frcX".to_string(), "frcY".to_string(), "frc1".to_string()];
    assert_eq!(alliance_teams(&bad), Err(AllianceError::BadKey(1)));
    assert_eq!(alliance_teams(&Vec::new()), Err(AllianceError::WrongCount(0)));
}

#[test]
fn match_slots_get_their_teams_records() {
    let v = vec![
        record(118, [1, 0, 0, 0], 0, 0, ""),
        record(254, [2, 0, 0, 0], 0, 0, ""),
        record(118, [3, 0, 0, 0], 0, 0, ""),
    ];
    let m = MatchInfo::assemble(
        Some(1_700_000_000),
        [118, 2, 3],
        [Some("Robonauts".to_string()), None, None],
        [254, 5, 6],
        [None, None, None],
        &v,
    );
    assert_eq!(m.predicted_time, 1_700_000_000);
    assert_eq!(m.red[0].team_number, 118);
    assert_eq!(m.red[0].team_data.as_ref().unwrap().len(), 2);
    assert_eq!(m.red[0].team_name.as_deref(), Some("Robonauts"));
    assert!(m.red[1].team_data.is_none());
    assert_eq!(m.blue[0].team_data.as_ref().unwrap()[0].l1_coral, 2);
    assert_eq!(m.blue[2].team_number, 6);
    let unscheduled = MatchInfo::assemble(None, [1, 2, 3], [None, None, None], [4, 5, 6], [None, None, None], &[]);
    assert_eq!(unscheduled.predicted_time, 0);
}
