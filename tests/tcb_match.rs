use dcap_attestation::tcb::{combine_status, first_match, merge_advisories, TcbLevel, TcbStatus};

fn level(svns: &[u16], status: TcbStatus, ids: &[&str]) -> TcbLevel {
    TcbLevel {
        svns: svns.to_vec(),
        status,
        advisory_ids: ids.iter().map(|s| s.to_string()).collect(),
    }
}

fn strings(v: &[&str]) -> Vec<String> {
    v.iter().map(|s| s.to_string()).collect()
}

#[test]
fn first_matching_level_wins() {
    let table = vec![
        level(&[5, 5, 13], TcbStatus::UpToDate, &[]),
        level(&[2, 2, 10], TcbStatus::SWHardeningNeeded, &["INTEL-SA-00615"]),
        level(&[1, 1, 5], TcbStatus::OutOfDate, &["INTEL-SA-00289"]),
    ];
    assert_eq!(first_match(&table, &vec![3, 4, 11]), Some(1));
    assert_eq!(first_match(&table, &vec![9, 9, 13]), Some(0));
    assert_eq!(first_match(&table, &vec![1, 9, 9]), Some(2));
}

#[test]
fn no_level_met_is_no_match() {
    let table = vec![level(&[5, 5], TcbStatus::UpToDate, &[]), level(&[2, 2], TcbStatus::OutOfDate, &[])];
    assert_eq!(first_match(&table, &vec![1, 9]), None);
    assert_eq!(first_match(&table, &vec![9]), None);
    assert_eq!(first_match(&Vec::new(), &vec![9, 9]), None);
}

#[test]
fn worse_status_is_reported() {
    assert_eq!(combine_status(TcbStatus::UpToDate, TcbStatus::OutOfDate), TcbStatus::OutOfDate);
    assert_eq!(combine_status(TcbStatus::Revoked, TcbStatus::OutOfDate), TcbStatus::Revoked);
    assert_eq!(
        combine_status(TcbStatus::SWHardeningNeeded, TcbStatus::ConfigurationAndSWHardeningNeeded),
        TcbStatus::ConfigurationAndSWHardeningNeeded
    );
    assert_eq!(
        combine_status(TcbStatus::SWHardeningNeeded, TcbStatus::ConfigurationNeeded),
        TcbStatus::SWHardeningNeeded
    );
}

#[test]
fn advisory_union_keeps_first_occurrence() {
    let a = strings(&["INTEL-SA-00289", "INTEL-SA-00615", "INTEL-SA-00289"]);
    let b = strings(&["INTEL-SA-00615", "INTEL-SA-00828", "INTEL-SA-00289"]);
    let r = merge_advisories(&a, &b);
    assert_eq!(r, strings(&["INTEL-SA-00289", "INTEL-SA-00615", "INTEL-SA-00828"]));
    assert_eq!(merge_advisories(&a, &b), r);
    assert!(merge_advisories(&Vec::new(), &Vec::new()).is_empty());
}

#[test]
fn status_names_round_trip() {
    for s in [
        TcbStatus::UpToDate,
        TcbStatus::SWHardeningNeeded,
        TcbStatus::ConfigurationNeeded,
        TcbStatus::ConfigurationAndSWHardeningNeeded,
        TcbStatus::OutOfDate,
        TcbStatus::OutOfDateConfigurationNeeded,
        TcbStatus::Revoked,
    ] {
        assert_eq!(TcbStatus::from_name(&s.name()), Some(s));
    }
    assert_eq!(TcbStatus::ConfigurationAndSWHardeningNeeded.name(), "ConfigurationAndSWHardeningNeeded");
    assert_eq!(TcbStatus::from_name(&"Fine".to_string()), None);
}
