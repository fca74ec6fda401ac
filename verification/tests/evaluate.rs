use invmst::error::{ErrorKind, InvmstError};
use invmst::evaluate::{collect, fiscal_count, resolve_masters, Evaluation, MasterOutcome};
use invmst::financial::Prospect;
use invmst::master::{Master, MasterAnalysis};

fn analysis(rating: u64) -> MasterAnalysis {
    MasterAnalysis { prospect: Prospect::Neutral, rating, explanation: format!("r{}", rating) }
}

fn names(list: &[&str]) -> Vec<String> {
    list.iter().map(|s| s.to_string()).collect()
}

#[test]
fn without_a_filter_every_master_runs() {
    assert_eq!(resolve_masters(&vec![]).unwrap(), Master::iter());
    assert_eq!(
        resolve_masters(&vec![]).unwrap(),
        vec![Master::BenjaminGraham, Master::WarrenBuffett]
    );
}

#[test]
fn a_filter_is_resolved_in_its_order() {
    assert_eq!(
        resolve_masters(&names(&["buffett", "GRAHAM"])).unwrap(),
        vec![Master::WarrenBuffett, Master::BenjaminGraham]
    );
    assert_eq!(
        resolve_masters(&names(&["warren-buffett", "buffett"])).unwrap(),
        vec![Master::WarrenBuffett, Master::WarrenBuffett]
    );
}

#[test]
fn one_invalid_alias_fails_the_whole_filter() {
    let e = resolve_masters(&names(&["buffett", "nobody", "graham", "also-nobody"])).unwrap_err();
    assert_eq!(e.kind(), ErrorKind::NotExists);
    assert_eq!(e.code(), "MASTER_NOT_EXISTS");
    assert_eq!(e.detail(), "Master 'nobody' not exists");
    let e = resolve_masters(&names(&[""])).unwrap_err();
    assert_eq!(e.detail(), "Master '' not exists");
}

#[test]
fn one_period_for_every_full_91_days() {
    assert_eq!(fiscal_count(1100), 12);
    assert_eq!(fiscal_count(730), 8);
    assert_eq!(fiscal_count(91), 1);
    assert_eq!(fiscal_count(90), 0);
    assert_eq!(fiscal_count(0), 0);
    assert_eq!(fiscal_count(-1), 0);
    assert_eq!(fiscal_count(-1100), 0);
    assert_eq!(fiscal_count(i64::MIN), 0);
    assert_eq!(fiscal_count(i64::MAX), (i64::MAX / 91) as u64);
    assert_eq!(fiscal_count(181), 1);
    assert_eq!(fiscal_count(182), 2);
}

#[test]
fn the_analyses_of_all_masters_are_collected() {
    let outcomes = vec![
        MasterOutcome { master: Master::WarrenBuffett, result: Ok(analysis(1)) },
        MasterOutcome { master: Master::BenjaminGraham, result: Ok(analysis(2)) },
    ];
    let evaluation = collect(outcomes).unwrap();
    assert_eq!(evaluation.len(), 2);
    assert_eq!(evaluation.get(Master::WarrenBuffett).unwrap().rating, 1);
    assert_eq!(evaluation.get(Master::BenjaminGraham).unwrap().rating, 2);
    let mut keys = evaluation.masters();
    keys.sort_by_key(|m| m.as_str());
    assert_eq!(keys, Master::iter());
}

#[test]
fn the_first_failure_is_the_result() {
    let outcomes = vec![
        MasterOutcome { master: Master::WarrenBuffett, result: Ok(analysis(1)) },
        MasterOutcome {
            master: Master::BenjaminGraham,
            result: Err(InvmstError::NoData("NO_STOCK_METRICS", "No stock metrics data".to_string())),
        },
        MasterOutcome {
            master: Master::WarrenBuffett,
            result: Err(InvmstError::JoinError("task panicked".to_string())),
        },
    ];
    let e = collect(outcomes).unwrap_err();
    assert_eq!(e.kind(), ErrorKind::NoData);

    let outcomes = vec![MasterOutcome {
        master: Master::WarrenBuffett,
        result: Err(InvmstError::JoinError("task panicked".to_string())),
    }];
    let e = collect(outcomes).unwrap_err();
    assert_eq!(e.kind(), ErrorKind::Join);
    assert_eq!(e.message(), "[Join Error] task panicked");
}

#[test]
fn no_outcome_is_an_empty_evaluation() {
    let evaluation = collect(vec![]).unwrap();
    assert_eq!(evaluation.len(), 0);
    assert!(evaluation.get(Master::WarrenBuffett).is_none());
    assert!(evaluation.masters().is_empty());
    assert!(evaluation.entries().is_empty());
}

#[test]
fn a_later_analysis_takes_the_place_of_an_earlier_one() {
    let outcomes = vec![
        MasterOutcome { master: Master::WarrenBuffett, result: Ok(analysis(1)) },
        MasterOutcome { master: Master::BenjaminGraham, result: Ok(analysis(2)) },
        MasterOutcome { master: Master::WarrenBuffett, result: Ok(analysis(3)) },
    ];
    let evaluation = collect(outcomes).unwrap();
    assert_eq!(evaluation.len(), 2);
    assert_eq!(evaluation.get(Master::WarrenBuffett).unwrap().rating, 3);
    assert_eq!(evaluation.masters(), vec![Master::WarrenBuffett, Master::BenjaminGraham]);
}

#[test]
fn an_evaluation_is_filled_one_by_one() {
    let mut evaluation = Evaluation::new();
    assert!(!evaluation.contains(Master::BenjaminGraham));
    evaluation.insert(Master::BenjaminGraham, analysis(7));
    assert!(evaluation.contains(Master::BenjaminGraham));
    assert!(!evaluation.contains(Master::WarrenBuffett));
    let r = evaluation.record(MasterOutcome {
        master: Master::WarrenBuffett,
        result: Err(InvmstError::HttpError("down".to_string())),
    });
    assert_eq!(r.unwrap_err().kind(), ErrorKind::Http);
    assert_eq!(evaluation.len(), 1);
    let r = evaluation.record(MasterOutcome { master: Master::WarrenBuffett, result: Ok(analysis(8)) });
    assert!(r.is_ok());
    assert_eq!(evaluation.entries().len(), 2);
    assert_eq!(evaluation.entries()[1].0, Master::WarrenBuffett);
    assert_eq!(evaluation.entries()[1].1.explanation, "r8");
}
