use invmst::master::draft::{AnalysisDraft, Grade, Score, Scorecard};

fn assessments(draft: &AnalysisDraft) -> Vec<&str> {
    draft.assessments.iter().map(|s| s.as_str()).collect()
}

#[test]
fn without_a_criterion_there_is_no_score() {
    let draft = Scorecard::new().conclude("good", "bad");
    assert!(draft.score.is_none());
    assert!(draft.assessments.is_empty());

    let mut card = Scorecard::new();
    card.note("only a remark".to_string());
    let draft = card.conclude("good", "bad");
    assert!(draft.score.is_none());
    assert_eq!(assessments(&draft), vec!["only a remark"]);

    let draft = AnalysisDraft::insufficient("Insufficient historical data for moat analysis");
    assert!(draft.score.is_none());
    assert_eq!(assessments(&draft), vec!["Insufficient historical data for moat analysis"]);
}

#[test]
fn the_score_is_the_points_by_the_criteria() {
    let mut card = Scorecard::new();
    card.grade(Grade::Met, "a".to_string());
    card.grade(Grade::Partly, "b".to_string());
    card.grade(Grade::Missed, "c".to_string());
    card.grade(Grade::Met, "d".to_string());
    let draft = card.conclude("good", "bad");
    assert_eq!(draft.score, Some(Score { met: 2, partly: 1, criteria: 4 }));
    // 2.5 of 4 is less than three quarters
    assert_eq!(assessments(&draft), vec!["a", "b", "c", "d", "bad"]);
}

#[test]
fn three_quarters_is_high() {
    assert!(Score { met: 3, partly: 0, criteria: 4 }.is_high());
    assert!(Score { met: 1, partly: 1, criteria: 2 }.is_high());
    assert!(Score { met: 1, partly: 0, criteria: 1 }.is_high());
    assert!(!Score { met: 2, partly: 1, criteria: 4 }.is_high());
    assert!(!Score { met: 0, partly: 1, criteria: 1 }.is_high());
    assert!(!Score { met: 0, partly: 0, criteria: 1 }.is_high());
    assert!(Score { met: usize::MAX, partly: 0, criteria: usize::MAX }.is_high());
    assert!(!Score { met: 0, partly: usize::MAX, criteria: usize::MAX }.is_high());

    let mut card = Scorecard::new();
    card.grade(Grade::Met, "a".to_string());
    card.grade(Grade::Partly, "b".to_string());
    let draft = card.conclude("good", "bad");
    assert_eq!(draft.score, Some(Score { met: 1, partly: 1, criteria: 2 }));
    assert_eq!(assessments(&draft), vec!["a", "b", "good"]);
}

#[test]
fn the_integer_rule_is_the_rule_on_the_quotient() {
    for criteria in 1usize..=8 {
        for met in 0..=criteria {
            for partly in 0..=(criteria - met) {
                let score = Score { met, partly, criteria };
                let quotient = (met as f64 + partly as f64 / 2.0) / criteria as f64;
                assert_eq!(score.is_high(), quotient >= 0.75, "{:?}", score);
                assert!((0.0..=1.0).contains(&quotient));
            }
        }
    }
}
