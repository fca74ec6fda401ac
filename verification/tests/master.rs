use invmst::error::{ErrorKind, InvmstError};
use invmst::financial::Prospect;
use invmst::llm::Role;
use invmst::llm::ChatMessage;
use invmst::master::{
    analysis_messages, analysis_prompt, conclude, conclude_reply, require_periods, Master,
    MasterAnalysis, MASTER_ANALYSIS_JSON_PROMPT,
};

#[test]
fn test_master_analysis() {
    let json_str = r#"
{
    "prospect": "bearish",
    "rating": 20,
    "explanation": "test"
}
"#;

    match MasterAnalysis::from_json(&json_str) {
        Ok(analysis) => {
            assert_eq!(analysis.prospect, Prospect::Bearish);
            assert_eq!(analysis.rating, 20);
            assert_eq!(analysis.explanation, "test");
        }
        Err(err) => {
            println!("{err:?}");
            assert!(false);
        }
    }
}

fn failure(json: &str) -> InvmstError {
    match MasterAnalysis::from_json(json) {
        Ok(analysis) => panic!("unexpected analysis {:?}", analysis),
        Err(e) => e,
    }
}

#[test]
fn prospect_is_read_in_any_case() {
    for (text, prospect) in [
        ("BEARISH", Prospect::Bearish),
        ("Bullish", Prospect::Bullish),
        ("nEuTrAl", Prospect::Neutral),
    ] {
        let json = format!(r#"{{"prospect": "{}", "rating": 1, "explanation": ""}}"#, text);
        let analysis = MasterAnalysis::from_json(&json).unwrap();
        assert_eq!(analysis.prospect, prospect);
    }
}

#[test]
fn each_missing_field_is_required() {
    let e = failure(r#"{"rating": 20, "explanation": "test"}"#);
    assert_eq!(e.kind(), ErrorKind::Required);
    assert_eq!(e.code(), "PROSPECT_REQUIRED");
    assert_eq!(e.detail(), "Missing prospect");

    let e = failure(r#"{"prospect": "bearish", "explanation": "test"}"#);
    assert_eq!(e.kind(), ErrorKind::Required);
    assert_eq!(e.code(), "RATING_REQUIRED");
    assert_eq!(e.detail(), "Missing rating");

    let e = failure(r#"{"prospect": "bearish", "rating": 20}"#);
    assert_eq!(e.kind(), ErrorKind::Required);
    assert_eq!(e.code(), "EXPLANATION_REQUIRED");
    assert_eq!(e.detail(), "Missing explanation");
}

#[test]
fn the_first_missing_field_is_reported() {
    assert_eq!(failure("{}").code(), "PROSPECT_REQUIRED");
    assert_eq!(failure(r#"{"prospect": "neutral"}"#).code(), "RATING_REQUIRED");
    assert_eq!(failure("[]").code(), "PROSPECT_REQUIRED");
    assert_eq!(failure("3").code(), "PROSPECT_REQUIRED");
}

#[test]
fn a_field_of_the_wrong_type_is_missing() {
    assert_eq!(
        failure(r#"{"prospect": 1, "rating": 20, "explanation": "x"}"#).code(),
        "PROSPECT_REQUIRED"
    );
    assert_eq!(
        failure(r#"{"prospect": "bullish", "rating": "20", "explanation": "x"}"#).code(),
        "RATING_REQUIRED"
    );
    assert_eq!(
        failure(r#"{"prospect": "bullish", "rating": 20, "explanation": null}"#).code(),
        "EXPLANATION_REQUIRED"
    );
}

#[test]
fn an_unknown_prospect_is_required_too() {
    let e = failure(r#"{"prospect": "sideways", "rating": 20, "explanation": "x"}"#);
    assert_eq!(e.kind(), ErrorKind::Required);
    assert_eq!(e.code(), "PROSPECT_INVALID");
    assert_eq!(e.detail(), "Invalid prospect 'sideways'");
    assert_eq!(e.message(), "[Required] Invalid prospect 'sideways'");
}

#[test]
fn a_rating_that_is_no_unsigned_integer_is_rejected() {
    for rating in ["-1", "20.5", "1e2", "18446744073709551616", "true", "null"] {
        let json = format!(r#"{{"prospect": "bullish", "rating": {}, "explanation": "x"}}"#, rating);
        assert_eq!(failure(&json).code(), "RATING_REQUIRED", "{}", rating);
    }
}

#[test]
fn a_rating_above_the_scale_is_kept_as_it_is() {
    let a = MasterAnalysis::from_json(r#"{"prospect": "bullish", "rating": 101, "explanation": "x"}"#)
        .unwrap();
    assert_eq!(a.rating, 101);
    let a = MasterAnalysis::from_json(
        r#"{"prospect": "bullish", "rating": 18446744073709551615, "explanation": "x"}"#,
    )
    .unwrap();
    assert_eq!(a.rating, u64::MAX);
    let a = MasterAnalysis::from_json(r#"{"prospect": "bullish", "rating": 0, "explanation": "x"}"#)
        .unwrap();
    assert_eq!(a.rating, 0);
}

#[test]
fn a_text_that_is_no_json_is_a_json_error() {
    let e = failure("{");
    assert_eq!(e.kind(), ErrorKind::Json);
    assert_eq!(e.code(), "");
    let expected = serde_json::from_str::<serde_json::Value>("{").unwrap_err().to_string();
    assert_eq!(e.detail(), expected);
    assert_eq!(e.message(), format!("[JSON Error] {}", expected));
}

#[test]
fn from_value_reads_a_document() {
    let doc: serde_json::Value =
        serde_json::from_str(r#"{"prospect": "Neutral", "rating": 55, "explanation": "so-so", "more": [1]}"#)
            .unwrap();
    let a = MasterAnalysis::from_value(&doc).unwrap();
    assert_eq!(a.prospect, Prospect::Neutral);
    assert_eq!(a.rating, 55);
    assert_eq!(a.explanation, "so-so");
}

#[test]
fn of_two_members_of_one_name_the_later_counts() {
    let a = MasterAnalysis::from_json(
        r#"{"prospect": "bullish", "rating": 1, "rating": 2, "explanation": "x"}"#,
    )
    .unwrap();
    assert_eq!(a.rating, 2);
}

#[test]
fn aliases_resolve_to_their_master() {
    assert_eq!(Master::from_str("buffett").unwrap(), Master::WarrenBuffett);
    assert_eq!(Master::from_str("warren-buffett").unwrap(), Master::WarrenBuffett);
    assert_eq!(Master::from_str("WARREN-Buffett").unwrap(), Master::WarrenBuffett);
    assert_eq!(Master::from_str("graham").unwrap(), Master::BenjaminGraham);
    assert_eq!(Master::from_str("Ben-Graham").unwrap(), Master::BenjaminGraham);
}

#[test]
fn an_unknown_alias_does_not_exist() {
    for name in ["unknown", "", "WarrenBuffett", "warren buffett", " buffett", "graham "] {
        let e = Master::from_str(name).unwrap_err();
        assert_eq!(e.kind(), ErrorKind::NotExists, "{:?}", name);
        assert_eq!(e.code(), "MASTER_NOT_EXISTS");
        assert_eq!(e.detail(), format!("Master '{}' not exists", name));
    }
    let e = Master::from_str("unknown").unwrap_err();
    assert_eq!(e.message(), "[Not Exists] Master 'unknown' not exists");
}

#[test]
fn every_master_is_listed_once_and_found_by_its_names() {
    let all = Master::iter();
    assert_eq!(all, vec![Master::BenjaminGraham, Master::WarrenBuffett]);
    for master in all {
        for name in master.get_serializations() {
            assert_eq!(Master::from_str(name).unwrap(), master);
            assert_eq!(Master::from_str(&name.to_uppercase()).unwrap(), master);
        }
        assert_eq!(Master::from_str(master.as_str()).unwrap(), master);
    }
    assert_eq!(Master::BenjaminGraham.get_message(), Some("Benjamin Graham"));
    assert_eq!(Master::WarrenBuffett.get_message(), Some("Warren Buffett"));
    assert_eq!(Master::BenjaminGraham.get_serializations(), vec!["graham", "ben-graham"]);
    assert_eq!(Master::WarrenBuffett.get_serializations(), vec!["buffett", "warren-buffett"]);
    assert_eq!(Master::WarrenBuffett.as_str(), "warren-buffett");
    assert_eq!(Master::BenjaminGraham.as_str(), "ben-graham");
}

#[test]
fn the_request_has_two_messages() {
    let messages = Master::WarrenBuffett.request(3, "{\"a\":1}").unwrap();
    assert_eq!(messages.len(), 2);
    assert_eq!(messages[0].role, Role::System);
    assert_eq!(messages[0].content, Master::WarrenBuffett.system_prompt());
    assert!(messages[0].content.contains("沃伦·巴菲特"));
    assert!(messages[0].reasoning.is_none());
    assert_eq!(messages[1].role, Role::User);
    assert!(messages[1].reasoning.is_none());
    let data_json = "{\"a\":1}";
    let expected = format!(
        r#"
基于下面的数据，使用我的投资分析方法评估投资对象，结果以标准的 JSON 对象格式返回：
```
{data_json}
```

{MASTER_ANALYSIS_JSON_PROMPT}
"#
    );
    assert_eq!(messages[1].content, expected);
    assert_eq!(analysis_prompt(data_json), expected);

    let messages = analysis_messages("be brief", "[]");
    assert_eq!(messages[0].content, "be brief");
    assert!(Master::BenjaminGraham.system_prompt().contains("本杰明·格雷厄姆"));
}

#[test]
fn without_a_fiscal_period_there_is_no_data() {
    for master in Master::iter() {
        let e = master.request(0, "{}").unwrap_err();
        assert_eq!(e.kind(), ErrorKind::NoData);
        assert_eq!(e.code(), "NO_STOCK_METRICS");
        assert_eq!(e.detail(), "No stock metrics data");
        assert_eq!(e.message(), "[No Data] No stock metrics data");
    }
}

#[test]
fn the_names_of_the_partial_analyses_are_in_order() {
    assert_eq!(
        Master::WarrenBuffett.analysis_names(),
        vec!["analysis_fundamentals", "analysis_consistency", "analysis_moat", "analysis_management"]
    );
    assert_eq!(
        Master::BenjaminGraham.analysis_names(),
        vec![
            "analysis_core_valuation",
            "analysis_financial_health",
            "analysis_earnings_stability",
            "analysis_dividend"
        ]
    );
}

#[test]
fn an_answer_with_asides_and_a_fence_is_concluded() {
    let content = "<think>\nhm\n</think>\n\n```json\n{\"prospect\": \"Bullish\", \"rating\": 80, \"explanation\": \"moat\"}\n```\nThat is all.";
    let a = conclude(content).unwrap();
    assert_eq!(a.prospect, Prospect::Bullish);
    assert_eq!(a.rating, 80);
    assert_eq!(a.explanation, "moat");

    let e = conclude("I cannot answer that.").unwrap_err();
    assert_eq!(e.kind(), ErrorKind::Json);
    let e = conclude("```\n{\"rating\": 1}\n```").unwrap_err();
    assert_eq!(e.kind(), ErrorKind::Required);
}

#[test]
fn a_failed_exchange_is_handed_on_as_it_is() {
    let e = conclude_reply(Err(InvmstError::HttpStatusError("500 oops".to_string()))).unwrap_err();
    assert_eq!(e.kind(), ErrorKind::HttpStatus);
    assert_eq!(e.detail(), "500 oops");
    let reply = ChatMessage::new(
        Role::Bot,
        "```json\n{\"prospect\": \"bearish\", \"rating\": 20, \"explanation\": \"test\"}\n```",
    );
    let a = conclude_reply(Ok(reply)).unwrap();
    assert_eq!((a.prospect, a.rating, a.explanation.as_str()), (Prospect::Bearish, 20, "test"));
    assert!(require_periods(1).is_ok());
    assert_eq!(require_periods(0).unwrap_err().code(), "NO_STOCK_METRICS");
}
