use invmst::cli::{
    analysis_row, choose_value, expand_master_arguments, invalid_choice_message, master_row,
    prospect_symbol, wants_master_hint, EvaluateCommand, LlmConfigCommand, LlmTestCommand,
    PieceStyle, StreamPrinter, BACKWARD_DAYS_DEFAULT,
};
use invmst::error::InvmstError;
use invmst::financial::Prospect;
use invmst::llm::ChatCompletionEvent;
use invmst::master::{Master, MasterAnalysis};

fn strings(list: &[&str]) -> Vec<String> {
    list.iter().map(|s| s.to_string()).collect()
}

#[test]
fn an_at_sign_stands_for_the_master_option() {
    assert_eq!(
        expand_master_arguments(strings(&["invmst", "eval", "@buffett", "600900", "@graham"])),
        strings(&["invmst", "eval", "--master", "buffett", "600900", "--master", "graham"])
    );
    assert_eq!(expand_master_arguments(strings(&["@"])), strings(&["--master", ""]));
    assert_eq!(expand_master_arguments(strings(&["@@x", "a@b"])), strings(&["--master", "@x", "a@b"]));
    assert!(expand_master_arguments(vec![]).is_empty());
}

fn evaluate(days: Option<i64>) -> EvaluateCommand {
    EvaluateCommand {
        backward_days: days,
        date: None,
        masters: strings(&["buffett", "graham"]),
        ticker: "600900".to_string(),
    }
}

#[test]
fn the_days_to_look_back_are_without_sign_and_1100_by_default() {
    assert_eq!(BACKWARD_DAYS_DEFAULT, 1100);
    assert_eq!(evaluate(None).backward_days(), 1100);
    assert_eq!(evaluate(Some(730)).backward_days(), 730);
    assert_eq!(evaluate(Some(-730)).backward_days(), 730);
    assert_eq!(evaluate(Some(0)).backward_days(), 0);
    assert_eq!(evaluate(Some(i64::MAX)).backward_days(), i64::MAX);
    assert_eq!(evaluate(Some(i64::MIN + 1)).backward_days(), i64::MAX);
    let date = chrono::NaiveDate::from_ymd_opt(2022, 1, 1);
    let options = evaluate(Some(-91)).options(date);
    assert_eq!(options.backward_days, 91);
    assert_eq!(options.date, date);
    assert_eq!(options.masters, strings(&["buffett", "graham"]));
}

#[test]
fn rows_of_the_tables() {
    let analysis =
        MasterAnalysis { prospect: Prospect::Bullish, rating: 85, explanation: "wide moat".to_string() };
    assert_eq!(
        analysis_row(Master::WarrenBuffett, &analysis),
        strings(&["Warren Buffett", "↑ (85)", "wide moat"])
    );
    assert_eq!(prospect_symbol(Prospect::Bullish), "↑");
    assert_eq!(prospect_symbol(Prospect::Bearish), "↓");
    assert_eq!(prospect_symbol(Prospect::Neutral), "-");
    assert_eq!(master_row(Master::BenjaminGraham), strings(&["Benjamin Graham", "graham/ben-graham"]));
    assert_eq!(master_row(Master::WarrenBuffett), strings(&["Warren Buffett", "buffett/warren-buffett"]));
}

#[test]
fn the_hint_follows_an_unknown_master_only() {
    assert!(wants_master_hint(&Master::from_str("nobody").unwrap_err()));
    assert!(!wants_master_hint(&InvmstError::NotExists("OTHER", String::new())));
    assert!(!wants_master_hint(&InvmstError::Invalid("MASTER_NOT_EXISTS", String::new())));
    assert!(!wants_master_hint(&InvmstError::HttpError("MASTER_NOT_EXISTS".to_string())));
}

#[test]
fn a_value_is_chosen_or_refused() {
    let choices = vec!["openai"];
    assert_eq!(choose_value("protocol", &None, &choices), Ok("openai".to_string()));
    assert_eq!(choose_value("protocol", &Some("openai".to_string()), &choices), Ok("openai".to_string()));
    assert_eq!(
        choose_value("protocol", &Some("OpenAI".to_string()), &choices),
        Err("Invalid protocol 'OpenAI', available values: openai".to_string())
    );
    assert_eq!(
        invalid_choice_message("type", "x", &vec!["chat", "embedding"]),
        "Invalid type 'x', available values: chat/embedding"
    );
    let config = LlmConfigCommand { options: vec![], protocol: None, kind: Some("image".to_string()) };
    assert_eq!(config.protocol(), Ok("openai".to_string()));
    assert_eq!(config.kind(), Err("Invalid type 'image', available values: chat".to_string()));
    let test = LlmTestCommand { llm_options: vec![], kind: None, prompt: "hi".to_string() };
    assert_eq!(test.kind(), Ok("chat".to_string()));
}

#[test]
fn an_empty_line_parts_the_reasoning_from_the_answer() {
    let mut printer = StreamPrinter::new();
    let shown = printer.show(ChatCompletionEvent::ReasoningContent("hm".to_string()));
    assert_eq!(shown.pieces.len(), 1);
    assert_eq!((shown.pieces[0].style, shown.pieces[0].text.as_str()), (PieceStyle::Dim, "hm"));
    assert!(!shown.stop);
    let shown = printer.show(ChatCompletionEvent::Content("A".to_string()));
    assert_eq!(shown.pieces.len(), 2);
    assert_eq!((shown.pieces[0].style, shown.pieces[0].text.as_str()), (PieceStyle::Plain, "\n\n"));
    assert_eq!((shown.pieces[1].style, shown.pieces[1].text.as_str()), (PieceStyle::Plain, "A"));
    let shown = printer.show(ChatCompletionEvent::Content("B".to_string()));
    assert_eq!(shown.pieces.len(), 1);
    assert_eq!(shown.pieces[0].text, "B");
    let shown = printer.show(ChatCompletionEvent::ReasoningContent("late".to_string()));
    assert_eq!(shown.pieces.len(), 1);
    let shown = printer.show(ChatCompletionEvent::Content("C".to_string()));
    assert_eq!(shown.pieces.len(), 1);
    assert!(printer.has_content && printer.has_reasoning_content);

    let mut printer = StreamPrinter::new();
    let shown = printer.show(ChatCompletionEvent::Content("A".to_string()));
    assert_eq!(shown.pieces.len(), 1);
    let shown = printer.show(ChatCompletionEvent::Error(InvmstError::HttpError("reset".to_string())));
    assert!(shown.stop);
    assert_eq!(
        (shown.pieces[0].style, shown.pieces[0].text.as_str()),
        (PieceStyle::Alarm, "[HTTP Error] reset")
    );
}
