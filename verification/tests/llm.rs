use invmst::api::{
    chat_messages, invalid_llm_type, is_supported, llm_config, llm_supported_protocols,
    llm_supported_types, masters,
};
use invmst::error::ErrorKind;
use invmst::llm::provider::open_ai::{
    chat_message_to_wire, is_success, status_error, OpenAiProvider, OpenAiRole,
};
use invmst::llm::{ChatMessage, Config, Protocol, Role};
use invmst::master::Master;
use invmst::VecOptions;

fn options(list: &[&str]) -> Vec<String> {
    list.iter().map(|s| s.to_string()).collect()
}

#[test]
fn roles_are_named_as_the_protocol_names_them() {
    assert_eq!(OpenAiRole::from(Role::User), OpenAiRole::User);
    assert_eq!(OpenAiRole::from(Role::Bot), OpenAiRole::Assistant);
    assert_eq!(OpenAiRole::from(Role::System), OpenAiRole::System);
    assert_eq!(OpenAiRole::User.as_str(), "user");
    assert_eq!(OpenAiRole::Assistant.as_str(), "assistant");
    assert_eq!(OpenAiRole::System.as_str(), "system");
    let wire = chat_message_to_wire(&ChatMessage::new(Role::Bot, "hello"));
    assert_eq!(wire.role, OpenAiRole::Assistant);
    assert_eq!(wire.content, "hello");
}

#[test]
fn role_and_protocol_are_read_in_any_case() {
    assert_eq!(Role::from_str("bot"), Some(Role::Bot));
    assert_eq!(Role::from_str("USER"), Some(Role::User));
    assert_eq!(Role::from_str("System"), Some(Role::System));
    assert_eq!(Role::from_str("assistant"), None);
    assert_eq!(Role::Bot.as_str(), "Bot");
    assert_eq!(Role::User.as_str(), "User");
    assert_eq!(Role::System.as_str(), "System");
    assert_eq!(Protocol::from_str("openai"), Some(Protocol::OpenAI));
    assert_eq!(Protocol::from_str("OpenAI"), Some(Protocol::OpenAI));
    assert_eq!(Protocol::from_str("open-ai"), None);
    assert_eq!(Protocol::OpenAI.as_str(), "OpenAI");
    assert_eq!(Protocol::default(), Protocol::OpenAI);
}

#[test]
fn the_request_goes_to_chat_completions_with_a_bearer() {
    let provider = OpenAiProvider::new("https://api.example.com/v1", "sk-1", "gpt-4o");
    assert_eq!(provider.base_url(), "https://api.example.com/v1");
    assert_eq!(provider.api_key(), "sk-1");
    assert_eq!(provider.model(), "gpt-4o");
    assert_eq!(provider.request_url(), "https://api.example.com/v1/chat/completions");
    assert_eq!(provider.authorization(), "Bearer sk-1");
}

#[test]
fn messages_go_out_as_they_are_for_most_models() {
    let provider = OpenAiProvider::new("u", "k", "gpt-4o");
    let messages = vec![ChatMessage::new(Role::System, "s"), ChatMessage::new(Role::User, "u")];
    for think in [false, true] {
        let wire = provider.request_messages(&messages, think);
        assert_eq!(wire.len(), 2);
        assert_eq!((wire[0].role, wire[0].content.as_str()), (OpenAiRole::System, "s"));
        assert_eq!((wire[1].role, wire[1].content.as_str()), (OpenAiRole::User, "u"));
    }
    assert!(provider.request_messages(&[], true).is_empty());
}

#[test]
fn the_last_message_tells_qwen3_whether_to_think() {
    let provider = OpenAiProvider::new("u", "k", "qwen3-32b");
    let messages = vec![
        ChatMessage::new(Role::System, "s"),
        ChatMessage::new(Role::User, "first"),
        ChatMessage::new(Role::User, "last"),
    ];
    let wire = provider.request_messages(&messages, false);
    assert_eq!(wire[0].content, "s");
    assert_eq!(wire[1].content, "first");
    assert_eq!(wire[2].content, "last /no_think");
    let wire = provider.request_messages(&messages, true);
    assert_eq!(wire[1].content, "first");
    assert_eq!(wire[2].content, "last /think");
    assert!(provider.request_messages(&[], true).is_empty());
    // the family is known by how the name begins, letter for letter
    let other = OpenAiProvider::new("u", "k", "Qwen3-32b");
    assert_eq!(other.request_messages(&messages, true)[2].content, "last");
    let other = OpenAiProvider::new("u", "k", "my-qwen3");
    assert_eq!(other.request_messages(&messages, true)[2].content, "last");
}

#[test]
fn success_is_a_status_from_200_to_299() {
    assert!(!is_success(199));
    assert!(is_success(200));
    assert!(is_success(299));
    assert!(!is_success(300));
    assert!(!is_success(0));
    assert!(!is_success(u16::MAX));
    let e = status_error("401 Unauthorized", "{\"error\":\"bad key\"}");
    assert_eq!(e.kind(), ErrorKind::HttpStatus);
    assert_eq!(e.detail(), "401 Unauthorized {\"error\":\"bad key\"}");
    assert_eq!(e.message(), "[HTTP Status Error] 401 Unauthorized {\"error\":\"bad key\"}");
    assert_eq!(status_error("500 Internal Server Error", "").detail(), "500 Internal Server Error ");
}

#[test]
fn a_configuration_takes_the_options_given() {
    let list = options(&["base_url: https://api.example.com/v1 ", "api_key:sk-1", "model:gpt-4o", "other:x"]);
    let map = VecOptions(&list).into_map();
    let config = Config::default().configure("openai", &map).unwrap();
    assert_eq!(config.protocol(), Protocol::OpenAI);
    assert_eq!(config.base_url(), "https://api.example.com/v1");
    assert_eq!(config.api_key(), "sk-1");
    assert_eq!(config.model(), "gpt-4o");

    let list = options(&["model:  qwen3 "]);
    let map = VecOptions(&list).into_map();
    let config = config.configure("OpenAI", &map).unwrap();
    assert_eq!(config.base_url(), "https://api.example.com/v1");
    assert_eq!(config.api_key(), "sk-1");
    assert_eq!(config.model(), "qwen3");

    let provider = config.provider();
    assert_eq!(provider.base_url(), "https://api.example.com/v1");
    assert_eq!(provider.api_key(), "sk-1");
    assert_eq!(provider.model(), "qwen3");
}

#[test]
fn the_first_option_that_is_missing_is_required() {
    let empty = VecOptions(&[]).into_map();
    let e = Config::default().configure("openai", &empty).unwrap_err();
    assert_eq!(e.kind(), ErrorKind::Required);
    assert_eq!(e.code(), "OPTION_REQUIRED");
    assert_eq!(e.detail(), "Required option 'base_url' is missing");

    let e = Config::new(Protocol::OpenAI, "u", "", "").configure("openai", &empty).unwrap_err();
    assert_eq!(e.detail(), "Required option 'api_key' is missing");

    let e = Config::new(Protocol::OpenAI, "u", "k", "").configure("openai", &empty).unwrap_err();
    assert_eq!(e.detail(), "Required option 'model' is missing");
    assert_eq!(e.message(), "[Required] Required option 'model' is missing");

    // an option that is only white space empties what was there
    let list = options(&["api_key:   "]);
    let map = VecOptions(&list).into_map();
    let e = Config::new(Protocol::OpenAI, "u", "k", "m").configure("openai", &map).unwrap_err();
    assert_eq!(e.detail(), "Required option 'api_key' is missing");

    assert!(Config::new(Protocol::OpenAI, "u", "k", "m").configure("openai", &empty).is_ok());
}

#[test]
fn an_unknown_protocol_or_type_is_invalid() {
    let empty = VecOptions(&[]).into_map();
    let e = Config::new(Protocol::OpenAI, "u", "k", "m").configure("gemini", &empty).unwrap_err();
    assert_eq!(e.kind(), ErrorKind::Invalid);
    assert_eq!(e.code(), "INVALID_LLM_PROTOCOL");
    assert_eq!(e.detail(), "Invalid LLM protocol 'gemini'");

    let e = llm_config("embedding", "openai", &empty, Config::new(Protocol::OpenAI, "u", "k", "m"))
        .unwrap_err();
    assert_eq!(e.kind(), ErrorKind::Invalid);
    assert_eq!(e.code(), "INVALID_LLM_TYPE");
    assert_eq!(e.detail(), "Invalid LLM type 'embedding'");
    assert_eq!(invalid_llm_type("x").message(), "[Invalid] Invalid LLM type 'x'");
    // the kind is compared letter for letter
    assert!(llm_config("Chat", "openai", &empty, Config::new(Protocol::OpenAI, "u", "k", "m")).is_err());

    let config =
        llm_config("chat", "openai", &empty, Config::new(Protocol::OpenAI, "u", "k", "m")).unwrap();
    assert_eq!(config.model(), "m");
    let e = llm_config("chat", "openai", &empty, Config::default()).unwrap_err();
    assert_eq!(e.kind(), ErrorKind::Required);
}

#[test]
fn a_conversation_begins_with_the_system_where_there_is_one() {
    let messages = chat_messages("hi", None);
    assert_eq!(messages.len(), 1);
    assert_eq!((messages[0].role, messages[0].content.as_str()), (Role::User, "hi"));
    assert!(messages[0].reasoning.is_none());
    let messages = chat_messages("hi", Some("be brief"));
    assert_eq!(messages.len(), 2);
    assert_eq!((messages[0].role, messages[0].content.as_str()), (Role::System, "be brief"));
    assert_eq!((messages[1].role, messages[1].content.as_str()), (Role::User, "hi"));
}

#[test]
fn what_is_supported_is_listed() {
    assert_eq!(llm_supported_types(), vec!["chat"]);
    assert_eq!(llm_supported_protocols(), vec!["openai"]);
    assert!(is_supported("chat", &llm_supported_types()));
    assert!(!is_supported("Chat", &llm_supported_types()));
    assert!(!is_supported("", &llm_supported_types()));
    assert!(!is_supported("chat", &vec![]));
    assert_eq!(masters(), vec![Master::BenjaminGraham, Master::WarrenBuffett]);
    assert_eq!(invmst::api::masters::list(), masters());
}
