use invmst::error::{ErrorKind, InvmstError};

#[test]
fn every_kind_has_its_label() {
    let cases: Vec<(InvmstError, ErrorKind, &str, &str)> = vec![
        (InvmstError::IoError("disk".to_string()), ErrorKind::Io, "", "[IO Error] disk"),
        (
            InvmstError::NotExists("A", "gone".to_string()),
            ErrorKind::NotExists,
            "A",
            "[Not Exists] gone",
        ),
        (InvmstError::NoData("B", "none".to_string()), ErrorKind::NoData, "B", "[No Data] none"),
        (
            InvmstError::Required("C", "needed".to_string()),
            ErrorKind::Required,
            "C",
            "[Required] needed",
        ),
        (InvmstError::Invalid("D", "bad".to_string()), ErrorKind::Invalid, "D", "[Invalid] bad"),
        (
            InvmstError::HttpStatusError("404 Not Found".to_string()),
            ErrorKind::HttpStatus,
            "",
            "[HTTP Status Error] 404 Not Found",
        ),
        (InvmstError::HttpError("dns".to_string()), ErrorKind::Http, "", "[HTTP Error] dns"),
        (InvmstError::JsonError("eof".to_string()), ErrorKind::Json, "", "[JSON Error] eof"),
        (
            InvmstError::ConfigError("toml".to_string()),
            ErrorKind::Config,
            "",
            "[Config Error] toml",
        ),
        (InvmstError::JoinError("panic".to_string()), ErrorKind::Join, "", "[Join Error] panic"),
    ];
    for (error, kind, code, message) in cases {
        assert_eq!(error.kind(), kind);
        assert_eq!(error.code(), code);
        assert_eq!(error.message(), message);
        assert_eq!(format!("{}{}", &message[..message.len() - error.detail().len()], error.detail()), message);
    }
}

#[test]
fn an_empty_text_leaves_the_label() {
    assert_eq!(InvmstError::HttpError(String::new()).message(), "[HTTP Error] ");
    assert_eq!(InvmstError::HttpError(String::new()).detail(), "");
}

#[test]
fn to_string_gives_the_name_or_the_message() {
    assert_eq!(InvmstError::NotExists("X", "gone".to_string()).to_string(), "[Not Exists] gone");
    assert_eq!(invmst::master::Master::WarrenBuffett.to_string(), "warren-buffett");
    assert_eq!(invmst::master::Master::BenjaminGraham.to_string(), "ben-graham");
    assert_eq!(invmst::financial::Prospect::Bearish.to_string(), "Bearish");
    assert_eq!(invmst::llm::Role::Bot.to_string(), "Bot");
    assert_eq!(invmst::llm::Protocol::OpenAI.to_string(), "OpenAI");
    assert_eq!(invmst::llm::provider::open_ai::OpenAiRole::Assistant.to_string(), "assistant");
}
