//! The commands of the command line, and what each of them decides before
//! anything is read, sent or printed.

use vstd::prelude::*;
use vstd::string::*;
use crate::api::{supported_protocols, supported_types};
use crate::error::{ErrorKind, InvmstError};
use crate::evaluate::EvaluateOptions;
use crate::financial::Prospect;
use crate::llm::ChatCompletionEvent;
use crate::llm::ChatCompletionEventView;
use crate::master::{Master, MasterAnalysis};
use crate::utils::text::{
    decimal,
    has_prefix,
    join,
    joined,
    str_eq,
    string_views,
    strip_prefix,
    u64_to_string,
    views,
};

verus! {

/// Evaluate a security.
#[derive(Debug)]
pub struct EvaluateCommand {
    /// Days to look back.
    pub backward_days: Option<i64>,
    /// The day to evaluate for, as the user wrote it.
    pub date: Option<String>,
    /// The analyzers asked for.
    pub masters: Vec<String>,
    /// The security.
    pub ticker: String,
}

/// Show the version.
#[derive(Debug)]
pub struct InfoCommand;

/// Store the configuration of the provider.
#[derive(Debug)]
pub struct LlmConfigCommand {
    /// Options of the provider, each as a name, a colon and a value.
    pub options: Vec<String>,
    /// The protocol of the provider.
    pub protocol: Option<String>,
    /// The kind of model.
    pub kind: Option<String>,
}

/// Ask the configured provider once.
#[derive(Debug)]
pub struct LlmTestCommand {
    /// Options handed to the model, each as a name, a colon and a value.
    pub llm_options: Vec<String>,
    /// The kind of model.
    pub kind: Option<String>,
    /// What to ask.
    pub prompt: String,
}

/// List the analyzers.
#[derive(Debug)]
pub struct MastersCommand;

/// The commands about the provider.
#[derive(Debug)]
pub enum LlmCommand {
    Config(Box<LlmConfigCommand>),
    Test(Box<LlmTestCommand>),
}

/// The commands.
#[derive(Debug)]
pub enum Commands {
    Evaluate(Box<EvaluateCommand>),
    Llm(Box<LlmCommand>),
    Masters(Box<MastersCommand>),
}

/// The days to look back where the user names none.
pub const BACKWARD_DAYS_DEFAULT: i64 = 1100;

/// What one argument of the command line stands for: an argument that
/// begins with `@` is the option `--master` with what follows the `@`.
pub open spec fn expanded_argument(argument: Seq<char>) -> Seq<Seq<char>> {
    if has_prefix(argument, "@"@) {
        seq!["--master"@, argument.subrange("@"@.len() as int, argument.len() as int)]
    } else {
        seq![argument]
    }
}

/// What the arguments of the command line stand for.
pub open spec fn expanded_arguments(arguments: Seq<Seq<char>>) -> Seq<Seq<char>>
    decreases arguments.len(),
{
    if arguments.len() == 0 {
        Seq::empty()
    } else {
        expanded_arguments(arguments.drop_last()) + expanded_argument(arguments.last())
    }
}

/// The arguments with `--master` and a name in place of each `@` and name.
pub fn expand_master_arguments(arguments: Vec<String>) -> (expanded: Vec<String>)
    ensures
        string_views(expanded@) == expanded_arguments(string_views(arguments@)),
{
    let ghost all = string_views(arguments@);
    let mut expanded: Vec<String> = Vec::new();
    assert(all.take(0) =~= Seq::<Seq<char>>::empty());
    assert(string_views(expanded@) =~= expanded_arguments(all.take(0)));
    for argument in it: arguments.into_iter()
        invariant
            it.seq() == arguments@,
            all == string_views(arguments@),
            string_views(expanded@) == expanded_arguments(all.take(it.index() as int)),
    {
        let ghost i = it.index() as int;
        let ghost before = string_views(expanded@);
        assert(all[i] == argument@);
        assert(all.take(i + 1).drop_last() =~= all.take(i));
        assert(all.take(i + 1).last() == all[i]);
        match strip_prefix(argument.as_str(), "@") {
            Some(name) => {
                let name = name.to_owned();
                expanded.push(String::from_str("--master"));
                expanded.push(name);
                assert(string_views(expanded@) =~= before + expanded_argument(argument@));
            },
            None => {
                expanded.push(argument);
                assert(string_views(expanded@) =~= before + expanded_argument(argument@));
            },
        }
    }
    assert(all.take(all.len() as int) =~= all);
    expanded
}

/// The days to look back: those named, without their sign, or 1100.
pub open spec fn effective_backward_days(named: Option<i64>) -> int {
    match named {
        Some(days) => if days < 0 {
            -days
        } else {
            days as int
        },
        None => BACKWARD_DAYS_DEFAULT as int,
    }
}

/// The sign for a prospect in the table of analyses.
pub open spec fn prospect_sign(prospect: Prospect) -> Seq<char> {
    match prospect {
        Prospect::Bullish => "↑"@,
        Prospect::Bearish => "↓"@,
        Prospect::Neutral => "-"@,
    }
}

/// The sign for a prospect in the table of analyses.
pub fn prospect_symbol(prospect: Prospect) -> (s: &'static str)
    ensures
        s@ == prospect_sign(prospect),
{
    match prospect {
        Prospect::Bullish => "↑",
        Prospect::Bearish => "↓",
        Prospect::Neutral => "-",
    }
}

/// The row of an analysis in the table: the investor's name, the sign of
/// the prospect with the rating in brackets, and the explanation.
pub open spec fn analysis_cells(
    master: Master,
    prospect: Prospect,
    rating: u64,
    explanation: Seq<char>,
) -> Seq<Seq<char>> {
    seq![
        master.message(),
        prospect_sign(prospect) + " ("@ + decimal(rating as nat) + ")"@,
        explanation,
    ]
}

/// The row of an analysis in the table.
pub fn analysis_row(master: Master, analysis: &MasterAnalysis) -> (row: Vec<String>)
    ensures
        string_views(row@) == analysis_cells(
            master,
            analysis.prospect,
            analysis.rating,
            analysis.explanation@,
        ),
{
    let name = match master.get_message() {
        Some(name) => name,
        None => "",
    };
    let prospect = String::from_str(prospect_symbol(analysis.prospect)).concat(" (").concat(
        u64_to_string(analysis.rating).as_str(),
    ).concat(")");
    let mut row: Vec<String> = Vec::new();
    row.push(String::from_str(name));
    row.push(prospect);
    row.push(analysis.explanation.clone());
    assert(string_views(row@) =~= analysis_cells(
        master,
        analysis.prospect,
        analysis.rating,
        analysis.explanation@,
    ));
    row
}

/// The row of an analyzer in the list: the investor's name, and the names
/// under which the analyzer is found with a slash between them.
pub open spec fn master_cells(master: Master) -> Seq<Seq<char>> {
    seq![master.message(), joined(master.serializations(), "/"@)]
}

/// The row of an analyzer in the list.
pub fn master_row(master: Master) -> (row: Vec<String>)
    ensures
        string_views(row@) == master_cells(master),
{
    let name = match master.get_message() {
        Some(name) => name,
        None => "",
    };
    let keys = join(&master.get_serializations(), "/");
    let mut row: Vec<String> = Vec::new();
    row.push(String::from_str(name));
    row.push(keys);
    assert(string_views(row@) =~= master_cells(master));
    row
}

/// Whether an error is that of a name that stands for no analyzer, after
/// which the user is told how to list the analyzers.
pub fn wants_master_hint(error: &InvmstError) -> (b: bool)
    ensures
        b == (error@.kind == ErrorKind::NotExists && error@.code == "MASTER_NOT_EXISTS"@),
{
    match error {
        InvmstError::NotExists(code, _) => str_eq(code, "MASTER_NOT_EXISTS"),
        _ => false,
    }
}

/// What the user is told of a value that is none of the choices.
pub open spec fn invalid_choice(what: Seq<char>, value: Seq<char>, choices: Seq<Seq<char>>) -> Seq<
    char,
> {
    "Invalid "@ + what + " '"@ + value + "', available values: "@ + joined(choices, "/"@)
}

/// What the user is told of a value that is none of the choices.
pub fn invalid_choice_message(what: &str, value: &str, choices: &Vec<&'static str>) -> (text: String)
    ensures
        text@ == invalid_choice(what@, value@, views(choices@)),
{
    String::from_str("Invalid ").concat(what).concat(" '").concat(value).concat(
        "', available values: ",
    ).concat(join(choices, "/").as_str())
}

/// The value that the user named, or the first of the choices; the empty
/// text where there is neither.
pub open spec fn chosen(named: Option<String>, choices: Seq<Seq<char>>) -> Seq<char> {
    match named {
        Some(name) => name@,
        None => if choices.len() > 0 {
            choices[0]
        } else {
            Seq::empty()
        },
    }
}

/// What a choice comes to: the value chosen where it is one of the choices,
/// else what the user is told.
pub open spec fn choice_outcome(what: Seq<char>, named: Option<String>, choices: Seq<Seq<char>>)
    -> Result<Seq<char>, Seq<char>> {
    let value = chosen(named, choices);
    if choices.contains(value) {
        Ok(value)
    } else {
        Err(invalid_choice(what, value, choices))
    }
}

/// The value that the user named, or the first of the choices where none
/// is named; what the user is told where it is none of the choices.
pub fn choose_value(what: &str, named: &Option<String>, choices: &Vec<&'static str>) -> (r: Result<
    String,
    String,
>)
    ensures
        match choice_outcome(what@, *named, views(choices@)) {
            Ok(value) => r is Ok && r->Ok_0@ == value,
            Err(text) => r is Err && r->Err_0@ == text,
        },
{
    proof {
        reveal_strlit("");
    }
    assert(""@ =~= Seq::<char>::empty());
    let value: &str = match named {
        Some(name) => name.as_str(),
        None => if choices.len() > 0 {
            assert(views(choices@)[0] == choices@[0]@);
            choices[0]
        } else {
            ""
        },
    };
    if crate::api::is_supported(value, choices) {
        Ok(value.to_owned())
    } else {
        Err(invalid_choice_message(what, value, choices))
    }
}

impl EvaluateCommand {
    /// The days to look back. The least number that `i64` holds has no
    /// counterpart without its sign and is left out.
    pub fn backward_days(&self) -> (days: i64)
        requires
            self.backward_days != Some(i64::MIN),
        ensures
            days == effective_backward_days(self.backward_days),
    {
        match self.backward_days {
            Some(days) => if days < 0 {
                -days
            } else {
                days
            },
            None => BACKWARD_DAYS_DEFAULT,
        }
    }

    /// What is asked of the evaluation, once the day is read.
    pub fn options(&self, date: Option<chrono::NaiveDate>) -> (options: EvaluateOptions)
        requires
            self.backward_days != Some(i64::MIN),
        ensures
            options.backward_days == effective_backward_days(self.backward_days),
            options.date == date,
            string_views(options.masters@) == string_views(self.masters@),
    {
        let mut masters: Vec<String> = Vec::new();
        let mut i: usize = 0;
        while i < self.masters.len()
            invariant
                i <= self.masters.len(),
                masters.len() == i,
                forall|j: int| 0 <= j < i ==> masters@[j]@ == self.masters@[j]@,
            decreases self.masters.len() - i,
        {
            masters.push(self.masters[i].clone());
            i += 1;
        }
        assert(string_views(masters@) =~= string_views(self.masters@));
        EvaluateOptions { backward_days: self.backward_days(), date, masters }
    }
}

impl LlmConfigCommand {
    /// The protocol to configure: the one named, or `openai`.
    pub fn protocol(&self) -> (r: Result<String, String>)
        ensures
            match choice_outcome("protocol"@, self.protocol, supported_protocols()) {
                Ok(value) => r is Ok && r->Ok_0@ == value,
                Err(text) => r is Err && r->Err_0@ == text,
            },
    {
        choose_value("protocol", &self.protocol, &crate::api::llm_supported_protocols())
    }

    /// The kind of model to configure: the one named, or `chat`.
    pub fn kind(&self) -> (r: Result<String, String>)
        ensures
            match choice_outcome("type"@, self.kind, supported_types()) {
                Ok(value) => r is Ok && r->Ok_0@ == value,
                Err(text) => r is Err && r->Err_0@ == text,
            },
    {
        choose_value("type", &self.kind, &crate::api::llm_supported_types())
    }
}

impl LlmTestCommand {
    /// The kind of model to ask: the one named, or `chat`.
    pub fn kind(&self) -> (r: Result<String, String>)
        ensures
            match choice_outcome("type"@, self.kind, supported_types()) {
                Ok(value) => r is Ok && r->Ok_0@ == value,
                Err(text) => r is Err && r->Err_0@ == text,
            },
    {
        choose_value("type", &self.kind, &crate::api::llm_supported_types())
    }
}

/// How a piece of a streamed answer is shown.
#[derive(Clone, Copy, Debug, PartialEq, Eq, Structural)]
pub enum PieceStyle {
    /// As it is: the answer, and what parts it from the reasoning.
    Plain,
    /// Dimmed: the reasoning.
    Dim,
    /// As an alarm, on a line of its own: an error.
    Alarm,
}

/// A piece of text to show.
#[derive(Debug)]
pub struct Piece {
    pub style: PieceStyle,
    pub text: String,
}

/// A piece as contracts see it.
pub struct PieceView {
    pub style: PieceStyle,
    pub text: Seq<char>,
}

impl View for Piece {
    type V = PieceView;

    open spec fn view(&self) -> PieceView {
        PieceView { style: self.style, text: self.text@ }
    }
}

/// The views of a list of pieces.
pub open spec fn piece_views(pieces: Seq<Piece>) -> Seq<PieceView> {
    Seq::new(pieces.len(), |i: int| pieces[i]@)
}

/// What has been shown of a streamed answer.
#[derive(Clone, Copy, Debug, PartialEq, Eq, Structural)]
pub struct StreamPrinter {
    /// Whether a piece of the answer has been shown.
    pub has_content: bool,
    /// Whether a piece of reasoning has been shown.
    pub has_reasoning_content: bool,
}

/// What is shown of one event.
#[derive(Debug)]
pub struct Shown {
    /// The pieces to show, in order.
    pub pieces: Vec<Piece>,
    /// Whether nothing more of the stream is shown.
    pub stop: bool,
}

/// What is shown of `event` after `printer`: a piece of the answer as it is,
/// with an empty line before the first one where reasoning went before; a
/// piece of reasoning dimmed; an error as an alarm.
pub open spec fn shown_pieces(printer: StreamPrinter, event: ChatCompletionEventView) -> Seq<
    PieceView,
> {
    match event {
        ChatCompletionEventView::Content(text) => if !printer.has_content
            && printer.has_reasoning_content {
            seq![
                PieceView { style: PieceStyle::Plain, text: "\n\n"@ },
                PieceView { style: PieceStyle::Plain, text },
            ]
        } else {
            seq![PieceView { style: PieceStyle::Plain, text }]
        },
        ChatCompletionEventView::ReasoningContent(text) => seq![
            PieceView { style: PieceStyle::Dim, text },
        ],
        ChatCompletionEventView::Error(e) => seq![
            PieceView { style: PieceStyle::Alarm, text: crate::error::kind_label(e.kind) + e.detail },
        ],
    }
}

/// What has been shown after `event`.
pub open spec fn printer_after(printer: StreamPrinter, event: ChatCompletionEventView)
    -> StreamPrinter {
    match event {
        ChatCompletionEventView::Content(_) => StreamPrinter { has_content: true, ..printer },
        ChatCompletionEventView::ReasoningContent(_) => StreamPrinter {
            has_reasoning_content: true,
            ..printer
        },
        ChatCompletionEventView::Error(_) => printer,
    }
}

impl StreamPrinter {
    /// Nothing has been shown.
    pub fn new() -> (printer: StreamPrinter)
        ensures
            !printer.has_content,
            !printer.has_reasoning_content,
    {
        StreamPrinter { has_content: false, has_reasoning_content: false }
    }

    /// Takes one event of the stream and says what to show of it. After an
    /// error nothing more is shown.
    pub fn show(&mut self, event: ChatCompletionEvent) -> (shown: Shown)
        ensures
            piece_views(shown.pieces@) == shown_pieces(*old(self), event@),
            *final(self) == printer_after(*old(self), event@),
            shown.stop == (event@ is Error),
    {
        let mut pieces: Vec<Piece> = Vec::new();
        match event {
            ChatCompletionEvent::Content(delta) => {
                if !self.has_content && self.has_reasoning_content {
                    pieces.push(Piece { style: PieceStyle::Plain, text: String::from_str("\n\n") });
                }
                self.has_content = true;
                pieces.push(Piece { style: PieceStyle::Plain, text: delta });
                assert(piece_views(pieces@) =~= shown_pieces(*old(self), event@));
                Shown { pieces, stop: false }
            },
            ChatCompletionEvent::ReasoningContent(delta) => {
                self.has_reasoning_content = true;
                pieces.push(Piece { style: PieceStyle::Dim, text: delta });
                assert(piece_views(pieces@) =~= shown_pieces(*old(self), event@));
                Shown { pieces, stop: false }
            },
            ChatCompletionEvent::Error(e) => {
                pieces.push(Piece { style: PieceStyle::Alarm, text: e.message() });
                assert(piece_views(pieces@) =~= shown_pieces(*old(self), event@));
                Shown { pieces, stop: true }
            },
        }
    }
}

} // verus!
