//! The analyzers, and what one of them concludes.
//!
//! An analyzer is an investor's method under a fixed identity. For a
//! security it is handed facts as a JSON document, asks the model with its
//! own instructions, and reads the model's answer as an analysis.

use vstd::prelude::*;
use vstd::string::*;
use crate::error::{error_view, ErrorKind, ErrorView, InvmstError, InvmstResult};
use crate::financial::{prospect_named, Prospect};
use crate::json::{
    json_as_str,
    json_as_u64,
    json_data,
    json_from_str,
    json_member,
    json_parsed,
    JsonData,
};
use crate::llm::{message_views, ChatMessage, ChatMessageView, Role};
use crate::utils::markdown::{code_block_of, extract_code_block};
use crate::utils::text::{ascii_lowered, eq_ignore_ascii_case, same_ignoring_ascii_case};

pub mod draft;

verus! {

/// The identity of an analyzer.
#[derive(Clone, Copy, Debug, PartialEq, Eq, Hash, Structural)]
pub enum Master {
    BenjaminGraham,
    WarrenBuffett,
}

/// Every analyzer once, in the order in which they are listed.
pub open spec fn all_masters() -> Seq<Master> {
    seq![Master::BenjaminGraham, Master::WarrenBuffett]
}

/// The analyzer that `name` stands for, whatever the case of its letters.
pub open spec fn master_named(name: Seq<char>) -> Option<Master> {
    if same_ignoring_ascii_case(name, "graham"@) || same_ignoring_ascii_case(name, "ben-graham"@) {
        Some(Master::BenjaminGraham)
    } else if same_ignoring_ascii_case(name, "buffett"@) || same_ignoring_ascii_case(
        name,
        "warren-buffett"@,
    ) {
        Some(Master::WarrenBuffett)
    } else {
        None
    }
}

/// The text of the error for a name that stands for no analyzer.
pub open spec fn unknown_master_message(name: Seq<char>) -> Seq<char> {
    "Master '"@ + name + "' not exists"@
}

/// The error for a name that stands for no analyzer.
pub open spec fn unknown_master(name: Seq<char>) -> ErrorView {
    error_view(ErrorKind::NotExists, "MASTER_NOT_EXISTS"@, unknown_master_message(name))
}

impl Master {
    /// The investor's name.
    pub open spec fn message(self) -> Seq<char> {
        match self {
            Master::BenjaminGraham => "Benjamin Graham"@,
            Master::WarrenBuffett => "Warren Buffett"@,
        }
    }

    /// The names under which the analyzer is found.
    pub open spec fn serializations(self) -> Seq<Seq<char>> {
        match self {
            Master::BenjaminGraham => seq!["graham"@, "ben-graham"@],
            Master::WarrenBuffett => seq!["buffett"@, "warren-buffett"@],
        }
    }

    /// The name under which the analyzer is written: the longest of those
    /// under which it is found.
    pub open spec fn name(self) -> Seq<char> {
        match self {
            Master::BenjaminGraham => "ben-graham"@,
            Master::WarrenBuffett => "warren-buffett"@,
        }
    }

    /// Every analyzer once, in a fixed order.
    pub fn iter() -> (all: Vec<Master>)
        ensures
            all@ == all_masters(),
    {
        let mut all: Vec<Master> = Vec::new();
        all.push(Master::BenjaminGraham);
        all.push(Master::WarrenBuffett);
        assert(all@ =~= all_masters());
        all
    }

    /// The investor's name.
    pub fn get_message(&self) -> (m: Option<&'static str>)
        ensures
            m is Some,
            m->0@ == self.message(),
    {
        match self {
            Master::BenjaminGraham => Some("Benjamin Graham"),
            Master::WarrenBuffett => Some("Warren Buffett"),
        }
    }

    /// The names under which the analyzer is found.
    pub fn get_serializations(&self) -> (names: Vec<&'static str>)
        ensures
            crate::utils::text::views(names@) == self.serializations(),
    {
        let mut names: Vec<&'static str> = Vec::new();
        match self {
            Master::BenjaminGraham => {
                names.push("graham");
                names.push("ben-graham");
            },
            Master::WarrenBuffett => {
                names.push("buffett");
                names.push("warren-buffett");
            },
        }
        assert(crate::utils::text::views(names@) =~= self.serializations());
        names
    }

    /// The name under which the analyzer is written.
    pub fn as_str(&self) -> (s: &'static str)
        ensures
            s@ == self.name(),
    {
        match self {
            Master::BenjaminGraham => "ben-graham",
            Master::WarrenBuffett => "warren-buffett",
        }
    }

    /// The name under which the analyzer is written.
    pub fn to_string(&self) -> (s: String)
        ensures
            s@ == self.name(),
    {
        String::from_str(self.as_str())
    }

    /// The analyzer that `name` stands for, whatever the case of its letters.
    /// A name that stands for none is a `NotExists` error that quotes it.
    pub fn from_str(name: &str) -> (r: InvmstResult<Master>)
        ensures
            match master_named(name@) {
                Some(m) => r == Ok::<Master, InvmstError>(m),
                None => r is Err && r->Err_0@ == unknown_master(name@),
            },
    {
        if eq_ignore_ascii_case(name, "graham") || eq_ignore_ascii_case(name, "ben-graham") {
            Ok(Master::BenjaminGraham)
        } else if eq_ignore_ascii_case(name, "buffett") || eq_ignore_ascii_case(
            name,
            "warren-buffett",
        ) {
            Ok(Master::WarrenBuffett)
        } else {
            let text = String::from_str("Master '").concat(name).concat("' not exists");
            Err(InvmstError::NotExists("MASTER_NOT_EXISTS", text))
        }
    }
}

/// What the four names of the analyzers are in lower case: themselves, and
/// each unlike the names of the other analyzer.
proof fn lemma_master_names_differ()
    ensures
        !same_ignoring_ascii_case("buffett"@, "graham"@),
        !same_ignoring_ascii_case("buffett"@, "ben-graham"@),
        !same_ignoring_ascii_case("warren-buffett"@, "graham"@),
        !same_ignoring_ascii_case("warren-buffett"@, "ben-graham"@),
{
    reveal_strlit("graham");
    reveal_strlit("ben-graham");
    reveal_strlit("buffett");
    reveal_strlit("warren-buffett");
    assert(ascii_lowered("buffett"@).len() == 7);
    assert(ascii_lowered("graham"@).len() == 6);
    assert(ascii_lowered("ben-graham"@).len() == 10);
    assert(ascii_lowered("warren-buffett"@).len() == 14);
}

/// Every analyzer is found under each of its names, and under the name
/// under which it is written.
pub proof fn lemma_master_names_resolve(master: Master, i: int)
    requires
        0 <= i < master.serializations().len(),
    ensures
        master_named(master.serializations()[i]) == Some(master),
        master_named(master.name()) == Some(master),
{
    lemma_master_names_differ();
}

/// Names that differ in the case of ASCII letters only stand for the same
/// analyzer, or both for none.
pub proof fn lemma_master_ignores_case(a: Seq<char>, b: Seq<char>)
    requires
        same_ignoring_ascii_case(a, b),
    ensures
        master_named(a) == master_named(b),
{
}

/// A name stands for an analyzer only if it is one of that analyzer's
/// names but for the case of its letters.
pub proof fn lemma_master_found_by_name_only(name: Seq<char>, master: Master)
    requires
        master_named(name) == Some(master),
    ensures
        exists|i: int|
            0 <= i < master.serializations().len() && same_ignoring_ascii_case(
                name,
                #[trigger] master.serializations()[i],
            ),
{
    match master {
        Master::BenjaminGraham => {
            if same_ignoring_ascii_case(name, "graham"@) {
                assert(master.serializations()[0] == "graham"@);
            } else {
                assert(master.serializations()[1] == "ben-graham"@);
            }
        },
        Master::WarrenBuffett => {
            if same_ignoring_ascii_case(name, "buffett"@) {
                assert(master.serializations()[0] == "buffett"@);
            } else {
                assert(master.serializations()[1] == "warren-buffett"@);
            }
        },
    }
}

/// The list of analyzers holds every analyzer, and none twice.
pub proof fn lemma_all_masters_complete()
    ensures
        forall|m: Master| all_masters().contains(m),
        all_masters().no_duplicates(),
{
    assert(all_masters()[0] == Master::BenjaminGraham);
    assert(all_masters()[1] == Master::WarrenBuffett);
    assert forall|m: Master| all_masters().contains(m) by {
        match m {
            Master::BenjaminGraham => {
                assert(all_masters()[0] == m);
            },
            Master::WarrenBuffett => {
                assert(all_masters()[1] == m);
            },
        }
    }
}

/// What an analyzer is told of the evaluation that it belongs to.
#[derive(Debug)]
pub struct MasterAnalyzeOptions {
    /// How many days of history the facts cover.
    pub backward_days: i64,
    /// The day evaluated for; today where there is none.
    pub date: Option<chrono::NaiveDate>,
}

/// What an analyzer concludes about a security.
#[derive(Debug)]
pub struct MasterAnalysis {
    pub prospect: Prospect,
    /// From 0 to 100 by the instructions given to the model; what the model
    /// answers is kept as it is.
    pub rating: u64,
    pub explanation: String,
}

/// An analysis as contracts see it.
pub struct MasterAnalysisView {
    pub prospect: Prospect,
    pub rating: u64,
    pub explanation: Seq<char>,
}

impl View for MasterAnalysis {
    type V = MasterAnalysisView;

    open spec fn view(&self) -> MasterAnalysisView {
        MasterAnalysisView {
            prospect: self.prospect,
            rating: self.rating,
            explanation: self.explanation@,
        }
    }
}

/// The error for a field that the answer must hold and does not.
pub open spec fn required(code: Seq<char>, message: Seq<char>) -> ErrorView {
    error_view(ErrorKind::Required, code, message)
}

/// The text of the error for a prospect that is none of the three.
pub open spec fn invalid_prospect_message(text: Seq<char>) -> Seq<char> {
    "Invalid prospect '"@ + text + "'"@
}

/// The analysis that a JSON document stands for. Its `prospect` must be a
/// string that names a prospect, its `rating` an integer from 0 to
/// `u64::MAX`, its `explanation` a string; the first of these that fails, in
/// this order, is the error.
pub open spec fn analysis_of(doc: JsonData) -> Result<MasterAnalysisView, ErrorView> {
    match doc.member("prospect"@).as_text() {
        None => Err(required("PROSPECT_REQUIRED"@, "Missing prospect"@)),
        Some(text) => match prospect_named(text) {
            None => Err(required("PROSPECT_INVALID"@, invalid_prospect_message(text))),
            Some(prospect) => match doc.member("rating"@).as_u64() {
                None => Err(required("RATING_REQUIRED"@, "Missing rating"@)),
                Some(rating) => match doc.member("explanation"@).as_text() {
                    None => Err(required("EXPLANATION_REQUIRED"@, "Missing explanation"@)),
                    Some(explanation) => Ok(MasterAnalysisView { prospect, rating, explanation }),
                },
            },
        },
    }
}

/// The analysis that a text stands for: that of the JSON document that it
/// is, or a `Json` error where it is none.
pub open spec fn analysis_of_text(text: Seq<char>) -> Result<MasterAnalysisView, ErrorView> {
    match json_parsed(text) {
        Ok(doc) => analysis_of(doc),
        Err(message) => Err(error_view(ErrorKind::Json, Seq::empty(), message)),
    }
}

impl MasterAnalysis {
    /// The analysis that a JSON document stands for.
    pub fn from_value(doc: &serde_json::Value) -> (r: InvmstResult<MasterAnalysis>)
        ensures
            match analysis_of(json_data(*doc)) {
                Ok(a) => r is Ok && r->Ok_0@ == a,
                Err(e) => r is Err && r->Err_0@ == e,
            },
    {
        let prospect_str = match json_as_str(json_member(doc, "prospect")) {
            Some(text) => text,
            None => {
                return Err(
                    InvmstError::Required("PROSPECT_REQUIRED", String::from_str("Missing prospect")),
                );
            },
        };
        let prospect = match Prospect::from_str(prospect_str) {
            Some(prospect) => prospect,
            None => {
                let text = String::from_str("Invalid prospect '").concat(prospect_str).concat("'");
                return Err(InvmstError::Required("PROSPECT_INVALID", text));
            },
        };
        let rating = match json_as_u64(json_member(doc, "rating")) {
            Some(rating) => rating,
            None => {
                return Err(
                    InvmstError::Required("RATING_REQUIRED", String::from_str("Missing rating")),
                );
            },
        };
        let explanation = match json_as_str(json_member(doc, "explanation")) {
            Some(text) => text.to_owned(),
            None => {
                return Err(
                    InvmstError::Required(
                        "EXPLANATION_REQUIRED",
                        String::from_str("Missing explanation"),
                    ),
                );
            },
        };
        Ok(MasterAnalysis { prospect, rating, explanation })
    }

    /// The analysis that a JSON text stands for.
    pub fn from_json(json_str: &str) -> (r: InvmstResult<MasterAnalysis>)
        ensures
            match analysis_of_text(json_str@) {
                Ok(a) => r is Ok && r->Ok_0@ == a,
                Err(e) => r is Err && r->Err_0@ == e,
            },
    {
        match json_from_str(json_str) {
            Ok(doc) => MasterAnalysis::from_value(&doc),
            Err(message) => Err(InvmstError::JsonError(message)),
        }
    }
}

/// A document stands for an analysis exactly if its three fields are there
/// and its prospect is one of the three. The analysis then holds the
/// prospect named, the rating as it is written, and the explanation; and
/// every document that stands for none fails as `Required`.
pub proof fn lemma_analysis_fields(doc: JsonData)
    ensures
        analysis_of(doc) is Ok <==> (doc.member("prospect"@).as_text() is Some && prospect_named(
            doc.member("prospect"@).as_text()->0,
        ) is Some && doc.member("rating"@).as_u64() is Some && doc.member(
            "explanation"@,
        ).as_text() is Some),
        analysis_of(doc) is Ok ==> analysis_of(doc)->Ok_0 == (MasterAnalysisView {
            prospect: prospect_named(doc.member("prospect"@).as_text()->0)->0,
            rating: doc.member("rating"@).as_u64()->0,
            explanation: doc.member("explanation"@).as_text()->0,
        }),
        analysis_of(doc) is Err ==> analysis_of(doc)->Err_0.kind == ErrorKind::Required,
{
}

/// The case of the letters of the prospect does not matter: two objects
/// that differ in it alone stand for the same analysis.
pub proof fn lemma_analysis_ignores_prospect_case(
    members: Map<Seq<char>, JsonData>,
    a: Seq<char>,
    b: Seq<char>,
)
    requires
        same_ignoring_ascii_case(a, b),
        prospect_named(a) is Some,
    ensures
        analysis_of(JsonData::Object(members.insert("prospect"@, JsonData::Text(a)))) == analysis_of(
            JsonData::Object(members.insert("prospect"@, JsonData::Text(b))),
        ),
{
    reveal_strlit("prospect");
    reveal_strlit("rating");
    reveal_strlit("explanation");
    assert("prospect"@.len() == 8 && "rating"@.len() == 6 && "explanation"@.len() == 11);
    let with_a = JsonData::Object(members.insert("prospect"@, JsonData::Text(a)));
    let with_b = JsonData::Object(members.insert("prospect"@, JsonData::Text(b)));
    assert(with_a.member("rating"@) == with_b.member("rating"@));
    assert(with_a.member("explanation"@) == with_b.member("explanation"@));
    assert(with_a.member("prospect"@) == JsonData::Text(a));
    assert(with_b.member("prospect"@) == JsonData::Text(b));
}

/// What the request says before the facts.
pub const ANALYSIS_PROMPT_HEAD: &'static str =
    "\n基于下面的数据，使用我的投资分析方法评估投资对象，结果以标准的 JSON 对象格式返回：\n```\n";

/// What the request says of the form of the answer.
pub const MASTER_ANALYSIS_JSON_PROMPT: &'static str = r#"
返回的 JSON 格式示例如下：
```
{
    "prospect": "Bullish" | "Bearish" | "Neutral",
    "rating": 评分为0到100之间的整数,
    "explanation": "详细阐述分析过程"
}
```

注意以下几点：
- 不要包含任何额外的解释或文本，仅返回 JSON 数据。
- 确保返回的结果是合法的 JSON 格式。
"#;

/// The text of the request for an analysis of the facts in `data_json`: the
/// head, the facts inside a fence, and the form of the answer.
pub open spec fn analysis_prompt_text(data_json: Seq<char>) -> Seq<char> {
    ANALYSIS_PROMPT_HEAD@ + data_json + "\n```\n\n"@ + MASTER_ANALYSIS_JSON_PROMPT@ + "\n"@
}

/// The two messages of a request: the analyzer's instructions as the
/// system's, then the request for an analysis of the facts as the user's.
pub open spec fn analysis_request(system: Seq<char>, data_json: Seq<char>) -> Seq<ChatMessageView> {
    seq![
        ChatMessageView { role: Role::System, content: system, reasoning: None },
        ChatMessageView { role: Role::User, content: analysis_prompt_text(data_json), reasoning: None },
    ]
}

/// The error for a security without any fiscal period.
pub open spec fn no_stock_metrics() -> ErrorView {
    error_view(ErrorKind::NoData, "NO_STOCK_METRICS"@, "No stock metrics data"@)
}

/// The text of the request for an analysis of the facts in `data_json`.
pub fn analysis_prompt(data_json: &str) -> (prompt: String)
    ensures
        prompt@ == analysis_prompt_text(data_json@),
{
    String::from_str(ANALYSIS_PROMPT_HEAD).concat(data_json).concat("\n```\n\n").concat(
        MASTER_ANALYSIS_JSON_PROMPT,
    ).concat("\n")
}

/// The messages of a request for an analysis under the instructions
/// `system`.
pub fn analysis_messages(system: &str, data_json: &str) -> (messages: Vec<ChatMessage>)
    ensures
        message_views(messages@) == analysis_request(system@, data_json@),
{
    let mut messages: Vec<ChatMessage> = Vec::new();
    messages.push(ChatMessage::new(Role::System, system));
    messages.push(
        ChatMessage { role: Role::User, content: analysis_prompt(data_json), reasoning: None },
    );
    assert(message_views(messages@) =~= analysis_request(system@, data_json@));
    messages
}

/// The instructions under which Benjamin Graham's method is asked for.
pub const BENJAMIN_GRAHAM_SYSTEM: &'static str = r#"
我是本杰明·格雷厄姆（Benjamin Graham），下面是我的投资分析方法论：

## 核心原则
1. 坚持安全边际原则，以低于内在价值的价格购买（例如：使用格雷厄姆数字、净流动资产价值）
2. 强调公司的财务健康（低杠杆率、充足的流动资产）
3. 倾向于多年稳定的盈利表现
4. 考虑股息记录以增加安全性
5. 避免投机性或高增长假设，专注于经过验证的指标

## 评估方法
1. 关注对决策影响最大的关键估值指标（格雷厄姆数字、净流动资产价值、市盈率等）
2. 关注反应财务健康的指标（流动比率、债务水平等）
3. 在一段较长的时间上检视盈利的稳定性
4. 查看股息记录
5. 将各项指标与格雷厄姆的具体阈值进行比较

## 评分等级（百分制）
- 80-100：卓越企业，价格诱人
- 60-79：良好企业，估值合理
- 40-59：信号混杂，需更多信息或更优价格
- 20-39：数据不足，无法做出评估
- 0-19：劣质企业或严重高估
"#;

/// The instructions under which Warren Buffett's method is asked for.
pub const WARREN_BUFFETT_SYSTEM: &'static str = r#"
我是沃伦·巴菲特（Warren Buffett），下面是我的投资分析方法论：

**核心原则**
1. 能力圈原则：只投资我彻底理解的生意。
2. 经济护城河：寻找具有持久竞争优势的企业——定价权、品牌力、规模优势、转换成本。
3. 管理层品质：选择诚实能干、像所有者一样思考、善于资本配置的管理层。
4. 财务堡垒：偏好资产负债表强劲、盈利稳定、负债极少的企业。
5. 内在价值与安全边际：支付远低于企业价值的对价。
6. 长期视角：寻找能繁荣数十年的企业。
7. 定价权：最好的企业可以提价而不流失客户。

## 能力圈偏好
- 拥有强势品牌的消费品（可口可乐、宝洁、沃尔玛、好市多）
- 商业银行（美国银行、富国银行）
- 保险业（GEICO、财产意外险）
- 铁路和公用事业（BNSF铁路、简单基础设施）
- 具有护城河的简单工业（UPS、联邦快递、卡特彼勒）
- 拥有储备和管道的能源公司（雪佛龙，不包括勘探类）

## 能力圈回避
- 复杂科技（半导体、软件，苹果例外因其消费生态）
- 生物科技和制药（过于复杂，监管风险高）
- 航空业（商品化生意，经济性差）
- 加密货币和金融科技投机
- 复杂衍生品或金融工具
- 技术快速迭代的行业
- 缺乏定价权的重资产生意
- 投资银行

## 评估方法
1. 能力圈：如果不懂商业模式或行业逻辑，无论潜在回报多高都不投。
2. 企业质量：是否有护城河？20年后是否依然兴旺？
3. 管理层：是否维护股东利益？资本配置是否明智？
4. 财务实力：盈利是否稳定？负债是否低？资本回报率是否强劲？
5. 估值：是否为优秀企业支付了合理价格？

## 评分等级（百分制）
- 80-100：卓越企业，价格诱人
- 60-79：良好企业，估值合理
- 40-59：信号混杂，需更多信息或更优价格
- 20-39：超出能力圈或基本面存疑
- 0-19：劣质企业或严重高估

注意：我宁愿以合理价格买卓越企业，也不愿以超低价买平庸企业。当有疑虑时，答案通常是不投资，因为错过机会不会受惩罚，本金永久损失才会。
"#;

impl Master {
    /// The instructions under which the analyzer's method is asked for.
    pub open spec fn system_text(self) -> Seq<char> {
        match self {
            Master::BenjaminGraham => BENJAMIN_GRAHAM_SYSTEM@,
            Master::WarrenBuffett => WARREN_BUFFETT_SYSTEM@,
        }
    }

    /// The names of the partial analyses that the analyzer's facts hold, in
    /// order.
    pub open spec fn draft_names(self) -> Seq<Seq<char>> {
        match self {
            Master::BenjaminGraham => seq![
                "analysis_core_valuation"@,
                "analysis_financial_health"@,
                "analysis_earnings_stability"@,
                "analysis_dividend"@,
            ],
            Master::WarrenBuffett => seq![
                "analysis_fundamentals"@,
                "analysis_consistency"@,
                "analysis_moat"@,
                "analysis_management"@,
            ],
        }
    }

    /// The instructions under which the analyzer's method is asked for.
    pub fn system_prompt(&self) -> (s: &'static str)
        ensures
            s@ == self.system_text(),
    {
        match self {
            Master::BenjaminGraham => BENJAMIN_GRAHAM_SYSTEM,
            Master::WarrenBuffett => WARREN_BUFFETT_SYSTEM,
        }
    }

    /// The names of the partial analyses that the analyzer's facts hold.
    pub fn analysis_names(&self) -> (names: Vec<&'static str>)
        ensures
            crate::utils::text::views(names@) == self.draft_names(),
    {
        let mut names: Vec<&'static str> = Vec::new();
        match self {
            Master::BenjaminGraham => {
                names.push("analysis_core_valuation");
                names.push("analysis_financial_health");
                names.push("analysis_earnings_stability");
                names.push("analysis_dividend");
            },
            Master::WarrenBuffett => {
                names.push("analysis_fundamentals");
                names.push("analysis_consistency");
                names.push("analysis_moat");
                names.push("analysis_management");
            },
        }
        assert(crate::utils::text::views(names@) =~= self.draft_names());
        names
    }

    /// The request for the analyzer's analysis of a security with `periods`
    /// fiscal periods whose facts are `data_json`. Without any period there is
    /// nothing to analyze: the result is a `NoData` error.
    pub fn request(&self, periods: usize, data_json: &str) -> (r: InvmstResult<Vec<ChatMessage>>)
        ensures
            periods == 0 ==> r is Err && r->Err_0@ == no_stock_metrics(),
            periods > 0 ==> r is Ok && message_views(r->Ok_0@) == analysis_request(
                self.system_text(),
                data_json@,
            ),
    {
        match require_periods(periods) {
            Ok(()) => Ok(analysis_messages(self.system_prompt(), data_json)),
            Err(e) => Err(e),
        }
    }
}

/// Whether there is anything to analyze: a security without any fiscal
/// period is a `NoData` error.
pub fn require_periods(periods: usize) -> (r: Result<(), InvmstError>)
    ensures
        periods > 0 ==> r is Ok,
        periods == 0 ==> r is Err && r->Err_0@ == no_stock_metrics(),
{
    if periods == 0 {
        Err(InvmstError::NoData("NO_STOCK_METRICS", String::from_str("No stock metrics data")))
    } else {
        Ok(())
    }
}

/// What the model's answer `content` comes to: the analysis that its
/// payload stands for.
pub open spec fn conclusion_of(content: Seq<char>) -> Result<MasterAnalysisView, ErrorView> {
    analysis_of_text(code_block_of(content))
}

/// Reads the model's answer as an analysis.
pub fn conclude(content: &str) -> (r: InvmstResult<MasterAnalysis>)
    ensures
        match conclusion_of(content@) {
            Ok(a) => r is Ok && r->Ok_0@ == a,
            Err(e) => r is Err && r->Err_0@ == e,
        },
{
    let json_str = extract_code_block(content);
    MasterAnalysis::from_json(json_str.as_str())
}

/// What the exchange with the model comes to: a failure of the exchange
/// as it is, else the analysis that the answer stands for.
pub fn conclude_reply(reply: InvmstResult<ChatMessage>) -> (r: InvmstResult<MasterAnalysis>)
    ensures
        match reply {
            Err(e) => r is Err && r->Err_0@ == e@,
            Ok(message) => match conclusion_of(message.content@) {
                Ok(a) => r is Ok && r->Ok_0@ == a,
                Err(e) => r is Err && r->Err_0@ == e,
            },
        },
{
    match reply {
        Ok(message) => conclude(message.content.as_str()),
        Err(e) => Err(e),
    }
}

} // verus!
