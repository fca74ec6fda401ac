//! What the data source calls things.
//!
//! The data source answers in rows. A row of the financial summary names a
//! metric in its label and holds one value for each fiscal period; a row of
//! the company profile names an item. The tables here say which label
//! stands for which metric or item, and which metrics come as a percentage.

use vstd::prelude::*;
use vstd::string::*;
use crate::error::{error_view, ErrorKind, ErrorView, InvmstError};
use crate::utils::text::str_eq;

verus! {

/// A metric of the financial summary.
#[derive(Clone, Copy, Debug, PartialEq, Eq, Structural)]
pub enum FinancialMetric {
    AssetTurnover,
    BookValuePerShare,
    CashRatio,
    CostOfProfit,
    CostOfRevenue,
    CostToRevenue,
    CurrentRatio,
    DaysAssetOutstanding,
    DaysInventoryOutstanding,
    DaysSalesOutstanding,
    DebtToAssets,
    DebtToEquity,
    EarningsPerShare,
    FreeCashFlowPerShare,
    Goodwill,
    GrossMargin,
    InventoryTurnover,
    NetAssets,
    NetMargin,
    NetProfit,
    OperatingCashFlow,
    OperatingCosts,
    OperatingMargin,
    OperatingRevenue,
    QuickRatio,
    ReceivablesTurnover,
    ReturnOnAssets,
    ReturnOnEquity,
    ReturnOnInvestedCapital,
    RevenueGrowth,
}

/// An item of the company profile.
#[derive(Clone, Copy, Debug, PartialEq, Eq, Structural)]
pub enum ProfileItem {
    Name,
    Industry,
}

/// The metric that a row's label stands for.
pub open spec fn metric_labelled(label: Seq<char>) -> Option<FinancialMetric> {
    if label == "总资产周转率"@ {
        Some(FinancialMetric::AssetTurnover)
    } else if label == "每股净资产"@ {
        Some(FinancialMetric::BookValuePerShare)
    } else if label == "现金比率"@ {
        Some(FinancialMetric::CashRatio)
    } else if label == "成本费用利润率"@ {
        Some(FinancialMetric::CostOfProfit)
    } else if label == "销售成本率"@ {
        Some(FinancialMetric::CostOfRevenue)
    } else if label == "成本费用率"@ {
        Some(FinancialMetric::CostToRevenue)
    } else if label == "流动比率"@ {
        Some(FinancialMetric::CurrentRatio)
    } else if label == "总资产周转天数"@ {
        Some(FinancialMetric::DaysAssetOutstanding)
    } else if label == "存货周转天数"@ {
        Some(FinancialMetric::DaysInventoryOutstanding)
    } else if label == "应收账款周转天数"@ {
        Some(FinancialMetric::DaysSalesOutstanding)
    } else if label == "资产负债率"@ {
        Some(FinancialMetric::DebtToAssets)
    } else if label == "产权比率"@ {
        Some(FinancialMetric::DebtToEquity)
    } else if label == "基本每股收益"@ {
        Some(FinancialMetric::EarningsPerShare)
    } else if label == "每股现金流"@ {
        Some(FinancialMetric::FreeCashFlowPerShare)
    } else if label == "商誉"@ {
        Some(FinancialMetric::Goodwill)
    } else if label == "毛利率"@ {
        Some(FinancialMetric::GrossMargin)
    } else if label == "存货周转率"@ {
        Some(FinancialMetric::InventoryTurnover)
    } else if label == "股东权益合计(净资产)"@ {
        Some(FinancialMetric::NetAssets)
    } else if label == "销售净利率"@ {
        Some(FinancialMetric::NetMargin)
    } else if label == "净利润"@ {
        Some(FinancialMetric::NetProfit)
    } else if label == "经营现金流量净额"@ {
        Some(FinancialMetric::OperatingCashFlow)
    } else if label == "营业成本"@ {
        Some(FinancialMetric::OperatingCosts)
    } else if label == "营业利润率"@ {
        Some(FinancialMetric::OperatingMargin)
    } else if label == "营业总收入"@ {
        Some(FinancialMetric::OperatingRevenue)
    } else if label == "速动比率"@ {
        Some(FinancialMetric::QuickRatio)
    } else if label == "应收账款周转率"@ {
        Some(FinancialMetric::ReceivablesTurnover)
    } else if label == "总资产报酬率(ROA)"@ {
        Some(FinancialMetric::ReturnOnAssets)
    } else if label == "净资产收益率(ROE)"@ {
        Some(FinancialMetric::ReturnOnEquity)
    } else if label == "投入资本回报率"@ {
        Some(FinancialMetric::ReturnOnInvestedCapital)
    } else if label == "营业总收入增长率"@ {
        Some(FinancialMetric::RevenueGrowth)
    } else {
        None
    }
}

/// The item of the profile that a row's name stands for.
pub open spec fn profile_item_named(name: Seq<char>) -> Option<ProfileItem> {
    if name == "股票简称"@ {
        Some(ProfileItem::Name)
    } else if name == "行业"@ {
        Some(ProfileItem::Industry)
    } else {
        None
    }
}

/// Whether the data source has the securities of `exchange`.
pub open spec fn exchange_supported(exchange: Seq<char>) -> bool {
    exchange == "SSE"@ || exchange == "SZSE"@
}

/// The text of the error for an exchange that the data source lacks.
pub open spec fn unsupported_exchange_message(exchange: Seq<char>) -> Seq<char> {
    "Not yet supported exchange '"@ + exchange + "'"@
}

/// The error for an exchange that the data source lacks.
pub open spec fn unsupported_exchange(exchange: Seq<char>) -> ErrorView {
    error_view(
        ErrorKind::Invalid,
        "EXCHANGE_NOT_SUPPORTED"@,
        unsupported_exchange_message(exchange),
    )
}

impl FinancialMetric {
    /// Whether the data source gives the metric as a percentage, to be
    /// divided by 100.
    pub open spec fn percentage(self) -> bool {
        match self {
            FinancialMetric::CostOfProfit | FinancialMetric::CostOfRevenue | FinancialMetric::CostToRevenue | FinancialMetric::DebtToAssets | FinancialMetric::DebtToEquity | FinancialMetric::GrossMargin | FinancialMetric::NetMargin | FinancialMetric::OperatingMargin | FinancialMetric::ReturnOnAssets | FinancialMetric::ReturnOnEquity | FinancialMetric::ReturnOnInvestedCapital | FinancialMetric::RevenueGrowth => true,
            _ => false,
        }
    }

    /// Whether the data source gives the metric as a percentage.
    pub fn is_percentage(&self) -> (b: bool)
        ensures
            b == self.percentage(),
    {
        match self {
            FinancialMetric::CostOfProfit | FinancialMetric::CostOfRevenue | FinancialMetric::CostToRevenue | FinancialMetric::DebtToAssets | FinancialMetric::DebtToEquity | FinancialMetric::GrossMargin | FinancialMetric::NetMargin | FinancialMetric::OperatingMargin | FinancialMetric::ReturnOnAssets | FinancialMetric::ReturnOnEquity | FinancialMetric::ReturnOnInvestedCapital | FinancialMetric::RevenueGrowth => true,
            _ => false,
        }
    }
}

/// The metric that a row's label stands for.
pub fn metric_of_label(label: &str) -> (metric: Option<FinancialMetric>)
    ensures
        metric == metric_labelled(label@),
{
    if str_eq(label, "总资产周转率") {
        Some(FinancialMetric::AssetTurnover)
    } else if str_eq(label, "每股净资产") {
        Some(FinancialMetric::BookValuePerShare)
    } else if str_eq(label, "现金比率") {
        Some(FinancialMetric::CashRatio)
    } else if str_eq(label, "成本费用利润率") {
        Some(FinancialMetric::CostOfProfit)
    } else if str_eq(label, "销售成本率") {
        Some(FinancialMetric::CostOfRevenue)
    } else if str_eq(label, "成本费用率") {
        Some(FinancialMetric::CostToRevenue)
    } else if str_eq(label, "流动比率") {
        Some(FinancialMetric::CurrentRatio)
    } else if str_eq(label, "总资产周转天数") {
        Some(FinancialMetric::DaysAssetOutstanding)
    } else if str_eq(label, "存货周转天数") {
        Some(FinancialMetric::DaysInventoryOutstanding)
    } else if str_eq(label, "应收账款周转天数") {
        Some(FinancialMetric::DaysSalesOutstanding)
    } else if str_eq(label, "资产负债率") {
        Some(FinancialMetric::DebtToAssets)
    } else if str_eq(label, "产权比率") {
        Some(FinancialMetric::DebtToEquity)
    } else if str_eq(label, "基本每股收益") {
        Some(FinancialMetric::EarningsPerShare)
    } else if str_eq(label, "每股现金流") {
        Some(FinancialMetric::FreeCashFlowPerShare)
    } else if str_eq(label, "商誉") {
        Some(FinancialMetric::Goodwill)
    } else if str_eq(label, "毛利率") {
        Some(FinancialMetric::GrossMargin)
    } else if str_eq(label, "存货周转率") {
        Some(FinancialMetric::InventoryTurnover)
    } else if str_eq(label, "股东权益合计(净资产)") {
        Some(FinancialMetric::NetAssets)
    } else if str_eq(label, "销售净利率") {
        Some(FinancialMetric::NetMargin)
    } else if str_eq(label, "净利润") {
        Some(FinancialMetric::NetProfit)
    } else if str_eq(label, "经营现金流量净额") {
        Some(FinancialMetric::OperatingCashFlow)
    } else if str_eq(label, "营业成本") {
        Some(FinancialMetric::OperatingCosts)
    } else if str_eq(label, "营业利润率") {
        Some(FinancialMetric::OperatingMargin)
    } else if str_eq(label, "营业总收入") {
        Some(FinancialMetric::OperatingRevenue)
    } else if str_eq(label, "速动比率") {
        Some(FinancialMetric::QuickRatio)
    } else if str_eq(label, "应收账款周转率") {
        Some(FinancialMetric::ReceivablesTurnover)
    } else if str_eq(label, "总资产报酬率(ROA)") {
        Some(FinancialMetric::ReturnOnAssets)
    } else if str_eq(label, "净资产收益率(ROE)") {
        Some(FinancialMetric::ReturnOnEquity)
    } else if str_eq(label, "投入资本回报率") {
        Some(FinancialMetric::ReturnOnInvestedCapital)
    } else if str_eq(label, "营业总收入增长率") {
        Some(FinancialMetric::RevenueGrowth)
    } else {
        None
    }
}

/// The item of the profile that a row's name stands for.
pub fn profile_item(name: &str) -> (item: Option<ProfileItem>)
    ensures
        item == profile_item_named(name@),
{
    if str_eq(name, "股票简称") {
        Some(ProfileItem::Name)
    } else if str_eq(name, "行业") {
        Some(ProfileItem::Industry)
    } else {
        None
    }
}

/// Whether the data source has the securities of `exchange`; the error to
/// answer with where it has not.
pub fn check_exchange(exchange: &str) -> (r: Result<(), InvmstError>)
    ensures
        exchange_supported(exchange@) ==> r is Ok,
        !exchange_supported(exchange@) ==> r is Err && r->Err_0@ == unsupported_exchange(exchange@),
{
    if str_eq(exchange, "SSE") || str_eq(exchange, "SZSE") {
        Ok(())
    } else {
        Err(
            InvmstError::Invalid(
                "EXCHANGE_NOT_SUPPORTED",
                String::from_str("Not yet supported exchange '").concat(exchange).concat("'"),
            ),
        )
    }
}

} // verus!
