//! Stock analysis: running analyses and reading the stored history.
use vstd::prelude::*;
use crate::json::str_eq;
use crate::services::error::{unsupported_method, ServiceError};
use crate::services::name_resolver::like_anywhere;
use crate::strings::{comma_list, split_on, trimmed_codes, views};
use crate::text::{from_chars, push_str};

verus! {

/// The methods the service answers.
#[derive(Clone, Copy, PartialEq, Eq, Structural, Debug)]
pub enum AnalysisMethod {
    Analyze,
    Batch,
    Report,
    List,
    HistoryList,
    HistoryDetail,
    HistoryCompare,
    HistorySearch,
}

/// The method named `name`.
pub open spec fn analysis_method_named(name: Seq<char>) -> Option<AnalysisMethod> {
    if name == "analyze"@ {
        Some(AnalysisMethod::Analyze)
    } else if name == "batch"@ {
        Some(AnalysisMethod::Batch)
    } else if name == "report"@ {
        Some(AnalysisMethod::Report)
    } else if name == "list"@ {
        Some(AnalysisMethod::List)
    } else if name == "history_list"@ {
        Some(AnalysisMethod::HistoryList)
    } else if name == "history_detail"@ {
        Some(AnalysisMethod::HistoryDetail)
    } else if name == "history_compare"@ {
        Some(AnalysisMethod::HistoryCompare)
    } else if name == "history_search"@ {
        Some(AnalysisMethod::HistorySearch)
    } else {
        None
    }
}

pub struct AnalysisService {}

impl AnalysisService {
    pub fn new() -> (s: Self) {
        AnalysisService {}
    }

    /// The method a request names; an unknown one is a routing error
    /// `analysis不支持方法: <method>`.
    pub fn dispatch(&self, method: &str) -> (r: Result<AnalysisMethod, ServiceError>)
        ensures
            match analysis_method_named(method@) {
                Some(m) => r == Ok::<AnalysisMethod, ServiceError>(m),
                None => r matches Err(ServiceError::ApiRouting(msg)) && msg@ == "analysis不支持方法: "@ + method@,
            },
    {
        let r = if str_eq(method, "analyze") {
            Some(AnalysisMethod::Analyze)
        } else if str_eq(method, "batch") {
            Some(AnalysisMethod::Batch)
        } else if str_eq(method, "report") {
            Some(AnalysisMethod::Report)
        } else if str_eq(method, "list") {
            Some(AnalysisMethod::List)
        } else if str_eq(method, "history_list") {
            Some(AnalysisMethod::HistoryList)
        } else if str_eq(method, "history_detail") {
            Some(AnalysisMethod::HistoryDetail)
        } else if str_eq(method, "history_compare") {
            Some(AnalysisMethod::HistoryCompare)
        } else if str_eq(method, "history_search") {
            Some(AnalysisMethod::HistorySearch)
        } else {
            None
        };
        match r {
            Some(m) => Ok(m),
            None => Err(unsupported_method("analysis不支持方法: ", method)),
        }
    }
}


/// How a stored report is looked up.
pub enum ReportKey {
    ById(i64),
    ByQuery(String),
}

impl AnalysisService {
    /// The stocks a batch analyses: the trimmed, non-empty items of the
    /// comma-separated list; an empty list is refused (`请提供股票代码列表`).
    pub fn batch_codes(&self, codes: &str) -> (r: Result<Vec<String>, ServiceError>)
        ensures
            codes@.len() == 0 ==> (r matches Err(ServiceError::Validation(m)) && m@ == "请提供股票代码列表"@),
            codes@.len() != 0 ==> (r matches Ok(v) && views(v@) == trimmed_codes(split_on(codes@, ','))),
    {
        if codes.is_empty() {
            return Err(ServiceError::Validation("请提供股票代码列表".to_owned()));
        }
        Ok(comma_list(codes))
    }

    /// Analysis needs a model key (`API Key 未配置`).
    pub fn check_api_key(&self, api_key: &str) -> (r: Result<(), ServiceError>)
        ensures
            api_key@.len() == 0 ==> (r matches Err(ServiceError::LlmAnalysis(m)) && m@ == "API Key 未配置"@),
            api_key@.len() != 0 ==> r is Ok,
    {
        if api_key.is_empty() {
            Err(ServiceError::LlmAnalysis("API Key 未配置".to_owned()))
        } else {
            Ok(())
        }
    }

    /// The name an analysis is reported under: the one asked for, else the
    /// quote's, else the code.
    pub fn stock_name(&self, requested: &str, quoted: Option<String>, code: &str) -> (r: String)
        ensures
            requested@.len() != 0 ==> r@ == requested@,
            requested@.len() == 0 ==> r@ == (match quoted {
                Some(q) => q@,
                None => code@,
            }),
    {
        if !requested.is_empty() {
            return requested.to_owned();
        }
        match quoted {
            Some(q) => q,
            None => code.to_owned(),
        }
    }

    /// How a report is looked up: by a positive id, else by query id; with
    /// neither it is refused (`请提供id或queryId`).
    pub fn report_key(&self, id: i64, query_id: &str) -> (r: Result<ReportKey, ServiceError>)
        ensures
            id > 0 ==> (r matches Ok(ReportKey::ById(i)) && i == id),
            id <= 0 && query_id@.len() != 0 ==> (r matches Ok(ReportKey::ByQuery(q)) && q@ == query_id@),
            id <= 0 && query_id@.len() == 0 ==> (r matches Err(ServiceError::Validation(m)) && m@ == "请提供id或queryId"@),
    {
        if id > 0 {
            Ok(ReportKey::ById(id))
        } else if !query_id.is_empty() {
            Ok(ReportKey::ByQuery(query_id.to_owned()))
        } else {
            Err(ServiceError::Validation("请提供id或queryId".to_owned()))
        }
    }

    /// A history record is read by a positive id (`请提供有效的id`).
    pub fn check_history_id(&self, id: i64) -> (r: Result<(), ServiceError>)
        ensures
            id <= 0 ==> (r matches Err(ServiceError::Validation(m)) && m@ == "请提供有效的id"@),
            id > 0 ==> r is Ok,
    {
        if id <= 0 {
            Err(ServiceError::Validation("请提供有效的id".to_owned()))
        } else {
            Ok(())
        }
    }

    /// A comparison needs two positive ids (`请提供有效的id1和id2`).
    pub fn check_compare_ids(&self, id1: i64, id2: i64) -> (r: Result<(), ServiceError>)
        ensures
            id1 <= 0 || id2 <= 0 ==> (r matches Err(ServiceError::Validation(m)) && m@ == "请提供有效的id1和id2"@),
            id1 > 0 && id2 > 0 ==> r is Ok,
    {
        if id1 <= 0 || id2 <= 0 {
            Err(ServiceError::Validation("请提供有效的id1和id2".to_owned()))
        } else {
            Ok(())
        }
    }

    /// A comparison needs both records found (`未找到两条记录进行对比`).
    pub fn check_compare_found(&self, found: usize) -> (r: Result<(), ServiceError>)
        ensures
            found < 2 ==> (r matches Err(ServiceError::Validation(m)) && m@ == "未找到两条记录进行对比"@),
            found >= 2 ==> r is Ok,
    {
        if found < 2 {
            Err(ServiceError::Validation("未找到两条记录进行对比".to_owned()))
        } else {
            Ok(())
        }
    }

    /// The `LIKE` pattern of a history search; an empty keyword is refused
    /// (`请提供搜索关键词`).
    pub fn search_pattern(&self, keyword: &str) -> (r: Result<String, ServiceError>)
        ensures
            keyword@.len() == 0 ==> (r matches Err(ServiceError::Validation(m)) && m@ == "请提供搜索关键词"@),
            keyword@.len() != 0 ==> (r matches Ok(p) && p@ == like_anywhere(keyword@)),
    {
        if keyword.is_empty() {
            return Err(ServiceError::Validation("请提供搜索关键词".to_owned()));
        }
        let mut out: Vec<char> = Vec::new();
        push_str(&mut out, "%");
        push_str(&mut out, keyword);
        push_str(&mut out, "%");
        Ok(from_chars(&out))
    }
}

} // verus!
