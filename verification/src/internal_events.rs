//! Internal telemetry events: the agent's own structured log records and
//! counter updates about processing anomalies.
//!
//! Emitting computes the structured record; shipping it to the process's
//! logging and metrics backends is the runtime's concern, outside the
//! pipeline core.

use vstd::prelude::*;

verus! {

/// Severity of an internal log record.
#[derive(Clone, Copy, Debug, PartialEq, Eq, Structural)]
pub enum LogLevel {
    Debug,
    Error,
}

/// One typed field of an internal log record.
#[derive(Debug)]
pub enum LogValue {
    Text(String),
    Unsigned(u64),
}

/// A named field of an internal log record.
#[derive(Debug)]
pub struct LogField {
    pub name: &'static str,
    pub value: LogValue,
}

/// One structured internal log record, rate limited at the emitter.
#[derive(Debug)]
pub struct LogRecord {
    pub level: LogLevel,
    pub message: &'static str,
    pub fields: Vec<LogField>,
    pub rate_limit_secs: u64,
}

/// One counter increment of the agent's own metrics.
#[derive(Debug)]
pub struct CounterUpdate {
    pub name: &'static str,
    pub delta: u64,
}

/// A field path into an event, as the transforms address it.
#[derive(Debug)]
pub struct LookupBuf {
    pub path: String,
}

/// A substring transform was asked for a range that does not fit the value.
#[derive(Debug)]
pub struct ConcatSubstringError {
    pub source: LookupBuf,
    pub condition: String,
    pub start: usize,
    pub end: usize,
    pub length: usize,
}

impl ConcatSubstringError {
    /// The error-level record carrying the condition, source path and the
    /// offending range.
    pub fn emit_logs(&self) -> (r: LogRecord)
        ensures
            r.level == LogLevel::Error,
            r.message@ == "Substring error."@,
            r.rate_limit_secs == 30,
            r.fields@.len() == 5,
            r.fields@[0].name@ == "condition"@ && (r.fields@[0].value matches LogValue::Text(c)
                && c@ == self.condition@),
            r.fields@[1].name@ == "source"@ && (r.fields@[1].value matches LogValue::Text(s) && s@
                == self.source.path@),
            r.fields@[2].name@ == "start"@ && r.fields@[2].value == LogValue::Unsigned(
                self.start as u64,
            ),
            r.fields@[3].name@ == "end"@ && r.fields@[3].value == LogValue::Unsigned(
                self.end as u64,
            ),
            r.fields@[4].name@ == "length"@ && r.fields@[4].value == LogValue::Unsigned(
                self.length as u64,
            ),
    {
        let mut fields: Vec<LogField> = Vec::new();
        fields.push(LogField { name: "condition", value: LogValue::Text(self.condition.clone()) });
        fields.push(LogField { name: "source", value: LogValue::Text(self.source.path.clone()) });
        fields.push(LogField { name: "start", value: LogValue::Unsigned(self.start as u64) });
        fields.push(LogField { name: "end", value: LogValue::Unsigned(self.end as u64) });
        fields.push(LogField { name: "length", value: LogValue::Unsigned(self.length as u64) });
        LogRecord { level: LogLevel::Error, message: "Substring error.", fields, rate_limit_secs: 30 }
    }

    /// One processing error is counted.
    pub fn emit_metrics(&self) -> (r: CounterUpdate)
        ensures
            r.name@ == "processing_errors_total"@,
            r.delta == 1,
    {
        CounterUpdate { name: "processing_errors_total", delta: 1 }
    }
}

/// A substring transform found no value at its source path.
#[derive(Debug)]
pub struct ConcatSubstringSourceMissing {
    pub source: LookupBuf,
}

impl ConcatSubstringSourceMissing {
    /// The debug-level record naming the missing source path.
    pub fn emit_logs(&self) -> (r: LogRecord)
        ensures
            r.level == LogLevel::Debug,
            r.message@ == "Substring source missing."@,
            r.rate_limit_secs == 30,
            r.fields@.len() == 1,
            r.fields@[0].name@ == "source"@ && (r.fields@[0].value matches LogValue::Text(s) && s@
                == self.source.path@),
    {
        let mut fields: Vec<LogField> = Vec::new();
        fields.push(LogField { name: "source", value: LogValue::Text(self.source.path.clone()) });
        LogRecord {
            level: LogLevel::Debug,
            message: "Substring source missing.",
            fields,
            rate_limit_secs: 30,
        }
    }
}

/// A remove-fields transform was asked to remove a field the event lacks.
#[derive(Debug)]
pub struct RemoveFieldsFieldMissing {
    pub field: LookupBuf,
}

impl RemoveFieldsFieldMissing {
    /// The debug-level record naming the missing field.
    pub fn emit_logs(&self) -> (r: LogRecord)
        ensures
            r.level == LogLevel::Debug,
            r.message@ == "Field did not exist."@,
            r.rate_limit_secs == 30,
            r.fields@.len() == 1,
            r.fields@[0].name@ == "field"@ && (r.fields@[0].value matches LogValue::Text(s) && s@
                == self.field.path@),
    {
        let mut fields: Vec<LogField> = Vec::new();
        fields.push(LogField { name: "field", value: LogValue::Text(self.field.path.clone()) });
        LogRecord {
            level: LogLevel::Debug,
            message: "Field did not exist.",
            fields,
            rate_limit_secs: 30,
        }
    }
}

} // verus!
