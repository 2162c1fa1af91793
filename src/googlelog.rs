//! The settings of the logger that writes entries for Google Cloud Logging.
use vstd::prelude::*;

verus! {

/// Collects the settings of a Google Cloud Logging logger.
#[derive(Debug)]
pub struct Builder {
    /// The `logName` of each entry.
    pub log_name: String,
    /// The label under which an entry's log level is recorded, if any.
    pub log_level_label: Option<String>,
    /// The `type` of the monitored resource, such as `k8s_container`.
    pub resource_type: String,
    /// Labels added to every entry.
    pub default_labels: Vec<(String, String)>,
    /// The labels of the monitored resource, if any.
    pub resource_labels: Option<Vec<(String, String)>>,
}

impl Builder {
    /// Settings for the log `log_name` of a resource of type
    /// `resource_type`, with no labels.
    pub fn new(log_name: &str, resource_type: &str) -> (r: Builder)
        ensures
            r.log_name@ == log_name@,
            r.resource_type@ == resource_type@,
            r.log_level_label is None,
            r.default_labels@.len() == 0,
            r.resource_labels is None,
    {
        Builder {
            log_name: log_name.to_owned(),
            log_level_label: None,
            resource_type: resource_type.to_owned(),
            default_labels: Vec::new(),
            resource_labels: None,
        }
    }

    /// Records each entry's log level under the label `log_level_label`.
    pub fn with_log_level_label(self, log_level_label: &str) -> (r: Builder)
        ensures
            r.log_level_label matches Some(l) && l@ == log_level_label@,
            r.log_name == self.log_name,
            r.resource_type == self.resource_type,
            r.default_labels == self.default_labels,
            r.resource_labels == self.resource_labels,
    {
        Builder { log_level_label: Some(log_level_label.to_owned()), ..self }
    }

    /// Sets the labels added to every entry.
    pub fn with_default_labels(self, labels: Vec<(String, String)>) -> (r: Builder)
        ensures
            r.default_labels == labels,
            r.log_name == self.log_name,
            r.log_level_label == self.log_level_label,
            r.resource_type == self.resource_type,
            r.resource_labels == self.resource_labels,
    {
        Builder { default_labels: labels, ..self }
    }

    /// Sets the labels of the monitored resource.
    pub fn with_resource_labels(self, labels: Vec<(String, String)>) -> (r: Builder)
        ensures
            r.resource_labels == Some(labels),
            r.log_name == self.log_name,
            r.log_level_label == self.log_level_label,
            r.resource_type == self.resource_type,
            r.default_labels == self.default_labels,
    {
        Builder { resource_labels: Some(labels), ..self }
    }
}

/// The level of a log record.
#[derive(Clone, Copy, Debug, PartialEq, Eq, Structural)]
pub enum Level {
    Critical,
    Error,
    Warning,
    Info,
    Debug,
    Trace,
}

/// The Cloud Logging severity of a record of level `l`.
pub open spec fn severity_of(l: Level) -> Seq<char> {
    match l {
        Level::Critical => "CRITICAL"@,
        Level::Error => "ERROR"@,
        Level::Warning => "WARNING"@,
        Level::Info => "INFO"@,
        Level::Debug => "DEBUG"@,
        Level::Trace => "DEBUG"@,
    }
}

/// The Cloud Logging severity of a record of level `l`; trace records are
/// reported as debug.
pub fn get_severity(l: Level) -> (r: String)
    ensures
        r@ == severity_of(l),
{
    match l {
        Level::Critical => "CRITICAL".to_owned(),
        Level::Error => "ERROR".to_owned(),
        Level::Warning => "WARNING".to_owned(),
        Level::Info => "INFO".to_owned(),
        Level::Debug | Level::Trace => "DEBUG".to_owned(),
    }
}

} // verus!
