//! Validation of a configuration bundle.

use vstd::prelude::*;

pub mod expand;
pub mod schema;

pub use schema::AgentConfig;
pub use schema::AgentSettings;
pub use schema::CsvSourceConfig;
pub use schema::HttpSourceConfig;
pub use schema::JsonSourceConfig;
pub use schema::LogRotation;
pub use schema::LoggingSettings;
pub use schema::PoiSettings;
pub use schema::RetrySettings;
pub use schema::SourceConfig;
pub use schema::SourceType;
pub use schema::SupabaseSettings;
pub use schema::UpdateSettings;

use crate::error::ConfigError;

verus! {

impl SourceConfig {
    /// The first rule that the section named by `source_type` breaks, if any.
    pub open spec fn violation(&self) -> Option<Seq<char>> {
        match self.source_type {
            SourceType::Csv => match self.csv {
                None => Some("source.csv is required when type is 'csv'"@),
                Some(csv) => if csv.value_field@.len() == 0 {
                    Some("source.csv.value_field cannot be empty"@)
                } else if csv.unit@.len() == 0 {
                    Some("source.csv.unit cannot be empty"@)
                } else {
                    None
                },
            },
            SourceType::Json => match self.json {
                None => Some("source.json is required when type is 'json'"@),
                Some(json) => if json.json_path@.len() == 0 {
                    Some("source.json.json_path cannot be empty"@)
                } else if json.unit@.len() == 0 {
                    Some("source.json.unit cannot be empty"@)
                } else {
                    None
                },
            },
            SourceType::Http => match self.http {
                None => Some("source.http is required when type is 'http'"@),
                Some(http) => if http.url@.len() == 0 {
                    Some("source.http.url cannot be empty"@)
                } else if http.json_path@.len() == 0 {
                    Some("source.http.json_path cannot be empty"@)
                } else if http.unit@.len() == 0 {
                    Some("source.http.unit cannot be empty"@)
                } else {
                    None
                },
            },
        }
    }

    /// The section named by `source_type` is present and its required
    /// settings are filled in.
    pub open spec fn well_formed(&self) -> bool {
        match self.source_type {
            SourceType::Csv => self.csv matches Some(csv) && csv.value_field@.len() > 0
                && csv.unit@.len() > 0,
            SourceType::Json => self.json matches Some(json) && json.json_path@.len() > 0
                && json.unit@.len() > 0,
            SourceType::Http => self.http matches Some(http) && http.url@.len() > 0
                && http.json_path@.len() > 0 && http.unit@.len() > 0,
        }
    }

    /// Checks the section named by `source_type`.
    pub fn validate(&self) -> (r: Result<(), ConfigError>)
        ensures
            r is Ok <==> self.well_formed(),
            match r {
                Ok(_) => self.violation() is None,
                Err(e) => e matches ConfigError::ValidationError(text) && self.violation() == Some(
                    text@,
                ),
            },
    {
        match self.source_type {
            SourceType::Csv => {
                match &self.csv {
                    None => Err(rejected("source.csv is required when type is 'csv'")),
                    Some(csv) => {
                        if csv.value_field.as_str().is_empty() {
                            Err(rejected("source.csv.value_field cannot be empty"))
                        } else if csv.unit.as_str().is_empty() {
                            Err(rejected("source.csv.unit cannot be empty"))
                        } else {
                            Ok(())
                        }
                    },
                }
            },
            SourceType::Json => {
                match &self.json {
                    None => Err(rejected("source.json is required when type is 'json'")),
                    Some(json) => {
                        if json.json_path.as_str().is_empty() {
                            Err(rejected("source.json.json_path cannot be empty"))
                        } else if json.unit.as_str().is_empty() {
                            Err(rejected("source.json.unit cannot be empty"))
                        } else {
                            Ok(())
                        }
                    },
                }
            },
            SourceType::Http => {
                match &self.http {
                    None => Err(rejected("source.http is required when type is 'http'")),
                    Some(http) => {
                        if http.url.as_str().is_empty() {
                            Err(rejected("source.http.url cannot be empty"))
                        } else if http.json_path.as_str().is_empty() {
                            Err(rejected("source.http.json_path cannot be empty"))
                        } else if http.unit.as_str().is_empty() {
                            Err(rejected("source.http.unit cannot be empty"))
                        } else {
                            Ok(())
                        }
                    },
                }
            },
        }
    }
}

impl AgentConfig {
    /// The first rule that the bundle breaks, in the order in which the rules
    /// are checked, if any.
    pub open spec fn violation(&self) -> Option<Seq<char>> {
        if self.agent.instance_id@.len() == 0 {
            Some("agent.instance_id cannot be empty"@)
        } else if self.agent.polling_interval_secs == 0 {
            Some("agent.polling_interval_secs must be greater than 0"@)
        } else if self.poi.api_key@.len() == 0 {
            Some("poi.api_key cannot be empty"@)
        } else if self.supabase.url@.len() == 0 {
            Some("supabase.url cannot be empty"@)
        } else if self.supabase.anon_key@.len() == 0 {
            Some("supabase.anon_key cannot be empty"@)
        } else {
            self.source.violation()
        }
    }

    /// What every component may rely on after startup: identity, credential
    /// and endpoint are filled in, the polling interval is positive, and the
    /// source section matches its declared type.
    pub open spec fn well_formed(&self) -> bool {
        &&& self.agent.instance_id@.len() > 0
        &&& self.agent.polling_interval_secs > 0
        &&& self.poi.api_key@.len() > 0
        &&& self.supabase.url@.len() > 0
        &&& self.supabase.anon_key@.len() > 0
        &&& self.source.well_formed()
    }

    /// Accepts exactly the well-formed bundles, and names the first broken
    /// rule of any other.
    pub fn validate(&self) -> (r: Result<(), ConfigError>)
        ensures
            r is Ok <==> self.well_formed(),
            match r {
                Ok(_) => self.violation() is None,
                Err(e) => e matches ConfigError::ValidationError(text) && self.violation() == Some(
                    text@,
                ),
            },
    {
        if self.agent.instance_id.as_str().is_empty() {
            return Err(rejected("agent.instance_id cannot be empty"));
        }
        if self.agent.polling_interval_secs == 0 {
            return Err(rejected("agent.polling_interval_secs must be greater than 0"));
        }
        if self.poi.api_key.as_str().is_empty() {
            return Err(rejected("poi.api_key cannot be empty"));
        }
        if self.supabase.url.as_str().is_empty() {
            return Err(rejected("supabase.url cannot be empty"));
        }
        if self.supabase.anon_key.as_str().is_empty() {
            return Err(rejected("supabase.anon_key cannot be empty"));
        }
        self.source.validate()
    }
}

fn rejected(rule: &str) -> (e: ConfigError)
    ensures
        e matches ConfigError::ValidationError(text) && text@ == rule@,
{
    ConfigError::ValidationError(String::from_str(rule))
}

} // verus!
