//! The configuration bundle and its default values.
//!
//! Two settings are real-valued in the file format. The factor that scales a
//! raw value into the reported unit is carried as the bit pattern of an
//! IEEE 754 double, because nothing here computes with it. The growth factor
//! of the retry backoff is carried in thousandths, because the backoff
//! schedule is computed here, in integer arithmetic.

use vstd::prelude::*;

verus! {

/// Everything the agent is started with. Read-only after startup.
#[derive(Debug, Clone)]
pub struct AgentConfig {
    pub agent: AgentSettings,
    pub poi: PoiSettings,
    pub supabase: SupabaseSettings,
    pub source: SourceConfig,
    pub logging: LoggingSettings,
    pub update: UpdateSettings,
    pub retry: RetrySettings,
}

#[derive(Debug, Clone)]
pub struct AgentSettings {
    pub instance_id: String,
    /// Seconds between two polling cycles; must be positive.
    pub polling_interval_secs: u64,
    pub verbose: bool,
}

#[derive(Debug, Clone)]
pub struct PoiSettings {
    /// The credential sent with every delivered reading.
    pub api_key: String,
}

#[derive(Debug, Clone)]
pub struct SupabaseSettings {
    pub url: String,
    pub anon_key: String,
    pub rpc_endpoint: String,
    pub timeout_secs: u64,
}

/// Which source is polled. Exactly the section named by `source_type` is used.
#[derive(Debug, Clone)]
pub struct SourceConfig {
    pub source_type: SourceType,
    pub csv: Option<CsvSourceConfig>,
    pub json: Option<JsonSourceConfig>,
    pub http: Option<HttpSourceConfig>,
}

#[derive(Debug, Clone, Copy, PartialEq, Eq)]
pub enum SourceType {
    Csv,
    Json,
    Http,
}

#[derive(Debug, Clone)]
pub struct CsvSourceConfig {
    pub path: String,
    /// Name of the column that holds the value, or its zero-based index.
    pub value_field: String,
    pub unit: String,
    /// Take the last data row rather than the first.
    pub read_last_row: bool,
    pub delimiter: String,
    /// Number of leading data rows to pass over.
    pub skip_headers: usize,
    /// Scale factor, as the bit pattern of a double.
    pub multiplier_bits: u64,
}

#[derive(Debug, Clone)]
pub struct JsonSourceConfig {
    pub path: String,
    pub json_path: String,
    pub unit: String,
    /// Scale factor, as the bit pattern of a double.
    pub multiplier_bits: u64,
}

#[derive(Debug, Clone)]
pub struct HttpSourceConfig {
    pub url: String,
    pub method: String,
    pub json_path: String,
    pub unit: String,
    /// Request headers as name and value.
    pub headers: Vec<(String, String)>,
    pub timeout_secs: u64,
    /// Scale factor, as the bit pattern of a double.
    pub multiplier_bits: u64,
}

#[derive(Debug, Clone)]
pub struct LoggingSettings {
    pub level: String,
    pub directory: Option<String>,
    pub console_output: bool,
    pub rotation: LogRotation,
    pub max_files: usize,
}

#[derive(Debug, Clone, Copy, PartialEq, Eq)]
pub enum LogRotation {
    Daily,
    Hourly,
    Never,
}

#[derive(Debug, Clone)]
pub struct UpdateSettings {
    pub enabled: bool,
    pub check_interval_hours: u64,
    pub update_url: String,
    pub channel: String,
}

/// Bounds of the retry policy around one delivery.
#[derive(Debug, Clone, Copy, PartialEq, Eq)]
pub struct RetrySettings {
    /// Upper bound on the number of attempts; zero behaves as one.
    pub max_attempts: u32,
    /// Wait before the second attempt, in milliseconds.
    pub initial_delay_ms: u64,
    /// Cap on every later wait, in milliseconds.
    pub max_delay_ms: u64,
    /// Growth factor of the wait, in thousandths: 2000 doubles it.
    pub multiplier_permille: u64,
}

/// The bit pattern of the double 1.0.
pub const UNIT_MULTIPLIER_BITS: u64 = 0x3FF0_0000_0000_0000;

pub fn default_polling_interval() -> (r: u64)
    ensures
        r == 60,
{
    60
}

pub fn default_rpc_endpoint() -> (r: String)
    ensures
        r@ == "/rest/v1/rpc/insert_live_data"@,
{
    String::from_str("/rest/v1/rpc/insert_live_data")
}

pub fn default_timeout() -> (r: u64)
    ensures
        r == 30,
{
    30
}

pub fn default_true() -> (r: bool)
    ensures
        r,
{
    true
}

pub fn default_delimiter() -> (r: String)
    ensures
        r@ == ","@,
{
    String::from_str(",")
}

pub fn default_http_method() -> (r: String)
    ensures
        r@ == "GET"@,
{
    String::from_str("GET")
}

pub fn default_http_timeout() -> (r: u64)
    ensures
        r == 10,
{
    10
}

pub fn default_log_level() -> (r: String)
    ensures
        r@ == "info"@,
{
    String::from_str("info")
}

pub fn default_max_files() -> (r: usize)
    ensures
        r == 7,
{
    7
}

pub fn default_check_interval() -> (r: u64)
    ensures
        r == 24,
{
    24
}

pub fn default_channel() -> (r: String)
    ensures
        r@ == "stable"@,
{
    String::from_str("stable")
}

pub fn default_max_attempts() -> (r: u32)
    ensures
        r == 5,
{
    5
}

pub fn default_initial_delay() -> (r: u64)
    ensures
        r == 1000,
{
    1000
}

pub fn default_max_delay() -> (r: u64)
    ensures
        r == 60000,
{
    60000
}

/// The default growth factor of the backoff: two, in thousandths.
pub fn default_multiplier() -> (r: u64)
    ensures
        r == 2000,
{
    2000
}

/// The default scale factor: one, as the bit pattern of a double.
pub fn default_multiplier_one() -> (r: u64)
    ensures
        r == UNIT_MULTIPLIER_BITS,
{
    UNIT_MULTIPLIER_BITS
}

impl Default for LogRotation {
    fn default() -> (r: LogRotation)
        ensures
            r == LogRotation::Daily,
    {
        LogRotation::Daily
    }
}

impl Default for LoggingSettings {
    fn default() -> (r: LoggingSettings)
        ensures
            r.level@ == "info"@,
            r.directory is None,
            r.console_output,
            r.rotation == LogRotation::Daily,
            r.max_files == 7,
    {
        LoggingSettings {
            level: default_log_level(),
            directory: None,
            console_output: true,
            rotation: LogRotation::Daily,
            max_files: default_max_files(),
        }
    }
}

impl Default for UpdateSettings {
    fn default() -> (r: UpdateSettings)
        ensures
            !r.enabled,
            r.check_interval_hours == 24,
            r.update_url@.len() == 0,
            r.channel@ == "stable"@,
    {
        UpdateSettings {
            enabled: false,
            check_interval_hours: default_check_interval(),
            update_url: String::new(),
            channel: default_channel(),
        }
    }
}

impl Default for RetrySettings {
    fn default() -> (r: RetrySettings)
        ensures
            r == (RetrySettings {
                max_attempts: 5,
                initial_delay_ms: 1000,
                max_delay_ms: 60000,
                multiplier_permille: 2000,
            }),
    {
        RetrySettings {
            max_attempts: default_max_attempts(),
            initial_delay_ms: default_initial_delay(),
            max_delay_ms: default_max_delay(),
            multiplier_permille: default_multiplier(),
        }
    }
}

} // verus!
