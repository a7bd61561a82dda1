//! The delivery path: one attempt, and the retry policy around it.

pub mod retry;
pub mod supabase;

pub use retry::RetryDecision;
pub use retry::RetryState;
pub use supabase::SupabaseClient;
