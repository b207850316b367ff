mod backoff;
mod call_option;
mod substring;

pub use backoff::advanced;
pub use backoff::advanced_n;
pub use backoff::envelope_of;
pub use backoff::grown_envelope;
pub use backoff::lemma_envelope_converges;
pub use backoff::lemma_envelope_nondecreasing;
pub use backoff::lemma_envelope_pinned_at_max;
pub use backoff::lemma_envelope_strict_growth;
pub use backoff::next_envelope;
pub use backoff::Backoff;
pub use call_option::internal_transient;
pub use call_option::is_internal_transient;
pub use call_option::session_not_found;
pub use call_option::should_retry;
pub use call_option::BackoffRetryer;
pub use call_option::CallSettings;
pub use call_option::Code;
pub use call_option::Retryer;
pub use call_option::Status;
pub use substring::contains_seq;
pub use substring::matches_at;
pub use substring::str_contains;
