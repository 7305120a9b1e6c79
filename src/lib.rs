//! License activation client: machine fingerprinting, interpretation of the
//! license authority's answer, and the single-slot local license record.
pub mod fingerprint;
pub mod license;
pub mod slot;
