//! Validation of the settings of an admission policy that looks at the
//! annotation keys of a resource.
//!
//! A [`settings::Settings`] value wraps a [`criterion::Criterion`]: a matching
//! strategy together with the annotation keys it is configured with.
//! Validation first asks the criterion for its own structural check and then
//! holds every configured key to the annotation naming rule, which is a regular
//! expression evaluated by the `regex` crate.
pub mod criterion;
pub mod pattern;
pub mod settings;
pub mod text;
