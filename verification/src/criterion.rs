//! The matching criterion that the settings carry.
use vstd::prelude::*;
use vstd::string::StringExecFns;

verus! {

/// The message of the structural check on a criterion without keys.
pub const EMPTY_VALUES_MESSAGE: &'static str = "values cannot be empty";

/// A matching strategy and the annotation keys it is configured with.
///
/// The keys form a set: `distinct` says that no key is listed twice. The order
/// of the list carries no meaning beyond the order in which keys are reported.
#[derive(Debug, Clone)]
pub enum Criterion {
    /// Matches when at least one configured key is present.
    ContainsAnyOf { values: Vec<String> },
    /// Matches when every configured key is present.
    ContainsAllOf { values: Vec<String> },
    /// Matches when none of the configured keys is present.
    DoesNotContainAnyOf { values: Vec<String> },
    /// Matches when at least one configured key is absent.
    DoesNotContainAllOf { values: Vec<String> },
}

impl Criterion {
    /// The configured keys as texts, in the order in which they are listed.
    pub open spec fn keys(&self) -> Seq<Seq<char>> {
        match self {
            Criterion::ContainsAnyOf { values } => values.deep_view(),
            Criterion::ContainsAllOf { values } => values.deep_view(),
            Criterion::DoesNotContainAnyOf { values } => values.deep_view(),
            Criterion::DoesNotContainAllOf { values } => values.deep_view(),
        }
    }

    /// No key is configured twice.
    pub open spec fn distinct(&self) -> bool {
        self.keys().no_duplicates()
    }

    /// The configured keys.
    pub fn values(&self) -> (values: &Vec<String>)
        ensures
            values.deep_view() == self.keys(),
    {
        match self {
            Criterion::ContainsAnyOf { values } => values,
            Criterion::ContainsAllOf { values } => values,
            Criterion::DoesNotContainAnyOf { values } => values,
            Criterion::DoesNotContainAllOf { values } => values,
        }
    }

    /// The structural check: a criterion needs at least one key.
    pub fn validate(&self) -> (checked: Result<(), String>)
        ensures
            checked is Ok <==> self.keys().len() > 0,
            checked matches Err(message) ==> message@ == EMPTY_VALUES_MESSAGE@,
    {
        if self.values().len() == 0 {
            Err(String::from_str(EMPTY_VALUES_MESSAGE))
        } else {
            Ok(())
        }
    }
}

} // verus!
