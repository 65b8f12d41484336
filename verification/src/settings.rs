//! The settings of the policy and their validation.
use crate::criterion::Criterion;
use crate::criterion::EMPTY_VALUES_MESSAGE;
use crate::pattern::match_pattern;
use crate::pattern::pattern_compiles;
use crate::pattern::regex_compiles;
use crate::pattern::regex_is_match;
use crate::text::join;
use crate::text::joined;
use vstd::prelude::*;
use vstd::string::StringExecFns;

verus! {

/// The naming rule for annotation keys, anchored at both ends.
///
/// An optional prefix of dot-separated labels closed by one `/`: each label is
/// made of lowercase letters, digits and hyphens and neither starts nor ends
/// with a hyphen. Then the key proper: letters, digits, `_`, `.` and `-`,
/// starting and ending with a letter or digit. Lengths are not limited.
pub const ANNOTATIONS_NAME_REGEX: &'static str =
    r"^([a-z0-9]([-a-z0-9]*[a-z0-9])?(\.[a-z0-9]([-a-z0-9]*[a-z0-9])?)*/)?[A-Za-z0-9]([A-Za-z0-9_.-]*[A-Za-z0-9])?$";

/// What opens the message that reports ill-formed keys.
pub const INVALID_NAMES_PREFIX: &'static str = "Invalid annotation names: ";

/// What stands between two reported keys.
pub const INVALID_NAMES_SEPARATOR: &'static str = ", ";

/// The settings of the policy: one criterion.
#[derive(Debug, Clone)]
pub struct Settings(pub Criterion);

/// `name` is a well-formed annotation key: the naming rule matches it.
pub open spec fn valid_annotation_name(name: Seq<char>) -> bool {
    regex_is_match(ANNOTATIONS_NAME_REGEX@, name)
}

/// The test that picks the ill-formed keys.
pub open spec fn ill_formed() -> spec_fn(Seq<char>) -> bool {
    |name: Seq<char>| !valid_annotation_name(name)
}

/// The ill-formed keys among `keys`, each as often and in the order in which
/// `keys` lists it.
pub open spec fn invalid_names(keys: Seq<Seq<char>>) -> Seq<Seq<char>> {
    keys.filter(ill_formed())
}

/// The message that reports the ill-formed keys `invalid`.
pub open spec fn invalid_names_message(invalid: Seq<Seq<char>>) -> Seq<char> {
    INVALID_NAMES_PREFIX@ + joined(invalid, INVALID_NAMES_SEPARATOR@)
}

/// A validation result with its message as a text.
pub open spec fn outcome(checked: Result<(), String>) -> Result<(), Seq<char>> {
    match checked {
        Ok(_) => Ok(()),
        Err(message) => Err(message@),
    }
}

/// What reporting the ill-formed keys `invalid` comes to: success where there
/// are none, else the message that lists them.
pub open spec fn naming_outcome(invalid: Seq<Seq<char>>) -> Result<(), Seq<char>> {
    if invalid.len() == 0 {
        Ok(())
    } else {
        Err(invalid_names_message(invalid))
    }
}

/// What validating a criterion with the keys `keys` comes to: the structural
/// failure where there is no key, else the report on the ill-formed keys.
pub open spec fn validation_outcome(keys: Seq<Seq<char>>) -> Result<(), Seq<char>> {
    if keys.len() == 0 {
        Err(EMPTY_VALUES_MESSAGE@)
    } else {
        naming_outcome(invalid_names(keys))
    }
}

/// Listing one more key adds it to the ill-formed keys exactly when the
/// naming rule does not match it.
pub proof fn lemma_invalid_names_push(keys: Seq<Seq<char>>, name: Seq<char>)
    ensures
        invalid_names(keys.push(name)) == if valid_annotation_name(name) {
            invalid_names(keys)
        } else {
            invalid_names(keys).push(name)
        },
{
    reveal(Seq::filter);
    assert(keys.push(name).drop_last() == keys);
}

/// The ill-formed keys are reported exactly: a text is among them if and only
/// if it is a configured key that the naming rule does not match.
pub proof fn lemma_invalid_names_members(keys: Seq<Seq<char>>)
    ensures
        forall|name: Seq<char>|
            invalid_names(keys).contains(name) <==> keys.contains(name) && !valid_annotation_name(
                name,
            ),
{
    let found = invalid_names(keys);
    assert forall|name: Seq<char>| found.contains(name) implies keys.contains(name)
        && !valid_annotation_name(name) by {
        let i = choose|i: int| 0 <= i < found.len() && found[i] == name;
        keys.lemma_filter_pred(ill_formed(), i);
        keys.lemma_filter_contains_rev(ill_formed(), name);
    }
    assert forall|name: Seq<char>| keys.contains(name) && !valid_annotation_name(
        name,
    ) implies found.contains(name) by {
        let i = choose|i: int| 0 <= i < keys.len() && keys[i] == name;
        keys.lemma_filter_contains(ill_formed(), i);
    }
}

/// Where no key is configured twice, none is reported twice.
pub proof fn lemma_invalid_names_distinct(keys: Seq<Seq<char>>)
    requires
        keys.no_duplicates(),
    ensures
        invalid_names(keys).no_duplicates(),
    decreases keys.len(),
{
    if keys.len() == 0 {
        keys.lemma_filter_len(ill_formed());
    } else {
        let rest = keys.drop_last();
        let last = keys.last();
        assert(keys == rest.push(last));
        lemma_invalid_names_distinct(rest);
        lemma_invalid_names_push(rest, last);
        lemma_invalid_names_members(rest);
        if rest.contains(last) {
            let i = choose|i: int| 0 <= i < rest.len() && rest[i] == last;
            assert(keys[i] == keys[keys.len() - 1]);
        }
    }
}

/// Turns the list of ill-formed keys into the validation result: success for
/// an empty list, else one message that names every listed key.
pub fn report_invalid_names(invalid: &Vec<String>) -> (checked: Result<(), String>)
    ensures
        outcome(checked) == naming_outcome(invalid.deep_view()),
{
    if invalid.len() == 0 {
        Ok(())
    } else {
        let mut message = String::from_str(INVALID_NAMES_PREFIX);
        let listed = join(invalid, INVALID_NAMES_SEPARATOR);
        message.append(listed.as_str());
        Err(message)
    }
}

/// Whether `name` is a well-formed annotation key.
pub fn is_valid_annotation_name(name: &str) -> (valid: bool)
    requires
        regex_compiles(ANNOTATIONS_NAME_REGEX@),
    ensures
        valid == valid_annotation_name(name@),
{
    match match_pattern(ANNOTATIONS_NAME_REGEX, name) {
        Some(verdict) => verdict,
        None => vstd::pervasive::unreached(),
    }
}

/// Whether `name` is a well-formed annotation key; `None` where the regular
/// expression engine refuses the naming rule.
pub fn check_annotation_name(name: &str) -> (valid: Option<bool>)
    ensures
        valid is Some <==> regex_compiles(ANNOTATIONS_NAME_REGEX@),
        valid matches Some(verdict) ==> verdict == valid_annotation_name(name@),
{
    if pattern_compiles(ANNOTATIONS_NAME_REGEX) {
        Some(is_valid_annotation_name(name))
    } else {
        None
    }
}

/// The ill-formed keys among `keys`, in the order of `keys`.
pub fn collect_invalid_names(keys: &Vec<String>) -> (invalid: Vec<String>)
    requires
        regex_compiles(ANNOTATIONS_NAME_REGEX@),
    ensures
        invalid.deep_view() == invalid_names(keys.deep_view()),
{
    let mut invalid: Vec<String> = Vec::new();
    let n: usize = keys.len();
    let mut i: usize = 0;
    while i < n
        invariant
            n == keys.len(),
            i <= n,
            regex_compiles(ANNOTATIONS_NAME_REGEX@),
            invalid.deep_view() == invalid_names(keys.deep_view().take(i as int)),
        decreases n - i,
    {
        let ghost before = invalid.deep_view();
        let valid = is_valid_annotation_name(keys[i].as_str());
        if !valid {
            invalid.push(keys[i].clone());
        }
        proof {
            let seen = keys.deep_view().take(i as int);
            assert(keys.deep_view().take(i + 1) == seen.push(keys[i as int]@));
            lemma_invalid_names_push(seen, keys[i as int]@);
            if !valid {
                assert(invalid.deep_view() == before.push(keys[i as int]@));
            }
        }
        i = i + 1;
    }
    proof {
        assert(keys.deep_view().take(n as int) == keys.deep_view());
    }
    invalid
}

impl Default for Settings {
    /// The fallback value: "any of" with no key. It does not pass validation.
    fn default() -> (settings: Settings)
        ensures
            settings.0 matches Criterion::ContainsAnyOf { values } && values@.len() == 0,
            settings.keys().len() == 0,
            settings.0.distinct(),
    {
        Settings(Criterion::ContainsAnyOf { values: Vec::new() })
    }
}

impl Settings {
    /// The configured keys as texts.
    pub open spec fn keys(&self) -> Seq<Seq<char>> {
        self.0.keys()
    }

    /// At least one key is configured and the naming rule matches every key.
    pub open spec fn well_formed(&self) -> bool {
        &&& self.keys().len() > 0
        &&& forall|i: int| 0 <= i < self.keys().len() ==> valid_annotation_name(#[trigger] self.keys()[i])
    }

    /// Validates the settings: first the criterion's structural check, whose
    /// message is passed on unchanged, then the naming rule on every key.
    ///
    /// The naming rule is consulted only for a criterion that passed the
    /// structural check, so only then must the engine accept it.
    pub fn validate(&self) -> (checked: Result<(), String>)
        requires
            self.keys().len() > 0 ==> regex_compiles(ANNOTATIONS_NAME_REGEX@),
        ensures
            outcome(checked) == validation_outcome(self.keys()),
            checked is Ok <==> self.well_formed(),
    {
        proof {
            lemma_passes_iff_well_formed(*self);
        }
        match self.0.validate() {
            Err(message) => Err(message),
            Ok(_) => {
                let invalid = collect_invalid_names(self.0.values());
                report_invalid_names(&invalid)
            },
        }
    }

    /// Validates the settings wherever that is possible: `None` where keys are
    /// configured and the regular expression engine refuses the naming rule.
    pub fn try_validate(&self) -> (checked: Option<Result<(), String>>)
        ensures
            checked is None <==> self.keys().len() > 0 && !regex_compiles(ANNOTATIONS_NAME_REGEX@),
            checked matches Some(result) ==> outcome(result) == validation_outcome(self.keys()),
            checked matches Some(result) ==> (result is Ok <==> self.well_formed()),
    {
        if self.0.values().len() == 0 || pattern_compiles(ANNOTATIONS_NAME_REGEX) {
            Some(self.validate())
        } else {
            None
        }
    }
}

/// Validation succeeds exactly on settings with at least one key whose keys
/// are all well-formed.
pub proof fn lemma_passes_iff_well_formed(settings: Settings)
    ensures
        validation_outcome(settings.keys()) is Ok <==> settings.well_formed(),
{
    let keys = settings.keys();
    lemma_invalid_names_members(keys);
    let found = invalid_names(keys);
    if keys.len() > 0 {
        if found.len() > 0 {
            assert(found.contains(found[0]));
            let i = choose|i: int| 0 <= i < keys.len() && keys[i] == found[0];
            assert(!valid_annotation_name(keys[i]));
        } else {
            assert forall|i: int| 0 <= i < keys.len() implies valid_annotation_name(
                #[trigger] keys[i],
            ) by {
                if !valid_annotation_name(keys[i]) {
                    assert(keys.contains(keys[i]));
                    assert(found.contains(keys[i]));
                }
            }
        }
    }
}

/// Settings with at least one key, all of them well-formed, pass validation.
pub proof fn lemma_well_formed_keys_pass(settings: Settings)
    requires
        settings.keys().len() > 0,
        forall|i: int|
            0 <= i < settings.keys().len() ==> valid_annotation_name(#[trigger] settings.keys()[i]),
    ensures
        validation_outcome(settings.keys()) == Ok::<(), Seq<char>>(()),
{
    lemma_passes_iff_well_formed(settings);
}

/// Settings with an ill-formed key fail validation. The message is the
/// opening text followed by the reported keys, joined by the separator; the
/// reported keys are exactly the ill-formed ones among the configured keys,
/// and none is reported twice where none is configured twice.
pub proof fn lemma_ill_formed_key_fails(settings: Settings, name: Seq<char>)
    requires
        settings.keys().contains(name),
        !valid_annotation_name(name),
    ensures
        validation_outcome(settings.keys()) == Err::<(), Seq<char>>(
            INVALID_NAMES_PREFIX@ + joined(
                invalid_names(settings.keys()),
                INVALID_NAMES_SEPARATOR@,
            ),
        ),
        forall|key: Seq<char>|
            invalid_names(settings.keys()).contains(key) <==> settings.keys().contains(key)
                && !valid_annotation_name(key),
        settings.0.distinct() ==> invalid_names(settings.keys()).no_duplicates(),
{
    let keys = settings.keys();
    lemma_invalid_names_members(keys);
    assert(invalid_names(keys).contains(name));
    if keys.no_duplicates() {
        lemma_invalid_names_distinct(keys);
    }
}

/// Settings without keys fail with the message of the structural check,
/// whatever the naming rule says.
pub proof fn lemma_no_keys_fail_structurally(settings: Settings)
    requires
        settings.keys().len() == 0,
    ensures
        validation_outcome(settings.keys()) == Err::<(), Seq<char>>(EMPTY_VALUES_MESSAGE@),
{
}

/// The two kinds of failure never share a message: a report of ill-formed
/// keys differs from the message of the structural check.
pub proof fn lemma_failures_are_told_apart(invalid: Seq<Seq<char>>)
    ensures
        invalid_names_message(invalid) != EMPTY_VALUES_MESSAGE@,
{
    reveal_strlit("Invalid annotation names: ");
    reveal_strlit("values cannot be empty");
    assert(invalid_names_message(invalid)[0] == 'I');
    assert(EMPTY_VALUES_MESSAGE@[0] == 'v');
}

/// Validation is repeatable: two results for the same settings agree, in
/// success and in message.
pub proof fn lemma_validation_repeatable(
    settings: Settings,
    first: Result<(), String>,
    second: Result<(), String>,
)
    requires
        outcome(first) == validation_outcome(settings.keys()),
        outcome(second) == validation_outcome(settings.keys()),
    ensures
        outcome(first) == outcome(second),
{
}

} // verus!
