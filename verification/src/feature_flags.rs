//! Feature flags: named switches that operators set while the service runs.
//! A flag is stored as a row of text; a boolean flag's value is `1`, `0`, or
//! not set.

use crate::error::BotError;
use crate::reconciliation::ReconcilePolicy;
use vstd::prelude::*;

verus! {

/// The flag that allows a reconciliation pass to remove the verified role.
pub const ROLE_REMOVAL_FLAG: &'static str = "verification_role_removal";

/// The flag that allows a reconciliation pass to grant the verified role.
pub const ROLE_ADDITION_FLAG: &'static str = "verification_role_addition";

/// The flag that decides whether a record needs an account link to count as
/// verified.
pub const LINK_REQUIRED_FLAG: &'static str = "verification_verified_requires_paid";

/// Represents the actual underlying data of a flag as it is stored.
#[derive(Debug, PartialEq, Eq)]
pub struct FeatureFlagModel {
    pub name: String,
    pub value: Option<String>,
    /// Flag type as SQL type name.
    pub flag_type: String,
}

/// What a [`FeatureFlagModel`] holds, as mathematical values.
pub ghost struct FeatureFlagModelView {
    pub name: Seq<char>,
    pub value: Option<Seq<char>>,
    pub flag_type: Seq<char>,
}

impl View for FeatureFlagModel {
    type V = FeatureFlagModelView;

    open spec fn view(&self) -> FeatureFlagModelView {
        FeatureFlagModelView {
            name: self.name@,
            value: match self.value {
                Some(text) => Some(text@),
                None => None,
            },
            flag_type: self.flag_type@,
        }
    }
}

impl DeepView for FeatureFlagModel {
    type V = FeatureFlagModelView;

    open spec fn deep_view(&self) -> FeatureFlagModelView {
        self@
    }
}

/// The stored text of a boolean value.
pub open spec fn encoded(value: Option<bool>) -> Option<Seq<char>> {
    match value {
        Some(true) => Some("1"@),
        Some(false) => Some("0"@),
        None => None,
    }
}

/// The boolean value of the stored text of a well-formed flag: false for `0`,
/// true for `1`, and none where no text is stored.
pub open spec fn decoded(text: Option<Seq<char>>) -> Option<bool>
    recommends
        is_boolean_text(text),
{
    match text {
        Some(t) => Some(t != "0"@),
        None => None,
    }
}

/// The text is that of a boolean value: `0`, `1`, or none.
pub open spec fn is_boolean_text(text: Option<Seq<char>>) -> bool {
    text is None || text == Some("0"@) || text == Some("1"@)
}

/// A stored boolean value reads back as it was written.
pub proof fn lemma_encoded_reads_back(value: Option<bool>)
    ensures
        is_boolean_text(encoded(value)),
        decoded(encoded(value)) == value,
{
    reveal_strlit("0");
    reveal_strlit("1");
    if value == Some(true) {
        assert("1"@.len() == 1);
        assert("1"@[0] != "0"@[0]);
    }
}

fn encode(value: Option<bool>) -> (text: Option<String>)
    ensures
        text.deep_view() == encoded(value),
{
    match value {
        Some(true) => Some("1".to_owned()),
        Some(false) => Some("0".to_owned()),
        None => None,
    }
}

/// Represents a specific feature flag type we expect: the type of its value,
/// reading the value, and writing it.
pub trait FeatureFlag: Sized {
    type RustType;

    /// The stored text is one that a flag of this type can hold.
    spec fn well_formed(&self) -> bool;

    /// The value that the flag holds.
    spec fn current(&self) -> Option<Self::RustType>;

    /// Get the cached value.
    fn value(&self) -> (value: Option<Self::RustType>)
        requires
            self.well_formed(),
        ensures
            value == self.current(),
    ;

    /// Sets the cached value; the caller writes it to the store.
    fn set_value(&mut self, value: Option<Self::RustType>)
        ensures
            final(self).well_formed(),
            final(self).current() == value,
    ;
}

/// A boolean feature flag.
#[derive(Debug, PartialEq, Eq)]
pub struct FeatureFlagBoolean {
    inner: FeatureFlagModel,
}

impl View for FeatureFlagBoolean {
    type V = FeatureFlagModelView;

    closed spec fn view(&self) -> FeatureFlagModelView {
        self.inner@
    }
}

impl FeatureFlag for FeatureFlagBoolean {
    type RustType = bool;

    open spec fn well_formed(&self) -> bool {
        is_boolean_text(self@.value)
    }

    open spec fn current(&self) -> Option<bool> {
        decoded(self@.value)
    }

    fn value(&self) -> (value: Option<bool>) {
        match &self.inner.value {
            None => None,
            Some(text) => {
                let zero = "0".to_owned();
                Some(*text != zero)
            },
        }
    }

    fn set_value(&mut self, value: Option<bool>)
        ensures
            final(self)@ == (FeatureFlagModelView { value: encoded(value), ..old(self)@ }),
    {
        proof {
            lemma_encoded_reads_back(value);
        }
        self.inner.value = encode(value);
    }
}

impl FeatureFlagBoolean {
    /// Whether the stored text is `0`, `1` or not set: only then may the
    /// value be read.
    pub fn is_well_formed(&self) -> (ok: bool)
        ensures
            ok == self.well_formed(),
    {
        match &self.inner.value {
            None => true,
            Some(text) => {
                let zero = "0".to_owned();
                let one = "1".to_owned();
                *text == zero || *text == one
            },
        }
    }

    /// The flag's name.
    pub fn name(&self) -> (name: &String)
        ensures
            name@ == self@.name,
    {
        &self.inner.name
    }

    /// The flag as it is stored.
    pub fn model(&self) -> (model: &FeatureFlagModel)
        ensures
            model@ == self@,
    {
        &self.inner
    }

    /// A new boolean flag with a value.
    pub fn new(flag_name: &str, value: Option<bool>) -> (flag: Self)
        ensures
            flag@ == (FeatureFlagModelView {
                name: flag_name@,
                value: encoded(value),
                flag_type: "BOOLEAN"@,
            }),
            flag.well_formed(),
            flag.current() == value,
    {
        proof {
            lemma_encoded_reads_back(value);
        }
        FeatureFlagBoolean {
            inner: FeatureFlagModel {
                name: flag_name.to_owned(),
                value: encode(value),
                flag_type: "BOOLEAN".to_owned(),
            },
        }
    }

    /// Takes a stored row as a boolean flag: what was fetched for a name, if
    /// anything. A row of another type is an error.
    pub fn fetch(row: Option<FeatureFlagModel>) -> (flag: Result<Option<Self>, BotError>)
        ensures
            match row {
                None => flag == Ok::<Option<Self>, BotError>(None),
                Some(model) => if model@.flag_type == "BOOLEAN"@ {
                    flag is Ok && flag->Ok_0 is Some && flag->Ok_0->0@ == model@
                } else {
                    flag == Err::<Option<Self>, BotError>(BotError::WrongFlagType)
                },
            },
    {
        match row {
            None => Ok(None),
            Some(inner) => {
                let boolean = "BOOLEAN".to_owned();
                if inner.flag_type == boolean {
                    Ok(Some(FeatureFlagBoolean { inner }))
                } else {
                    Err(BotError::WrongFlagType)
                }
            },
        }
    }

    /// Takes what [`FeatureFlagBoolean::fetch`] found; if none was found, it
    /// creates a new flag with the default value. Returns the flag, and
    /// whether it is new: a new flag is to be written to the store.
    pub fn fetch_or_default(fetched: Option<Self>, flag_name: &str, default_value: Option<bool>) -> (out:
        (Self, bool))
        ensures
            match fetched {
                Some(flag) => out.0@ == flag@ && !out.1,
                None => out.0@ == (FeatureFlagModelView {
                    name: flag_name@,
                    value: encoded(default_value),
                    flag_type: "BOOLEAN"@,
                }) && out.1,
            },
    {
        match fetched {
            Some(flag) => (flag, false),
            None => (FeatureFlagBoolean::new(flag_name, default_value), true),
        }
    }

    /// Takes the value that was fetched from the store into the flag, and
    /// reads it.
    pub fn fetch_value(&mut self, stored: Option<String>) -> (value: Option<bool>)
        requires
            is_boolean_text(stored.deep_view()),
        ensures
            final(self)@ == (FeatureFlagModelView { value: stored.deep_view(), ..old(self)@ }),
            value == decoded(stored.deep_view()),
    {
        self.inner.value = stored;
        self.value()
    }
}

/// The policy of a reconciliation pass, from the two flags that gate it: a
/// flag without a value allows nothing.
pub fn policy_from_flags(
    removal: &FeatureFlagBoolean,
    addition: &FeatureFlagBoolean,
    link_required: bool,
) -> (policy: ReconcilePolicy)
    requires
        removal.well_formed(),
        addition.well_formed(),
    ensures
        policy == (ReconcilePolicy {
            allow_role_addition: addition.current() == Some(true),
            allow_role_removal: removal.current() == Some(true),
            link_required,
        }),
{
    ReconcilePolicy {
        allow_role_addition: addition.value() == Some(true),
        allow_role_removal: removal.value() == Some(true),
        link_required,
    }
}

/// Whether a record needs an account link to count as verified: it does,
/// unless the flag is there and set to false.
pub fn link_required(flag: Option<&FeatureFlagBoolean>) -> (required: bool)
    requires
        flag matches Some(f) ==> f.well_formed(),
    ensures
        required == !(flag matches Some(f) && f.current() == Some(false)),
{
    match flag {
        Some(f) => f.value() != Some(false),
        None => true,
    }
}

} // verus!
