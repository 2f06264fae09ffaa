//! A tweak that changes nothing outside itself, for exercising the tweak
//! workflow in tests.

use vstd::prelude::*;

use crate::tweaks::{OsPlatform, Tweak};

verus! {

/// A stand-in tweak whose system setting is a value it holds.
pub struct MockTweak {
    id: &'static str,
    name: &'static str,
    state: String,
}

/// The value that `apply` sets: the given option, `applied` when there is
/// none.
pub open spec fn mock_applied_value(option_value: Option<Seq<char>>) -> Seq<char> {
    match option_value {
        Some(v) => v,
        None => "applied"@,
    }
}

impl MockTweak {
    /// The value that the tweak's stand-in setting holds.
    pub closed spec fn value(&self) -> Seq<char> {
        self.state@
    }

    /// A mock tweak with the given identifier and name, whose setting holds
    /// `initial_state`.
    pub fn new(id: &'static str, name: &'static str, initial_state: &str) -> (r: Self)
        ensures
            r.spec_id() == id@,
            r.spec_name() == name@,
            r.value() == initial_state@,
    {
        MockTweak { id, name, state: initial_state.to_owned() }
    }

    /// The value that the setting holds; it can always be read.
    pub fn read_current_value(&self) -> (r: Option<String>)
        ensures
            r matches Some(v) && v@ == self.value(),
    {
        Some(self.state.clone())
    }

    /// Sets the setting to `option_value`, or to `applied` when none is
    /// given.
    pub fn apply(&mut self, option_value: Option<&str>)
        ensures
            final(self).value() == mock_applied_value(
                match option_value {
                    Some(v) => Some(v@),
                    None => None,
                },
            ),
            final(self).spec_id() == old(self).spec_id(),
            final(self).spec_name() == old(self).spec_name(),
    {
        let val = match option_value {
            Some(v) => v,
            None => "applied",
        };
        self.state = val.to_owned();
    }

    /// Sets the setting back to `original_value`.
    pub fn revert(&mut self, original_value: &str)
        ensures
            final(self).value() == mock_reverted_value(old(self).value(), original_value@),
            final(self).spec_id() == old(self).spec_id(),
            final(self).spec_name() == old(self).spec_name(),
    {
        self.state = original_value.to_owned();
    }
}

impl Tweak for MockTweak {
    closed spec fn spec_id(&self) -> Seq<char> {
        self.id@
    }

    closed spec fn spec_name(&self) -> Seq<char> {
        self.name@
    }

    open spec fn spec_description(&self) -> Seq<char> {
        "Ajuste falso para testes unitários"@
    }

    open spec fn spec_supported_os(&self) -> Seq<OsPlatform> {
        seq![OsPlatform::Windows, OsPlatform::Linux, OsPlatform::MacOS]
    }

    open spec fn spec_requires_reboot(&self) -> bool {
        false
    }

    fn id(&self) -> (r: &'static str) {
        self.id
    }

    fn name(&self) -> (r: &'static str) {
        self.name
    }

    fn description(&self) -> (r: &'static str) {
        "Ajuste falso para testes unitários"
    }

    fn supported_os(&self) -> (r: Vec<OsPlatform>) {
        let mut v = Vec::new();
        v.push(OsPlatform::Windows);
        v.push(OsPlatform::Linux);
        v.push(OsPlatform::MacOS);
        v
    }

    fn requires_reboot(&self) -> (r: bool) {
        false
    }
}

/// The setting after `revert(original_value)`, from the setting before.
pub open spec fn mock_reverted_value(before: Seq<char>, original_value: Seq<char>) -> Seq<char> {
    original_value
}

/// Reverting with the value that was read before an apply gives that value
/// back, whatever the apply set.
pub proof fn lemma_mock_revert_undoes_apply(before: Seq<char>, option_value: Option<Seq<char>>)
    ensures
        mock_reverted_value(mock_applied_value(option_value), before) == before,
{
}

} // verus!
