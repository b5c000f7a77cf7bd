//! The debugpy adapter: its names, and the flag that lets one release check
//! run in a process.

use vstd::prelude::*;

verus! {

/// The adapter for Python programs, which runs debugpy.
///
/// Each adapter owns the flag that says whether the check for a newer
/// release has begun. The flag starts unset and is set once; nothing
/// unsets it.
#[derive(Debug)]
pub struct PythonDebugAdapter {
    checked: bool,
}

/// The adapter's name, as it shows in directory names.
pub open spec fn adapter_name() -> Seq<char> {
    "Debugpy"@
}

/// The language that the adapter serves.
pub open spec fn language_name() -> Seq<char> {
    "Python"@
}

/// A claim of the release check on a flag that reads `checked`: how the
/// flag reads afterwards, and whether the claim won.
pub open spec fn claim(checked: bool) -> (bool, bool) {
    (true, !checked)
}

/// How many of `claims` claims, made one after another on a flag that reads
/// `checked`, win.
pub open spec fn claims_won(checked: bool, claims: nat) -> nat
    decreases claims,
{
    if claims == 0 {
        0
    } else {
        let first = claim(checked);
        (if first.1 {
            1nat
        } else {
            0nat
        }) + claims_won(first.0, (claims - 1) as nat)
    }
}

/// On a new adapter, however many claims are made, the first wins and no
/// other does. On an adapter whose check has begun, none wins.
pub proof fn lemma_one_claim_wins(claims: nat)
    ensures
        claims_won(false, claims) == (if claims == 0 {
            0nat
        } else {
            1nat
        }),
        claims_won(true, claims) == 0,
    decreases claims,
{
    if claims > 0 {
        lemma_one_claim_wins((claims - 1) as nat);
    }
}

impl PythonDebugAdapter {
    /// Whether the release check has begun.
    pub closed spec fn checked(&self) -> bool {
        self.checked
    }

    /// An adapter whose release check has not begun.
    pub fn new() -> (adapter: Self)
        ensures
            !adapter.checked(),
    {
        PythonDebugAdapter { checked: false }
    }

    /// Whether the release check has begun.
    pub fn is_checked(&self) -> (checked: bool)
        ensures
            checked == self.checked(),
    {
        self.checked
    }

    /// Claims the release check. The answer is `true` for the one caller
    /// that finds the flag unset, and the flag is set from then on.
    pub fn claim_check(&mut self) -> (won: bool)
        ensures
            (final(self).checked(), won) == claim(old(self).checked()),
    {
        let won = !self.checked;
        self.checked = true;
        won
    }

    /// The adapter's name.
    pub fn name(&self) -> (name: String)
        ensures
            name@ == adapter_name(),
    {
        "Debugpy".to_owned()
    }

    /// The language that the adapter serves.
    pub fn adapter_language_name(&self) -> (language: Option<String>)
        ensures
            language matches Some(name) && name@ == language_name(),
    {
        Some("Python".to_owned())
    }
}

impl Default for PythonDebugAdapter {
    fn default() -> (adapter: Self)
        ensures
            !adapter.checked(),
    {
        PythonDebugAdapter::new()
    }
}

} // verus!
