use vstd::prelude::*;

verus! {

/// Whether a concrete format validator allows, forbids or requires an
/// optional part of its input (a port number, a localhost marker, ...).
#[derive(Clone, Copy, Debug, PartialEq, Eq, Structural)]
pub enum ValidatorOption {
    Must,
    Allow,
    NotAllow,
}

impl ValidatorOption {
    /// The optional part may appear: true for `Must` and `Allow`.
    pub open spec fn spec_allow(self) -> bool {
        self is Must || self is Allow
    }

    /// The optional part must not appear: true for `NotAllow` only.
    pub open spec fn spec_not_allow(self) -> bool {
        self is NotAllow
    }

    /// The optional part must appear: true for `Must` only.
    pub open spec fn spec_must(self) -> bool {
        self is Must
    }

    pub fn allow(&self) -> (r: bool)
        ensures
            r == self.spec_allow(),
    {
        match self {
            ValidatorOption::Must => true,
            ValidatorOption::Allow => true,
            ValidatorOption::NotAllow => false,
        }
    }

    pub fn not_allow(&self) -> (r: bool)
        ensures
            r == self.spec_not_allow(),
    {
        match self {
            ValidatorOption::Must => false,
            ValidatorOption::Allow => false,
            ValidatorOption::NotAllow => true,
        }
    }

    pub fn must(&self) -> (r: bool)
        ensures
            r == self.spec_must(),
    {
        match self {
            ValidatorOption::Must => true,
            ValidatorOption::Allow => false,
            ValidatorOption::NotAllow => false,
        }
    }
}

/// Every option is in exactly one of three states: allowed but not required,
/// required, or forbidden. A required part is always allowed, and a forbidden
/// part is never allowed.
pub proof fn lemma_option_tri_state(o: ValidatorOption)
    ensures
        o.spec_must() ==> o.spec_allow(),
        o.spec_not_allow() <==> !o.spec_allow(),
        (o.spec_allow() && !o.spec_must()) as int + o.spec_must() as int + o.spec_not_allow() as int
            == 1,
{
}

} // verus!
