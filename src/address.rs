use vstd::prelude::*;

verus! {

/// The textual form of the identity that a borrower or lender calls with.
pub open spec fn placeholder_text() -> Seq<char> {
    "placeholder"@
}

/// The textual form of the identity that a missing loan reports.
pub open spec fn not_found_text() -> Seq<char> {
    "not_found"@
}

/// An account identity, held as its textual (strkey) form.
pub struct Address {
    strkey: String,
}

impl View for Address {
    type V = Seq<char>;

    closed spec fn view(&self) -> Seq<char> {
        self.strkey@
    }
}

impl Address {
    /// The identity written as `s`.
    pub fn from_string(s: &String) -> (r: Address)
        ensures
            r@ == s@,
    {
        Address { strkey: s.clone() }
    }

    /// The identity written as the string slice `s`.
    pub fn from_str(s: &str) -> (r: Address)
        ensures
            r@ == s@,
    {
        Address { strkey: String::from_str(s) }
    }

    /// The lender of a loan that nobody has funded yet.
    pub fn placeholder() -> (r: Address)
        ensures
            r@ == placeholder_text(),
    {
        Address::from_str("placeholder")
    }

    /// The borrower and lender of the record that stands for a missing loan.
    pub fn not_found() -> (r: Address)
        ensures
            r@ == not_found_text(),
    {
        Address::from_str("not_found")
    }

    /// The textual form of this identity.
    pub fn as_str(&self) -> (r: &str)
        ensures
            r@ == self@,
    {
        self.strkey.as_str()
    }
}

impl Clone for Address {
    fn clone(&self) -> (r: Address)
        ensures
            r@ == self@,
    {
        Address { strkey: self.strkey.clone() }
    }
}

impl PartialEq for Address {
    fn eq(&self, other: &Address) -> (r: bool) {
        self.strkey == other.strkey
    }
}

impl vstd::std_specs::cmp::PartialEqSpecImpl for Address {
    open spec fn obeys_eq_spec() -> bool {
        true
    }

    open spec fn eq_spec(&self, other: &Address) -> bool {
        self@ == other@
    }
}

impl Eq for Address {
}

} // verus!
