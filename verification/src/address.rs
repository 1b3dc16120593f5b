use vstd::prelude::*;

verus! {

/// The set of strings that lettre accepts as an email address: the name of
/// the result of `lettre::EmailAddress::new`, which depends on the address
/// characters alone.
pub uninterp spec fn addr_valid(s: Seq<char>) -> bool;

/// Relies on lettre::EmailAddress::new: accepts exactly the addresses that
/// lettre itself accepts when a message is assembled, so validation here
/// settles whether a later build can fail on an address.
#[verifier::external_body]
pub(crate) fn check_address(s: &str) -> (r: bool)
    ensures
        r == addr_valid(s@),
{
    lettre::EmailAddress::new(s.to_string()).is_ok()
}

} // verus!
