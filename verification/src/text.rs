//! Text helpers of the ticket workflow: character-wise string equality,
//! lower-casing of a requester's name, and derivation of a ticket channel's
//! name.

use vstd::prelude::*;
use vstd::string::*;

verus! {

/// Whether two strings hold the same characters.
pub fn str_eq(a: &str, b: &str) -> (r: bool)
    ensures
        r == (a@ == b@),
{
    let alen = a.unicode_len();
    let blen = b.unicode_len();
    if alen != blen {
        return false;
    }
    let mut i: usize = 0;
    while i < alen
        invariant
            alen == a@.len(),
            alen == b@.len(),
            0 <= i <= alen,
            forall|j: int| 0 <= j < i ==> a@[j] == b@[j],
        decreases alen - i,
    {
        if a.get_char(i) != b.get_char(i) {
            return false;
        }
        i = i + 1;
    }
    proof {
        assert(a@ =~= b@);
    }
    true
}

/// The lower-cased form of a sequence of characters, as the standard
/// library's case mapping produces it.
pub uninterp spec fn lower_of(s: Seq<char>) -> Seq<char>;

/// Relies on `str::to_lowercase` of std: the result is the Unicode
/// lower-case mapping of the input, a function of the characters alone, and
/// an empty input stays empty.
#[verifier::external_body]
fn lowercase(s: &str) -> (r: String)
    ensures
        r@ == lower_of(s@),
        s@.len() == 0 ==> r@.len() == 0,
{
    s.to_lowercase()
}

/// Derive a ticket channel's name from the requester's name: the requester's
/// name lower-cased, behind the fixed `ticket-` prefix.
pub fn ticket_channel_name(requester_name: &str) -> (r: String)
    ensures
        r@ == "ticket-"@ + lower_of(requester_name@),
{
    let lowered = lowercase(requester_name);
    let mut name = String::from_str("ticket-");
    name.append(lowered.as_str());
    name
}

} // verus!
