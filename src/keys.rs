use vstd::prelude::*;

verus! {

#[verifier::external_type_specification]
#[verifier::external_body]
pub struct ExKeys(nostr::key::Keys);

/// The keys that a text denotes when read as a secret key (hex or bech32),
/// or `None` when it is no secret key.
pub uninterp spec fn keys_of(s: Seq<char>) -> Option<nostr::key::Keys>;

/// Whether a text is a syntactically valid secret key.
pub open spec fn is_secret_key(s: Seq<char>) -> bool {
    keys_of(s) is Some
}

/// Relies on nostr's `Keys::parse`: it reads the text as a hex or bech32
/// secret key and derives its keypair, and fails on any other text; the
/// outcome depends on the text alone.
#[verifier::external_body]
pub(crate) fn parse_keys(text: &str) -> (r: Option<nostr::key::Keys>)
    ensures
        r == keys_of(text@),
{
    nostr::key::Keys::parse(text).ok()
}

/// Relies on the derived `Clone` of nostr's `Keys`: the copy holds the same keys.
pub assume_specification[ <nostr::key::Keys as Clone>::clone ](k: &nostr::key::Keys) -> (r: nostr::key::Keys)
    ensures
        r == *k,
;

} // verus!
