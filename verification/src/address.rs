//! Account addresses, as `solana_sdk` defines them, and their text.

use vstd::prelude::*;
use solana_sdk::pubkey::Pubkey;

verus! {

/// An account address of `solana_sdk`. Nothing of its inside is visible here.
#[verifier::external_type_specification]
#[verifier::external_body]
pub struct ExPubkey(Pubkey);

/// The text that `solana_sdk` prints for the address `key`.
pub uninterp spec fn pubkey_text(key: Pubkey) -> Seq<char>;

/// The text of the address `key`, as it is written in requests.
///
/// Trusted: calls `to_string` of `solana_sdk::pubkey::Pubkey`, which writes the
/// 32 bytes of the address in base 58. The contract only gives that text a
/// name: the same address always has the same text.
#[verifier::external_body]
pub(crate) fn pubkey_to_string(key: &Pubkey) -> (text: String)
    ensures
        text@ == pubkey_text(*key),
{
    key.to_string()
}

/// Trusted: `clone` of `solana_sdk::pubkey::Pubkey`, which the crate derives
/// together with `Copy`: the copy is the address itself.
pub assume_specification[ <Pubkey as Clone>::clone ](key: &Pubkey) -> (copy: Pubkey)
    ensures
        copy == *key,
;

/// The texts of the addresses `keys`, in order.
pub open spec fn pubkey_texts(keys: Seq<Pubkey>) -> Seq<Seq<char>> {
    Seq::new(keys.len(), |i: int| pubkey_text(keys[i]))
}

/// The texts of the addresses `keys`, in order.
pub fn pubkey_strings(keys: &[Pubkey]) -> (out: Vec<String>)
    ensures
        crate::text::texts(out@) == pubkey_texts(keys@),
{
    let mut out: Vec<String> = Vec::new();
    let mut i: usize = 0;
    while i < keys.len()
        invariant
            i <= keys.len(),
            out@.len() == i,
            forall|j: int| 0 <= j < i ==> (#[trigger] out@[j])@ == pubkey_text(keys@[j]),
        decreases keys.len() - i,
    {
        out.push(pubkey_to_string(&keys[i]));
        i = i + 1;
    }
    assert(crate::text::texts(out@) =~= pubkey_texts(keys@));
    out
}

} // verus!
