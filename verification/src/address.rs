//! Text form of account addresses.

use solana_program::pubkey::Pubkey;
use vstd::prelude::*;

verus! {

/// The text under which the ledger shows the 32-byte address `key`: its base58 rendering.
pub uninterp spec fn address_text(key: Seq<u8>) -> Seq<char>;

/// Renders an address through `Pubkey::new_from_array` and the `Display` impl of `Pubkey`
/// (`to_string`). Taken on trust: what comes back is `address_text` of the 32 bytes, that is,
/// it depends on the bytes alone, so that equal keys give equal text. Which text it is stays
/// with the encoder; nothing here is proved of it.
#[verifier::external_body]
pub(crate) fn render_address(key: &[u8; 32]) -> (text: String)
    ensures
        text@ == address_text(key@),
{
    Pubkey::new_from_array(*key).to_string()
}

} // verus!
