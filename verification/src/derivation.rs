use vstd::prelude::*;

verus! {

/// What `solana_pubkey::Pubkey::try_find_program_address` returns for the
/// given seeds `[tag, owner]` and program id: the derived 32-byte storage
/// address and its bump nonce, or `None` in the statistically improbable
/// event that no bump yields an address off the signing-key curve. The
/// search is SHA-256 based and depends on the arguments alone, so the
/// result is only named here, never restated.
pub uninterp spec fn pda_of(tag: Seq<u8>, owner: Seq<u8>, program_id: Seq<u8>) -> Option<(
    Seq<u8>,
    u8,
)>;

/// Relies on `solana_pubkey::Pubkey::try_find_program_address` (a re-export
/// of `solana_address::Address::try_find_program_address`): for fixed seeds
/// and program id it deterministically returns the derived address and bump,
/// or `None` when no bump seed is viable.
#[verifier::external_body]
fn try_find_address(tag: &Vec<u8>, owner: &[u8; 32], program_id: &[u8; 32]) -> (r: Option<
    ([u8; 32], u8),
>)
    ensures
        r is Some <==> pda_of(tag@, owner@, program_id@) is Some,
        r matches Some(p) ==> pda_of(tag@, owner@, program_id@) matches Some(q) && p.0@ == q.0
            && p.1 == q.1,
{
    let pid = solana_pubkey::Pubkey::new_from_array(*program_id);
    solana_pubkey::Pubkey::try_find_program_address(&[tag.as_slice(), owner], &pid)
        .map(|(address, bump)| (address.to_bytes(), bump))
}

/// The fixed domain-separation tag every vault address is derived under:
/// the bytes of the ASCII string `vault`.
pub open spec fn domain_tag() -> Seq<u8> {
    seq![118u8, 97u8, 117u8, 108u8, 116u8]
}

/// The canonical derived storage address and bump nonce of the vault owned
/// by `owner` under `program_id`, with the fixed domain tag as the leading
/// seed.
pub open spec fn vault_pda(owner: Seq<u8>, program_id: Seq<u8>) -> Option<(Seq<u8>, u8)> {
    pda_of(domain_tag(), owner, program_id)
}

fn make_domain_tag() -> (r: Vec<u8>)
    ensures
        r@ == domain_tag(),
{
    let mut tag: Vec<u8> = Vec::new();
    tag.push(118);
    tag.push(97);
    tag.push(117);
    tag.push(108);
    tag.push(116);
    proof {
        assert(tag@ =~= domain_tag());
    }
    tag
}

/// Resolve the canonical vault address for `owner`: recompute the
/// derivation so that handlers compare against it instead of trusting any
/// caller-supplied address.
pub fn derive_vault_address(owner: &[u8; 32], program_id: &[u8; 32]) -> (r: Option<([u8; 32], u8)>)
    ensures
        r is Some <==> vault_pda(owner@, program_id@) is Some,
        r matches Some(p) ==> vault_pda(owner@, program_id@) matches Some(q) && p.0@ == q.0 && p.1
            == q.1,
{
    let tag = make_domain_tag();
    try_find_address(&tag, owner, program_id)
}

} // verus!
