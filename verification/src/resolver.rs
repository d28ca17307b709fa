use vstd::prelude::*;

verus! {

/// What address derivation returns for a 32-byte namespace identity and a
/// `(tag, suffix)` seed pair: either the derived 32-byte address together
/// with the discriminator byte that produced it, or nothing when no
/// discriminator in the search space yields a valid address.  The result is
/// a function of the three arguments alone.
pub uninterp spec fn derived_of(namespace: Seq<u8>, tag: Seq<u8>, suffix: Seq<u8>) -> Option<(
    Seq<u8>,
    u8,
)>;

/// Little-endian encoding of a 64-bit sequence index, byte by byte.
pub open spec fn u64_le_bytes(x: u64) -> Seq<u8> {
    seq![
        (x & 0xff) as u8,
        ((x >> 8) & 0xff) as u8,
        ((x >> 16) & 0xff) as u8,
        ((x >> 24) & 0xff) as u8,
        ((x >> 32) & 0xff) as u8,
        ((x >> 40) & 0xff) as u8,
        ((x >> 48) & 0xff) as u8,
        ((x >> 56) & 0xff) as u8,
    ]
}

/// Encode a sequence index as its 8 little-endian bytes, the suffix under
/// which that index's audit record is addressed.
pub fn index_le_bytes(x: u64) -> (r: Vec<u8>)
    ensures
        r@ == u64_le_bytes(x),
{
    let mut r: Vec<u8> = Vec::new();
    r.push((x & 0xff) as u8);
    r.push(((x >> 8) & 0xff) as u8);
    r.push(((x >> 16) & 0xff) as u8);
    r.push(((x >> 24) & 0xff) as u8);
    r.push(((x >> 32) & 0xff) as u8);
    r.push(((x >> 40) & 0xff) as u8);
    r.push(((x >> 48) & 0xff) as u8);
    r.push(((x >> 56) & 0xff) as u8);
    proof {
        assert(r@ =~= u64_le_bytes(x));
    }
    r
}

/// Relies on `Pubkey::try_find_program_address` (reached through
/// `anchor_lang::prelude`): for a fixed program id and seed list it walks the
/// discriminator space from 255 downward and returns the first address off
/// the ed25519 curve, or `None` when no discriminator works or a seed is
/// over the permitted length.  The computation is a pure hash of its
/// arguments, so the same inputs always give the same answer, and a
/// returned address is always 32 bytes.
#[verifier::external_body]
fn find_derived(namespace: &Vec<u8>, tag: &Vec<u8>, suffix: &Vec<u8>) -> (r: Option<(Vec<u8>, u8)>)
    requires
        namespace@.len() == 32,
    ensures
        r is Some <==> derived_of(namespace@, tag@, suffix@) is Some,
        r matches Some(p) ==> Some((p.0@, p.1)) == derived_of(namespace@, tag@, suffix@)
            && p.0@.len() == 32,
{
    let mut id = [0u8; 32];
    id.copy_from_slice(namespace.as_slice());
    let program_id = anchor_lang::prelude::Pubkey::new_from_array(id);
    let seeds: [&[u8]; 2] = [tag.as_slice(), suffix.as_slice()];
    match anchor_lang::prelude::Pubkey::try_find_program_address(&seeds, &program_id) {
        Some((addr, bump)) => Some((addr.to_bytes().to_vec(), bump)),
        None => None,
    }
}

/// The derived-address resolver: deterministically locate the record named
/// by `(tag, suffix)` inside `namespace`, yielding the address and the
/// discriminator byte that proves program ownership of it.
pub fn resolve_address(namespace: &Vec<u8>, tag: &Vec<u8>, suffix: &Vec<u8>) -> (r: Option<
    (Vec<u8>, u8),
>)
    requires
        namespace@.len() == 32,
    ensures
        r is Some <==> derived_of(namespace@, tag@, suffix@) is Some,
        r matches Some(p) ==> Some((p.0@, p.1)) == derived_of(namespace@, tag@, suffix@)
            && p.0@.len() == 32,
{
    find_derived(namespace, tag, suffix)
}

/// Law: address resolution is deterministic.  Any two resolutions of the
/// same `(namespace, tag, suffix)` triple yield the same outcome — the same
/// address and discriminator, or the same failure.
pub proof fn lemma_resolution_deterministic(
    namespace: Seq<u8>,
    tag: Seq<u8>,
    suffix: Seq<u8>,
    r1: Option<(Seq<u8>, u8)>,
    r2: Option<(Seq<u8>, u8)>,
)
    requires
        r1 == derived_of(namespace, tag, suffix),
        r2 == derived_of(namespace, tag, suffix),
    ensures
        r1 == r2,
{
}

} // verus!
