use vstd::prelude::*;

use anchor_lang::prelude::Pubkey;

use crate::address::Address;
use crate::asset::{Asset, Leg};
use crate::escrow::Escrow;

verus! {

/// The address and bump that the ledger derives for `seeds` under
/// `program`, or none when no bump gives a valid address.
pub uninterp spec fn program_address(seeds: Seq<Seq<u8>>, program: Seq<u8>) -> Option<(Seq<u8>, u8)>;

/// Relies on `Pubkey::try_find_program_address` (solana-pubkey): the derived
/// address and bump depend on the seeds and the program id alone.
#[verifier::external_body]
fn find_program_address(seeds: &Vec<Vec<u8>>, program: &Address) -> (r: Option<(Address, u8)>)
    ensures
        match r {
            Some((key, bump)) => program_address(seed_view(seeds), program.bytes@) == Some(
                (key.bytes@, bump),
            ),
            None => program_address(seed_view(seeds), program.bytes@) is None,
        },
{
    let slices: Vec<&[u8]> = seeds.iter().map(|s| s.as_slice()).collect();
    Pubkey::try_find_program_address(&slices, &Pubkey::new_from_array(program.bytes)).map(
        |(key, bump)| (Address::new(key.to_bytes()), bump),
    )
}

/// A list of seeds as byte sequences.
pub open spec fn seed_view(seeds: &Vec<Vec<u8>>) -> Seq<Seq<u8>> {
    seeds@.map_values(|s: Vec<u8>| s@)
}

/// `b"escrow"`
pub open spec fn escrow_tag() -> Seq<u8> {
    seq![101u8, 115u8, 99u8, 114u8, 111u8, 119u8]
}

/// `b"vault"`
pub open spec fn token_vault_tag() -> Seq<u8> {
    seq![118u8, 97u8, 117u8, 108u8, 116u8]
}

/// `b"sol_vault"`
pub open spec fn native_vault_tag() -> Seq<u8> {
    seq![115u8, 111u8, 108u8, 95u8, 118u8, 97u8, 117u8, 108u8, 116u8]
}

/// `b"want"`
pub open spec fn want_tag() -> Seq<u8> {
    seq![119u8, 97u8, 110u8, 116u8]
}

/// The escrow record of a maker is derived from the maker's identity.
pub open spec fn escrow_seeds(maker: Address) -> Seq<Seq<u8>> {
    seq![escrow_tag(), maker.bytes@]
}

/// A vault is derived from the escrow's address, tagged by asset kind, and
/// for the want leg by a further tag.
pub open spec fn vault_seeds(escrow: Address, leg: Leg, asset: Asset) -> Seq<Seq<u8>> {
    let tag = if asset is Native {
        native_vault_tag()
    } else {
        token_vault_tag()
    };
    match leg {
        Leg::Give => seq![tag, escrow.bytes@],
        Leg::Want => seq![tag, escrow.bytes@, want_tag()],
    }
}

fn escrow_tag_bytes() -> (r: Vec<u8>)
    ensures
        r@ == escrow_tag(),
{
    let r: Vec<u8> = vec![101u8, 115u8, 99u8, 114u8, 111u8, 119u8];
    assert(r@ =~= escrow_tag());
    r
}

fn vault_tag_bytes(asset: Asset) -> (r: Vec<u8>)
    ensures
        r@ == (if asset is Native {
            native_vault_tag()
        } else {
            token_vault_tag()
        }),
{
    if asset.is_native() {
        let r: Vec<u8> = vec![115u8, 111u8, 108u8, 95u8, 118u8, 97u8, 117u8, 108u8, 116u8];
        assert(r@ =~= native_vault_tag());
        r
    } else {
        let r: Vec<u8> = vec![118u8, 97u8, 117u8, 108u8, 116u8];
        assert(r@ =~= token_vault_tag());
        r
    }
}

fn want_tag_bytes() -> (r: Vec<u8>)
    ensures
        r@ == want_tag(),
{
    let r: Vec<u8> = vec![119u8, 97u8, 110u8, 116u8];
    assert(r@ =~= want_tag());
    r
}

fn address_bytes(a: &Address) -> (r: Vec<u8>)
    ensures
        r@ == a.bytes@,
{
    let mut r: Vec<u8> = Vec::new();
    let mut i: usize = 0;
    while i < 32
        invariant
            0 <= i <= 32,
            r@ == a.bytes@.subrange(0, i as int),
        decreases 32 - i,
    {
        r.push(a.bytes[i]);
        i = i + 1;
        assert(r@ =~= a.bytes@.subrange(0, i as int));
    }
    assert(a.bytes@.subrange(0, 32) =~= a.bytes@);
    r
}

/// The seeds of the escrow record of `maker`.
pub fn escrow_seed_bytes(maker: &Address) -> (r: Vec<Vec<u8>>)
    ensures
        seed_view(&r) == escrow_seeds(*maker),
{
    let mut r: Vec<Vec<u8>> = Vec::new();
    r.push(escrow_tag_bytes());
    r.push(address_bytes(maker));
    assert(seed_view(&r) =~= escrow_seeds(*maker));
    r
}

/// The seeds of the vault of `leg`, paid in `asset`, of the escrow at
/// `escrow`.
pub fn vault_seed_bytes(escrow: &Address, leg: Leg, asset: Asset) -> (r: Vec<Vec<u8>>)
    ensures
        seed_view(&r) == vault_seeds(*escrow, leg, asset),
{
    let mut r: Vec<Vec<u8>> = Vec::new();
    r.push(vault_tag_bytes(asset));
    r.push(address_bytes(escrow));
    if leg == Leg::Want {
        r.push(want_tag_bytes());
    }
    assert(seed_view(&r) =~= vault_seeds(*escrow, leg, asset));
    r
}

/// `seeds` followed by the one-byte bump seed: what the custody authority
/// signs with.
pub fn with_bump(seeds: Vec<Vec<u8>>, bump: u8) -> (r: Vec<Vec<u8>>)
    ensures
        seed_view(&r) == seed_view(&seeds).push(seq![bump]),
{
    let mut r = seeds;
    let mut b: Vec<u8> = Vec::new();
    b.push(bump);
    r.push(b);
    assert(seed_view(&r) =~= seed_view(&seeds).push(seq![bump]));
    r
}

/// Where the escrow record of `maker` lives under `program`, and its bump.
pub fn escrow_address(program: &Address, maker: &Address) -> (r: Option<(Address, u8)>)
    ensures
        match r {
            Some((key, bump)) => program_address(escrow_seeds(*maker), program.bytes@) == Some(
                (key.bytes@, bump),
            ),
            None => program_address(escrow_seeds(*maker), program.bytes@) is None,
        },
{
    find_program_address(&escrow_seed_bytes(maker), program)
}

/// Where the vault of `leg`, paid in `asset`, of the escrow at `escrow`
/// lives under `program`, and its bump.
pub fn vault_address(program: &Address, escrow: &Address, leg: Leg, asset: Asset) -> (r: Option<
    (Address, u8),
>)
    ensures
        match r {
            Some((key, bump)) => program_address(vault_seeds(*escrow, leg, asset), program.bytes@)
                == Some((key.bytes@, bump)),
            None => program_address(vault_seeds(*escrow, leg, asset), program.bytes@) is None,
        },
{
    find_program_address(&vault_seed_bytes(escrow, leg, asset), program)
}

/// The signer seeds of the escrow's custody authority, rebuilt from the
/// stored maker and bump.
pub fn authority_seeds(e: &Escrow) -> (r: Vec<Vec<u8>>)
    ensures
        seed_view(&r) == escrow_seeds(e.maker).push(seq![e.bump]),
{
    with_bump(escrow_seed_bytes(&e.maker), e.bump)
}

} // verus!
