use vstd::prelude::*;
use crate::address::{Address, address_views};
use crate::error::LutError;

verus! {

/// Length in bytes of one stored address.
pub const ENTRY_SIZE: usize = 32;

/// Length in bytes of the metadata that precedes the entries of a table.
pub open spec fn header_len() -> int {
    56
}

/// A table account: a whole header, then whole entries and nothing else.
pub open spec fn well_formed_account(raw: Seq<u8>) -> bool {
    raw.len() >= header_len() && (raw.len() - header_len()) % 32 == 0
}

/// How many entries follow the header.
pub open spec fn entry_count(raw: Seq<u8>) -> nat {
    if raw.len() >= header_len() {
        ((raw.len() - header_len()) / 32) as nat
    } else {
        0
    }
}

/// The bytes of entry `i`.
pub open spec fn entry_at(raw: Seq<u8>, i: int) -> Seq<u8> {
    raw.subrange(header_len() + 32 * i, header_len() + 32 * i + 32)
}

/// The entries of a table account in storage order.
pub open spec fn stored_addresses(raw: Seq<u8>) -> Seq<Seq<u8>> {
    Seq::new(entry_count(raw), |i: int| entry_at(raw, i))
}

/// The bytes of a table account with the given header and entries.
pub open spec fn account_bytes(header: Seq<u8>, entries: Seq<Seq<u8>>) -> Seq<u8>
    decreases entries.len(),
{
    if entries.len() == 0 {
        header
    } else {
        account_bytes(header, entries.drop_last()) + entries.last()
    }
}

/// `solana_sdk::address_lookup_table::state::LOOKUP_TABLE_META_SIZE`: the
/// header of a table account is 56 bytes long.
#[verifier::external_body]
fn header_size() -> (r: usize)
    ensures
        r == header_len(),
{
    solana_sdk::address_lookup_table::state::LOOKUP_TABLE_META_SIZE
}

/// Copies the 32 bytes that start at `start` into an address.
fn read_entry(raw: &[u8], start: usize) -> (r: Address)
    requires
        start + 32 <= raw@.len(),
    ensures
        r@ == raw@.subrange(start as int, start + 32),
{
    let total: usize = raw.len();
    let mut bytes: [u8; 32] = [0u8; 32];
    let mut j: usize = 0;
    while j < 32
        invariant
            j <= 32,
            total == raw@.len(),
            start + 32 <= total,
            forall|k: int| 0 <= k < j ==> bytes@[k] == raw@[start + k],
        decreases 32 - j,
    {
        bytes[j] = raw[start + j];
        j = j + 1;
    }
    assert(bytes@ =~= raw@.subrange(start as int, start + 32));
    Address { bytes }
}

/// Reads the addresses that a table account stores. Bytes that are shorter
/// than the header, or whose rest is no whole number of entries, are
/// refused; otherwise every entry comes back, in storage order, repeated
/// entries included.
pub fn decode(raw: &[u8]) -> (r: Result<Vec<Address>, LutError>)
    ensures
        well_formed_account(raw@) ==> r is Ok && address_views(r->Ok_0@) == stored_addresses(
            raw@,
        ),
        !well_formed_account(raw@) ==> r == Err::<Vec<Address>, LutError>(
            LutError::MalformedAccount,
        ),
{
    let header: usize = header_size();
    if raw.len() < header {
        return Err(LutError::MalformedAccount);
    }
    let total: usize = raw.len();
    let rest: usize = total - header;
    if rest % ENTRY_SIZE != 0 {
        return Err(LutError::MalformedAccount);
    }
    let count: usize = rest / ENTRY_SIZE;
    let mut out: Vec<Address> = Vec::new();
    let mut i: usize = 0;
    while i < count
        invariant
            header == header_len(),
            total == raw@.len(),
            total == header + 32 * count,
            i <= count,
            out@.len() == i,
            forall|k: int| 0 <= k < i ==> out@[k]@ == entry_at(raw@, k),
        decreases count - i,
    {
        let entry = read_entry(raw, header + 32 * i);
        out.push(entry);
        i = i + 1;
    }
    assert(address_views(out@) =~= stored_addresses(raw@));
    Ok(out)
}

/// Decoding an account built from a 56-byte header and `n` entries of 32
/// bytes gives back exactly those `n` entries in their order.
pub proof fn decode_of_account_bytes(header: Seq<u8>, entries: Seq<Seq<u8>>)
    requires
        header.len() == header_len(),
        forall|i: int| 0 <= i < entries.len() ==> (#[trigger] entries[i]).len() == 32,
    ensures
        account_bytes(header, entries).len() == header_len() + 32 * entries.len(),
        well_formed_account(account_bytes(header, entries)),
        stored_addresses(account_bytes(header, entries)) == entries,
    decreases entries.len(),
{
    if entries.len() == 0 {
        assert(stored_addresses(header) =~= entries);
    } else {
        let front = entries.drop_last();
        decode_of_account_bytes(header, front);
        let whole = account_bytes(header, entries);
        let before = account_bytes(header, front);
        assert(whole == before + entries.last());
        assert(entry_count(whole) == entries.len());
        assert forall|i: int| 0 <= i < entries.len() implies entry_at(whole, i) == entries[i] by {
            if i < front.len() {
                assert(stored_addresses(before)[i] == front[i]);
                assert(entry_at(whole, i) =~= entry_at(before, i));
            } else {
                assert(entry_at(whole, i) =~= entries.last());
            }
        }
        assert(stored_addresses(whole) =~= entries);
    }
}

} // verus!
