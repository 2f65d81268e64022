use vstd::prelude::*;
use solana_sdk::address_lookup_table::instruction as lookup;
use solana_sdk::pubkey::Pubkey;
use crate::address::{Address, address_views};

verus! {

/// One account that an instruction touches, and how.
#[derive(Clone, Copy, Debug, PartialEq, Eq)]
pub struct AccountRef {
    pub address: Address,
    pub is_signer: bool,
    pub is_writable: bool,
}

/// An operation of an on-chain program: the program, the accounts handed to
/// it in order, and the payload that the program reads.
#[derive(Clone, Debug, PartialEq, Eq)]
pub struct Instruction {
    pub program_id: Address,
    pub accounts: Vec<AccountRef>,
    pub data: Vec<u8>,
}

/// An account reference as plain values: address, signer flag, writable flag.
pub type AccountRefView = (Seq<u8>, bool, bool);

/// An instruction as plain values: program, account references, payload.
pub type InstructionView = (Seq<u8>, Seq<AccountRefView>, Seq<u8>);

impl View for AccountRef {
    type V = AccountRefView;

    open spec fn view(&self) -> AccountRefView {
        (self.address@, self.is_signer, self.is_writable)
    }
}

impl View for Instruction {
    type V = InstructionView;

    open spec fn view(&self) -> InstructionView {
        (
            self.program_id@,
            Seq::new(self.accounts@.len(), |i: int| self.accounts@[i]@),
            self.data@,
        )
    }
}

/// The instructions of a list as plain values, in order.
pub open spec fn instruction_views(list: Seq<Instruction>) -> Seq<InstructionView> {
    Seq::new(list.len(), |i: int| list[i]@)
}

/// The address of the system program: 32 zero bytes.
pub open spec fn system_program() -> Seq<u8> {
    Seq::new(32, |i: int| 0u8)
}

/// A reference that may be written and need not sign.
pub open spec fn writable(address: Seq<u8>) -> AccountRefView {
    (address, false, true)
}

/// A reference that is only read and need not sign.
pub open spec fn readonly(address: Seq<u8>) -> AccountRefView {
    (address, false, false)
}

/// A reference that must sign and is only read.
pub open spec fn signer(address: Seq<u8>) -> AccountRefView {
    (address, true, false)
}

/// A reference that must sign and may be written.
pub open spec fn funding(address: Seq<u8>) -> AccountRefView {
    (address, true, true)
}

/// The table address that `Pubkey::try_find_program_address` derives for the
/// lookup-table program from an authority and a slot, where it finds one.
pub uninterp spec fn table_derivation(authority: Seq<u8>, slot: u64) -> Option<Seq<u8>>;

/// The instruction that `create_lookup_table` builds.
pub uninterp spec fn create_instruction(
    authority: Seq<u8>,
    payer: Seq<u8>,
    slot: u64,
) -> InstructionView;

/// The instruction that `extend_lookup_table` builds.
pub uninterp spec fn extend_instruction(
    table: Seq<u8>,
    authority: Seq<u8>,
    payer: Option<Seq<u8>>,
    new_addresses: Seq<Seq<u8>>,
) -> InstructionView;

/// The instruction that `deactivate_lookup_table` builds.
pub uninterp spec fn deactivate_instruction(table: Seq<u8>, authority: Seq<u8>) -> InstructionView;

/// The instruction that `close_lookup_table` builds.
pub uninterp spec fn close_instruction(
    table: Seq<u8>,
    authority: Seq<u8>,
    recipient: Seq<u8>,
) -> InstructionView;

/// Length of the payload of a `create`: the number of the operation in four
/// bytes, the slot in eight and the bump seed in one.
pub const CREATE_PAYLOAD: usize = 13;

/// Length of a payload that is the number of the operation and nothing else.
pub const PLAIN_PAYLOAD: usize = 4;

/// Length of the payload of an `extend` by `count` addresses: the number of
/// the operation in four bytes, the count in eight, and 32 bytes for each
/// address.
pub open spec fn extend_payload(count: nat) -> nat {
    12 + 32 * count
}

/// The accounts of an `extend`: the table and the signing authority, and
/// with a payer also the payer and the system program.
pub open spec fn extend_accounts(
    table: Seq<u8>,
    authority: Seq<u8>,
    payer: Option<Seq<u8>>,
) -> Seq<AccountRefView> {
    match payer {
        Some(p) => seq![writable(table), signer(authority), funding(p), readonly(system_program())],
        None => seq![writable(table), signer(authority)],
    }
}

/// `Pubkey::try_find_program_address`, with the seeds and the program that
/// `derive_lookup_table_address` uses: the authority's bytes, the slot in
/// little-endian order, and the lookup-table program. The result depends on
/// the two arguments alone and is given the name `table_derivation`; the
/// bump seed that comes with the address is dropped.
#[verifier::external_body]
fn try_derive_table_address(authority: &Address, slot: u64) -> (r: Option<Address>)
    ensures
        r matches Some(a) ==> table_derivation(authority@, slot) == Some(a@),
        r is None ==> table_derivation(authority@, slot) is None,
{
    let slot_bytes = slot.to_le_bytes();
    let seeds: [&[u8]; 2] = [&authority.bytes, &slot_bytes];
    let program = solana_sdk::address_lookup_table::program::id();
    match Pubkey::try_find_program_address(&seeds, &program) {
        Some((key, _)) => Some(Address { bytes: key.to_bytes() }),
        None => None,
    }
}

/// `solana_sdk::address_lookup_table::instruction::create_lookup_table`. It
/// panics where no table address can be derived, so that case is left out.
/// The instruction is given the name `create_instruction`. The address that
/// comes with it is the derived one, and the accounts are, in this order:
/// the new table (writable), the authority (read only, no signer), the payer
/// (signer, writable) and the system program (read only). The payload is
/// the bincode form of `CreateLookupTable`, 13 bytes.
#[verifier::external_body]
fn create_lookup_table(authority: &Address, payer: &Address, slot: u64) -> (r: (
    Instruction,
    Address,
))
    requires
        table_derivation(authority@, slot) is Some,
    ensures
        r.0@ == create_instruction(authority@, payer@, slot),
        Some(r.1@) == table_derivation(authority@, slot),
        r.0@.1 == seq![
            writable(r.1@),
            readonly(authority@),
            funding(payer@),
            readonly(system_program()),
        ],
        r.0@.2.len() == CREATE_PAYLOAD,
{
    let (ix, table) = lookup::create_lookup_table(
        Pubkey::from(authority.bytes),
        Pubkey::from(payer.bytes),
        slot,
    );
    let accounts = ix.accounts.iter().map(|m| AccountRef {
        address: Address { bytes: m.pubkey.to_bytes() },
        is_signer: m.is_signer,
        is_writable: m.is_writable,
    }).collect();
    let program_id = Address { bytes: ix.program_id.to_bytes() };
    (Instruction { program_id, accounts, data: ix.data }, Address { bytes: table.to_bytes() })
}

/// `solana_sdk::address_lookup_table::instruction::extend_lookup_table`. The
/// instruction is given the name `extend_instruction`; its accounts are the
/// table (writable) and the authority (signer), and with a payer also the
/// payer (signer, writable) and the system program (read only). The payload
/// is the bincode form of `ExtendLookupTable`: 12 bytes and 32 for each new
/// address.
#[verifier::external_body]
fn extend_lookup_table(
    table: &Address,
    authority: &Address,
    payer: Option<Address>,
    new_addresses: &Vec<Address>,
) -> (r: Instruction)
    ensures
        r@ == extend_instruction(
            table@,
            authority@,
            match payer {
                Some(p) => Some(p@),
                None => None,
            },
            address_views(new_addresses@),
        ),
        r@.1 == extend_accounts(
            table@,
            authority@,
            match payer {
                Some(p) => Some(p@),
                None => None,
            },
        ),
        r@.2.len() == extend_payload(new_addresses@.len()),
{
    let ix = lookup::extend_lookup_table(
        Pubkey::from(table.bytes),
        Pubkey::from(authority.bytes),
        payer.map(|p| Pubkey::from(p.bytes)),
        new_addresses.iter().map(|a| Pubkey::from(a.bytes)).collect(),
    );
    let accounts = ix.accounts.iter().map(|m| AccountRef {
        address: Address { bytes: m.pubkey.to_bytes() },
        is_signer: m.is_signer,
        is_writable: m.is_writable,
    }).collect();
    Instruction { program_id: Address { bytes: ix.program_id.to_bytes() }, accounts, data: ix.data }
}

/// `solana_sdk::address_lookup_table::instruction::deactivate_lookup_table`.
/// The instruction is given the name `deactivate_instruction`; its accounts
/// are the table (writable) and the authority (signer). The payload is the
/// bincode form of `DeactivateLookupTable`, 4 bytes.
#[verifier::external_body]
fn deactivate_lookup_table(table: &Address, authority: &Address) -> (r: Instruction)
    ensures
        r@ == deactivate_instruction(table@, authority@),
        r@.1 == seq![writable(table@), signer(authority@)],
        r@.2.len() == PLAIN_PAYLOAD,
{
    let ix = lookup::deactivate_lookup_table(
        Pubkey::from(table.bytes),
        Pubkey::from(authority.bytes),
    );
    let accounts = ix.accounts.iter().map(|m| AccountRef {
        address: Address { bytes: m.pubkey.to_bytes() },
        is_signer: m.is_signer,
        is_writable: m.is_writable,
    }).collect();
    Instruction { program_id: Address { bytes: ix.program_id.to_bytes() }, accounts, data: ix.data }
}

/// `solana_sdk::address_lookup_table::instruction::close_lookup_table`. The
/// instruction is given the name `close_instruction`; its accounts are the
/// table (writable), the authority (signer) and the recipient (writable).
/// The payload is the bincode form of `CloseLookupTable`, 4 bytes.
#[verifier::external_body]
fn close_lookup_table(table: &Address, authority: &Address, recipient: &Address) -> (r:
    Instruction)
    ensures
        r@ == close_instruction(table@, authority@, recipient@),
        r@.1 == seq![writable(table@), signer(authority@), writable(recipient@)],
        r@.2.len() == PLAIN_PAYLOAD,
{
    let ix = lookup::close_lookup_table(
        Pubkey::from(table.bytes),
        Pubkey::from(authority.bytes),
        Pubkey::from(recipient.bytes),
    );
    let accounts = ix.accounts.iter().map(|m| AccountRef {
        address: Address { bytes: m.pubkey.to_bytes() },
        is_signer: m.is_signer,
        is_writable: m.is_writable,
    }).collect();
    Instruction { program_id: Address { bytes: ix.program_id.to_bytes() }, accounts, data: ix.data }
}

/// The address at which a table of this authority, made at this slot, will
/// live, where one can be derived.
pub fn derive_table_address(authority: &Address, slot: u64) -> (r: Option<Address>)
    ensures
        r matches Some(a) ==> table_derivation(authority@, slot) == Some(a@),
        r is None ==> table_derivation(authority@, slot) is None,
{
    try_derive_table_address(authority, slot)
}

/// The instruction that creates a table owned and paid for by `authority`,
/// together with the address of the new table, which is the one derived from
/// the authority and the slot. The slot must be one that the network has
/// already seen.
pub fn build_create(authority: &Address, slot: u64) -> (r: (Instruction, Address))
    requires
        table_derivation(authority@, slot) is Some,
    ensures
        r.0@ == create_instruction(authority@, authority@, slot),
        Some(r.1@) == table_derivation(authority@, slot),
        r.0@.1 == seq![
            writable(r.1@),
            readonly(authority@),
            funding(authority@),
            readonly(system_program()),
        ],
        r.0@.2.len() == CREATE_PAYLOAD,
{
    create_lookup_table(authority, authority, slot)
}

/// As `build_create`, for any authority and slot: nothing is built where no
/// table address can be derived.
pub fn try_build_create(authority: &Address, slot: u64) -> (r: Option<(Instruction, Address)>)
    ensures
        table_derivation(authority@, slot) is None ==> r is None,
        table_derivation(authority@, slot) is Some ==> r is Some && r->Some_0.0@
            == create_instruction(authority@, authority@, slot) && Some(r->Some_0.1@)
            == table_derivation(authority@, slot) && r->Some_0.0@.1 == seq![
            writable(r->Some_0.1@),
            readonly(authority@),
            funding(authority@),
            readonly(system_program()),
        ] && r->Some_0.0@.2.len() == CREATE_PAYLOAD,
{
    match derive_table_address(authority, slot) {
        Some(_) => Some(build_create(authority, slot)),
        None => None,
    }
}

/// The instruction that appends `addresses`, in their order, to a table.
pub fn build_extend(
    table: &Address,
    authority: &Address,
    payer: Option<Address>,
    addresses: &Vec<Address>,
) -> (r: Instruction)
    ensures
        r@ == extend_instruction(
            table@,
            authority@,
            match payer {
                Some(p) => Some(p@),
                None => None,
            },
            address_views(addresses@),
        ),
        r@.1 == extend_accounts(
            table@,
            authority@,
            match payer {
                Some(p) => Some(p@),
                None => None,
            },
        ),
        r@.2.len() == extend_payload(addresses@.len()),
{
    extend_lookup_table(table, authority, payer, addresses)
}

/// The instruction that deactivates a table.
pub fn build_deactivate(table: &Address, authority: &Address) -> (r: Instruction)
    ensures
        r@ == deactivate_instruction(table@, authority@),
        r@.1 == seq![writable(table@), signer(authority@)],
        r@.2.len() == PLAIN_PAYLOAD,
{
    deactivate_lookup_table(table, authority)
}

/// The instruction that closes a table and hands its balance to `recipient`.
pub fn build_close(table: &Address, authority: &Address, recipient: &Address) -> (r: Instruction)
    ensures
        r@ == close_instruction(table@, authority@, recipient@),
        r@.1 == seq![writable(table@), signer(authority@), writable(recipient@)],
        r@.2.len() == PLAIN_PAYLOAD,
{
    close_lookup_table(table, authority, recipient)
}

/// Building an `extend` twice from the same table, authority, payer and
/// addresses gives the same instruction both times: the same program, the
/// same account references and the same payload, byte for byte.
pub proof fn extend_is_deterministic(
    table: Address,
    authority: Address,
    payer: Option<Address>,
    addresses: Vec<Address>,
    first: Instruction,
    second: Instruction,
)
    requires
        first@ == extend_instruction(
            table@,
            authority@,
            match payer {
                Some(p) => Some(p@),
                None => None,
            },
            address_views(addresses@),
        ),
        second@ == extend_instruction(
            table@,
            authority@,
            match payer {
                Some(p) => Some(p@),
                None => None,
            },
            address_views(addresses@),
        ),
    ensures
        first@ == second@,
        first.program_id@ == second.program_id@,
        first.data@ == second.data@,
        first.accounts@.len() == second.accounts@.len(),
        forall|i: int|
            0 <= i < first.accounts@.len() ==> (#[trigger] first.accounts@[i])@
                == second.accounts@[i]@,
{
    assert(first@.1.len() == first.accounts@.len());
    assert(second@.1.len() == second.accounts@.len());
    assert forall|i: int| 0 <= i < first.accounts@.len() implies (#[trigger] first.accounts@[i])@
        == second.accounts@[i]@ by {
        assert(first@.1[i] == first.accounts@[i]@);
        assert(second@.1[i] == second.accounts@[i]@);
    }
}

} // verus!
