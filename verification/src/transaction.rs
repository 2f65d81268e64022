use vstd::prelude::*;
use solana_sdk::instruction::AccountMeta;
use solana_sdk::instruction::Instruction as SdkInstruction;
use solana_sdk::signature::Keypair;
use solana_sdk::signer::Signer;
use crate::address::{Address, address_views};
use crate::error::LutError;
use crate::instruction::{Instruction, InstructionView, instruction_views};

verus! {

/// The 64 bytes of a signing key pair: the secret half, then the public one.
#[derive(Clone, Copy, Debug)]
pub struct SigningKey {
    pub bytes: [u8; 64],
}

impl View for SigningKey {
    type V = Seq<u8>;

    open spec fn view(&self) -> Seq<u8> {
        self.bytes@
    }
}

/// The hash of a recent block, which bounds how long a transaction stays
/// valid.
#[derive(Clone, Copy, Debug, PartialEq, Eq)]
pub struct Blockhash {
    pub bytes: [u8; 32],
}

impl View for Blockhash {
    type V = Seq<u8>;

    open spec fn view(&self) -> Seq<u8> {
        self.bytes@
    }
}

/// A transaction that carries its one signature, as the two parts that make
/// it up: the 64 bytes of the signature, and the bytes of the message that
/// was signed. The message holds the fee payer, the blockhash and the
/// instructions; what is sent to the network is built from these two parts
/// and from nothing else.
#[derive(Clone, Debug, PartialEq, Eq)]
pub struct SignedTransaction {
    pub signature: Vec<u8>,
    pub message: Vec<u8>,
}

/// The address that `Keypair::from_bytes` and `pubkey` give for the bytes of
/// a key pair, or nothing where the bytes are no key pair.
pub uninterp spec fn keypair_address(key: Seq<u8>) -> Option<Seq<u8>>;

/// The signature and the message bytes of the transaction that holds the
/// given instructions, has the key's own address as fee payer and the given
/// blockhash, and is signed by the key alone; nothing where the bytes are no
/// key pair or the instructions ask for another signer.
pub uninterp spec fn signed_transaction(
    key: Seq<u8>,
    blockhash: Seq<u8>,
    instructions: Seq<InstructionView>,
) -> Option<(Seq<u8>, Seq<u8>)>;

/// `solana_sdk::signature::Keypair::from_bytes`, then `Signer::pubkey` of
/// the key pair. The result depends on the bytes alone and is given the name
/// `keypair_address`.
#[verifier::external_body]
fn address_of_key(key: &SigningKey) -> (r: Option<Address>)
    ensures
        r matches Some(a) ==> keypair_address(key@) == Some(a@),
        r is None ==> keypair_address(key@) is None,
{
    match Keypair::from_bytes(&key.bytes) {
        Ok(pair) => Some(Address { bytes: pair.pubkey().to_bytes() }),
        Err(_) => None,
    }
}

/// The instruction names the key, as its program or as one of its accounts.
pub open spec fn instruction_names(instruction: InstructionView, key: Seq<u8>) -> bool {
    instruction.0 == key || exists|j: int|
        0 <= j < instruction.1.len() && (#[trigger] instruction.1[j]).0 == key
}

/// One of the instructions names the key.
pub open spec fn names_key(instructions: Seq<InstructionView>, key: Seq<u8>) -> bool {
    exists|i: int|
        0 <= i < instructions.len() && instruction_names(#[trigger] instructions[i], key)
}

/// A list of different keys, each named by one of the instructions.
pub open spec fn distinct_named(instructions: Seq<InstructionView>, keys: Seq<Seq<u8>>) -> bool {
    &&& keys.no_duplicates()
    &&& forall|k: int| 0 <= k < keys.len() ==> names_key(instructions, #[trigger] keys[k])
}

/// Most different keys that the instructions of one message may name; the
/// fee payer takes the one place that is left of 255.
pub const MAX_KEYS: usize = 254;

/// Most entries of any list in a message, and most bytes of a payload.
pub const MAX_LENGTH: usize = 65535;

/// The instructions can be compiled into one message: there are at most
/// 65535 of them, none has more than 65535 accounts or bytes of payload, and
/// together they name at most 254 different keys.
pub open spec fn fits_in_message(instructions: Seq<InstructionView>) -> bool {
    &&& instructions.len() <= 65535
    &&& forall|i: int|
        0 <= i < instructions.len() ==> (#[trigger] instructions[i]).1.len() <= 65535
            && instructions[i].2.len() <= 65535
    &&& forall|keys: Seq<Seq<u8>>| #[trigger]
        distinct_named(instructions, keys) ==> keys.len() <= 254
}

/// `Transaction::new_with_payer` with the key's own address as payer, then
/// `Transaction::try_sign` with the key as only signer. Compiling a message
/// panics on more than 255 keys of one kind, and signing panics on a list
/// or payload that is longer than 65535, so such instructions are left out.
/// The result depends on the arguments alone and is given the name
/// `signed_transaction`: the first signature of the transaction, which is
/// 64 bytes long, and what `message_data` gives for it. Nothing else of the
/// transaction is handed out. Bytes that `Keypair::from_bytes` refuses, and
/// a failure to sign, come back as `None`.
#[verifier::external_body]
fn sign_with_payer(key: &SigningKey, blockhash: &Blockhash, instructions: &Vec<Instruction>) -> (r:
    Option<SignedTransaction>)
    requires
        fits_in_message(instruction_views(instructions@)),
    ensures
        r matches Some(t) ==> signed_transaction(
            key@,
            blockhash@,
            instruction_views(instructions@),
        ) == Some((t.signature@, t.message@)) && t.signature@.len() == 64,
        r is None ==> signed_transaction(key@, blockhash@, instruction_views(instructions@))
            is None,
{
    let pair = Keypair::from_bytes(&key.bytes).ok()?;
    let list: Vec<_> = instructions.iter().map(|i| {
        let accounts = i.accounts.iter().map(|a| AccountMeta {
            pubkey: a.address.bytes.into(),
            is_signer: a.is_signer,
            is_writable: a.is_writable,
        }).collect();
        SdkInstruction::new_with_bytes(i.program_id.bytes.into(), &i.data, accounts)
    }).collect();
    let mut transaction = solana_sdk::transaction::Transaction::new_with_payer(&list, Some(&pair.pubkey()));
    transaction.try_sign(&[&pair], blockhash.bytes.into()).ok()?;
    let signature = transaction.signatures[0].as_ref().to_vec();
    Some(SignedTransaction { signature, message: transaction.message_data() })
}

/// A list without repetitions is no longer than a list that holds each of
/// its entries.
pub proof fn distinct_within(part: Seq<Seq<u8>>, whole: Seq<Seq<u8>>)
    requires
        part.no_duplicates(),
        forall|k: int| 0 <= k < part.len() ==> whole.contains(#[trigger] part[k]),
    ensures
        part.len() <= whole.len(),
{
    broadcast use vstd::seq_lib::seq_to_set_is_finite;

    part.unique_seq_to_set();
    whole.lemma_cardinality_of_set();
    assert forall|x: Seq<u8>| part.to_set().contains(x) implies whole.to_set().contains(x) by {
        let k = choose|k: int| 0 <= k < part.len() && part[k] == x;
        assert(whole.contains(part[k]));
    }
    vstd::set_lib::lemma_len_subset(part.to_set(), whole.to_set());
}

/// Tells whether two addresses are the same 32 bytes.
fn same_address(a: &Address, b: &Address) -> (r: bool)
    ensures
        r == (a@ == b@),
{
    let mut i: usize = 0;
    while i < 32
        invariant
            i <= 32,
            forall|k: int| 0 <= k < i ==> a.bytes@[k] == b.bytes@[k],
        decreases 32 - i,
    {
        if a.bytes[i] != b.bytes[i] {
            assert(a@[i as int] != b@[i as int]);
            return false;
        }
        i = i + 1;
    }
    assert(a@ =~= b@);
    true
}

/// Tells whether the list holds the key.
fn holds_key(seen: &Vec<Address>, key: &Address) -> (r: bool)
    ensures
        r == address_views(seen@).contains(key@),
{
    let mut i: usize = 0;
    while i < seen.len()
        invariant
            i <= seen@.len(),
            forall|k: int| 0 <= k < i ==> address_views(seen@)[k] != key@,
        decreases seen@.len() - i,
    {
        if same_address(&seen[i], key) {
            assert(address_views(seen@)[i as int] == key@);
            return true;
        }
        i = i + 1;
    }
    false
}

/// What is known of the keys seen so far: they differ from each other, the
/// instructions name each of them, and there is room for them.
pub open spec fn seen_so_far(instructions: Seq<InstructionView>, seen: Seq<Seq<u8>>) -> bool {
    &&& distinct_named(instructions, seen)
    &&& seen.len() <= 254
}

/// Records a key that the instructions name. Gives `false`, and leaves the
/// list as it is, where the key is new and the list is full.
fn note_key(seen: &mut Vec<Address>, key: &Address, Ghost(instructions): Ghost<
    Seq<InstructionView>,
>) -> (r: bool)
    requires
        seen_so_far(instructions, address_views(old(seen)@)),
        names_key(instructions, key@),
    ensures
        r ==> seen_so_far(instructions, address_views(final(seen)@)),
        r ==> address_views(final(seen)@).contains(key@),
        r ==> forall|k: Seq<u8>|
            address_views(old(seen)@).contains(k) ==> address_views(final(seen)@).contains(k),
        !r ==> !fits_in_message(instructions),
{
    if holds_key(seen, key) {
        return true;
    }
    let ghost before = address_views(seen@);
    if seen.len() >= MAX_KEYS {
        proof {
            let more = before.push(key@);
            assert(distinct_named(instructions, more));
            assert(more.len() == 255);
        }
        return false;
    }
    seen.push(*key);
    proof {
        let after = address_views(seen@);
        assert(after =~= before.push(key@));
        assert(after[before.len() as int] == key@);
        assert forall|k: Seq<u8>| before.contains(k) implies after.contains(k) by {
            let i = choose|i: int| 0 <= i < before.len() && before[i] == k;
            assert(after[i] == k);
        }
    }
    true
}

/// Tells whether the instructions can be compiled into one message.
pub fn check_message_size(instructions: &Vec<Instruction>) -> (r: bool)
    ensures
        r == fits_in_message(instruction_views(instructions@)),
{
    let ghost views = instruction_views(instructions@);
    if instructions.len() > MAX_LENGTH {
        return false;
    }
    let mut seen: Vec<Address> = Vec::new();
    let mut i: usize = 0;
    while i < instructions.len()
        invariant
            i <= instructions@.len(),
            instructions@.len() <= 65535,
            views == instruction_views(instructions@),
            seen_so_far(views, address_views(seen@)),
            forall|n: int|
                0 <= n < i ==> (#[trigger] views[n]).1.len() <= 65535 && views[n].2.len()
                    <= 65535,
            forall|n: int, key: Seq<u8>|
                0 <= n < i && #[trigger] instruction_names(views[n], key) ==> address_views(
                    seen@,
                ).contains(key),
        decreases instructions@.len() - i,
    {
        let instruction = &instructions[i];
        assert(views[i as int] == instruction@);
        if instruction.accounts.len() > MAX_LENGTH || instruction.data.len() > MAX_LENGTH {
            return false;
        }
        assert(instruction_names(views[i as int], instruction.program_id@));
        if !note_key(&mut seen, &instruction.program_id, Ghost(views)) {
            return false;
        }
        let mut j: usize = 0;
        while j < instruction.accounts.len()
            invariant
                j <= instruction.accounts@.len(),
                0 <= i < instructions@.len(),
                views == instruction_views(instructions@),
                views[i as int] == instruction@,
                seen_so_far(views, address_views(seen@)),
                address_views(seen@).contains(instruction.program_id@),
                forall|m: int|
                    0 <= m < j ==> address_views(seen@).contains(
                        (#[trigger] instruction.accounts@[m]).address@,
                    ),
                forall|n: int, key: Seq<u8>|
                    0 <= n < i && #[trigger] instruction_names(views[n], key) ==> address_views(
                        seen@,
                    ).contains(key),
            decreases instruction.accounts@.len() - j,
        {
            let account = &instruction.accounts[j];
            proof {
                assert(views[i as int].1[j as int].0 == account.address@);
                assert(instruction_names(views[i as int], account.address@));
            }
            if !note_key(&mut seen, &account.address, Ghost(views)) {
                return false;
            }
            j = j + 1;
        }
        proof {
            assert forall|key: Seq<u8>| instruction_names(views[i as int], key) implies address_views(
                seen@,
            ).contains(key) by {
                if views[i as int].0 != key {
                    let m = choose|m: int|
                        0 <= m < views[i as int].1.len() && (#[trigger] views[i as int].1[m]).0
                            == key;
                    assert(instruction.accounts@[m].address@ == key);
                }
            }
        }
        i = i + 1;
    }
    proof {
        let held = address_views(seen@);
        assert forall|keys: Seq<Seq<u8>>| #[trigger] distinct_named(views, keys) implies keys.len()
            <= 254 by {
            assert forall|k: int| 0 <= k < keys.len() implies held.contains(#[trigger] keys[k]) by {
                assert(names_key(views, keys[k]));
                let n = choose|n: int|
                    0 <= n < views.len() && instruction_names(#[trigger] views[n], keys[k]);
                assert(instruction_names(views[n], keys[k]));
            }
            distinct_within(keys, held);
        }
    }
    true
}

/// What signing owes where the instructions fit in one message: the
/// signature and the signed bytes of the one transaction that key, blockhash
/// and instructions determine, or the failure to sign it.
pub open spec fn signed_outcome(
    key: Seq<u8>,
    blockhash: Seq<u8>,
    instructions: Seq<InstructionView>,
    r: Result<SignedTransaction, LutError>,
) -> bool {
    match signed_transaction(key, blockhash, instructions) {
        Some(signed) => r matches Ok(t) && (t.signature@, t.message@) == signed
            && t.signature@.len() == 64,
        None => r matches Err(LutError::SubmissionFailed(cause)) && cause@
            == "transaction could not be signed"@,
    }
}

/// The result is the refusal of instructions that fit in no message.
pub open spec fn too_large<T>(r: Result<T, LutError>) -> bool {
    r matches Err(LutError::SubmissionFailed(cause)) && cause@ == "transaction too large"@
}

/// What signing owes for a key, a blockhash and a list of instructions.
/// Instructions that fit in no message are refused as too large; for the
/// others see `signed_outcome`.
pub open spec fn signing_outcome(
    key: Seq<u8>,
    blockhash: Seq<u8>,
    instructions: Seq<InstructionView>,
    r: Result<SignedTransaction, LutError>,
) -> bool {
    if fits_in_message(instructions) {
        signed_outcome(key, blockhash, instructions, r)
    } else {
        too_large(r)
    }
}

/// The keys that one instruction names, with repetitions: its program, then
/// its accounts.
pub open spec fn keys_of(instruction: InstructionView) -> Seq<Seq<u8>> {
    seq![instruction.0] + Seq::new(instruction.1.len(), |j: int| instruction.1[j].0)
}

/// One instruction alone fits in a message if it has at most 253 accounts
/// and at most 65535 bytes of payload, and does not fit if its payload is
/// longer.
pub proof fn one_instruction_fits(instruction: InstructionView)
    ensures
        instruction.1.len() <= 253 && instruction.2.len() <= 65535 ==> fits_in_message(
            seq![instruction],
        ),
        instruction.2.len() > 65535 ==> !fits_in_message(seq![instruction]),
{
    let list = seq![instruction];
    assert(list[0] == instruction);
    if instruction.1.len() <= 253 && instruction.2.len() <= 65535 {
        let all = keys_of(instruction);
        assert forall|keys: Seq<Seq<u8>>| #[trigger] distinct_named(list, keys) implies keys.len()
            <= 254 by {
            assert forall|k: int| 0 <= k < keys.len() implies all.contains(#[trigger] keys[k]) by {
                assert(names_key(list, keys[k]));
                let n = choose|n: int|
                    0 <= n < list.len() && instruction_names(#[trigger] list[n], keys[k]);
                assert(list[n] == instruction);
                if instruction.0 == keys[k] {
                    assert(all[0] == keys[k]);
                } else {
                    let j = choose|j: int|
                        0 <= j < instruction.1.len() && (#[trigger] instruction.1[j]).0
                            == keys[k];
                    assert(all[j + 1] == keys[k]);
                }
            }
            distinct_within(keys, all);
        }
    }
}

/// Everything that a command needs besides its own arguments: the signing
/// key with its address, and the blockhash and slot that were current when
/// the configuration was resolved.
#[derive(Clone, Copy, Debug)]
pub struct CliConfig {
    pub keypair: SigningKey,
    pub authority: Address,
    pub recent_blockhash: Blockhash,
    pub recent_slot: u64,
}

impl CliConfig {
    /// The authority is the address of the signing key.
    pub open spec fn wf(&self) -> bool {
        keypair_address(self.keypair@) == Some(self.authority@)
    }

    /// Bundles a signing key with a snapshot of the network. Bytes that are
    /// no key pair are refused.
    pub fn new(keypair: SigningKey, recent_blockhash: Blockhash, recent_slot: u64) -> (r: Result<
        CliConfig,
        LutError,
    >)
        ensures
            keypair_address(keypair@) is None ==> r == Err::<CliConfig, LutError>(
                LutError::KeypairReadError,
            ),
            keypair_address(keypair@) is Some ==> r is Ok && r->Ok_0.wf() && r->Ok_0.keypair
                == keypair && r->Ok_0.recent_blockhash == recent_blockhash
                && r->Ok_0.recent_slot == recent_slot,
    {
        match address_of_key(&keypair) {
            Some(authority) => Ok(CliConfig { keypair, authority, recent_blockhash, recent_slot }),
            None => Err(LutError::KeypairReadError),
        }
    }

    /// Replaces the snapshot of the network by a newer one. The key stays.
    pub fn update_blocks(&mut self, recent_blockhash: Blockhash, recent_slot: u64)
        ensures
            final(self).keypair == old(self).keypair,
            final(self).authority == old(self).authority,
            final(self).recent_blockhash == recent_blockhash,
            final(self).recent_slot == recent_slot,
            old(self).wf() ==> final(self).wf(),
    {
        self.recent_blockhash = recent_blockhash;
        self.recent_slot = recent_slot;
    }
}

/// Builds the transaction that holds `instructions` in their order, with
/// the configured key as fee payer and only signer and the blockhash that
/// the configuration holds, and signs it once. Nothing is fetched anew and
/// nothing is tried twice.
pub fn send_transaction(config: &CliConfig, instructions: &Vec<Instruction>) -> (r: Result<
    SignedTransaction,
    LutError,
>)
    ensures
        signing_outcome(
            config.keypair@,
            config.recent_blockhash@,
            instruction_views(instructions@),
            r,
        ),
{
    if !check_message_size(instructions) {
        return Err(LutError::SubmissionFailed("transaction too large".to_owned()));
    }
    match sign_with_payer(&config.keypair, &config.recent_blockhash, instructions) {
        Some(signed) => Ok(signed),
        None => Err(LutError::SubmissionFailed("transaction could not be signed".to_owned())),
    }
}

} // verus!
