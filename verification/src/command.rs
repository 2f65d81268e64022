use vstd::prelude::*;
use crate::account::{decode, entry_at, entry_count, well_formed_account};
use crate::address::{Address, base58_address, base58_text};
use crate::error::LutError;
use crate::instruction::{
    Instruction,
    InstructionView,
    build_close,
    build_deactivate,
    build_extend,
    close_instruction,
    create_instruction,
    deactivate_instruction,
    extend_instruction,
    instruction_views,
    table_derivation,
    try_build_create,
};
use crate::source::{
    addresses_of,
    all_valid,
    invalid_list_is_not_valid,
    json_string_array,
    merged_texts,
    names_first_invalid,
    resolve,
    resolve_borrowed,
    texts_of,
};
use crate::transaction::{
    CliConfig,
    SignedTransaction,
    fits_in_message,
    one_instruction_fits,
    send_transaction,
    signed_outcome,
    too_large,
};

verus! {

/// What was asked for on the command line.
pub struct Args {
    /// Seconds to wait; accepted and kept, used by no command.
    pub timeout: u32,
    pub command: Commands,
}

/// The five commands. `lut` is the base58 address of the table; `file` names
/// a JSON file of addresses.
#[derive(Clone)]
pub enum Commands {
    Create,
    Extend { lut: String, addresses: Option<Vec<String>>, file: Option<String> },
    Close { lut: String },
    Deactivate { lut: String },
    Decode { lut: String },
}

/// A signed transaction of one instruction, ready to be sent, and the table
/// that it acts on.
pub struct Submission {
    pub transaction: SignedTransaction,
    pub table: Address,
}

/// What a command asks of the network.
pub enum Step {
    /// Send the transaction and wait until it is confirmed.
    Submit(Submission),
    /// Fetch the bytes of the account at this address and decode them.
    Fetch(Address),
}

/// The result is the refusal of `text` as an address.
pub open spec fn refused<T>(r: Result<T, LutError>, text: Seq<char>) -> bool {
    r matches Err(LutError::InvalidAddress(value)) && value@ == text
}

/// Most addresses that one `extend` can carry: with more, the payload is
/// longer than a message allows.
pub const MAX_EXTEND_ADDRESSES: usize = 2047;

/// What is owed for one instruction on one table: the table, and the signed
/// transaction of exactly that instruction, or the failure to sign it.
pub open spec fn submission_outcome(
    config: CliConfig,
    table: Seq<u8>,
    instruction: InstructionView,
    r: Result<Submission, LutError>,
) -> bool {
    match r {
        Ok(s) => s.table@ == table && signed_outcome(
            config.keypair@,
            config.recent_blockhash@,
            seq![instruction],
            Ok::<SignedTransaction, LutError>(s.transaction),
        ),
        Err(e) => signed_outcome(
            config.keypair@,
            config.recent_blockhash@,
            seq![instruction],
            Err::<SignedTransaction, LutError>(e),
        ),
    }
}

/// What `create` owes: one instruction, built for the configured authority
/// and the slot that the configuration holds, on the table address derived
/// from the two.
pub open spec fn create_outcome(config: CliConfig, r: Result<Submission, LutError>) -> bool {
    match table_derivation(config.authority@, config.recent_slot) {
        None => r matches Err(LutError::SubmissionFailed(cause)) && cause@
            == "no table address can be derived"@,
        Some(table) => submission_outcome(
            config,
            table,
            create_instruction(config.authority@, config.authority@, config.recent_slot),
            r,
        ),
    }
}

/// What `extend` owes. The table address is read first, then the two
/// sources are combined and read; only then is anything built. More than
/// 2047 addresses fit in no message.
pub open spec fn extend_outcome(
    config: CliConfig,
    lut: Seq<char>,
    flag: Option<Seq<Seq<char>>>,
    file: Option<Seq<u8>>,
    r: Result<Submission, LutError>,
) -> bool {
    match base58_address(lut) {
        None => refused(r, lut),
        Some(table) => {
            if flag is None && file is None {
                r matches Err(LutError::NoAddressesProvided)
            } else if file is Some && json_string_array(file.unwrap()) is None {
                r matches Err(LutError::JsonParseError)
            } else {
                let texts = merged_texts(
                    flag,
                    match file {
                        Some(document) => json_string_array(document),
                        None => None,
                    },
                );
                if !all_valid(texts) {
                    r matches Err(e) && names_first_invalid(texts, e)
                } else if texts.len() > MAX_EXTEND_ADDRESSES {
                    too_large(r)
                } else {
                    submission_outcome(
                        config,
                        table,
                        extend_instruction(
                            table,
                            config.authority@,
                            Some(config.authority@),
                            addresses_of(texts),
                        ),
                        r,
                    )
                }
            }
        },
    }
}

/// What `close` owes: the balance of the table goes to the authority.
pub open spec fn close_outcome(config: CliConfig, lut: Seq<char>, r: Result<Submission, LutError>) -> bool {
    match base58_address(lut) {
        None => refused(r, lut),
        Some(table) => submission_outcome(
            config,
            table,
            close_instruction(table, config.authority@, config.authority@),
            r,
        ),
    }
}

/// What `deactivate` owes.
pub open spec fn deactivate_outcome(
    config: CliConfig,
    lut: Seq<char>,
    r: Result<Submission, LutError>,
) -> bool {
    match base58_address(lut) {
        None => refused(r, lut),
        Some(table) => submission_outcome(
            config,
            table,
            deactivate_instruction(table, config.authority@),
            r,
        ),
    }
}

/// The lines that `decode` prints for the bytes of an account: one base58
/// text per stored address, in storage order.
pub open spec fn decoded_lines(raw: Seq<u8>) -> Seq<Seq<char>> {
    Seq::new(entry_count(raw), |i: int| base58_text(entry_at(raw, i)))
}

/// Reads the address of a table as it was typed.
pub fn parse_table_address(lut: &String) -> (r: Result<Address, LutError>)
    ensures
        match base58_address(lut@) {
            Some(table) => r is Ok && r->Ok_0@ == table,
            None => refused(r, lut@),
        },
{
    match Address::parse(lut.as_str()) {
        Some(table) => Ok(table),
        None => Err(LutError::InvalidAddress(lut.clone())),
    }
}

/// Signs the transaction that holds this one instruction.
fn submit_one(config: &CliConfig, table: Address, instruction: Instruction) -> (r: Result<
    Submission,
    LutError,
>)
    ensures
        fits_in_message(seq![instruction@]) ==> submission_outcome(
            *config,
            table@,
            instruction@,
            r,
        ),
        !fits_in_message(seq![instruction@]) ==> too_large(r),
{
    let mut instructions: Vec<Instruction> = Vec::new();
    instructions.push(instruction);
    assert(instruction_views(instructions@) =~= seq![instruction@]);
    match send_transaction(config, &instructions) {
        Ok(transaction) => Ok(Submission { transaction, table }),
        Err(e) => Err(e),
    }
}

/// Prepares the creation of a table: one instruction, for the configured
/// authority and slot, signed with the configured key and blockhash. The
/// result names the address of the new table.
pub fn create_lut(config: &CliConfig) -> (r: Result<Submission, LutError>)
    ensures
        create_outcome(*config, r),
{
    match try_build_create(&config.authority, config.recent_slot) {
        Some((instruction, table)) => {
            proof {
                one_instruction_fits(instruction@);
            }
            submit_one(config, table, instruction)
        },
        None => Err(LutError::SubmissionFailed("no table address can be derived".to_owned())),
    }
}

/// Prepares the extension of a table by the addresses given directly and
/// those of the address file, in this order. The authority pays. Every
/// input is checked before anything is built or signed.
pub fn extend_lut(
    config: &CliConfig,
    lut_address: String,
    addresses: Option<Vec<String>>,
    file: Option<Vec<u8>>,
) -> (r: Result<Submission, LutError>)
    ensures
        extend_outcome(
            *config,
            lut_address@,
            match addresses {
                Some(list) => Some(texts_of(list@)),
                None => None,
            },
            match file {
                Some(document) => Some(document@),
                None => None,
            },
            r,
        ),
{
    let table = match parse_table_address(&lut_address) {
        Ok(table) => table,
        Err(e) => {
            return Err(e);
        },
    };
    let ghost flag_texts: Option<Seq<Seq<char>>> = if addresses is Some {
        Some(texts_of(addresses->Some_0@))
    } else {
        None
    };
    let ghost file_texts: Option<Seq<Seq<char>>> = if file is Some {
        json_string_array(file->Some_0@)
    } else {
        None
    };
    let ghost texts = merged_texts(flag_texts, file_texts);
    match resolve(addresses, file) {
        Ok(list) => {
            assert(all_valid(texts));
            assert(crate::address::address_views(list@) == addresses_of(texts));
            let instruction = build_extend(
                &table,
                &config.authority,
                Some(config.authority),
                &list,
            );
            proof {
                one_instruction_fits(instruction@);
                assert(crate::address::address_views(list@).len() == list@.len());
                assert(addresses_of(texts).len() == texts.len());
            }
            submit_one(config, table, instruction)
        },
        Err(e) => {
            proof {
                if names_first_invalid(texts, e) {
                    invalid_list_is_not_valid(texts, e);
                }
            }
            Err(e)
        },
    }
}

/// Prepares the closing of a table; what the table holds goes to the
/// authority. Whether the table may be closed yet is left to the network.
pub fn close_lut(config: &CliConfig, lut_address: String) -> (r: Result<Submission, LutError>)
    ensures
        close_outcome(*config, lut_address@, r),
{
    match parse_table_address(&lut_address) {
        Ok(table) => {
            let instruction = build_close(&table, &config.authority, &config.authority);
            proof {
                one_instruction_fits(instruction@);
            }
            submit_one(config, table, instruction)
        },
        Err(e) => Err(e),
    }
}

/// Prepares the deactivation of a table.
pub fn deactivate_lut(config: &CliConfig, lut_address: String) -> (r: Result<Submission, LutError>)
    ensures
        deactivate_outcome(*config, lut_address@, r),
{
    match parse_table_address(&lut_address) {
        Ok(table) => {
            let instruction = build_deactivate(&table, &config.authority);
            proof {
                one_instruction_fits(instruction@);
            }
            submit_one(config, table, instruction)
        },
        Err(e) => Err(e),
    }
}

/// Turns the bytes of a table account into the lines to print: one address
/// per line, in storage order.
pub fn decode_lut(account_data: &[u8]) -> (r: Result<Vec<String>, LutError>)
    ensures
        well_formed_account(account_data@) ==> r is Ok && texts_of(r->Ok_0@) == decoded_lines(
            account_data@,
        ),
        !well_formed_account(account_data@) ==> r == Err::<Vec<String>, LutError>(
            LutError::MalformedAccount,
        ),
{
    match decode(account_data) {
        Ok(addresses) => {
            let mut lines: Vec<String> = Vec::new();
            let mut i: usize = 0;
            while i < addresses.len()
                invariant
                    i <= addresses@.len(),
                    lines@.len() == i,
                    forall|k: int|
                        0 <= k < i ==> (#[trigger] lines@[k])@ == base58_text(addresses@[k]@),
                decreases addresses@.len() - i,
            {
                let line = addresses[i].to_base58();
                lines.push(line);
                i = i + 1;
            }
            proof {
                let stored = crate::account::stored_addresses(account_data@);
                let views = crate::address::address_views(addresses@);
                assert(well_formed_account(account_data@));
                assert(views == stored);
                assert(views.len() == addresses@.len());
                assert(stored.len() == entry_count(account_data@));
                assert forall|k: int| 0 <= k < lines@.len() implies texts_of(lines@)[k]
                    == decoded_lines(account_data@)[k] by {
                    assert(views[k] == addresses@[k]@);
                    assert(stored[k] == entry_at(account_data@, k));
                }
                assert(texts_of(lines@) =~= decoded_lines(account_data@));
            }
            Ok(lines)
        },
        Err(_) => Err(LutError::MalformedAccount),
    }
}

/// What the check of the two address sources owes: the fault that
/// resolving them would find, or none.
pub open spec fn sources_outcome(
    flag: Option<Seq<Seq<char>>>,
    file: Option<Seq<u8>>,
    r: Result<(), LutError>,
) -> bool {
    if flag is None && file is None {
        r matches Err(LutError::NoAddressesProvided)
    } else if file is Some && json_string_array(file.unwrap()) is None {
        r matches Err(LutError::JsonParseError)
    } else {
        let texts = merged_texts(
            flag,
            match file {
                Some(document) => json_string_array(document),
                None => None,
            },
        );
        if all_valid(texts) {
            r is Ok
        } else {
            r matches Err(e) && names_first_invalid(texts, e)
        }
    }
}

/// What the check of a command's inputs owes. `create` has none. The other
/// commands name a table, whose text must be an address; `extend` also
/// needs its addresses, which must resolve. The first fault found, in this
/// order, is the error.
pub open spec fn inputs_outcome(
    command: Commands,
    file: Option<Seq<u8>>,
    r: Result<(), LutError>,
) -> bool {
    match command {
        Commands::Create => r is Ok,
        Commands::Extend { lut, addresses, file: _ } => match base58_address(lut@) {
            None => refused(r, lut@),
            Some(_) => sources_outcome(
                match addresses {
                    Some(a) => Some(texts_of(a@)),
                    None => None,
                },
                file,
                r,
            ),
        },
        Commands::Close { lut } => match base58_address(lut@) {
            None => refused(r, lut@),
            Some(_) => r is Ok,
        },
        Commands::Deactivate { lut } => match base58_address(lut@) {
            None => refused(r, lut@),
            Some(_) => r is Ok,
        },
        Commands::Decode { lut } => match base58_address(lut@) {
            None => refused(r, lut@),
            Some(_) => r is Ok,
        },
    }
}

/// What the check of a command's table address owes: `create` names no
/// table; for the other commands the text must be an address.
pub open spec fn table_outcome(command: Commands, r: Result<(), LutError>) -> bool {
    match command {
        Commands::Create => r is Ok,
        Commands::Extend { lut, addresses: _, file: _ } => table_checked(lut@, r),
        Commands::Close { lut } => table_checked(lut@, r),
        Commands::Deactivate { lut } => table_checked(lut@, r),
        Commands::Decode { lut } => table_checked(lut@, r),
    }
}

/// The text is an address, or the result is its refusal.
pub open spec fn table_checked(lut: Seq<char>, r: Result<(), LutError>) -> bool {
    match base58_address(lut) {
        None => refused(r, lut),
        Some(_) => r is Ok,
    }
}

/// Checks the table address of a command, which is the first thing that a
/// command reports: before the address file is read, and before anything
/// else is looked at.
pub fn check_table(command: &Commands) -> (r: Result<(), LutError>)
    ensures
        table_outcome(*command, r),
{
    match command {
        Commands::Create => Ok(()),
        Commands::Extend { lut, addresses: _, file: _ } => only_table(lut),
        Commands::Close { lut } => only_table(lut),
        Commands::Deactivate { lut } => only_table(lut),
        Commands::Decode { lut } => only_table(lut),
    }
}

/// Checks everything that a command was given, without the network: the
/// text of the table address and, for `extend`, the addresses to add.
/// `file` holds the bytes of the address file, where one was named.
pub fn check_inputs(command: &Commands, file: &Option<Vec<u8>>) -> (r: Result<(), LutError>)
    ensures
        inputs_outcome(
            *command,
            match file {
                Some(document) => Some(document@),
                None => None,
            },
            r,
        ),
{
    match command {
        Commands::Create => Ok(()),
        Commands::Extend { lut, addresses, file: _ } => {
            match parse_table_address(lut) {
                Ok(_) => {
                    let ghost texts = merged_texts(
                        if addresses is Some {
                            Some(texts_of(addresses->Some_0@))
                        } else {
                            None
                        },
                        if file is Some {
                            json_string_array(file->Some_0@)
                        } else {
                            None
                        },
                    );
                    match resolve_borrowed(addresses, file) {
                        Ok(_) => Ok(()),
                        Err(e) => {
                            proof {
                                if names_first_invalid(texts, e) {
                                    invalid_list_is_not_valid(texts, e);
                                }
                            }
                            Err(e)
                        },
                    }
                },
                Err(e) => Err(e),
            }
        },
        Commands::Close { lut } => only_table(lut),
        Commands::Deactivate { lut } => only_table(lut),
        Commands::Decode { lut } => only_table(lut),
    }
}

/// Checks the text of a table address.
fn only_table(lut: &String) -> (r: Result<(), LutError>)
    ensures
        match base58_address(lut@) {
            None => refused(r, lut@),
            Some(_) => r is Ok,
        },
{
    match parse_table_address(lut) {
        Ok(_) => Ok(()),
        Err(e) => Err(e),
    }
}

/// The submission that a step carries, where it carries one.
pub open spec fn submission_of(r: Result<Step, LutError>) -> Option<Result<Submission, LutError>> {
    match r {
        Ok(Step::Submit(s)) => Some(Ok(s)),
        Ok(Step::Fetch(_)) => None,
        Err(e) => Some(Err(e)),
    }
}

/// What a command owes as its one step.
pub open spec fn plan_outcome(
    config: CliConfig,
    command: Commands,
    file: Option<Seq<u8>>,
    r: Result<Step, LutError>,
) -> bool {
    match command {
        Commands::Create => submission_of(r) matches Some(s) && create_outcome(config, s),
        Commands::Extend { lut, addresses, file: _ } => submission_of(r) matches Some(s)
            && extend_outcome(
            config,
            lut@,
            match addresses {
                Some(list) => Some(texts_of(list@)),
                None => None,
            },
            file,
            s,
        ),
        Commands::Close { lut } => submission_of(r) matches Some(s) && close_outcome(
            config,
            lut@,
            s,
        ),
        Commands::Deactivate { lut } => submission_of(r) matches Some(s) && deactivate_outcome(
            config,
            lut@,
            s,
        ),
        Commands::Decode { lut } => match base58_address(lut@) {
            Some(table) => r matches Ok(Step::Fetch(t)) && t@ == table,
            None => refused(r, lut@),
        },
    }
}

/// Routes a command to its one step. `file` holds the bytes of the address
/// file of an `extend`, where one was named. The four commands that change
/// a table end in a signed transaction to send; `decode` ends in an account
/// to fetch, whose bytes go to `decode_lut`.
pub fn plan(config: &CliConfig, command: Commands, file: Option<Vec<u8>>) -> (r: Result<
    Step,
    LutError,
>)
    ensures
        plan_outcome(
            *config,
            command,
            match file {
                Some(document) => Some(document@),
                None => None,
            },
            r,
        ),
{
    match command {
        Commands::Create => wrap(create_lut(config)),
        Commands::Extend { lut, addresses, file: _ } => wrap(
            extend_lut(config, lut, addresses, file),
        ),
        Commands::Close { lut } => wrap(close_lut(config, lut)),
        Commands::Deactivate { lut } => wrap(deactivate_lut(config, lut)),
        Commands::Decode { lut } => {
            match parse_table_address(&lut) {
                Ok(table) => Ok(Step::Fetch(table)),
                Err(e) => Err(e),
            }
        },
    }
}

/// A submission as a step.
fn wrap(r: Result<Submission, LutError>) -> (step: Result<Step, LutError>)
    ensures
        submission_of(step) == Some(r),
{
    match r {
        Ok(s) => Ok(Step::Submit(s)),
        Err(e) => Err(e),
    }
}

} // verus!
