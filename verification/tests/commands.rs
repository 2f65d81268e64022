use lut_cli::address::Address;
use lut_cli::command::{
    check_inputs, check_table, close_lut, create_lut, deactivate_lut, extend_lut, parse_table_address, plan,
    Commands, Step,
};
use lut_cli::error::LutError;
use lut_cli::instruction::{
    build_close, build_create, build_deactivate, build_extend, derive_table_address,
    try_build_create, AccountRef, Instruction,
};
use lut_cli::transaction::{
    check_message_size, send_transaction, Blockhash, CliConfig, SignedTransaction, SigningKey,
};
use solana_sdk::address_lookup_table::instruction as outside;
use solana_sdk::pubkey::Pubkey;
use solana_sdk::signer::Signer;

fn keypair() -> solana_sdk::signature::Keypair {
    solana_sdk::signer::keypair::keypair_from_seed(&[11u8; 32]).unwrap()
}

fn config(slot: u64) -> CliConfig {
    let key = SigningKey { bytes: keypair().to_bytes() };
    CliConfig::new(key, Blockhash { bytes: [9u8; 32] }, slot).unwrap()
}

fn plain(ix: &solana_sdk::instruction::Instruction) -> Instruction {
    Instruction {
        program_id: Address::from_bytes(ix.program_id.to_bytes()),
        accounts: ix
            .accounts
            .iter()
            .map(|m| AccountRef {
                address: Address::from_bytes(m.pubkey.to_bytes()),
                is_signer: m.is_signer,
                is_writable: m.is_writable,
            })
            .collect(),
        data: ix.data.clone(),
    }
}

fn outside_of(ix: &Instruction) -> solana_sdk::instruction::Instruction {
    solana_sdk::instruction::Instruction {
        program_id: Pubkey::new_from_array(ix.program_id.to_bytes()),
        accounts: ix
            .accounts
            .iter()
            .map(|a| solana_sdk::instruction::AccountMeta {
                pubkey: Pubkey::new_from_array(a.address.to_bytes()),
                is_signer: a.is_signer,
                is_writable: a.is_writable,
            })
            .collect(),
        data: ix.data.clone(),
    }
}

fn expected_transaction(
    ix: solana_sdk::instruction::Instruction,
) -> solana_sdk::transaction::Transaction {
    let pair = keypair();
    solana_sdk::transaction::Transaction::new_signed_with_payer(
        &[ix],
        Some(&pair.pubkey()),
        &[&pair],
        solana_sdk::hash::Hash::new_from_array([9u8; 32]),
    )
}

fn parts_of(tx: &solana_sdk::transaction::Transaction) -> SignedTransaction {
    assert_eq!(tx.signatures.len(), 1);
    SignedTransaction { signature: tx.signatures[0].as_ref().to_vec(), message: tx.message_data() }
}

fn rebuild(signed: &SignedTransaction) -> solana_sdk::transaction::Transaction {
    let signature: [u8; 64] = signed.signature.as_slice().try_into().unwrap();
    solana_sdk::transaction::Transaction {
        signatures: vec![solana_sdk::signature::Signature::from(signature)],
        message: solana_sdk::program_utils::limited_deserialize(&signed.message).unwrap(),
    }
}

#[test]
fn config_takes_authority_from_key() {
    let c = config(5);
    assert_eq!(c.authority, Address::from_bytes(keypair().pubkey().to_bytes()));
    assert_eq!(c.recent_slot, 5);
    assert_eq!(c.recent_blockhash, Blockhash { bytes: [9u8; 32] });
}

#[test]
fn config_refuses_bytes_that_are_no_key_pair() {
    let mut bytes = keypair().to_bytes();
    bytes[40] ^= 1;
    let got = CliConfig::new(SigningKey { bytes }, Blockhash { bytes: [0u8; 32] }, 1);
    assert!(matches!(got, Err(LutError::KeypairReadError)));
}

#[test]
fn update_blocks_replaces_snapshot_only() {
    let mut c = config(5);
    let before = c;
    c.update_blocks(Blockhash { bytes: [1u8; 32] }, 77);
    assert_eq!(c.recent_blockhash, Blockhash { bytes: [1u8; 32] });
    assert_eq!(c.recent_slot, 77);
    assert_eq!(c.authority, before.authority);
    assert_eq!(c.keypair.bytes, before.keypair.bytes);
}

#[test]
fn build_create_matches_outside_builder() {
    let authority = Address::from_bytes([21u8; 32]);
    let (ix, table) = build_create(&authority, 1234);
    let key = Pubkey::new_from_array([21u8; 32]);
    let (want, want_table) = outside::create_lookup_table(key, key, 1234);
    assert_eq!(ix, plain(&want));
    assert_eq!(table, Address::from_bytes(want_table.to_bytes()));
    assert_eq!(table.to_bytes(), outside::derive_lookup_table_address(&key, 1234).0.to_bytes());
    assert_eq!(derive_table_address(&authority, 1234), Some(table));
    assert_eq!(try_build_create(&authority, 1234), Some((ix.clone(), table)));
    assert_eq!(ix.accounts.len(), 4);
    assert_eq!(ix.accounts[0], AccountRef { address: table, is_signer: false, is_writable: true });
    assert_eq!(
        ix.accounts[1],
        AccountRef { address: authority, is_signer: false, is_writable: false }
    );
    assert_eq!(
        ix.accounts[2],
        AccountRef { address: authority, is_signer: true, is_writable: true }
    );
    assert_eq!(
        ix.accounts[3],
        AccountRef {
            address: Address::from_bytes([0u8; 32]),
            is_signer: false,
            is_writable: false
        }
    );
    assert_eq!(ix.data[0..4], [0u8, 0, 0, 0]);
    assert_eq!(ix.data[4..12], 1234u64.to_le_bytes());
    assert_eq!(ix.data.len(), 13);
}

#[test]
fn build_extend_is_deterministic() {
    let table = Address::from_bytes([1u8; 32]);
    let authority = Address::from_bytes([2u8; 32]);
    let list = vec![
        Address::from_bytes([3u8; 32]),
        Address::from_bytes([4u8; 32]),
        Address::from_bytes([5u8; 32]),
    ];
    let first = build_extend(&table, &authority, None, &list);
    let second = build_extend(&table, &authority, None, &list);
    assert_eq!(first, second);
    assert_eq!(first.data, second.data);
}

#[test]
fn build_extend_matches_outside_builder() {
    let table = Address::from_bytes([1u8; 32]);
    let authority = Address::from_bytes([2u8; 32]);
    let payer = Address::from_bytes([6u8; 32]);
    let list = vec![Address::from_bytes([3u8; 32]), Address::from_bytes([4u8; 32])];
    let keys = vec![Pubkey::new_from_array([3u8; 32]), Pubkey::new_from_array([4u8; 32])];
    let with_payer = build_extend(&table, &authority, Some(payer), &list);
    let want = outside::extend_lookup_table(
        Pubkey::new_from_array([1u8; 32]),
        Pubkey::new_from_array([2u8; 32]),
        Some(Pubkey::new_from_array([6u8; 32])),
        keys.clone(),
    );
    assert_eq!(with_payer, plain(&want));
    assert_eq!(with_payer.accounts.len(), 4);
    assert_eq!(
        with_payer.accounts[2],
        AccountRef { address: payer, is_signer: true, is_writable: true }
    );
    let without = build_extend(&table, &authority, None, &list);
    assert_eq!(
        without.accounts,
        vec![
            AccountRef { address: table, is_signer: false, is_writable: true },
            AccountRef { address: authority, is_signer: true, is_writable: false }
        ]
    );
    let mut data = vec![2u8, 0, 0, 0, 2, 0, 0, 0, 0, 0, 0, 0];
    data.extend_from_slice(&[3u8; 32]);
    data.extend_from_slice(&[4u8; 32]);
    assert_eq!(without.data, data);
}

#[test]
fn build_deactivate_matches_outside_builder() {
    let table = Address::from_bytes([1u8; 32]);
    let authority = Address::from_bytes([2u8; 32]);
    let ix = build_deactivate(&table, &authority);
    let want = outside::deactivate_lookup_table(
        Pubkey::new_from_array([1u8; 32]),
        Pubkey::new_from_array([2u8; 32]),
    );
    assert_eq!(ix, plain(&want));
    assert_eq!(ix.data, vec![3u8, 0, 0, 0]);
    assert_eq!(
        ix.accounts,
        vec![
            AccountRef { address: table, is_signer: false, is_writable: true },
            AccountRef { address: authority, is_signer: true, is_writable: false }
        ]
    );
}

#[test]
fn build_close_matches_outside_builder() {
    let table = Address::from_bytes([1u8; 32]);
    let authority = Address::from_bytes([2u8; 32]);
    let recipient = Address::from_bytes([8u8; 32]);
    let ix = build_close(&table, &authority, &recipient);
    let want = outside::close_lookup_table(
        Pubkey::new_from_array([1u8; 32]),
        Pubkey::new_from_array([2u8; 32]),
        Pubkey::new_from_array([8u8; 32]),
    );
    assert_eq!(ix, plain(&want));
    assert_eq!(ix.data, vec![4u8, 0, 0, 0]);
    assert_eq!(
        ix.accounts,
        vec![
            AccountRef { address: table, is_signer: false, is_writable: true },
            AccountRef { address: authority, is_signer: true, is_writable: false },
            AccountRef { address: recipient, is_signer: false, is_writable: true }
        ]
    );
}

#[test]
fn create_issues_one_instruction_on_derived_table() {
    let c = config(4321);
    let submission = create_lut(&c).unwrap();
    let authority = keypair().pubkey();
    let (want_ix, want_table) = outside::create_lookup_table(authority, authority, 4321);
    assert_eq!(submission.table, Address::from_bytes(want_table.to_bytes()));
    let rebuilt = rebuild(&submission.transaction);
    let tx = &rebuilt;
    assert_eq!(tx.message.instructions.len(), 1);
    assert_eq!(tx.message.recent_blockhash, solana_sdk::hash::Hash::new_from_array([9u8; 32]));
    assert_eq!(tx.message.account_keys[0], authority);
    assert_eq!(tx.signatures.len(), 1);
    assert!(tx.verify().is_ok());
    assert_eq!(*tx, expected_transaction(want_ix));
    assert_eq!(submission.transaction.signature, tx.signatures[0].as_ref().to_vec());
    assert_eq!(submission.transaction.signature.len(), 64);
    assert_eq!(submission.transaction.message, tx.message_data());
}

#[test]
fn extend_builds_signed_transaction() {
    let c = config(1);
    let lut = Pubkey::new_from_array([33u8; 32]);
    let extra = Pubkey::new_from_array([34u8; 32]);
    let file = format!("[\"{}\"]", extra).into_bytes();
    let got = extend_lut(
        &c,
        lut.to_string(),
        Some(vec!["11111111111111111111111111111111".to_string()]),
        Some(file),
    )
    .unwrap();
    let authority = keypair().pubkey();
    let want = outside::extend_lookup_table(
        lut,
        authority,
        Some(authority),
        vec![Pubkey::new_from_array([0u8; 32]), extra],
    );
    assert_eq!(got.table, Address::from_bytes([33u8; 32]));
    let want = expected_transaction(want);
    assert_eq!(got.transaction, parts_of(&want));
    assert_eq!(rebuild(&got.transaction), want);
}

#[test]
fn extend_checks_inputs_in_order() {
    let c = config(1);
    let lut = Pubkey::new_from_array([33u8; 32]).to_string();
    assert!(matches!(
        extend_lut(&c, "bad".to_string(), None, None),
        Err(LutError::InvalidAddress(v)) if v == "bad"
    ));
    assert!(matches!(
        extend_lut(&c, lut.clone(), None, None),
        Err(LutError::NoAddressesProvided)
    ));
    assert!(matches!(
        extend_lut(&c, lut.clone(), Some(vec!["zz".to_string()]), Some(b"nonsense".to_vec())),
        Err(LutError::JsonParseError)
    ));
    assert!(matches!(
        extend_lut(&c, lut, Some(vec!["zz".to_string()]), Some(b"[]".to_vec())),
        Err(LutError::InvalidAddress(v)) if v == "zz"
    ));
}

#[test]
fn extend_refuses_payload_that_is_too_long() {
    let c = config(1);
    let lut = Pubkey::new_from_array([33u8; 32]).to_string();
    let many = vec!["11111111111111111111111111111111".to_string(); 2048];
    assert!(matches!(
        extend_lut(&c, lut, Some(many), None),
        Err(LutError::SubmissionFailed(v)) if v == "transaction too large"
    ));
}

#[test]
fn close_builds_signed_transaction() {
    let c = config(1);
    let lut = Pubkey::new_from_array([35u8; 32]);
    let got = close_lut(&c, lut.to_string()).unwrap();
    let authority = keypair().pubkey();
    let want = outside::close_lookup_table(lut, authority, authority);
    assert_eq!(got.table, Address::from_bytes([35u8; 32]));
    let want = expected_transaction(want);
    assert_eq!(got.transaction, parts_of(&want));
    assert_eq!(rebuild(&got.transaction), want);
    assert!(matches!(
        close_lut(&c, "nope".to_string()),
        Err(LutError::InvalidAddress(v)) if v == "nope"
    ));
}

#[test]
fn deactivate_builds_signed_transaction() {
    let c = config(1);
    let lut = Pubkey::new_from_array([36u8; 32]);
    let got = deactivate_lut(&c, lut.to_string()).unwrap();
    let want = outside::deactivate_lookup_table(lut, keypair().pubkey());
    assert_eq!(got.table, Address::from_bytes([36u8; 32]));
    let want = expected_transaction(want);
    assert_eq!(got.transaction, parts_of(&want));
    assert_eq!(rebuild(&got.transaction), want);
    assert!(matches!(
        deactivate_lut(&c, "".to_string()),
        Err(LutError::InvalidAddress(v)) if v.is_empty()
    ));
}

#[test]
fn plan_routes_each_command() {
    let c = config(8);
    let lut = Pubkey::new_from_array([37u8; 32]).to_string();
    let table = Address::from_bytes([37u8; 32]);
    assert!(matches!(plan(&c, Commands::Create, None), Ok(Step::Submit(_))));
    assert!(matches!(
        plan(&c, Commands::Close { lut: lut.clone() }, None),
        Ok(Step::Submit(s)) if s.table == table
    ));
    assert!(matches!(
        plan(&c, Commands::Deactivate { lut: lut.clone() }, None),
        Ok(Step::Submit(s)) if s.table == table
    ));
    assert!(matches!(
        plan(
            &c,
            Commands::Extend { lut: lut.clone(), addresses: None, file: Some("a.json".to_string()) },
            Some(b"[]".to_vec())
        ),
        Ok(Step::Submit(s)) if s.table == table
    ));
    assert!(matches!(
        plan(&c, Commands::Extend { lut: lut.clone(), addresses: None, file: None }, None),
        Err(LutError::NoAddressesProvided)
    ));
    assert!(matches!(
        plan(&c, Commands::Decode { lut }, None),
        Ok(Step::Fetch(t)) if t == table
    ));
    assert!(matches!(
        plan(&c, Commands::Decode { lut: "x".to_string() }, None),
        Err(LutError::InvalidAddress(v)) if v == "x"
    ));
}

#[test]
fn parse_table_address_reads_or_refuses() {
    let lut = Pubkey::new_from_array([38u8; 32]).to_string();
    assert_eq!(parse_table_address(&lut), Ok(Address::from_bytes([38u8; 32])));
    assert_eq!(
        parse_table_address(&"lut".to_string()),
        Err(LutError::InvalidAddress("lut".to_string()))
    );
}

fn instruction_with(accounts: usize, payload: usize) -> Instruction {
    let account =
        AccountRef { address: Address::from_bytes([1u8; 32]), is_signer: false, is_writable: true };
    Instruction {
        program_id: Address::from_bytes([2u8; 32]),
        accounts: vec![account; accounts],
        data: vec![0u8; payload],
    }
}

fn instruction_naming(first: u16, accounts: u16) -> Instruction {
    let key = |n: u16| {
        let mut bytes = [0u8; 32];
        bytes[0] = (n % 256) as u8;
        bytes[1] = (n / 256) as u8;
        bytes[2] = 1;
        Address::from_bytes(bytes)
    };
    Instruction {
        program_id: key(first),
        accounts: (1..=accounts)
            .map(|n| AccountRef { address: key(first + n), is_signer: false, is_writable: n % 2 == 0 })
            .collect(),
        data: vec![],
    }
}

#[test]
fn message_size_bounds_are_exact() {
    assert!(check_message_size(&vec![]));
    assert!(check_message_size(&vec![instruction_with(253, 65535)]));
    assert!(check_message_size(&vec![instruction_with(65535, 0)]));
    assert!(!check_message_size(&vec![instruction_with(65536, 0)]));
    assert!(!check_message_size(&vec![instruction_with(0, 65536)]));
    assert!(!check_message_size(&vec![instruction_with(3, 0), instruction_with(1, 70000)]));
    assert!(check_message_size(&vec![instruction_naming(0, 253)]));
    assert!(!check_message_size(&vec![instruction_naming(0, 254)]));
    assert!(check_message_size(&vec![instruction_naming(0, 126), instruction_naming(127, 126)]));
    assert!(!check_message_size(&vec![instruction_naming(0, 126), instruction_naming(127, 127)]));
    assert!(check_message_size(&vec![instruction_naming(0, 200), instruction_naming(100, 153)]));
    assert!(!check_message_size(&vec![instruction_naming(0, 200), instruction_naming(100, 154)]));
    assert!(check_message_size(&vec![instruction_with(0, 0); 65535]));
    assert!(!check_message_size(&vec![instruction_with(0, 0); 65536]));
}

#[test]
fn send_transaction_takes_as_many_keys_as_fit() {
    let c = config(1);
    let wide = instruction_naming(0, 253);
    let got = send_transaction(&c, &vec![wide.clone()]).unwrap();
    let want = expected_transaction(outside_of(&wide));
    assert_eq!(want.message.account_keys.len(), 255);
    assert_eq!(got, parts_of(&want));
    let long = instruction_with(300, 0);
    let repeated = send_transaction(&c, &vec![long.clone()]).unwrap();
    let rebuilt = rebuild(&repeated);
    assert_eq!(rebuilt, expected_transaction(outside_of(&long)));
    assert_eq!(rebuilt.message.account_keys.len(), 3);
    assert_eq!(rebuilt.message.instructions[0].accounts.len(), 300);
    assert!(rebuilt.verify().is_ok());
}

#[test]
fn send_transaction_signs_what_it_is_given() {
    let c = config(1);
    let ix = instruction_with(253, 65535);
    let got = send_transaction(&c, &vec![ix.clone()]).unwrap();
    let want = expected_transaction(outside_of(&ix));
    assert!(want.verify().is_ok());
    assert_eq!(got, parts_of(&want));
    assert_eq!(got.signature.len(), 64);
    assert!(want.signatures[0].verify(keypair().pubkey().as_ref(), &got.message));
}

#[test]
fn send_transaction_fails_without_panic() {
    let c = config(1);
    let other = AccountRef {
        address: Address::from_bytes([1u8; 32]),
        is_signer: true,
        is_writable: false,
    };
    let ix = Instruction {
        program_id: Address::from_bytes([2u8; 32]),
        accounts: vec![other],
        data: vec![],
    };
    assert!(matches!(
        send_transaction(&c, &vec![ix]),
        Err(LutError::SubmissionFailed(v)) if v == "transaction could not be signed"
    ));
    assert!(matches!(
        send_transaction(&c, &vec![instruction_naming(0, 254)]),
        Err(LutError::SubmissionFailed(v)) if v == "transaction too large"
    ));
}

#[test]
fn check_inputs_finds_first_fault() {
    let lut = Pubkey::new_from_array([39u8; 32]).to_string();
    let zero = "11111111111111111111111111111111".to_string();
    assert_eq!(check_inputs(&Commands::Create, &None), Ok(()));
    assert_eq!(check_inputs(&Commands::Close { lut: lut.clone() }, &None), Ok(()));
    assert_eq!(check_inputs(&Commands::Deactivate { lut: lut.clone() }, &None), Ok(()));
    assert_eq!(check_inputs(&Commands::Decode { lut: lut.clone() }, &None), Ok(()));
    assert_eq!(
        check_inputs(&Commands::Close { lut: "q".to_string() }, &None),
        Err(LutError::InvalidAddress("q".to_string()))
    );
    assert_eq!(
        check_inputs(&Commands::Deactivate { lut: "q".to_string() }, &None),
        Err(LutError::InvalidAddress("q".to_string()))
    );
    assert_eq!(
        check_inputs(&Commands::Decode { lut: "q".to_string() }, &None),
        Err(LutError::InvalidAddress("q".to_string()))
    );
    let extend = |lut: &str, addresses: Option<Vec<String>>| Commands::Extend {
        lut: lut.to_string(),
        addresses,
        file: None,
    };
    assert_eq!(
        check_inputs(&extend("q", None), &None),
        Err(LutError::InvalidAddress("q".to_string()))
    );
    assert_eq!(check_inputs(&extend(&lut, None), &None), Err(LutError::NoAddressesProvided));
    assert_eq!(
        check_inputs(&extend(&lut, Some(vec![zero.clone()])), &Some(b"{}".to_vec())),
        Err(LutError::JsonParseError)
    );
    assert_eq!(
        check_inputs(&extend(&lut, Some(vec![zero.clone(), "w".to_string()])), &None),
        Err(LutError::InvalidAddress("w".to_string()))
    );
    assert_eq!(check_inputs(&extend(&lut, Some(vec![zero])), &Some(b"[]".to_vec())), Ok(()));
}

#[test]
fn extend_takes_as_many_addresses_as_fit() {
    let c = config(1);
    let lut = Pubkey::new_from_array([33u8; 32]).to_string();
    let many = vec!["11111111111111111111111111111111".to_string(); 2047];
    let got = extend_lut(&c, lut, Some(many), None).unwrap();
    let authority = keypair().pubkey();
    let want = expected_transaction(outside::extend_lookup_table(
        Pubkey::new_from_array([33u8; 32]),
        authority,
        Some(authority),
        vec![Pubkey::new_from_array([0u8; 32]); 2047],
    ));
    assert_eq!(want.message.instructions.len(), 1);
    assert_eq!(want.message.instructions[0].data.len(), 12 + 32 * 2047);
    assert!(want.verify().is_ok());
    assert_eq!(got.transaction, parts_of(&want));
}

#[test]
fn send_transaction_keeps_instructions_payer_and_blockhash() {
    let c = config(3);
    let first = instruction_naming(10, 2);
    let second = instruction_with(1, 5);
    let got = send_transaction(&c, &vec![first.clone(), second.clone()]).unwrap();
    let tx = rebuild(&got);
    assert_eq!(tx.signatures.len(), 1);
    assert!(tx.verify().is_ok());
    assert_eq!(tx.message.header.num_required_signatures, 1);
    assert_eq!(tx.message.account_keys[0], keypair().pubkey());
    assert_eq!(tx.message.recent_blockhash, solana_sdk::hash::Hash::new_from_array([9u8; 32]));
    assert_eq!(tx.message.instructions.len(), 2);
    for (compiled, given) in tx.message.instructions.iter().zip([first, second].iter()) {
        let program = tx.message.account_keys[compiled.program_id_index as usize];
        assert_eq!(program.to_bytes(), given.program_id.to_bytes());
        assert_eq!(compiled.data, given.data);
        assert_eq!(compiled.accounts.len(), given.accounts.len());
        for (index, account) in compiled.accounts.iter().zip(given.accounts.iter()) {
            let key = tx.message.account_keys[*index as usize];
            assert_eq!(key.to_bytes(), account.address.to_bytes());
        }
    }
    let other = send_transaction(&c, &vec![]).unwrap();
    assert_ne!(other, got);
}

#[test]
fn check_table_reports_the_table_first() {
    let lut = Pubkey::new_from_array([39u8; 32]).to_string();
    assert_eq!(check_table(&Commands::Create), Ok(()));
    assert_eq!(check_table(&Commands::Close { lut: lut.clone() }), Ok(()));
    assert_eq!(check_table(&Commands::Decode { lut: lut.clone() }), Ok(()));
    assert_eq!(check_table(&Commands::Deactivate { lut: lut.clone() }), Ok(()));
    assert_eq!(
        check_table(&Commands::Extend { lut, addresses: None, file: None }),
        Ok(())
    );
    assert_eq!(
        check_table(&Commands::Extend {
            lut: "q".to_string(),
            addresses: Some(vec!["w".to_string()]),
            file: Some("missing.json".to_string())
        }),
        Err(LutError::InvalidAddress("q".to_string()))
    );
    assert_eq!(
        check_table(&Commands::Close { lut: "q".to_string() }),
        Err(LutError::InvalidAddress("q".to_string()))
    );
    assert_eq!(
        check_table(&Commands::Deactivate { lut: "".to_string() }),
        Err(LutError::InvalidAddress("".to_string()))
    );
    assert_eq!(
        check_table(&Commands::Decode { lut: "0".to_string() }),
        Err(LutError::InvalidAddress("0".to_string()))
    );
}
