use solana_message::v0;
use solana_pubkey::Pubkey;
use tollbooth::error::PaymentError;
use tollbooth::instruction::{prepare_instructions, token_transfer_instructions, AccountMeta, Instruction};
use tollbooth::validation::{CompiledInstruction, RelayTransaction, TransactionValidator};

fn ata(wallet: &Pubkey, mint: &Pubkey) -> Pubkey {
    #[allow(deprecated)]
    let a = spl_associated_token_account::get_associated_token_address(wallet, mint);
    a
}

fn sdk(ix: &Instruction) -> solana_message::Instruction {
    solana_message::Instruction {
        program_id: Pubkey::new_from_array(ix.program_id),
        accounts: ix
            .accounts
            .iter()
            .map(|m| solana_message::AccountMeta {
                pubkey: Pubkey::new_from_array(m.address),
                is_signer: m.is_signer,
                is_writable: m.is_writable,
            })
            .collect(),
        data: ix.data.clone(),
    }
}

#[test]
fn prepared_transfer_matches_the_token_program_encoding() {
    let (recipient, fee_payer, payer, mint, reference) =
        (Pubkey::new_unique(), Pubkey::new_unique(), Pubkey::new_unique(), Pubkey::new_unique(), Pubkey::new_unique());
    let ixs = prepare_instructions(
        1_000_000,
        &vec![mint.to_bytes()],
        &recipient.to_bytes(),
        &fee_payer.to_bytes(),
        &payer.to_bytes(),
        250_000,
        6,
        &reference.to_bytes(),
    )
    .unwrap()
    .unwrap();
    assert_eq!(ixs.len(), 2);

    let create = &ixs[0];
    assert_eq!(Pubkey::new_from_array(create.program_id), spl_associated_token_account::id());
    assert_eq!(create.data, vec![1u8]);
    assert_eq!(create.accounts[0], AccountMeta { address: fee_payer.to_bytes(), is_signer: true, is_writable: true });
    assert_eq!(create.accounts[1].address, ata(&recipient, &mint).to_bytes());
    assert_eq!(create.accounts[2].address, recipient.to_bytes());

    let t = &ixs[1];
    assert_eq!(Pubkey::new_from_array(t.program_id), spl_token::id());
    let mut data = vec![12u8];
    data.extend_from_slice(&250_000u64.to_le_bytes());
    data.push(6);
    assert_eq!(t.data, data);
    let addresses: Vec<Pubkey> = t.accounts.iter().map(|m| Pubkey::new_from_array(m.address)).collect();
    assert_eq!(addresses, vec![ata(&payer, &mint), mint, ata(&recipient, &mint), payer, reference]);
    assert!(t.accounts[3].is_signer);
    assert!(!t.accounts[4].is_signer && !t.accounts[4].is_writable);
}

#[test]
fn prepare_refuses_amounts_over_the_cap() {
    let k = Pubkey::new_unique().to_bytes();
    let r = prepare_instructions(1_000_000, &vec![k], &k, &k, &k, 2_000_000, 6, &k);
    assert_eq!(r, Some(Err(PaymentError::RelayError("amount 2000000 exceeds max 1000000".into()))));
    assert!(prepare_instructions(0, &vec![k], &k, &k, &k, u64::MAX, 6, &k).unwrap().is_ok());
}

#[test]
fn refund_moves_between_associated_accounts() {
    let (server, customer, mint) = (Pubkey::new_unique(), Pubkey::new_unique(), Pubkey::new_unique());
    let ixs = token_transfer_instructions(
        &server.to_bytes(),
        &server.to_bytes(),
        &server.to_bytes(),
        &customer.to_bytes(),
        &mint.to_bytes(),
        3_000_000,
        6,
    )
    .unwrap();
    assert_eq!(ixs.len(), 2);
    assert_eq!(ixs[0].accounts[1].address, ata(&customer, &mint).to_bytes());
    assert_eq!(ixs[1].accounts[0].address, ata(&server, &mint).to_bytes());
    assert_eq!(ixs[1].accounts[2].address, ata(&customer, &mint).to_bytes());
    assert_eq!(ixs[1].accounts[3], AccountMeta { address: server.to_bytes(), is_signer: true, is_writable: false });
}

#[test]
fn prepared_transaction_passes_validation() {
    let (recipient, fee_payer, payer, mint, reference) =
        (Pubkey::new_unique(), Pubkey::new_unique(), Pubkey::new_unique(), Pubkey::new_unique(), Pubkey::new_unique());
    let ixs = prepare_instructions(
        1_000_000,
        &vec![mint.to_bytes()],
        &recipient.to_bytes(),
        &fee_payer.to_bytes(),
        &payer.to_bytes(),
        500_000,
        6,
        &reference.to_bytes(),
    )
    .unwrap()
    .unwrap();
    let sdk_ixs: Vec<_> = ixs.iter().map(sdk).collect();
    let message = v0::Message::try_compile(&fee_payer, &sdk_ixs, &[], solana_message::Hash::default()).unwrap();
    let tx = RelayTransaction {
        account_keys: message.account_keys.iter().map(|k| k.to_bytes()).collect(),
        instructions: message
            .instructions
            .iter()
            .map(|ix| CompiledInstruction {
                program_id_index: ix.program_id_index,
                accounts: ix.accounts.clone(),
                data: ix.data.clone(),
            })
            .collect(),
        has_address_table_lookups: false,
    };
    let validator = TransactionValidator::new(vec![recipient.to_bytes()], vec![mint.to_bytes()], 1_000_000);
    let result = validator.validate(&tx, &fee_payer.to_bytes()).unwrap();
    assert_eq!(result.payer, payer.to_bytes());
    assert_eq!(result.transfers.len(), 1);
    assert_eq!(result.transfers[0].amount, 500_000);
    assert_eq!(result.transfers[0].recipient, ata(&recipient, &mint).to_bytes());
}

#[test]
fn created_account_instruction_matches_the_associated_token_program() {
    let (funding, wallet, mint) = (Pubkey::new_unique(), Pubkey::new_unique(), Pubkey::new_unique());
    let ixs = token_transfer_instructions(
        &funding.to_bytes(),
        &funding.to_bytes(),
        &funding.to_bytes(),
        &wallet.to_bytes(),
        &mint.to_bytes(),
        1,
        6,
    )
    .unwrap();
    #[allow(deprecated)]
    let expected = spl_associated_token_account::instruction::create_associated_token_account_idempotent(
        &funding,
        &wallet,
        &mint,
        &spl_token::id(),
    );
    let ours = &ixs[0];
    assert_eq!(ours.program_id, expected.program_id.to_bytes());
    assert_eq!(ours.data, expected.data);
    let metas: Vec<([u8; 32], bool, bool)> =
        expected.accounts.iter().map(|m| (m.pubkey.to_bytes(), m.is_signer, m.is_writable)).collect();
    let ours_metas: Vec<([u8; 32], bool, bool)> =
        ours.accounts.iter().map(|m| (m.address, m.is_signer, m.is_writable)).collect();
    assert_eq!(ours_metas, metas);
}
