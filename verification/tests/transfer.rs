use solana_pubkey::Pubkey;
use tollbooth::error::PaymentError;
use tollbooth::transfer::{find_sender, parse_transfer_signature, verify_transfer, TokenBalance, TransactionMeta};

fn bal(index: u8, mint: &Pubkey, owner: Option<&Pubkey>, amount: &str) -> TokenBalance {
    TokenBalance {
        account_index: index,
        mint: mint.to_string(),
        owner: owner.map(|o| o.to_string()),
        amount: amount.into(),
    }
}

#[test]
fn finds_credited_amount_and_payer() {
    let mint = Pubkey::new_unique();
    let recipient = Pubkey::new_unique();
    let payer = Pubkey::new_unique();
    let pre = vec![bal(1, &mint, Some(&payer), "5000"), bal(2, &mint, Some(&recipient), "100")];
    let post = vec![bal(1, &mint, Some(&payer), "4000"), bal(2, &mint, Some(&recipient), "1100")];
    let meta = Some(TransactionMeta {
        failed: false,
        pre_token_balances: Some(pre),
        post_token_balances: Some(post),
    });
    let v = verify_transfer(&meta, &recipient.to_bytes(), &mint.to_bytes()).unwrap();
    assert_eq!(v.amount, 1000);
    assert_eq!(v.payer, payer.to_bytes());
    assert_eq!(v.recipient, recipient.to_bytes());
}

#[test]
fn new_token_account_counts_from_zero_and_unknown_payer_is_default() {
    let mint = Pubkey::new_unique();
    let recipient = Pubkey::new_unique();
    let post = vec![bal(3, &mint, Some(&recipient), "250")];
    let meta = Some(TransactionMeta {
        failed: false,
        pre_token_balances: Some(vec![]),
        post_token_balances: Some(post),
    });
    let v = verify_transfer(&meta, &recipient.to_bytes(), &mint.to_bytes()).unwrap();
    assert_eq!(v.amount, 250);
    assert_eq!(v.payer, [0u8; 32]);
}

#[test]
fn transfer_errors() {
    let mint = Pubkey::new_unique().to_bytes();
    let recipient = Pubkey::new_unique().to_bytes();
    let msg = |m: &Option<TransactionMeta>| match verify_transfer(m, &recipient, &mint) {
        Err(PaymentError::VerificationFailed(t)) => t,
        other => panic!("unexpected {other:?}"),
    };
    assert_eq!(msg(&None), "transaction has no metadata");
    let failed = Some(TransactionMeta { failed: true, pre_token_balances: Some(vec![]), post_token_balances: Some(vec![]) });
    assert_eq!(msg(&failed), "transaction failed on-chain");
    let no_pre = Some(TransactionMeta { failed: false, pre_token_balances: None, post_token_balances: Some(vec![]) });
    assert_eq!(msg(&no_pre), "no pre_token_balances");
    let no_post = Some(TransactionMeta { failed: false, pre_token_balances: Some(vec![]), post_token_balances: None });
    assert_eq!(msg(&no_post), "no post_token_balances");
    let empty = Some(TransactionMeta { failed: false, pre_token_balances: Some(vec![]), post_token_balances: Some(vec![]) });
    assert_eq!(msg(&empty), "no matching transfer found in transaction");
}

#[test]
fn sender_scan_stops_at_unparsable_mint() {
    let mint = Pubkey::new_unique();
    let payer = Pubkey::new_unique();
    let pre = vec![
        TokenBalance { account_index: 0, mint: "not-base58!".into(), owner: None, amount: "1".into() },
        bal(1, &mint, Some(&payer), "10"),
    ];
    let post = vec![bal(1, &mint, Some(&payer), "5")];
    assert_eq!(find_sender(&pre, &post, &mint.to_bytes()), None);
    assert_eq!(find_sender(&pre[1..].to_vec(), &post, &mint.to_bytes()), Some(payer.to_bytes()));
}

#[test]
fn malformed_signature_is_a_failed_verification() {
    match parse_transfer_signature("xyz") {
        Err(PaymentError::VerificationFailed(t)) => assert!(t.starts_with("invalid signature: ")),
        other => panic!("unexpected {other:?}"),
    }
    let sig = solana_signature::Signature::from([9u8; 64]).to_string();
    assert_eq!(parse_transfer_signature(&sig).unwrap(), vec![9u8; 64]);
}
