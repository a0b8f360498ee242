use darknode::service::jsonrpc::{JsonResult, RequestParam, SubscribeParams};
use darknode::service::keys::{Keypair, Pubkey};
use darknode::service::sol::{AccountUpdate, Reaction, SolClient};
use darknode::service::transfer::Transaction;

const ADDRESS: &str = "FVen3X669xLzsi6N2V91DoiyzHzg1uAgqiT8jZ9nS96Z";
const PAIR: [u8; 64] = [
    157, 97, 177, 157, 239, 253, 90, 96, 186, 132, 74, 244, 146, 236, 44, 196, 68, 73, 197, 105,
    123, 50, 105, 25, 112, 59, 172, 3, 28, 174, 127, 96, 215, 90, 152, 1, 130, 177, 10, 183, 213,
    75, 254, 211, 201, 100, 7, 58, 14, 225, 114, 243, 218, 166, 35, 37, 175, 2, 26, 104, 247, 7, 81,
    26,
];

fn client() -> SolClient {
    SolClient::new(PAIR.to_vec())
}

fn json(text: &str) -> serde_json::Value {
    serde_json::from_str(text).unwrap()
}

fn notification(lamports: u64, owner: &str, subscription: u64) -> JsonResult {
    JsonResult::Notif(json(&format!(
        r#"{{"result":{{"context":{{"slot":5}},"value":{{"lamports":{},"owner":"{}"}}}},"subscription":{}}}"#,
        lamports, owner, subscription
    )))
}

fn received(old: u64, new: u64) -> u64 {
    let mut client = client();
    client.watch(&Keypair::decode(PAIR.to_vec()), old);
    match client.run(&notification(new, ADDRESS, 23784)) {
        Reaction::Receive(receipt) => {
            assert_eq!(receipt.pubkey, ADDRESS);
            assert_eq!(receipt.request, SolClient::unsubscribe(23784));
            receipt.amount
        }
        other => panic!("{:?}", other),
    }
}

#[test]
fn new_client_watches_nothing() {
    let client = client();
    assert_eq!(client.pubkey().encode(), ADDRESS);
    assert_eq!(client.balance(ADDRESS), None);
    assert!(SolClient::try_new(PAIR.to_vec()).is_some());
    assert!(SolClient::try_new(PAIR[1..].to_vec()).is_none());
}

#[test]
fn unsubscribe_names_the_subscription() {
    let request = SolClient::unsubscribe(42);
    assert_eq!(request.method, "accountUnsubscribe");
    assert_eq!(request.params, vec![RequestParam::Subscription(42)]);
}

#[test]
fn increase_is_the_difference() {
    assert_eq!(SolClient::increase(3, 10), Some(7));
    assert_eq!(SolClient::increase(10, 10), None);
    assert_eq!(SolClient::increase(10, 3), None);
    assert_eq!(SolClient::increase(0, u64::MAX), Some(u64::MAX));
}

#[test]
fn receipt_ends_the_subscription() {
    let receipt = SolClient::receipt("me".to_string(), 5, 8);
    assert_eq!(receipt.pubkey, "me");
    assert_eq!(receipt.amount, 5);
    assert_eq!(receipt.request, SolClient::unsubscribe(8));
}

#[test]
fn any_address_can_be_taken_up() {
    let mut client = client();
    let request = client.take_up("me".to_string(), 4);
    assert_eq!(request.params[0], RequestParam::Account("me".to_string()));
    assert_eq!(client.balance("me"), Some(4));
    assert_eq!(client.run(&notification(5, "me", 1)), Reaction::Unprocessable);
    assert_eq!(client.run(&notification(4, "me", 1)), Reaction::Idle);
}

#[test]
fn watch_takes_up_the_account() {
    let mut client = client();
    let keypair = Keypair::generate();
    let watch = client.watch(&keypair, 17);
    assert_eq!(watch.pubkey, keypair.pubkey().encode());
    assert_eq!(watch.private_key, keypair.secret().encode());
    assert_eq!(watch.request.method, "accountSubscribe");
    assert_eq!(
        watch.request.params,
        vec![
            RequestParam::Account(watch.pubkey.clone()),
            RequestParam::Options(SubscribeParams {
                encoding: "jsonParsed".to_string(),
                commitment: "confirmed".to_string(),
            }),
        ]
    );
    assert_eq!(client.balance(&watch.pubkey), Some(17));
    assert_eq!(client.balance(ADDRESS), None);
}

#[test]
fn watching_again_starts_over() {
    let mut client = client();
    let keypair = Keypair::decode(PAIR.to_vec());
    let other = Keypair::generate();
    client.watch(&other, 1);
    client.watch(&keypair, 5);
    client.watch(&keypair, 8);
    assert_eq!(client.balance(ADDRESS), Some(8));
    assert_eq!(client.balance(&other.pubkey().encode()), Some(1));
}

#[test]
fn gains_are_told_in_whole_sol() {
    assert_eq!(received(0, 1), 0);
    assert_eq!(received(0, 999_999_999), 0);
    assert_eq!(received(0, 1_000_000_000), 1);
    assert_eq!(received(500_000_000, 3_000_000_000), 2);
    assert_eq!(received(0, 9_007_198_999_999_999), 9_007_198);
    assert_eq!(received(0, 9_007_199_254_740_992), 9_007_199);
    assert_eq!(received(0, u64::MAX), 18_446_744_073);
}

#[test]
fn large_gains_are_rounded_by_the_conversion() {
    assert_eq!(received(0, 19_999_999_999_999_999), 20_000_000);
}

#[test]
fn no_gain_calls_for_nothing() {
    let mut client = client();
    client.watch(&Keypair::decode(PAIR.to_vec()), 100);
    assert_eq!(client.run(&notification(100, ADDRESS, 1)), Reaction::Idle);
    assert_eq!(client.run(&notification(99, ADDRESS, 1)), Reaction::Idle);
    let quiet = json(&format!(
        r#"{{"result":{{"value":{{"lamports":3,"owner":"{}"}}}}}}"#,
        ADDRESS
    ));
    assert_eq!(client.run(&JsonResult::Notif(quiet)), Reaction::Idle);
}

#[test]
fn the_same_gain_is_told_each_time() {
    let mut client = client();
    client.watch(&Keypair::decode(PAIR.to_vec()), 0);
    let message = notification(2_000_000_000, ADDRESS, 6);
    let first = client.run(&message);
    assert_eq!(first, client.run(&message));
    assert_eq!(client.balance(ADDRESS), Some(0));
}

#[test]
fn answers_and_refusals_call_for_nothing() {
    let client = client();
    assert_eq!(client.run(&JsonResult::Resp(json("23784"))), Reaction::Idle);
    assert_eq!(client.run(&JsonResult::Error(json("\"Invalid params\""))), Reaction::Idle);
}

#[test]
fn incomplete_notifications_are_unprocessable() {
    let mut client = client();
    client.watch(&Keypair::decode(PAIR.to_vec()), 0);
    let gain = |params: &str| client.run(&JsonResult::Notif(json(&params.replace("ADDR", ADDRESS))));
    let unknown = notification(7, "11111111111111111111111111111111", 1);
    assert_eq!(client.run(&unknown), Reaction::Unprocessable);
    for params in [
        r#"null"#,
        r#"[]"#,
        r#"{"result":{"value":{"owner":"ADDR"}},"subscription":1}"#,
        r#"{"result":{"value":{"lamports":-1,"owner":"ADDR"}},"subscription":1}"#,
        r#"{"result":{"value":{"lamports":1.5,"owner":"ADDR"}},"subscription":1}"#,
        r#"{"result":{"value":{"lamports":"1","owner":"ADDR"}},"subscription":1}"#,
        r#"{"result":{"value":{"lamports":1}},"subscription":1}"#,
        r#"{"result":{"value":{"lamports":1,"owner":5}},"subscription":1}"#,
        r#"{"result":{"value":{"lamports":1,"owner":"ADDR"}}}"#,
        r#"{"value":{"lamports":1,"owner":"ADDR"},"subscription":1}"#,
    ] {
        assert_eq!(gain(params), Reaction::Unprocessable, "{}", params);
    }
    let complete = r#"{"subscription":1,"result":{"value":{"owner":"ADDR","lamports":1}}}"#;
    assert!(matches!(gain(complete), Reaction::Receive(_)));
}

#[test]
fn updates_are_read_by_path() {
    let params = json(r#"{"result":{"value":{"lamports":9,"owner":"me"}},"subscription":4}"#);
    let update = AccountUpdate::read(&params);
    assert_eq!(update.lamports, Some(9));
    assert_eq!(update.owner.as_deref(), Some("me"));
    assert_eq!(update.subscription, Some(4));
    let nothing = AccountUpdate::read(&json(r#"{"lamports":9,"owner":"me"}"#));
    assert_eq!(nothing, AccountUpdate { lamports: None, owner: None, subscription: None });
}

fn on_the_wire(tx: &Transaction) -> solana_sdk::transaction::Transaction {
    let message = &tx.message;
    solana_sdk::transaction::Transaction {
        signatures: tx.signatures.iter().map(|s| solana_sdk::signature::Signature::new(s)).collect(),
        message: solana_sdk::message::Message::new_with_compiled_instructions(
            message.num_required_signatures,
            message.num_readonly_signed_accounts,
            message.num_readonly_unsigned_accounts,
            message
                .account_keys
                .iter()
                .map(|key| solana_sdk::pubkey::Pubkey::new_from_array(key.bytes))
                .collect(),
            solana_sdk::hash::Hash::new_from_array(message.recent_blockhash),
            message
                .instructions
                .iter()
                .map(|call| solana_sdk::instruction::CompiledInstruction {
                    program_id_index: call.program_id_index,
                    accounts: call.accounts.clone(),
                    data: call.data.clone(),
                })
                .collect(),
        ),
    }
}

#[test]
fn transfer_is_signed_and_names_its_parties() {
    let client = client();
    let to = Pubkey { bytes: [9; 32] };
    let tx = client.send(to.encode(), 0x0102_0304_0506_0708, [3; 32]);
    let message = &tx.message;
    assert_eq!(message.num_required_signatures, 1);
    assert_eq!(message.num_readonly_signed_accounts, 0);
    assert_eq!(message.num_readonly_unsigned_accounts, 1);
    assert_eq!(message.account_keys, vec![client.pubkey(), to, Pubkey { bytes: [0; 32] }]);
    assert_eq!(message.recent_blockhash, [3; 32]);
    assert_eq!(message.instructions.len(), 1);
    assert_eq!(message.instructions[0].program_id_index, 2);
    assert_eq!(message.instructions[0].accounts, vec![0, 1]);
    assert_eq!(message.instructions[0].data, vec![2, 0, 0, 0, 8, 7, 6, 5, 4, 3, 2, 1]);
    assert_eq!(tx.signatures.len(), 1);
    assert!(on_the_wire(&tx).verify().is_ok());
}

#[test]
fn transfer_to_oneself_lists_the_key_once() {
    let client = client();
    let tx = client.send(ADDRESS.to_string(), 1, [0; 32]);
    assert_eq!(tx.message.account_keys, vec![client.pubkey(), Pubkey { bytes: [0; 32] }]);
    assert_eq!(tx.message.num_readonly_unsigned_accounts, 1);
    assert_eq!(tx.message.instructions[0].program_id_index, 1);
    assert_eq!(tx.message.instructions[0].accounts, vec![0, 0]);
    assert!(on_the_wire(&tx).verify().is_ok());
}

#[test]
fn transfer_to_the_system_program_lists_it_once() {
    let client = client();
    let system = Pubkey { bytes: [0; 32] };
    let tx = client.send(system.encode(), u64::MAX, [1; 32]);
    assert_eq!(tx.message.account_keys, vec![client.pubkey(), system]);
    assert_eq!(tx.message.num_readonly_unsigned_accounts, 0);
    assert_eq!(tx.message.instructions[0].program_id_index, 1);
    assert_eq!(tx.message.instructions[0].accounts, vec![0, 1]);
    assert!(on_the_wire(&tx).verify().is_ok());
}

#[test]
fn transfer_from_the_system_address() {
    let client = SolClient::new(vec![0; 64]);
    let to = Pubkey { bytes: [4; 32] };
    let tx = client.send(to.encode(), 5, [1; 32]);
    assert_eq!(tx.message.account_keys, vec![client.pubkey(), to]);
    assert_eq!(tx.message.num_readonly_unsigned_accounts, 0);
    assert_eq!(tx.message.instructions[0].program_id_index, 0);
    assert_eq!(tx.message.instructions[0].accounts, vec![0, 1]);
    assert_eq!(client.send(client.pubkey().encode(), 5, [1; 32]).message.account_keys.len(), 1);
}

#[test]
fn transfers_differ_by_amount_and_blockhash() {
    let client = client();
    let first = client.send(ADDRESS.to_string(), 1, [1; 32]);
    assert_eq!(first, client.send(ADDRESS.to_string(), 1, [1; 32]));
    assert_ne!(first.signatures, client.send(ADDRESS.to_string(), 2, [1; 32]).signatures);
    assert_ne!(first.signatures, client.send(ADDRESS.to_string(), 1, [2; 32]).signatures);
}

#[test]
fn transfer_needs_an_address() {
    let client = client();
    assert_eq!(
        client.send(ADDRESS.to_string(), 1, [0; 32]),
        client.transfer_to(&client.pubkey(), 1, [0; 32])
    );
    assert_eq!(client.try_send("nobody".to_string(), 1, [0; 32]), None);
    assert_eq!(
        client.try_send(ADDRESS.to_string(), 1, [0; 32]),
        Some(client.send(ADDRESS.to_string(), 1, [0; 32]))
    );
}
