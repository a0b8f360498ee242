//! The client of the Solana bridge.
//!
//! The client watches accounts by name, tells of what they receive, and
//! prepares transfers from its own account. It talks to nobody: callers pass
//! on its requests, and hand it the messages that come back.
use vstd::hash_map::StringHashMap;
use vstd::prelude::*;

use crate::service::json::{at_path, below_path, json_numbers, json_strings, member};
use crate::service::jsonrpc::{
    request, subscribe_request, unsubscribe_request, JsonRequest, JsonResult, ParamView,
    RequestParam, SubscribeParams,
};
use crate::service::keys::{is_keypair, pubkey_read, pubkey_text, Keypair, Pubkey};
use crate::service::transfer::{
    new_with_payer, sign, transfer, transfer_data_length, transfer_transaction, Transaction,
};

verus! {

/// Lamports in one SOL.
pub const LAMPORTS_PER_SOL: u64 = 1_000_000_000;

/// The largest amount of lamports up to which every amount converts to the SOL
/// that it is worth, rounded down.
pub const MAX_EXACT_LAMPORTS: u64 = 0x20_0000_0000_0000;

/// The whole SOL that `solana_sdk` counts in an amount of lamports, by way of
/// floating point.
pub uninterp spec fn whole_sol(lamports: u64) -> u64;

/// `solana_sdk`'s `native_token::lamports_to_sol`, with its fraction cut off.
/// The quotient is rounded to a floating-point number; up to 2^53 lamports that
/// rounding does not reach the next whole number.
#[verifier::external_body]
fn lamports_to_sol(lamports: u64) -> (r: u64)
    ensures
        r == whole_sol(lamports),
        lamports <= MAX_EXACT_LAMPORTS ==> r == lamports / LAMPORTS_PER_SOL,
{
    solana_sdk::native_token::lamports_to_sol(lamports) as u64
}

/// What a notification says of an account, as far as it says it.
#[derive(Debug, PartialEq, Eq)]
pub struct AccountUpdate {
    pub lamports: Option<u64>,
    pub owner: Option<String>,
    pub subscription: Option<u64>,
}

/// An [`AccountUpdate`] by its contents.
pub struct UpdateView {
    pub lamports: Option<u64>,
    pub owner: Option<Seq<char>>,
    pub subscription: Option<u64>,
}

impl View for AccountUpdate {
    type V = UpdateView;

    open spec fn view(&self) -> UpdateView {
        UpdateView {
            lamports: self.lamports,
            owner: match self.owner {
                Some(owner) => Some(owner@),
                None => None,
            },
            subscription: self.subscription,
        }
    }
}

/// What the parameters of a notification say of an account.
pub open spec fn update_in(params: serde_json::Value) -> UpdateView {
    UpdateView {
        lamports: at_path(json_numbers(params), seq!["result"@, "value"@, "lamports"@]),
        owner: at_path(json_strings(params), seq!["result"@, "value"@, "owner"@]),
        subscription: at_path(json_numbers(params), seq!["subscription"@]),
    }
}

impl AccountUpdate {
    /// What the parameters of a notification say of an account.
    pub fn read(params: &serde_json::Value) -> (r: AccountUpdate)
        ensures
            r@ == update_in(*params),
    {
        let result = member(params, "result");
        let value = member(result, "value");
        let lamports = member(value, "lamports");
        let owner = member(value, "owner");
        let subscription = member(params, "subscription");
        proof {
            let none = Seq::<Seq<char>>::empty();
            let lamports_path = seq!["lamports"@] + none;
            let owner_path = seq!["owner"@] + none;
            below_path(json_numbers(*value), "lamports"@, none);
            below_path(json_numbers(*result), "value"@, lamports_path);
            below_path(json_numbers(*params), "result"@, seq!["value"@] + lamports_path);
            below_path(json_strings(*value), "owner"@, none);
            below_path(json_strings(*result), "value"@, owner_path);
            below_path(json_strings(*params), "result"@, seq!["value"@] + owner_path);
            below_path(json_numbers(*params), "subscription"@, none);
            assert(seq!["result"@] + (seq!["value"@] + lamports_path) =~= seq![
                "result"@,
                "value"@,
                "lamports"@,
            ]);
            assert(seq!["result"@] + (seq!["value"@] + owner_path) =~= seq![
                "result"@,
                "value"@,
                "owner"@,
            ]);
            assert(seq!["subscription"@] + none =~= seq!["subscription"@]);
        }
        AccountUpdate {
            lamports: lamports.as_u64(),
            owner: match owner.as_str() {
                Some(text) => Some(text.to_owned()),
                None => None,
            },
            subscription: subscription.as_u64(),
        }
    }
}

/// What a client knows.
pub struct ClientView {
    /// The client's own key pair.
    pub keypair: Seq<u8>,
    /// The watched accounts by address, each with its balance in lamports when
    /// it was taken up.
    pub subscriptions: Map<Seq<char>, u64>,
}

/// What to do about an account that received something: first tell of it, then
/// send the request that ends its subscription.
#[derive(Debug, PartialEq, Eq)]
pub struct Receipt {
    /// The account's address, as [`Pubkey::encode`] writes it.
    pub pubkey: String,
    /// What it received, in whole SOL.
    pub amount: u64,
    /// The request that ends its subscription.
    pub request: JsonRequest,
}

/// What to do about a message.
#[derive(Debug, PartialEq, Eq)]
pub enum Reaction {
    /// Nothing.
    Idle,
    /// Pass on what an account received.
    Receive(Receipt),
    /// Stop: the notification is about no watched account, or does not say what
    /// it has to.
    Unprocessable,
}

/// What to do to take up a watched account, and the account's keys.
#[derive(Debug, PartialEq, Eq)]
pub struct Watch {
    /// The request to be told of changes to the account.
    pub request: JsonRequest,
    /// The account's address, as [`Pubkey::encode`] writes it.
    pub pubkey: String,
    /// The account's secret key, as
    /// [`SecretKey::encode`](crate::service::keys::SecretKey::encode) writes it.
    pub private_key: Vec<u8>,
}

/// Whether a notification says what it has to: the balance and the address of a
/// watched account and, if the balance rose, the number of the subscription,
/// with an address that is a public key.
pub open spec fn processable(subscriptions: Map<Seq<char>, u64>, update: UpdateView) -> bool {
    &&& update.lamports is Some
    &&& update.owner is Some
    &&& subscriptions.contains_key(update.owner->0)
    &&& rose(subscriptions, update) ==> {
        &&& update.subscription is Some
        &&& pubkey_read(update.owner->0) is Some
    }
}

/// Whether the account has more than when it was taken up.
pub open spec fn rose(subscriptions: Map<Seq<char>, u64>, update: UpdateView) -> bool {
    update.lamports->0 > subscriptions[update.owner->0]
}

/// What the account has more than when it was taken up, in lamports.
pub open spec fn gain(subscriptions: Map<Seq<char>, u64>, update: UpdateView) -> u64 {
    (update.lamports->0 - subscriptions[update.owner->0]) as u64
}

/// Whether `receipt` passes on what the account received, to the address and
/// with the end of the subscription that the notification is about.
pub open spec fn passes_on(
    receipt: Receipt,
    subscriptions: Map<Seq<char>, u64>,
    update: UpdateView,
) -> bool {
    let lamports = gain(subscriptions, update);
    &&& receipt.pubkey@ == update.owner->0
    &&& receipt.amount == whole_sol(lamports)
    &&& lamports <= MAX_EXACT_LAMPORTS ==> receipt.amount == lamports / LAMPORTS_PER_SOL
    &&& receipt.request@ == unsubscribe_request(update.subscription->0)
}

/// The client of the Solana bridge.
pub struct SolClient {
    keypair: Keypair,
    subscriptions: StringHashMap<u64>,
}

impl View for SolClient {
    type V = ClientView;

    closed spec fn view(&self) -> ClientView {
        ClientView { keypair: self.keypair@, subscriptions: self.subscriptions@ }
    }
}

impl SolClient {
    /// A client that owns the stored key pair `keypair` and watches nothing.
    pub fn new(keypair: Vec<u8>) -> (r: SolClient)
        requires
            is_keypair(keypair@),
        ensures
            r@ == (ClientView { keypair: keypair@, subscriptions: Map::empty() }),
    {
        SolClient { keypair: Keypair::decode(keypair), subscriptions: StringHashMap::new() }
    }

    /// A client that owns the stored key pair `keypair`, unless that is none.
    pub fn try_new(keypair: Vec<u8>) -> (r: Option<SolClient>)
        ensures
            match r {
                Some(client) => is_keypair(keypair@) && client@ == (ClientView {
                    keypair: keypair@,
                    subscriptions: Map::empty(),
                }),
                None => !is_keypair(keypair@),
            },
    {
        match Keypair::try_decode(keypair) {
            Some(pair) => Some(SolClient::new(pair.encode())),
            None => None,
        }
    }

    /// The client's own address.
    pub fn pubkey(&self) -> (r: Pubkey)
        ensures
            r@ == self@.keypair.subrange(32, 64),
    {
        self.keypair.pubkey()
    }

    /// The balance with which an account was taken up, if it is watched.
    pub fn balance(&self, address: &str) -> (r: Option<u64>)
        ensures
            r == (if self@.subscriptions.contains_key(address@) {
                Some(self@.subscriptions[address@])
            } else {
                None
            }),
    {
        match self.subscriptions.get(address) {
            Some(balance) => Some(*balance),
            None => None,
        }
    }

    /// What to do about a message of the node. Only a notification that an
    /// account has more than when it was taken up calls for anything.
    pub fn run(&self, message: &JsonResult) -> (r: Reaction)
        ensures
            match *message {
                JsonResult::Notif(params) => {
                    let update = update_in(params);
                    if !processable(self@.subscriptions, update) {
                        r is Unprocessable
                    } else if rose(self@.subscriptions, update) {
                        r is Receive && passes_on(r->Receive_0, self@.subscriptions, update)
                    } else {
                        r is Idle
                    }
                },
                _ => r is Idle,
            },
            r matches Reaction::Receive(receipt) ==> {
                &&& *message is Notif
                &&& json_strings(message->Notif_0)[seq!["result"@, "value"@, "owner"@]]
                    == receipt.pubkey@
                &&& receipt.request.params@ == seq![
                    RequestParam::Subscription(json_numbers(message->Notif_0)[seq!["subscription"@]]),
                ]
            },
    {
        match message {
            JsonResult::Notif(params) => {
                let update = AccountUpdate::read(params);
                self.react(update)
            },
            _ => Reaction::Idle,
        }
    }

    /// What to do about a change to an account.
    fn react(&self, update: AccountUpdate) -> (r: Reaction)
        ensures
            if !processable(self@.subscriptions, update@) {
                r is Unprocessable
            } else if rose(self@.subscriptions, update@) {
                r is Receive && passes_on(r->Receive_0, self@.subscriptions, update@)
            } else {
                r is Idle
            },
            r matches Reaction::Receive(receipt) ==> receipt.request.params@ == seq![
                RequestParam::Subscription(update.subscription->0),
            ],
    {
        match (update.lamports, &update.owner) {
            (Some(new_bal), Some(owner)) => match self.balance(owner.as_str()) {
                Some(old_balance) => {
                    if new_bal > old_balance && (update.subscription.is_none()
                        || Pubkey::try_decode(owner.clone()).is_none()) {
                        return Reaction::Unprocessable;
                    }
                },
                None => return Reaction::Unprocessable,
            },
            _ => return Reaction::Unprocessable,
        }
        match self.receive(&update) {
            Some(receipt) => Reaction::Receive(receipt),
            None => Reaction::Idle,
        }
    }

    /// What is to be passed on about a change to a watched account: something
    /// if it has more than when it was taken up, else nothing.
    pub fn receive(&self, update: &AccountUpdate) -> (r: Option<Receipt>)
        requires
            processable(self@.subscriptions, update@),
        ensures
            match r {
                Some(receipt) => rose(self@.subscriptions, update@) && passes_on(
                    receipt,
                    self@.subscriptions,
                    update@,
                ),
                None => !rose(self@.subscriptions, update@),
            },
            r matches Some(receipt) ==> {
                &&& receipt.pubkey@ == update.owner->0@
                &&& receipt.request.params@ == seq![
                    RequestParam::Subscription(update.subscription->0),
                ]
            },
    {
        let new_bal = update.lamports.unwrap();
        let owner_pubkey = update.owner.as_ref().unwrap();
        let old_balance = self.balance(owner_pubkey.as_str()).unwrap();
        match Self::increase(old_balance, new_bal) {
            Some(received_balance) => {
                let sub_id = update.subscription.unwrap();
                let received_balance = lamports_to_sol(received_balance);
                let pubkey = Pubkey::decode(owner_pubkey.clone());
                Some(Self::receipt(pubkey.encode(), received_balance, sub_id))
            },
            None => None,
        }
    }

    /// How much a balance rose, if it did.
    pub fn increase(old_balance: u64, new_bal: u64) -> (r: Option<u64>)
        ensures
            r == (if new_bal > old_balance {
                Some((new_bal - old_balance) as u64)
            } else {
                None
            }),
    {
        if new_bal > old_balance {
            Some(new_bal - old_balance)
        } else {
            None
        }
    }

    /// The receipt of `amount` SOL at the address `pubkey`, whose subscription
    /// is `sub_id`.
    pub fn receipt(pubkey: String, amount: u64, sub_id: u64) -> (r: Receipt)
        ensures
            r.pubkey == pubkey,
            r.amount == amount,
            r.request@ == unsubscribe_request(sub_id),
            r.request.params@ == seq![RequestParam::Subscription(sub_id)],
    {
        Receipt { pubkey, amount, request: Self::unsubscribe(sub_id) }
    }

    /// The request to end a subscription.
    pub fn unsubscribe(sub_id: u64) -> (r: JsonRequest)
        ensures
            r@ == unsubscribe_request(sub_id),
            r.method@ == "accountUnsubscribe"@,
            r.params@ == seq![RequestParam::Subscription(sub_id)],
    {
        let params: Vec<RequestParam> = vec![RequestParam::Subscription(sub_id)];
        let r = request("accountUnsubscribe".to_owned(), params);
        assert(r@.params =~= unsubscribe_request(sub_id).params);
        r
    }

    /// Takes up the account of `keypair`, whose balance is `balance` lamports.
    pub fn watch(&mut self, keypair: &Keypair, balance: u64) -> (r: Watch)
        ensures
            final(self)@ == (ClientView {
                subscriptions: watched(
                    old(self)@.subscriptions,
                    pubkey_text(keypair.public()),
                    balance,
                ),
                ..old(self)@
            }),
            r.request@ == subscribe_request(pubkey_text(keypair.public())),
            r.pubkey@ == pubkey_text(keypair.public()),
            pubkey_read(r.pubkey@) == Some(keypair.public()),
            r.private_key@ == keypair.secret_half(),
    {
        let address = keypair.pubkey().encode();
        let request = self.take_up(address.clone(), balance);
        Watch { request, pubkey: address, private_key: keypair.secret().encode() }
    }

    /// Takes up the account at `address`, whose balance is `balance` lamports,
    /// and returns the request to be told of its changes.
    pub fn take_up(&mut self, address: String, balance: u64) -> (r: JsonRequest)
        ensures
            final(self)@ == (ClientView {
                subscriptions: watched(old(self)@.subscriptions, address@, balance),
                ..old(self)@
            }),
            r@ == subscribe_request(address@),
            final(self)@.subscriptions == old(self)@.subscriptions.insert(address@, balance),
    {
        let sub_params = SubscribeParams {
            encoding: "jsonParsed".to_owned(),
            commitment: "confirmed".to_owned(),
        };
        let params: Vec<RequestParam> = vec![
            RequestParam::Account(address.clone()),
            RequestParam::Options(sub_params),
        ];
        let sub_msg = request("accountSubscribe".to_owned(), params);
        assert(sub_msg@.params =~= subscribe_request(address@).params);
        self.subscriptions.insert(address, balance);
        sub_msg
    }

    /// The signed transaction that moves `amount` lamports from the client's
    /// account to the stored `address`, valid with a recent `blockhash`.
    pub fn send(&self, address: String, amount: u64, blockhash: [u8; 32]) -> (r: Transaction)
        requires
            pubkey_read(address@) is Some,
        ensures
            r@ == transfer_transaction(
                self@.keypair,
                pubkey_read(address@)->0,
                amount,
                blockhash@,
            ),
    {
        let address = Pubkey::decode(address);
        self.transfer_to(&address, amount, blockhash)
    }

    /// The signed transaction that moves `amount` lamports from the client's
    /// account to `address`, valid with a recent `blockhash`.
    pub fn transfer_to(&self, address: &Pubkey, amount: u64, blockhash: [u8; 32]) -> (r:
        Transaction)
        ensures
            r@ == transfer_transaction(self@.keypair, address@, amount, blockhash@),
    {
        proof {
            transfer_data_length(amount);
        }
        let payer = self.pubkey();
        let instruction = transfer(&payer, address, amount);
        let message = new_with_payer(instruction, &payer);
        sign(message, self.keypair.as_bytes(), blockhash)
    }

    /// As [`SolClient::send`], unless `address` is none.
    pub fn try_send(&self, address: String, amount: u64, blockhash: [u8; 32]) -> (r: Option<
        Transaction,
    >)
        ensures
            match r {
                Some(tx) => pubkey_read(address@) is Some && tx@ == transfer_transaction(
                    self@.keypair,
                    pubkey_read(address@)->0,
                    amount,
                    blockhash@,
                ),
                None => pubkey_read(address@) is None,
            },
    {
        match Pubkey::try_decode(address.clone()) {
            Some(_) => Some(self.send(address, amount, blockhash)),
            None => None,
        }
    }
}

/// The subscriptions after an account was taken up.
pub open spec fn watched(
    subscriptions: Map<Seq<char>, u64>,
    address: Seq<char>,
    balance: u64,
) -> Map<Seq<char>, u64> {
    subscriptions.insert(address, balance)
}

/// After an account was taken up, whatever was watched before, a notification
/// about it counts exactly what it has more than it had then.
pub proof fn watched_account_counts_its_gain(
    subscriptions: Map<Seq<char>, u64>,
    address: Seq<char>,
    balance: u64,
    update: UpdateView,
)
    requires
        update.owner == Some(address),
        update.lamports is Some,
    ensures
        ({
            let after = watched(subscriptions, address, balance);
            let lamports = update.lamports->0;
            &&& rose(after, update) <==> lamports > balance
            &&& lamports <= balance ==> processable(after, update)
            &&& lamports > balance ==> gain(after, update) == lamports - balance
            &&& lamports > balance ==> (processable(after, update) <==> update.subscription is Some
                && pubkey_read(address) is Some)
        }),
{
}

/// Taking up an account changes nothing about the notifications for the others.
pub proof fn watching_leaves_others_alone(
    subscriptions: Map<Seq<char>, u64>,
    address: Seq<char>,
    balance: u64,
    update: UpdateView,
    receipt: Receipt,
)
    requires
        update.owner != Some(address),
    ensures
        ({
            let after = watched(subscriptions, address, balance);
            &&& processable(after, update) <==> processable(subscriptions, update)
            &&& processable(after, update) ==> {
                &&& rose(after, update) <==> rose(subscriptions, update)
                &&& passes_on(receipt, after, update) <==> passes_on(receipt, subscriptions, update)
            }
        }),
{
}

/// An account that is taken up again counts from its new balance.
pub proof fn watching_again_starts_over(
    subscriptions: Map<Seq<char>, u64>,
    address: Seq<char>,
    first: u64,
    second: u64,
)
    ensures
        watched(watched(subscriptions, address, first), address, second) == watched(
            subscriptions,
            address,
            second,
        ),
{
    assert(watched(watched(subscriptions, address, first), address, second) =~= watched(
        subscriptions,
        address,
        second,
    ));
}

/// Up to [`MAX_EXACT_LAMPORTS`], what is passed on is what was received, less
/// than one SOL short of it.
pub proof fn amount_rounds_down(
    receipt: Receipt,
    subscriptions: Map<Seq<char>, u64>,
    update: UpdateView,
)
    requires
        passes_on(receipt, subscriptions, update),
        gain(subscriptions, update) <= MAX_EXACT_LAMPORTS,
    ensures
        receipt.amount * LAMPORTS_PER_SOL <= gain(subscriptions, update),
        gain(subscriptions, update) < (receipt.amount + 1) * LAMPORTS_PER_SOL,
{
}

/// What a notification says of an account stands at three places, and what else
/// it holds makes no difference: the balance is the number that the account has
/// under `lamports`, the address the string that it has under `owner`, and the
/// subscription the number beside the result.
pub proof fn notification_is_read_at_its_places(params: serde_json::Value)
    ensures
        ({
            let update = update_in(params);
            let numbers = json_numbers(params);
            let strings = json_strings(params);
            let lamports = seq!["result"@, "value"@, "lamports"@];
            let owner = seq!["result"@, "value"@, "owner"@];
            let subscription = seq!["subscription"@];
            &&& numbers.contains_key(lamports) ==> update.lamports == Some(numbers[lamports])
            &&& !numbers.contains_key(lamports) ==> update.lamports is None
            &&& strings.contains_key(owner) ==> update.owner == Some(strings[owner])
            &&& !strings.contains_key(owner) ==> update.owner is None
            &&& numbers.contains_key(subscription) ==> update.subscription == Some(
                numbers[subscription],
            )
            &&& !numbers.contains_key(subscription) ==> update.subscription is None
        }),
{
}

/// The contents of an update are what it says, as it says it.
pub proof fn update_contents(update: AccountUpdate)
    ensures
        update@.lamports == update.lamports,
        update@.subscription == update.subscription,
        update.owner is Some ==> update@.owner == Some(update.owner->0@),
        update.owner is None ==> update@.owner is None,
{
}

/// A receipt names the account of its notification, tells of what that account
/// has more than it had, in SOL and rounded down, and ends the subscription of
/// the notification.
pub proof fn receipt_tells_the_account_and_its_gain(
    receipt: Receipt,
    subscriptions: Map<Seq<char>, u64>,
    update: UpdateView,
)
    requires
        passes_on(receipt, subscriptions, update),
    ensures
        receipt.pubkey@ == update.owner->0,
        receipt.request@.method == "accountUnsubscribe"@,
        receipt.request@.params.len() == 1,
        receipt.request@.params[0] is Subscription,
        receipt.request@.params[0]->Subscription_0 == update.subscription->0,
        ({
            let gained = update.lamports->0 - subscriptions[update.owner->0];
            gained >= 0 ==> {
                &&& receipt.amount == whole_sol(gained as u64)
                &&& gained <= 0x20_0000_0000_0000 ==> receipt.amount * 1_000_000_000 <= gained < (
                receipt.amount + 1) * 1_000_000_000
            }
        }),
{
}

/// Whatever does what a receipt has to do is one: the account's address, what it
/// gained, and the end of the subscription are all that there is to it.
pub proof fn receipts_are_told_by_their_contents(
    receipt: Receipt,
    other: Receipt,
    subscriptions: Map<Seq<char>, u64>,
    update: UpdateView,
)
    requires
        passes_on(receipt, subscriptions, update),
    ensures
        passes_on(other, subscriptions, update) <==> other.pubkey@ == receipt.pubkey@
            && other.amount == receipt.amount && other.request@ == receipt.request@,
{
}

/// Only an account that has more than it had calls for a receipt, and what it has
/// more is counted in full.
pub proof fn only_more_is_a_gain(subscriptions: Map<Seq<char>, u64>, update: UpdateView)
    requires
        update.lamports is Some,
        update.owner is Some,
        subscriptions.contains_key(update.owner->0),
    ensures
        rose(subscriptions, update) <==> update.lamports->0 > subscriptions[update.owner->0],
        rose(subscriptions, update) ==> subscriptions[update.owner->0] + gain(subscriptions, update)
            == update.lamports->0,
{
}

/// A notification can be processed only if it says the balance and the address
/// of an account that is watched. That is enough unless the account has more than
/// it had: then it has to say the subscription, and the address has to be the
/// text of a public key.
pub proof fn what_a_notification_has_to_say(
    subscriptions: Map<Seq<char>, u64>,
    update: UpdateView,
)
    ensures
        update.lamports is None ==> !processable(subscriptions, update),
        update.owner is None ==> !processable(subscriptions, update),
        update.owner is Some && !subscriptions.contains_key(update.owner->0) ==> !processable(
            subscriptions,
            update,
        ),
        update.lamports is Some && update.owner is Some && subscriptions.contains_key(
            update.owner->0,
        ) ==> {
            let more = update.lamports->0 > subscriptions[update.owner->0];
            let told = update.subscription is Some && exists|key: Seq<u8>|
                key.len() == 32 && #[trigger] pubkey_text(key) == update.owner->0;
            processable(subscriptions, update) <==> !more || told
        },
{
}

/// Taking up an account records its balance, and that of no other account
/// changes.
pub proof fn watching_records_the_balance(
    subscriptions: Map<Seq<char>, u64>,
    address: Seq<char>,
    balance: u64,
    other: Seq<char>,
)
    ensures
        ({
            let after = watched(subscriptions, address, balance);
            &&& after.contains_key(address)
            &&& after[address] == balance
            &&& other != address ==> {
                &&& after.contains_key(other) <==> subscriptions.contains_key(other)
                &&& after.contains_key(other) ==> after[other] == subscriptions[other]
            }
        }),
{
}

/// From the notification to what is told of it: where the account at `owner` has
/// more under `lamports` than when it was taken up, the receipt names that very
/// account, tells of the difference, and ends the subscription that stands
/// beside the result. Without more there is nothing to tell.
pub proof fn notification_is_passed_on(
    params: serde_json::Value,
    subscriptions: Map<Seq<char>, u64>,
    receipt: Receipt,
)
    requires
        processable(subscriptions, update_in(params)),
    ensures
        ({
            let lamports = json_numbers(params)[seq!["result"@, "value"@, "lamports"@]];
            let owner = json_strings(params)[seq!["result"@, "value"@, "owner"@]];
            let subscription = json_numbers(params)[seq!["subscription"@]];
            let gained = lamports - subscriptions[owner];
            &&& subscriptions.contains_key(owner)
            &&& rose(subscriptions, update_in(params)) <==> gained > 0
            &&& gained > 0 && passes_on(receipt, subscriptions, update_in(params)) ==> {
                &&& receipt.pubkey@ == owner
                &&& receipt.amount == whole_sol(gained as u64)
                &&& gained <= 0x20_0000_0000_0000 ==> receipt.amount * 1_000_000_000 <= gained < (
                receipt.amount + 1) * 1_000_000_000
                &&& receipt.request@.method == "accountUnsubscribe"@
                &&& receipt.request@.params == seq![ParamView::Subscription(subscription)]
            }
        }),
{
    notification_is_read_at_its_places(params);
    what_a_notification_has_to_say(subscriptions, update_in(params));
    if passes_on(receipt, subscriptions, update_in(params)) {
        receipt_tells_the_account_and_its_gain(receipt, subscriptions, update_in(params));
    }
}

} // verus!
