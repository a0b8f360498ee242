//! The JSON-RPC messages that are exchanged with a Solana node.
use vstd::prelude::*;

verus! {

/// What is asked about an account that is to be watched.
#[derive(Debug, PartialEq, Eq)]
pub struct SubscribeParams {
    pub encoding: String,
    pub commitment: String,
}

/// A parameter of a request.
#[derive(Debug, PartialEq, Eq)]
pub enum RequestParam {
    /// The number of a subscription.
    Subscription(u64),
    /// The address of an account.
    Account(String),
    /// How to report on the account.
    Options(SubscribeParams),
}

/// A request: a method and its parameters. The sender adds the request's id.
#[derive(Debug, PartialEq, Eq)]
pub struct JsonRequest {
    pub method: String,
    pub params: Vec<RequestParam>,
}

/// A message of the node, with the part of it that matters here.
#[derive(Debug)]
pub enum JsonResult {
    /// An answer, with its result.
    Resp(serde_json::Value),
    /// A refusal, with its message.
    Error(serde_json::Value),
    /// A notification, with its parameters.
    Notif(serde_json::Value),
}

/// A [`RequestParam`] by its contents.
pub enum ParamView {
    Subscription(u64),
    Account(Seq<char>),
    Options { encoding: Seq<char>, commitment: Seq<char> },
}

/// A [`JsonRequest`] by its contents.
pub struct RequestView {
    pub method: Seq<char>,
    pub params: Seq<ParamView>,
}

impl View for RequestParam {
    type V = ParamView;

    open spec fn view(&self) -> ParamView {
        match self {
            RequestParam::Subscription(id) => ParamView::Subscription(*id),
            RequestParam::Account(address) => ParamView::Account(address@),
            RequestParam::Options(options) => ParamView::Options {
                encoding: options.encoding@,
                commitment: options.commitment@,
            },
        }
    }
}

impl View for JsonRequest {
    type V = RequestView;

    open spec fn view(&self) -> RequestView {
        RequestView {
            method: self.method@,
            params: self.params@.map_values(|param: RequestParam| param@),
        }
    }
}

/// The request to be told of changes to an account, as JSON, once the cluster
/// has confirmed them.
pub open spec fn subscribe_request(address: Seq<char>) -> RequestView {
    RequestView {
        method: "accountSubscribe"@,
        params: seq![
            ParamView::Account(address),
            ParamView::Options { encoding: "jsonParsed"@, commitment: "confirmed"@ },
        ],
    }
}

/// The request to end a subscription.
pub open spec fn unsubscribe_request(sub_id: u64) -> RequestView {
    RequestView {
        method: "accountUnsubscribe"@,
        params: seq![ParamView::Subscription(sub_id)],
    }
}

/// A request for `method` with these parameters.
pub fn request(method: String, params: Vec<RequestParam>) -> (r: JsonRequest)
    ensures
        r.method == method,
        r.params == params,
{
    JsonRequest { method, params }
}

/// The contents of a request are its method and its parameters as they are, in
/// their order.
pub proof fn request_contents(request: JsonRequest)
    ensures
        request@.method == request.method@,
        request@.params.len() == request.params@.len(),
        forall|i: int|
            0 <= i < request.params@.len() ==> match #[trigger] request.params@[i] {
                RequestParam::Subscription(id) => request@.params[i] is Subscription
                    && request@.params[i]->Subscription_0 == id,
                RequestParam::Account(address) => request@.params[i] is Account
                    && request@.params[i]->Account_0 == address@,
                RequestParam::Options(options) => request@.params[i] is Options
                    && request@.params[i]->encoding == options.encoding@
                    && request@.params[i]->commitment == options.commitment@,
            },
{
}

/// The request that ends a subscription names the method for it and, as its only
/// parameter, the number of the subscription itself. Two subscriptions are ended
/// by two different requests.
pub proof fn unsubscribing_names_the_subscription(a: u64, b: u64)
    ensures
        unsubscribe_request(a).method == "accountUnsubscribe"@,
        unsubscribe_request(a).params.len() == 1,
        unsubscribe_request(a).params[0] is Subscription,
        unsubscribe_request(a).params[0]->Subscription_0 == a,
        unsubscribe_request(a) == unsubscribe_request(b) ==> a == b,
{
    assert(unsubscribe_request(b).params[0]->Subscription_0 == b);
}

/// The request to watch an account names the method for it, the address itself
/// and then how to report: parsed, and once confirmed. Two addresses are watched
/// by two different requests, which never end a subscription.
pub proof fn subscribing_names_the_account(a: Seq<char>, b: Seq<char>, sub_id: u64)
    ensures
        subscribe_request(a).method == "accountSubscribe"@,
        subscribe_request(a).params.len() == 2,
        subscribe_request(a).params[0] is Account,
        subscribe_request(a).params[0]->Account_0 == a,
        subscribe_request(a).params[1] is Options,
        subscribe_request(a).params[1]->encoding == "jsonParsed"@,
        subscribe_request(a).params[1]->commitment == "confirmed"@,
        subscribe_request(a) == subscribe_request(b) ==> a == b,
        subscribe_request(a) != unsubscribe_request(sub_id),
{
    assert(subscribe_request(b).params[0]->Account_0 == b);
    assert(unsubscribe_request(sub_id).params.len() == 1);
}

} // verus!
