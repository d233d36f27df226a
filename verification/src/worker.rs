//! One run of the off-chain worker's fetch-and-submit, as a state machine.
//!
//! A run checks that a local signing key exists, fetches a quote from
//! CryptoCompare, then one from CoinMarketCap, and submits their average as
//! a signed `submit_price_signed` transaction from every local account.  The
//! first failure ends the run with its error; the transactions' own results
//! do not change the outcome.

use vstd::prelude::*;
use vstd::utf8::valid_utf8;
use crate::offchain::ChannelType;
use crate::offchain::HttpReply;
use crate::offchain::ReplyView;
use crate::offchain::accept_reply;
use crate::offchain::check_body_text;
use crate::offchain::reply_fetched;
use crate::offchain::average_price;
use crate::offchain::price_from_cryptocompare;
use crate::offchain::price_from_coinmarketcap;
use crate::offchain::reply_usable;
use crate::response::ETHPriceInfo01CC;
use crate::response::ETHPriceInfo02CMC;
use crate::response::cryptocompare_price;
use crate::response::coinmarketcap_price;

verus! {

/// Why a run ended without submitting a price.
#[derive(Clone, Copy, Debug, PartialEq, Eq, Structural)]
pub enum FetchError {
    /// No local account can sign.
    NoLocalAccounts,
    /// The CryptoCompare quote could not be had.
    FetchFailedCC,
    /// The CoinMarketCap quote could not be had.
    FetchFailedCMC,
}

/// The message that a run reports for an error.
pub open spec fn spec_message(e: FetchError) -> Seq<char> {
    match e {
        FetchError::NoLocalAccounts => "No local accounts available. Consider adding one via `author_insertKey` RPC."@,
        FetchError::FetchFailedCC => "Failed to fetch eth price from CC"@,
        FetchError::FetchFailedCMC => "Failed to fetch eth price from CMC"@,
    }
}

impl FetchError {
    /// The message that a run reports for this error.
    pub fn message(&self) -> (res: &'static str)
        ensures
            res@ == spec_message(*self),
    {
        match self {
            FetchError::NoLocalAccounts => "No local accounts available. Consider adding one via `author_insertKey` RPC.",
            FetchError::FetchFailedCC => "Failed to fetch eth price from CC",
            FetchError::FetchFailedCMC => "Failed to fetch eth price from CMC",
        }
    }
}

/// Where a run stands.
#[derive(Clone, Copy, Debug, PartialEq, Eq, Structural)]
pub enum FetchStage {
    /// Waiting to learn whether a local account can sign.
    CheckingSigner,
    /// Waiting for the reply of the CryptoCompare request.
    AwaitingReplyCC,
    /// Waiting for the CryptoCompare body to be decoded.
    DecodingCC,
    /// Holding the CryptoCompare price; waiting for the CoinMarketCap reply.
    AwaitingReplyCMC { cc_price: u32 },
    /// Holding the CryptoCompare price; waiting for the CoinMarketCap body
    /// to be decoded.
    DecodingCMC { cc_price: u32 },
    /// Waiting for the transactions that submit `price` to be sent.
    Submitting { price: u32 },
    /// The run is over.
    Done,
}

/// What the host hands back after performing an action.
#[derive(Debug)]
pub enum WorkerEvent {
    /// Whether some local account can sign.
    SignerChecked(bool),
    /// What came of an HTTP request.
    Replied(HttpReply),
    /// The decoded CryptoCompare body, or `None` if it did not decode.
    DecodedCC(Option<ETHPriceInfo01CC>),
    /// The decoded CoinMarketCap body, or `None` if it did not decode.
    DecodedCMC(Option<ETHPriceInfo02CMC>),
    /// The signed transactions were sent (whatever each one's result).
    Submitted,
}

/// What the worker asks the host to do next.
#[derive(Debug)]
pub enum WorkerAction {
    /// Find out whether some local account can sign.
    CheckSigner,
    /// Send the price request of this service.
    HttpGet(ChannelType),
    /// Decode this body as the JSON reply of this service.
    DecodeBody(ChannelType, Vec<u8>),
    /// Send `submit_price_signed(price)` signed by every local account.
    SubmitPrice(u32),
    /// End the run with this outcome.
    Finish(Result<(), FetchError>),
}

/// A `WorkerEvent` as the worker reads it: replies with their bodies as
/// sequences, decoded bodies as the price they quote.
pub enum EventView {
    SignerChecked(bool),
    Replied(ReplyView),
    DecodedCC(Option<u32>),
    DecodedCMC(Option<u32>),
    Submitted,
}

/// A `WorkerAction` with its body as a sequence.
pub enum ActionView {
    CheckSigner,
    HttpGet(ChannelType),
    DecodeBody(ChannelType, Seq<u8>),
    SubmitPrice(u32),
    Finish(Result<(), FetchError>),
}

impl View for WorkerEvent {
    type V = EventView;

    open spec fn view(&self) -> EventView {
        match self {
            WorkerEvent::SignerChecked(b) => EventView::SignerChecked(*b),
            WorkerEvent::Replied(r) => EventView::Replied(r@),
            WorkerEvent::DecodedCC(d) => EventView::DecodedCC(match d {
                Some(info) => Some(cryptocompare_price(*info)),
                None => None,
            }),
            WorkerEvent::DecodedCMC(d) => EventView::DecodedCMC(match d {
                Some(info) => Some(coinmarketcap_price(*info)),
                None => None,
            }),
            WorkerEvent::Submitted => EventView::Submitted,
        }
    }
}

impl View for WorkerAction {
    type V = ActionView;

    open spec fn view(&self) -> ActionView {
        match self {
            WorkerAction::CheckSigner => ActionView::CheckSigner,
            WorkerAction::HttpGet(c) => ActionView::HttpGet(*c),
            WorkerAction::DecodeBody(c, body) => ActionView::DecodeBody(*c, body@),
            WorkerAction::SubmitPrice(p) => ActionView::SubmitPrice(*p),
            WorkerAction::Finish(r) => ActionView::Finish(*r),
        }
    }
}

/// Whether a stage takes an event: the event answers the stage's action,
/// and, for the CoinMarketCap price, its sum with the CryptoCompare price
/// fits in a `u32` (their average is taken from that sum).
pub open spec fn accepts(stage: FetchStage, event: EventView) -> bool {
    match stage {
        FetchStage::CheckingSigner => event is SignerChecked,
        FetchStage::AwaitingReplyCC => event is Replied,
        FetchStage::DecodingCC => event is DecodedCC,
        FetchStage::AwaitingReplyCMC { .. } => event is Replied,
        FetchStage::DecodingCMC { cc_price } => match event {
            EventView::DecodedCMC(d) => d matches Some(p) ==> cc_price + p <= u32::MAX,
            _ => false,
        },
        FetchStage::Submitting { .. } => event is Submitted,
        FetchStage::Done => false,
    }
}

/// Ending a run with `outcome`.
pub open spec fn finish(outcome: Result<(), FetchError>) -> (FetchStage, ActionView) {
    (FetchStage::Done, ActionView::Finish(outcome))
}

/// The next stage and action after a stage takes an event.
///
/// A reply is read in two steps: the fetch keeps a reply with status 200
/// (`accept_reply`), and the parse then needs its body to be text (UTF-8,
/// `check_body_text`) before asking for it to be decoded as JSON.
pub open spec fn transition(stage: FetchStage, event: EventView) -> (FetchStage, ActionView) {
    match (stage, event) {
        (FetchStage::CheckingSigner, EventView::SignerChecked(can_sign)) =>
            if can_sign {
                (FetchStage::AwaitingReplyCC, ActionView::HttpGet(ChannelType::ChannelTypeCC))
            } else {
                finish(Err(FetchError::NoLocalAccounts))
            },
        (FetchStage::AwaitingReplyCC, EventView::Replied(reply)) =>
            match reply {
                ReplyView::Received { body, .. } if reply_fetched(reply) =>
                    if valid_utf8(body) {
                        (FetchStage::DecodingCC, ActionView::DecodeBody(ChannelType::ChannelTypeCC, body))
                    } else {
                        finish(Err(FetchError::FetchFailedCC))
                    },
                _ => finish(Err(FetchError::FetchFailedCC)),
            },
        (FetchStage::DecodingCC, EventView::DecodedCC(decoded)) =>
            match decoded {
                Some(p) => (FetchStage::AwaitingReplyCMC { cc_price: p }, ActionView::HttpGet(ChannelType::ChannelTypeCMC)),
                None => finish(Err(FetchError::FetchFailedCC)),
            },
        (FetchStage::AwaitingReplyCMC { cc_price }, EventView::Replied(reply)) =>
            match reply {
                ReplyView::Received { body, .. } if reply_fetched(reply) =>
                    if valid_utf8(body) {
                        (FetchStage::DecodingCMC { cc_price }, ActionView::DecodeBody(ChannelType::ChannelTypeCMC, body))
                    } else {
                        finish(Err(FetchError::FetchFailedCMC))
                    },
                _ => finish(Err(FetchError::FetchFailedCMC)),
            },
        (FetchStage::DecodingCMC { cc_price }, EventView::DecodedCMC(decoded)) =>
            match decoded {
                Some(p) => {
                    let price = ((cc_price + p) / 2) as u32;
                    (FetchStage::Submitting { price }, ActionView::SubmitPrice(price))
                },
                None => finish(Err(FetchError::FetchFailedCMC)),
            },
        (FetchStage::Submitting { .. }, EventView::Submitted) => finish(Ok(())),
        // an event that the stage does not take; `accepts` rules it out
        _ => (stage, ActionView::Finish(Ok(()))),
    }
}

/// The stage reached and the actions asked for when `stage` takes `events`
/// in order; the run stops at the first event that its stage does not take.
pub open spec fn run(stage: FetchStage, events: Seq<EventView>) -> (FetchStage, Seq<ActionView>)
    decreases events.len(),
{
    if events.len() == 0 || !accepts(stage, events[0]) {
        (stage, Seq::empty())
    } else {
        let (next, action) = transition(stage, events[0]);
        let (last, rest) = run(next, events.drop_first());
        (last, seq![action] + rest)
    }
}

/// A reply that came with status 200 and this body.
pub open spec fn ok_reply(body: Seq<u8>) -> ReplyView {
    ReplyView::Received { code: 200, body }
}

/// A step that takes an event ends the run exactly when it asks for
/// `Finish`, and then it reaches `Done`.
pub proof fn lemma_finish_iff_done(stage: FetchStage, event: EventView)
    requires
        accepts(stage, event),
    ensures
        (transition(stage, event).1 is Finish) <==> transition(stage, event).0 == FetchStage::Done,
{
}

/// A run asks for `Finish` at most once, as its last action, and then it
/// is `Done`; a run that has not finished is not `Done` unless it started
/// there.
pub proof fn lemma_finish_is_last(stage: FetchStage, events: Seq<EventView>)
    requires
        stage != FetchStage::Done,
    ensures
        forall|i: int| 0 <= i < run(stage, events).1.len() && (#[trigger] run(stage, events).1[i]) is Finish
            ==> i == run(stage, events).1.len() - 1,
        (run(stage, events).0 == FetchStage::Done) <==> (run(stage, events).1.len() > 0
            && run(stage, events).1.last() is Finish),
    decreases events.len(),
{
    if events.len() == 0 || !accepts(stage, events[0]) {
    } else {
        let (next, action) = transition(stage, events[0]);
        lemma_finish_iff_done(stage, events[0]);
        let rest = events.drop_first();
        if next == FetchStage::Done {
            if rest.len() > 0 {
                assert(!accepts(next, rest[0]));
            }
            assert(run(next, rest).1 =~= Seq::<ActionView>::empty());
        } else {
            lemma_finish_is_last(next, rest);
            let acts = run(stage, events).1;
            assert(acts =~= seq![action] + run(next, rest).1);
            assert forall|i: int| 0 <= i < acts.len() && (#[trigger] acts[i]) is Finish implies i == acts.len() - 1 by {
                if i > 0 {
                    assert(acts[i] == run(next, rest).1[i - 1]);
                }
            }
        }
    }
}

/// A run from the start in which every step succeeds: the signer check
/// passes, both services reply with status 200 and a UTF-8 body, and both
/// bodies decode to quotes `cc` and `cmc`.  The run asks for the two
/// requests, the two decodes, the submission of the average `(cc + cmc) / 2`
/// and then ends successfully.
pub proof fn lemma_complete_run(body_cc: Seq<u8>, cc: u32, body_cmc: Seq<u8>, cmc: u32)
    requires
        vstd::utf8::valid_utf8(body_cc),
        vstd::utf8::valid_utf8(body_cmc),
        cc + cmc <= u32::MAX,
    ensures
        run(FetchStage::CheckingSigner, seq![
            EventView::SignerChecked(true),
            EventView::Replied(ok_reply(body_cc)),
            EventView::DecodedCC(Some(cc)),
            EventView::Replied(ok_reply(body_cmc)),
            EventView::DecodedCMC(Some(cmc)),
            EventView::Submitted,
        ]) == (FetchStage::Done, seq![
            ActionView::HttpGet(ChannelType::ChannelTypeCC),
            ActionView::DecodeBody(ChannelType::ChannelTypeCC, body_cc),
            ActionView::HttpGet(ChannelType::ChannelTypeCMC),
            ActionView::DecodeBody(ChannelType::ChannelTypeCMC, body_cmc),
            ActionView::SubmitPrice(((cc + cmc) / 2) as u32),
            ActionView::Finish(Ok(())),
        ]),
{
    let evs = seq![
        EventView::SignerChecked(true),
        EventView::Replied(ok_reply(body_cc)),
        EventView::DecodedCC(Some(cc)),
        EventView::Replied(ok_reply(body_cmc)),
        EventView::DecodedCMC(Some(cmc)),
        EventView::Submitted,
    ];
    let price = ((cc + cmc) / 2) as u32;
    let e5 = evs.drop_first().drop_first().drop_first().drop_first().drop_first();
    assert(e5 =~= seq![EventView::Submitted]);
    assert(e5.drop_first() =~= Seq::<EventView>::empty());
    assert(run(FetchStage::Done, e5.drop_first()) == (FetchStage::Done, Seq::<ActionView>::empty()));
    assert(run(FetchStage::Submitting { price }, e5).1 =~= seq![ActionView::Finish(Ok(()))]);
    let e4 = evs.drop_first().drop_first().drop_first().drop_first();
    assert(e4.drop_first() =~= e5);
    assert(run(FetchStage::DecodingCMC { cc_price: cc }, e4).1 =~= seq![ActionView::SubmitPrice(price), ActionView::Finish(Ok(()))]);
    let e3 = evs.drop_first().drop_first().drop_first();
    assert(e3.drop_first() =~= e4);
    assert(run(FetchStage::AwaitingReplyCMC { cc_price: cc }, e3).1 =~= seq![
        ActionView::DecodeBody(ChannelType::ChannelTypeCMC, body_cmc),
        ActionView::SubmitPrice(price), ActionView::Finish(Ok(()))]);
    let e2 = evs.drop_first().drop_first();
    assert(e2.drop_first() =~= e3);
    assert(run(FetchStage::DecodingCC, e2).1 =~= seq![
        ActionView::HttpGet(ChannelType::ChannelTypeCMC),
        ActionView::DecodeBody(ChannelType::ChannelTypeCMC, body_cmc),
        ActionView::SubmitPrice(price), ActionView::Finish(Ok(()))]);
    let e1 = evs.drop_first();
    assert(e1.drop_first() =~= e2);
    assert(run(FetchStage::AwaitingReplyCC, e1).1 =~= seq![
        ActionView::DecodeBody(ChannelType::ChannelTypeCC, body_cc),
        ActionView::HttpGet(ChannelType::ChannelTypeCMC),
        ActionView::DecodeBody(ChannelType::ChannelTypeCMC, body_cmc),
        ActionView::SubmitPrice(price), ActionView::Finish(Ok(()))]);
    assert(run(FetchStage::CheckingSigner, evs).1 =~= seq![
        ActionView::HttpGet(ChannelType::ChannelTypeCC),
        ActionView::DecodeBody(ChannelType::ChannelTypeCC, body_cc),
        ActionView::HttpGet(ChannelType::ChannelTypeCMC),
        ActionView::DecodeBody(ChannelType::ChannelTypeCMC, body_cmc),
        ActionView::SubmitPrice(price), ActionView::Finish(Ok(()))]);
}

/// The messages that a run reports, one per error.
pub proof fn lemma_messages()
    ensures
        spec_message(FetchError::NoLocalAccounts) == "No local accounts available. Consider adding one via `author_insertKey` RPC."@,
        spec_message(FetchError::FetchFailedCC) == "Failed to fetch eth price from CC"@,
        spec_message(FetchError::FetchFailedCMC) == "Failed to fetch eth price from CMC"@,
{
}

/// The worker reads from an event what the host handed back: a reply's
/// status and body as they came, a decoded body as the price it quotes
/// (CryptoCompare's `USD`, CoinMarketCap's `data.ETH.quote.USD.price`);
/// a decode request carries the body as it is.
pub proof fn lemma_event_views(can_sign: bool, code: u16, body: Vec<u8>, cc: ETHPriceInfo01CC,
    cmc: ETHPriceInfo02CMC, channel: ChannelType, price: u32)
    ensures
        WorkerEvent::SignerChecked(can_sign)@ == EventView::SignerChecked(can_sign),
        WorkerEvent::Replied(HttpReply::Failed)@ == EventView::Replied(ReplyView::Failed),
        WorkerEvent::Replied(HttpReply::Received { code, body })@
            == EventView::Replied(ReplyView::Received { code, body: body@ }),
        WorkerEvent::DecodedCC(Some(cc))@ == EventView::DecodedCC(Some(cc.usd)),
        WorkerEvent::DecodedCC(None)@ == EventView::DecodedCC(None),
        WorkerEvent::DecodedCMC(Some(cmc))@ == EventView::DecodedCMC(Some(cmc.data.eth.quote.usd.price)),
        WorkerEvent::DecodedCMC(None)@ == EventView::DecodedCMC(None),
        WorkerEvent::Submitted@ == EventView::Submitted,
        WorkerAction::DecodeBody(channel, body)@ == ActionView::DecodeBody(channel, body@),
        WorkerAction::SubmitPrice(price)@ == ActionView::SubmitPrice(price),
        WorkerAction::HttpGet(channel)@ == ActionView::HttpGet(channel),
        WorkerAction::CheckSigner@ == ActionView::CheckSigner,
{
}

/// How far a stage is from the end of a run: the number of further events
/// that it can take at most.
pub open spec fn steps_left(stage: FetchStage) -> nat {
    match stage {
        FetchStage::CheckingSigner => 6,
        FetchStage::AwaitingReplyCC => 5,
        FetchStage::DecodingCC => 4,
        FetchStage::AwaitingReplyCMC { .. } => 3,
        FetchStage::DecodingCMC { .. } => 2,
        FetchStage::Submitting { .. } => 1,
        FetchStage::Done => 0,
    }
}

/// Every stage but `Done` takes every answer of the kind that its action
/// asks for: any signer check, any reply (whatever its status and body),
/// any outcome of a decode (a quote or `None`), and the notice that the
/// transactions were sent.  The one exception is a CoinMarketCap quote
/// whose sum with the held CryptoCompare quote overflows a `u32`.
pub proof fn lemma_every_answer_taken(stage: FetchStage, event: EventView)
    ensures
        stage == FetchStage::CheckingSigner && event is SignerChecked ==> accepts(stage, event),
        stage == FetchStage::AwaitingReplyCC && event is Replied ==> accepts(stage, event),
        stage == FetchStage::DecodingCC && event is DecodedCC ==> accepts(stage, event),
        stage is AwaitingReplyCMC && event is Replied ==> accepts(stage, event),
        stage matches FetchStage::DecodingCMC { cc_price } && event matches EventView::DecodedCMC(d)
            && (d matches Some(p) ==> cc_price + p <= u32::MAX) ==> accepts(stage, event),
        stage is Submitting && event is Submitted ==> accepts(stage, event),
        stage == FetchStage::Done ==> !accepts(stage, event),
{
}

/// Each step moves a run forward, so a run from the start ends within six
/// events, at `Done` if it is not stopped.
pub proof fn lemma_step_moves_forward(stage: FetchStage, event: EventView)
    requires
        accepts(stage, event),
    ensures
        steps_left(transition(stage, event).0) < steps_left(stage),
{
}

/// A step ends a run successfully only from `Submitting`, on the notice
/// that the transactions were sent: no run reports success without having
/// asked for a price to be submitted.
pub proof fn lemma_success_only_after_submission(stage: FetchStage, event: EventView)
    requires
        accepts(stage, event),
        transition(stage, event).1 == ActionView::Finish(Ok(())),
    ensures
        stage is Submitting,
        event == EventView::Submitted,
{
}

/// A step that ends a run with an error names the service being waited
/// on: `NoLocalAccounts` from the signer check, `FetchFailedCC` while
/// fetching or reading the CryptoCompare quote, `FetchFailedCMC` while
/// fetching or reading the CoinMarketCap quote.  Sending the transactions
/// never ends a run with an error.
pub proof fn lemma_failure_names_its_stage(stage: FetchStage, event: EventView, e: FetchError)
    requires
        accepts(stage, event),
        transition(stage, event).1 == ActionView::Finish(Err(e)),
    ensures
        stage == FetchStage::CheckingSigner ==> e == FetchError::NoLocalAccounts && event == EventView::SignerChecked(false),
        stage == FetchStage::AwaitingReplyCC || stage == FetchStage::DecodingCC ==> e == FetchError::FetchFailedCC,
        stage is AwaitingReplyCMC || stage is DecodingCMC ==> e == FetchError::FetchFailedCMC,
        !(stage is Submitting),
{
}

/// A reply that was not fetched (none came, or its status is not 200) ends
/// the run with the failure of the service that was asked.
pub proof fn lemma_unfetched_reply_fails(cc_price: u32, reply: ReplyView)
    requires
        !(reply matches ReplyView::Received { code, .. } && code == 200),
    ensures
        transition(FetchStage::AwaitingReplyCC, EventView::Replied(reply))
            == (FetchStage::Done, ActionView::Finish(Err(FetchError::FetchFailedCC))),
        transition(FetchStage::AwaitingReplyCMC { cc_price }, EventView::Replied(reply))
            == (FetchStage::Done, ActionView::Finish(Err(FetchError::FetchFailedCMC))),
{
}

/// A fetched reply (status 200) is decoded when its body is text, and the
/// decode is asked for exactly that body; a body that is not UTF-8 ends
/// the run with that service's failure.
pub proof fn lemma_fetched_reply_read(cc_price: u32, body: Seq<u8>)
    ensures
        valid_utf8(body) ==> transition(FetchStage::AwaitingReplyCC, EventView::Replied(ok_reply(body)))
            == (FetchStage::DecodingCC, ActionView::DecodeBody(ChannelType::ChannelTypeCC, body)),
        valid_utf8(body) ==> transition(FetchStage::AwaitingReplyCMC { cc_price }, EventView::Replied(ok_reply(body)))
            == (FetchStage::DecodingCMC { cc_price }, ActionView::DecodeBody(ChannelType::ChannelTypeCMC, body)),
        !valid_utf8(body) ==> transition(FetchStage::AwaitingReplyCC, EventView::Replied(ok_reply(body)))
            == (FetchStage::Done, ActionView::Finish(Err(FetchError::FetchFailedCC))),
        !valid_utf8(body) ==> transition(FetchStage::AwaitingReplyCMC { cc_price }, EventView::Replied(ok_reply(body)))
            == (FetchStage::Done, ActionView::Finish(Err(FetchError::FetchFailedCMC))),
{
}

/// A body that did not decode ends the run with that service's failure; a
/// decoded CryptoCompare quote is held and the CoinMarketCap request asked
/// for; a decoded CoinMarketCap quote leads to submitting the average.
pub proof fn lemma_decoded_quote(cc_price: u32, p: u32)
    ensures
        transition(FetchStage::DecodingCC, EventView::DecodedCC(None))
            == (FetchStage::Done, ActionView::Finish(Err(FetchError::FetchFailedCC))),
        transition(FetchStage::DecodingCMC { cc_price }, EventView::DecodedCMC(None))
            == (FetchStage::Done, ActionView::Finish(Err(FetchError::FetchFailedCMC))),
        transition(FetchStage::DecodingCC, EventView::DecodedCC(Some(p)))
            == (FetchStage::AwaitingReplyCMC { cc_price: p }, ActionView::HttpGet(ChannelType::ChannelTypeCMC)),
        cc_price + p <= u32::MAX ==> transition(FetchStage::DecodingCMC { cc_price }, EventView::DecodedCMC(Some(p)))
            == (FetchStage::Submitting { price: ((cc_price + p) / 2) as u32 },
                ActionView::SubmitPrice(((cc_price + p) / 2) as u32)),
{
}

/// A step into `Submitting` asks for that price to be submitted.
proof fn lemma_into_submitting(stage: FetchStage, event: EventView)
    requires
        accepts(stage, event),
        transition(stage, event).0 is Submitting,
    ensures
        transition(stage, event).1 == ActionView::SubmitPrice(transition(stage, event).0->price),
{
}

/// In every run, a successful end comes right after a request to submit a
/// price (or, from `Submitting`, as the first action).
pub proof fn lemma_success_follows_submission(stage: FetchStage, events: Seq<EventView>, i: int)
    requires
        0 <= i < run(stage, events).1.len(),
        run(stage, events).1[i] == ActionView::Finish(Ok(())),
    ensures
        i == 0 ==> stage is Submitting,
        i > 0 ==> run(stage, events).1[i - 1] is SubmitPrice,
    decreases events.len(),
{
    let (next, action) = transition(stage, events[0]);
    let rest = events.drop_first();
    assert(run(stage, events).1 =~= seq![action] + run(next, rest).1);
    if i == 0 {
        lemma_success_only_after_submission(stage, events[0]);
    } else {
        assert(run(stage, events).1[i] == run(next, rest).1[i - 1]);
        lemma_success_follows_submission(next, rest, i - 1);
        if i == 1 {
            lemma_into_submitting(stage, events[0]);
        } else {
            assert(run(stage, events).1[i - 1] == run(next, rest).1[i - 2]);
        }
    }
}

/// A run asks for at most one action per event.
proof fn lemma_run_len(stage: FetchStage, events: Seq<EventView>)
    ensures
        run(stage, events).1.len() <= events.len(),
    decreases events.len(),
{
    if events.len() > 0 && accepts(stage, events[0]) {
        lemma_run_len(transition(stage, events[0]).0, events.drop_first());
    }
}

/// From `Submitting` or `Done` a run asks for no submission.
proof fn lemma_no_submission_after(stage: FetchStage, events: Seq<EventView>, i: int, p: u32)
    requires
        stage is Submitting || stage == FetchStage::Done,
        0 <= i < run(stage, events).1.len(),
    ensures
        run(stage, events).1[i] != ActionView::SubmitPrice(p),
{
    if events.len() > 0 && accepts(stage, events[0]) {
        let rest = events.drop_first();
        if rest.len() > 0 {
            assert(!accepts(FetchStage::Done, rest[0]));
        }
        assert(run(FetchStage::Done, rest).1 =~= Seq::<ActionView>::empty());
        assert(run(stage, events).1 =~= seq![ActionView::Finish(Ok(()))]);
    }
}

proof fn lemma_submission_from_decoding_cmc(cc: u32, events: Seq<EventView>, i: int, p: u32)
    requires
        0 <= i < run(FetchStage::DecodingCMC { cc_price: cc }, events).1.len(),
        run(FetchStage::DecodingCMC { cc_price: cc }, events).1[i] == ActionView::SubmitPrice(p),
    ensures
        i < events.len(),
        i == 0,
        events[0] matches EventView::DecodedCMC(Some(b)) && p == (cc + b) / 2,
{
    lemma_run_len(FetchStage::DecodingCMC { cc_price: cc }, events);
    let stage = FetchStage::DecodingCMC { cc_price: cc };
    let (next, action) = transition(stage, events[0]);
    let rest = events.drop_first();
    assert(run(stage, events).1 =~= seq![action] + run(next, rest).1);
    if i > 0 {
        assert(run(stage, events).1[i] == run(next, rest).1[i - 1]);
        lemma_no_submission_after(next, rest, i - 1, p);
    }
}

proof fn lemma_submission_from_reply_cmc(cc: u32, events: Seq<EventView>, i: int, p: u32)
    requires
        0 <= i < run(FetchStage::AwaitingReplyCMC { cc_price: cc }, events).1.len(),
        run(FetchStage::AwaitingReplyCMC { cc_price: cc }, events).1[i] == ActionView::SubmitPrice(p),
    ensures
        i < events.len(),
        i == 1,
        events[0] matches EventView::Replied(reply) && reply_usable(reply),
        events[1] matches EventView::DecodedCMC(Some(b)) && p == (cc + b) / 2,
{
    lemma_run_len(FetchStage::AwaitingReplyCMC { cc_price: cc }, events);
    let stage = FetchStage::AwaitingReplyCMC { cc_price: cc };
    let (next, action) = transition(stage, events[0]);
    let rest = events.drop_first();
    assert(run(stage, events).1 =~= seq![action] + run(next, rest).1);
    assert(i > 0);
    assert(run(stage, events).1[i] == run(next, rest).1[i - 1]);
    if next == FetchStage::Done {
        lemma_no_submission_after(next, rest, i - 1, p);
    } else {
        lemma_submission_from_decoding_cmc(cc, rest, i - 1, p);
    }
}

proof fn lemma_submission_from_decoding_cc(events: Seq<EventView>, i: int, p: u32)
    requires
        0 <= i < run(FetchStage::DecodingCC, events).1.len(),
        run(FetchStage::DecodingCC, events).1[i] == ActionView::SubmitPrice(p),
    ensures
        i < events.len(),
        i == 2,
        events[0] matches EventView::DecodedCC(Some(a)) && {
            &&& events[1] matches EventView::Replied(reply) && reply_usable(reply)
            &&& events[2] matches EventView::DecodedCMC(Some(b)) && p == (a + b) / 2
        },
{
    lemma_run_len(FetchStage::DecodingCC, events);
    let stage = FetchStage::DecodingCC;
    let (next, action) = transition(stage, events[0]);
    let rest = events.drop_first();
    assert(run(stage, events).1 =~= seq![action] + run(next, rest).1);
    assert(i > 0);
    assert(run(stage, events).1[i] == run(next, rest).1[i - 1]);
    if next == FetchStage::Done {
        lemma_no_submission_after(next, rest, i - 1, p);
    } else {
        let a = next->AwaitingReplyCMC_cc_price;
        lemma_submission_from_reply_cmc(a, rest, i - 1, p);
        assert(rest[0] == events[1]);
        assert(rest[1] == events[2]);
    }
}

proof fn lemma_submission_from_reply_cc(events: Seq<EventView>, i: int, p: u32)
    requires
        0 <= i < run(FetchStage::AwaitingReplyCC, events).1.len(),
        run(FetchStage::AwaitingReplyCC, events).1[i] == ActionView::SubmitPrice(p),
    ensures
        i < events.len(),
        i == 3,
        events[0] matches EventView::Replied(reply) && reply_usable(reply),
        events[1] matches EventView::DecodedCC(Some(a)) && {
            &&& events[2] matches EventView::Replied(reply) && reply_usable(reply)
            &&& events[3] matches EventView::DecodedCMC(Some(b)) && p == (a + b) / 2
        },
{
    lemma_run_len(FetchStage::AwaitingReplyCC, events);
    let stage = FetchStage::AwaitingReplyCC;
    let (next, action) = transition(stage, events[0]);
    let rest = events.drop_first();
    assert(run(stage, events).1 =~= seq![action] + run(next, rest).1);
    assert(i > 0);
    assert(run(stage, events).1[i] == run(next, rest).1[i - 1]);
    if next == FetchStage::Done {
        lemma_no_submission_after(next, rest, i - 1, p);
    } else {
        lemma_submission_from_decoding_cc(rest, i - 1, p);
        assert(rest[0] == events[1]);
        assert(rest[1] == events[2]);
        assert(rest[2] == events[3]);
    }
}

/// A run from the start asks for a submission only as its fifth action,
/// and only after the signer check passed, both services replied with
/// status 200 and a UTF-8 body, and both bodies decoded; the price it
/// submits is the average, rounded down, of the two quotes.
pub proof fn lemma_submission_needs_both_quotes(events: Seq<EventView>, i: int, p: u32)
    requires
        0 <= i < run(FetchStage::CheckingSigner, events).1.len(),
        run(FetchStage::CheckingSigner, events).1[i] == ActionView::SubmitPrice(p),
    ensures
        i < events.len(),
        i == 4,
        events[0] == EventView::SignerChecked(true),
        events[1] matches EventView::Replied(reply) && reply_usable(reply),
        events[2] matches EventView::DecodedCC(Some(a)) && {
            &&& events[3] matches EventView::Replied(reply) && reply_usable(reply)
            &&& events[4] matches EventView::DecodedCMC(Some(b)) && p == (a + b) / 2
        },
{
    lemma_run_len(FetchStage::CheckingSigner, events);
    let stage = FetchStage::CheckingSigner;
    let (next, action) = transition(stage, events[0]);
    let rest = events.drop_first();
    assert(run(stage, events).1 =~= seq![action] + run(next, rest).1);
    assert(i > 0);
    assert(run(stage, events).1[i] == run(next, rest).1[i - 1]);
    if next == FetchStage::Done {
        lemma_no_submission_after(next, rest, i - 1, p);
    } else {
        lemma_submission_from_reply_cc(rest, i - 1, p);
        assert(rest[0] == events[1]);
        assert(rest[1] == events[2]);
        assert(rest[2] == events[3]);
        assert(rest[3] == events[4]);
    }
}

impl FetchStage {
    /// The start of a run: check for a signing account.
    pub fn start() -> (res: (FetchStage, WorkerAction))
        ensures
            res.0 == FetchStage::CheckingSigner,
            res.1@ == ActionView::CheckSigner,
    {
        (FetchStage::CheckingSigner, WorkerAction::CheckSigner)
    }

    /// Whether this stage takes `event`.
    pub fn accepts(&self, event: &WorkerEvent) -> (res: bool)
        ensures
            res == accepts(*self, event@),
    {
        match (self, event) {
            (FetchStage::CheckingSigner, WorkerEvent::SignerChecked(_)) => true,
            (FetchStage::AwaitingReplyCC, WorkerEvent::Replied(_)) => true,
            (FetchStage::DecodingCC, WorkerEvent::DecodedCC(_)) => true,
            (FetchStage::AwaitingReplyCMC { .. }, WorkerEvent::Replied(_)) => true,
            (FetchStage::DecodingCMC { cc_price }, WorkerEvent::DecodedCMC(decoded)) =>
                match decoded {
                    Some(info) => info.price() <= u32::MAX - *cc_price,
                    None => true,
                },
            (FetchStage::Submitting { .. }, WorkerEvent::Submitted) => true,
            _ => false,
        }
    }

    /// The next stage and action after this stage takes `event`.
    pub fn step(self, event: WorkerEvent) -> (res: (FetchStage, WorkerAction))
        requires
            accepts(self, event@),
        ensures
            (res.0, res.1@) == transition(self, event@),
    {
        match (self, event) {
            (FetchStage::CheckingSigner, WorkerEvent::SignerChecked(can_sign)) => {
                if can_sign {
                    (FetchStage::AwaitingReplyCC, WorkerAction::HttpGet(ChannelType::ChannelTypeCC))
                } else {
                    (FetchStage::Done, WorkerAction::Finish(Err(FetchError::NoLocalAccounts)))
                }
            },
            (FetchStage::AwaitingReplyCC, WorkerEvent::Replied(reply)) => {
                match accept_reply(ChannelType::ChannelTypeCC, reply) {
                    Ok(body) => match check_body_text(ChannelType::ChannelTypeCC, body.as_slice()) {
                        Ok(()) => (FetchStage::DecodingCC, WorkerAction::DecodeBody(ChannelType::ChannelTypeCC, body)),
                        Err(_) => (FetchStage::Done, WorkerAction::Finish(Err(FetchError::FetchFailedCC))),
                    },
                    Err(_) => (FetchStage::Done, WorkerAction::Finish(Err(FetchError::FetchFailedCC))),
                }
            },
            (FetchStage::DecodingCC, WorkerEvent::DecodedCC(decoded)) => {
                match price_from_cryptocompare(decoded) {
                    Ok(p) => (FetchStage::AwaitingReplyCMC { cc_price: p }, WorkerAction::HttpGet(ChannelType::ChannelTypeCMC)),
                    Err(_) => (FetchStage::Done, WorkerAction::Finish(Err(FetchError::FetchFailedCC))),
                }
            },
            (FetchStage::AwaitingReplyCMC { cc_price }, WorkerEvent::Replied(reply)) => {
                match accept_reply(ChannelType::ChannelTypeCMC, reply) {
                    Ok(body) => match check_body_text(ChannelType::ChannelTypeCMC, body.as_slice()) {
                        Ok(()) => (FetchStage::DecodingCMC { cc_price }, WorkerAction::DecodeBody(ChannelType::ChannelTypeCMC, body)),
                        Err(_) => (FetchStage::Done, WorkerAction::Finish(Err(FetchError::FetchFailedCMC))),
                    },
                    Err(_) => (FetchStage::Done, WorkerAction::Finish(Err(FetchError::FetchFailedCMC))),
                }
            },
            (FetchStage::DecodingCMC { cc_price }, WorkerEvent::DecodedCMC(decoded)) => {
                match price_from_coinmarketcap(decoded) {
                    Ok(p) => {
                        let price = average_price(cc_price, p);
                        (FetchStage::Submitting { price }, WorkerAction::SubmitPrice(price))
                    },
                    Err(_) => (FetchStage::Done, WorkerAction::Finish(Err(FetchError::FetchFailedCMC))),
                }
            },
            (FetchStage::Submitting { .. }, WorkerEvent::Submitted) => {
                (FetchStage::Done, WorkerAction::Finish(Ok(())))
            },
            // ruled out by `accepts`
            (stage, _) => (stage, WorkerAction::Finish(Ok(()))),
        }
    }
}

} // verus!
