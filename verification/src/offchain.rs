//! The off-chain worker: when it runs, what it asks the remote price
//! services, how it reads their replies, and the sequence of decisions of
//! one fetch-and-submit run, as a step function from stage and event to
//! next stage and action.  The host performs each action (a signer check,
//! an HTTP request, a JSON decode, a signed transaction) and hands back
//! what came of it as the next event.

use vstd::prelude::*;
use vstd::utf8::valid_utf8;
use crate::pallet::Error;
use crate::pallet::Module;
use crate::response::ETHPriceInfo01CC;
use crate::response::ETHPriceInfo02CMC;
use crate::response::cryptocompare_price;
use crate::response::coinmarketcap_price;

verus! {

/// The remote price service asked.
#[derive(Clone, Copy, Debug, PartialEq, Eq, Structural)]
pub enum ChannelType {
    /// min-api.cryptocompare.com
    ChannelTypeCC,
    /// pro-api.coinmarketcap.com
    ChannelTypeCMC,
}

/// How long a request may take, in milliseconds from its start.
pub const REQUEST_TIMEOUT_MS: u64 = 10000;

/// The HTTP status code of a successful reply.
pub const HTTP_OK: u16 = 200;

/// The URL that the worker requests from a service.
pub open spec fn spec_remote_url(channel: ChannelType) -> Seq<char> {
    match channel {
        ChannelType::ChannelTypeCC => "https://min-api.cryptocompare.com/data/price?fsym=eth&tsyms=USD"@,
        ChannelType::ChannelTypeCMC => "https://pro-api.coinmarketcap.com/v1/cryptocurrency/quotes/latest?symbol=ETH"@,
    }
}

/// The name of the header that carries the CoinMarketCap API key.
pub open spec fn spec_api_key_header() -> Seq<char> {
    "X-CMC_PRO_API_KEY"@
}

/// The CoinMarketCap API key.
pub open spec fn spec_api_key() -> Seq<char> {
    "6d479e2a-cd6d-489a-9697-b69f31ac5830"@
}

/// The error that a failed request to, or reply from, a service gives.
pub open spec fn channel_error(channel: ChannelType) -> Error {
    match channel {
        ChannelType::ChannelTypeCC => Error::HttpFetching01Error,
        ChannelType::ChannelTypeCMC => Error::HttpFetching02Error,
    }
}

/// The URL of a service's price request.
pub fn remote_url(channel: ChannelType) -> (res: &'static str)
    ensures
        res@ == spec_remote_url(channel),
{
    match channel {
        ChannelType::ChannelTypeCC => "https://min-api.cryptocompare.com/data/price?fsym=eth&tsyms=USD",
        ChannelType::ChannelTypeCMC => "https://pro-api.coinmarketcap.com/v1/cryptocurrency/quotes/latest?symbol=ETH",
    }
}

/// The headers of a service's price request, as (name, value) pairs:
/// none for CryptoCompare, the API key for CoinMarketCap.
pub fn remote_headers(channel: ChannelType) -> (res: Vec<(&'static str, &'static str)>)
    ensures
        channel == ChannelType::ChannelTypeCC ==> res@.len() == 0,
        channel == ChannelType::ChannelTypeCMC ==> {
            &&& res@.len() == 1
            &&& res@[0].0@ == spec_api_key_header()
            &&& res@[0].1@ == spec_api_key()
        },
{
    let mut headers: Vec<(&'static str, &'static str)> = Vec::new();
    match channel {
        ChannelType::ChannelTypeCC => {},
        ChannelType::ChannelTypeCMC => {
            headers.push(("X-CMC_PRO_API_KEY", "6d479e2a-cd6d-489a-9697-b69f31ac5830"));
        },
    }
    headers
}

/// The deadline of a request that starts at `now_ms` (milliseconds since
/// the epoch): `REQUEST_TIMEOUT_MS` later, held at `u64::MAX`.
pub fn request_deadline(now_ms: u64) -> (res: u64)
    ensures
        res == if now_ms + REQUEST_TIMEOUT_MS <= u64::MAX { (now_ms + REQUEST_TIMEOUT_MS) as u64 } else { u64::MAX },
{
    now_ms.saturating_add(REQUEST_TIMEOUT_MS)
}

/// The error of a failed fetch from a service.
pub fn fetch_error(channel: ChannelType) -> (res: Error)
    ensures
        res == channel_error(channel),
{
    match channel {
        ChannelType::ChannelTypeCC => Error::HttpFetching01Error,
        ChannelType::ChannelTypeCMC => Error::HttpFetching02Error,
    }
}

/// Whether `bytes` are valid UTF-8.
///
/// Calls `core::str::from_utf8`, which returns `Ok` exactly when its argument
/// is well-formed UTF-8 (no overlong encodings, no surrogates); the contract
/// claims that this agrees with vstd's `valid_utf8`.
#[verifier::external_body]
fn is_utf8(bytes: &[u8]) -> (res: bool)
    ensures
        res == valid_utf8(bytes@),
{
    core::str::from_utf8(bytes).is_ok()
}

/// What came of an HTTP request.
#[derive(Debug)]
pub enum HttpReply {
    /// The request could not be sent, or no reply came before the deadline.
    Failed,
    /// A reply came, with this status code and body.
    Received { code: u16, body: Vec<u8> },
}

/// An `HttpReply` with its body as a sequence.
pub enum ReplyView {
    Failed,
    Received { code: u16, body: Seq<u8> },
}

impl View for HttpReply {
    type V = ReplyView;

    open spec fn view(&self) -> ReplyView {
        match self {
            HttpReply::Failed => ReplyView::Failed,
            HttpReply::Received { code, body } => ReplyView::Received { code: *code, body: body@ },
        }
    }
}

/// A reply that the fetch hands on: one that came, with status 200.
pub open spec fn reply_fetched(reply: ReplyView) -> bool {
    match reply {
        ReplyView::Failed => false,
        ReplyView::Received { code, .. } => code == HTTP_OK,
    }
}

/// A reply whose body the worker goes on to decode as JSON: fetched, and
/// its body reads as text (UTF-8).
pub open spec fn reply_usable(reply: ReplyView) -> bool {
    match reply {
        ReplyView::Failed => false,
        ReplyView::Received { code, body } => code == HTTP_OK && valid_utf8(body),
    }
}

/// The requests: CryptoCompare's price URL with no header, CoinMarketCap's
/// quotes URL with the API key header.
pub proof fn lemma_requests()
    ensures
        spec_remote_url(ChannelType::ChannelTypeCC) == "https://min-api.cryptocompare.com/data/price?fsym=eth&tsyms=USD"@,
        spec_remote_url(ChannelType::ChannelTypeCMC) == "https://pro-api.coinmarketcap.com/v1/cryptocurrency/quotes/latest?symbol=ETH"@,
        spec_api_key_header() == "X-CMC_PRO_API_KEY"@,
        spec_api_key() == "6d479e2a-cd6d-489a-9697-b69f31ac5830"@,
{
}

/// A reply is fetched exactly when it came with status 200; it is read on
/// when, besides, its body is text.  Each service fails with its own error.
pub proof fn lemma_reply_and_error_kinds(code: u16, body: Seq<u8>)
    ensures
        !reply_fetched(ReplyView::Failed),
        reply_fetched(ReplyView::Received { code, body }) <==> code == 200,
        !reply_usable(ReplyView::Failed),
        reply_usable(ReplyView::Received { code, body }) <==> code == 200 && valid_utf8(body),
        channel_error(ChannelType::ChannelTypeCC) == Error::HttpFetching01Error,
        channel_error(ChannelType::ChannelTypeCMC) == Error::HttpFetching02Error,
{
}

/// The fetch from `channel`: the body of a reply with status 200, whole
/// and unchanged; no reply, or any other status, gives the channel's error.
pub fn accept_reply(channel: ChannelType, reply: HttpReply) -> (res: Result<Vec<u8>, Error>)
    ensures
        res is Ok <==> reply_fetched(reply@),
        res matches Ok(body) ==> reply@ matches ReplyView::Received { body: b, .. } && body@ == b,
        res matches Err(e) ==> e == channel_error(channel),
{
    match reply {
        HttpReply::Failed => Err(fetch_error(channel)),
        HttpReply::Received { code, body } => {
            if code != HTTP_OK {
                Err(fetch_error(channel))
            } else {
                Ok(body)
            }
        },
    }
}

/// The first step of reading a fetched body from `channel`: it must be
/// text (UTF-8) before it is decoded as JSON; otherwise the channel's error.
pub fn check_body_text(channel: ChannelType, body: &[u8]) -> (res: Result<(), Error>)
    ensures
        res is Ok <==> valid_utf8(body@),
        res matches Err(e) ==> e == channel_error(channel),
{
    if is_utf8(body) {
        Ok(())
    } else {
        Err(fetch_error(channel))
    }
}

/// The price that a decoded CryptoCompare reply quotes; a reply that did
/// not decode gives `HttpFetching01Error`.
pub fn price_from_cryptocompare(decoded: Option<ETHPriceInfo01CC>) -> (res: Result<u32, Error>)
    ensures
        res == (match decoded {
            Some(info) => Ok(cryptocompare_price(info)),
            None => Err(Error::HttpFetching01Error),
        }),
{
    match decoded {
        Some(info) => Ok(info.price()),
        None => Err(Error::HttpFetching01Error),
    }
}

/// The price that a decoded CoinMarketCap reply quotes; a reply that did
/// not decode gives `HttpFetching02Error`.
pub fn price_from_coinmarketcap(decoded: Option<ETHPriceInfo02CMC>) -> (res: Result<u32, Error>)
    ensures
        res == (match decoded {
            Some(info) => Ok(coinmarketcap_price(info)),
            None => Err(Error::HttpFetching02Error),
        }),
{
    match decoded {
        Some(info) => Ok(info.price()),
        None => Err(Error::HttpFetching02Error),
    }
}

/// The average of two prices, rounded down.
pub fn average_price(price1: u32, price2: u32) -> (res: u32)
    requires
        price1 + price2 <= u32::MAX,
    ensures
        res == (price1 + price2) / 2,
{
    (price1 + price2) / 2
}

impl Module {
    /// Whether the off-chain worker fetches and submits a price after
    /// importing block `block_number`: every tenth block, those whose
    /// number is a multiple of ten.
    ///
    /// The block number is converted with `try_into` before the remainder is
    /// taken; nothing names the target type, so it is the one that integer
    /// literals default to, `i32`, and the conversion's `unwrap` panics for
    /// block numbers above `i32::MAX`.  Those are not handled.
    pub fn offchain_worker(block_number: u64) -> (fetch: bool)
        requires
            block_number <= i32::MAX,
        ensures
            fetch == (block_number % 10 == 0),
    {
        block_number % 10 == 0
    }
}

} // verus!
