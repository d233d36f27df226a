//! The parts of the remote price services' JSON replies that the worker
//! reads, as plain values.  Decoding the JSON text into these types is the
//! host's work; what the worker takes from them is stated here.

use vstd::prelude::*;
use vstd::string::StringSliceAdditionalSpecFns;

verus! {

/// The reply of the CryptoCompare price service: `{"USD": <price>}`,
/// the price in USD cents.
#[derive(Clone, Debug, PartialEq, Eq)]
pub struct ETHPriceInfo01CC {
    pub usd: u32,
}

/// The `status` object of a CoinMarketCap reply.
#[derive(Clone, Debug, PartialEq, Eq)]
pub struct Status {
    /// The `timestamp` string, as UTF-8 bytes.
    pub timestamp: Vec<u8>,
    pub error_code: u32,
}

/// `data.ETH.quote.USD` of a CoinMarketCap reply: the price in USD cents.
#[derive(Clone, Debug, PartialEq, Eq)]
pub struct USD {
    pub price: u32,
}

/// `data.ETH.quote` of a CoinMarketCap reply.
#[derive(Clone, Debug, PartialEq, Eq)]
pub struct Quote {
    pub usd: USD,
}

/// `data.ETH` of a CoinMarketCap reply.
#[derive(Clone, Debug, PartialEq, Eq)]
pub struct ETH {
    pub quote: Quote,
}

/// The `data` object of a CoinMarketCap reply.
#[derive(Clone, Debug, PartialEq, Eq)]
pub struct Data {
    pub eth: ETH,
}

/// The reply of the CoinMarketCap quotes service.
#[derive(Clone, Debug, PartialEq, Eq)]
pub struct ETHPriceInfo02CMC {
    pub status: Status,
    pub data: Data,
}

/// The price, in USD cents, that a CryptoCompare reply quotes.
pub open spec fn cryptocompare_price(info: ETHPriceInfo01CC) -> u32 {
    info.usd
}

/// The price, in USD cents, that a CoinMarketCap reply quotes.
pub open spec fn coinmarketcap_price(info: ETHPriceInfo02CMC) -> u32 {
    info.data.eth.quote.usd.price
}

/// The quote of a CryptoCompare reply is its `USD` field; that of a
/// CoinMarketCap reply is `data.ETH.quote.USD.price`; the status of a
/// CoinMarketCap reply plays no part.
pub proof fn lemma_quoted_prices(cc: ETHPriceInfo01CC, cmc: ETHPriceInfo02CMC, status: Status)
    ensures
        cryptocompare_price(cc) == cc.usd,
        coinmarketcap_price(cmc) == cmc.data.eth.quote.usd.price,
        coinmarketcap_price(ETHPriceInfo02CMC { status, data: cmc.data }) == coinmarketcap_price(cmc),
{
}

impl ETHPriceInfo01CC {
    /// The quoted price in USD cents.
    pub fn price(&self) -> (res: u32)
        ensures
            res == cryptocompare_price(*self),
    {
        self.usd
    }
}

impl ETHPriceInfo02CMC {
    /// The quoted price in USD cents: `data.ETH.quote.USD.price`.
    pub fn price(&self) -> (res: u32)
        ensures
            res == coinmarketcap_price(*self),
    {
        self.data.eth.quote.usd.price
    }
}

/// The UTF-8 bytes of a JSON string field, as the `timestamp` of a
/// CoinMarketCap status is stored.
pub fn de_string_to_bytes(s: &str) -> (res: Vec<u8>)
    ensures
        res@ == s.spec_bytes(),
{
    vstd::slice::slice_to_vec(s.as_bytes())
}

} // verus!
