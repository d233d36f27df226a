//! On-chain part of the price pallet: its storage, its events and the
//! dispatchable call that appends a price.

use vstd::prelude::*;

verus! {

/// Identifies an account on chain.
pub type AccountId = u64;

/// Who sent a call.
#[derive(Clone, Copy, Debug, PartialEq, Eq, Structural)]
pub enum Origin {
    /// A transaction signed by this account.
    Signed(AccountId),
    /// The root origin.
    Root,
    /// An unsigned transaction or an inherent (no signer).
    Unsigned,
}

/// Why a dispatchable call was refused.
#[derive(Clone, Copy, Debug, PartialEq, Eq, Structural)]
pub enum DispatchError {
    /// The call needed a signed origin and did not get one.
    BadOrigin,
}

/// The account that signed `origin`, if it was signed.
pub open spec fn signer_of(origin: Origin) -> Option<AccountId> {
    match origin {
        Origin::Signed(who) => Some(who),
        _ => None,
    }
}

/// Exactly a signed origin has a signer, the account that signed it.
pub proof fn lemma_signer_of(origin: Origin, who: AccountId)
    ensures
        signer_of(Origin::Signed(who)) == Some(who),
        signer_of(Origin::Root) is None,
        signer_of(Origin::Unsigned) is None,
        signer_of(origin) is Some <==> origin is Signed,
{
}

/// The signer of `origin`; a call from any other origin is refused with
/// `BadOrigin`.
pub fn ensure_signed(origin: Origin) -> (res: Result<AccountId, DispatchError>)
    ensures
        res == (match signer_of(origin) {
            Some(who) => Ok(who),
            None => Err(DispatchError::BadOrigin),
        }),
{
    match origin {
        Origin::Signed(who) => Ok(who),
        _ => Err(DispatchError::BadOrigin),
    }
}

/// The pallet's own errors: fetching or reading a price from a remote
/// service failed.
#[derive(Clone, Copy, Debug, PartialEq, Eq, Structural)]
pub enum Error {
    /// The CryptoCompare request or its reply failed.
    HttpFetching01Error,
    /// The CoinMarketCap request or its reply failed.
    HttpFetching02Error,
}

/// The events that the pallet deposits.
#[derive(Clone, Copy, Debug, PartialEq, Eq, Structural)]
pub enum Event {
    /// A new price, in USD cents, was stored; the account submitted it.
    NewPrice(u32, AccountId),
}

/// The pallet's state: the `Prices` storage value and the events that it
/// has deposited, oldest first.
pub struct Module {
    prices: Vec<u32>,
    events: Vec<Event>,
}

impl Module {
    /// The stored prices, oldest first.
    pub closed spec fn spec_prices(&self) -> Seq<u32> {
        self.prices@
    }

    /// The deposited events, oldest first.
    pub closed spec fn spec_events(&self) -> Seq<Event> {
        self.events@
    }

    /// The pallet with empty storage, as at genesis.
    pub fn new() -> (m: Self)
        ensures
            m.spec_prices() == Seq::<u32>::empty(),
            m.spec_events() == Seq::<Event>::empty(),
    {
        Module { prices: Vec::new(), events: Vec::new() }
    }

    /// Appends `price` to the stored prices and deposits
    /// `Event::NewPrice(price, who)`.
    pub fn add_price(&mut self, who: AccountId, price: u32)
        ensures
            final(self).spec_prices() == old(self).spec_prices().push(price),
            final(self).spec_events() == old(self).spec_events().push(Event::NewPrice(price, who)),
    {
        self.prices.push(price);
        self.events.push(Event::NewPrice(price, who));
    }

    /// The dispatchable call: a signed transaction stores `price` under its
    /// signer, as `add_price` does; from any other origin the call is
    /// refused with `BadOrigin` and nothing changes.
    pub fn submit_price_signed(&mut self, origin: Origin, price: u32) -> (res: Result<(), DispatchError>)
        ensures
            res is Ok <==> signer_of(origin) is Some,
            signer_of(origin) matches Some(who) ==> {
                &&& final(self).spec_prices() == old(self).spec_prices().push(price)
                &&& final(self).spec_events() == old(self).spec_events().push(Event::NewPrice(price, who))
            },
            signer_of(origin) is None ==> {
                &&& res == Err::<(), DispatchError>(DispatchError::BadOrigin)
                &&& final(self).spec_prices() == old(self).spec_prices()
                &&& final(self).spec_events() == old(self).spec_events()
            },
    {
        let who = ensure_signed(origin)?;
        self.add_price(who, price);
        Ok(())
    }

    /// The `Prices` storage value: every stored price, oldest first.
    pub fn prices(&self) -> (res: &Vec<u32>)
        ensures
            res@ == self.spec_prices(),
    {
        &self.prices
    }

    /// The deposited events, oldest first.
    pub fn events(&self) -> (res: &Vec<Event>)
        ensures
            res@ == self.spec_events(),
    {
        &self.events
    }
}

} // verus!
