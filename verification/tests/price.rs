use pallet_template::offchain::accept_reply;
use pallet_template::offchain::average_price;
use pallet_template::offchain::check_body_text;
use pallet_template::offchain::fetch_error;
use pallet_template::offchain::price_from_coinmarketcap;
use pallet_template::offchain::price_from_cryptocompare;
use pallet_template::offchain::remote_headers;
use pallet_template::offchain::remote_url;
use pallet_template::offchain::request_deadline;
use pallet_template::offchain::ChannelType;
use pallet_template::offchain::HttpReply;
use pallet_template::offchain::REQUEST_TIMEOUT_MS;
use pallet_template::pallet::ensure_signed;
use pallet_template::pallet::DispatchError;
use pallet_template::pallet::Error;
use pallet_template::pallet::Event;
use pallet_template::pallet::Module;
use pallet_template::pallet::Origin;
use pallet_template::response::de_string_to_bytes;
use pallet_template::response::Data;
use pallet_template::response::ETHPriceInfo01CC;
use pallet_template::response::ETHPriceInfo02CMC;
use pallet_template::response::Quote;
use pallet_template::response::Status;
use pallet_template::response::ETH;
use pallet_template::response::USD;

fn cmc_info(price: u32) -> ETHPriceInfo02CMC {
    ETHPriceInfo02CMC {
        status: Status { timestamp: b"2020-07-01T00:00:00.000Z".to_vec(), error_code: 0 },
        data: Data { eth: ETH { quote: Quote { usd: USD { price } } } },
    }
}

#[test]
fn add_price_appends_and_deposits_event() {
    let mut m = Module::new();
    m.add_price(5, 23_412);
    m.add_price(6, 23_500);
    assert_eq!(m.prices(), &vec![23_412, 23_500]);
    assert_eq!(m.events(), &vec![Event::NewPrice(23_412, 5), Event::NewPrice(23_500, 6)]);
}

#[test]
fn submit_price_signed_stores_price() {
    let mut m = Module::new();
    assert_eq!(m.submit_price_signed(Origin::Signed(42), 38_129), Ok(()));
    assert_eq!(m.prices(), &vec![38_129]);
    assert_eq!(m.events(), &vec![Event::NewPrice(38_129, 42)]);
}

#[test]
fn submit_price_unsigned_refused() {
    let mut m = Module::new();
    assert_eq!(m.submit_price_signed(Origin::Unsigned, 1), Err(DispatchError::BadOrigin));
    assert_eq!(m.submit_price_signed(Origin::Root, 2), Err(DispatchError::BadOrigin));
    assert!(m.prices().is_empty());
    assert!(m.events().is_empty());
}

#[test]
fn ensure_signed_gives_signer() {
    assert_eq!(ensure_signed(Origin::Signed(9)), Ok(9));
    assert_eq!(ensure_signed(Origin::Root), Err(DispatchError::BadOrigin));
}

#[test]
fn offchain_worker_runs_every_tenth_block() {
    assert!(Module::offchain_worker(0));
    assert!(Module::offchain_worker(10));
    assert!(Module::offchain_worker(2_147_483_640));
    assert!(!Module::offchain_worker(1));
    assert!(!Module::offchain_worker(19));
    assert!(!Module::offchain_worker(2_147_483_647));
}

#[test]
fn request_descriptions() {
    assert_eq!(
        remote_url(ChannelType::ChannelTypeCC),
        "https://min-api.cryptocompare.com/data/price?fsym=eth&tsyms=USD"
    );
    assert_eq!(
        remote_url(ChannelType::ChannelTypeCMC),
        "https://pro-api.coinmarketcap.com/v1/cryptocurrency/quotes/latest?symbol=ETH"
    );
    assert!(remote_headers(ChannelType::ChannelTypeCC).is_empty());
    assert_eq!(
        remote_headers(ChannelType::ChannelTypeCMC),
        vec![("X-CMC_PRO_API_KEY", "6d479e2a-cd6d-489a-9697-b69f31ac5830")]
    );
    assert_eq!(REQUEST_TIMEOUT_MS, 10_000);
    assert_eq!(request_deadline(1_000), 11_000);
    assert_eq!(request_deadline(u64::MAX - 5), u64::MAX);
}

#[test]
fn fetch_errors_by_channel() {
    assert_eq!(fetch_error(ChannelType::ChannelTypeCC), Error::HttpFetching01Error);
    assert_eq!(fetch_error(ChannelType::ChannelTypeCMC), Error::HttpFetching02Error);
}

#[test]
fn accept_reply_cases() {
    let body = br#"{"USD":381.29}"#.to_vec();
    assert_eq!(
        accept_reply(ChannelType::ChannelTypeCC, HttpReply::Received { code: 200, body: body.clone() }),
        Ok(body.clone())
    );
    assert_eq!(
        accept_reply(ChannelType::ChannelTypeCC, HttpReply::Received { code: 404, body: body.clone() }),
        Err(Error::HttpFetching01Error)
    );
    assert_eq!(
        accept_reply(ChannelType::ChannelTypeCMC, HttpReply::Failed),
        Err(Error::HttpFetching02Error)
    );
    // the fetch hands on any body of a status-200 reply, text or not
    let bytes = vec![0xFFu8, 0x00];
    assert_eq!(
        accept_reply(ChannelType::ChannelTypeCMC, HttpReply::Received { code: 200, body: bytes.clone() }),
        Ok(bytes)
    );
    let multibyte = "€ 1".as_bytes().to_vec();
    assert_eq!(
        accept_reply(ChannelType::ChannelTypeCC, HttpReply::Received { code: 200, body: multibyte.clone() }),
        Ok(multibyte)
    );
}

#[test]
fn prices_from_decoded_replies() {
    assert_eq!(price_from_cryptocompare(Some(ETHPriceInfo01CC { usd: 38_129 })), Ok(38_129));
    assert_eq!(price_from_cryptocompare(None), Err(Error::HttpFetching01Error));
    assert_eq!(price_from_coinmarketcap(Some(cmc_info(38_200))), Ok(38_200));
    assert_eq!(price_from_coinmarketcap(None), Err(Error::HttpFetching02Error));
    assert_eq!(ETHPriceInfo01CC { usd: 7 }.price(), 7);
    assert_eq!(cmc_info(8).price(), 8);
}

#[test]
fn average_rounds_down() {
    assert_eq!(average_price(38_129, 38_200), 38_164);
    assert_eq!(average_price(3, 4), 3);
    assert_eq!(average_price(0, 0), 0);
    assert_eq!(average_price(u32::MAX - 1, 1), u32::MAX / 2);
}

#[test]
fn string_field_bytes() {
    assert_eq!(de_string_to_bytes("2020-07-01"), b"2020-07-01".to_vec());
    assert_eq!(de_string_to_bytes("é"), vec![0xC3, 0xA9]);
    assert_eq!(de_string_to_bytes(""), Vec::<u8>::new());
}

#[test]
fn body_text_check() {
    assert_eq!(check_body_text(ChannelType::ChannelTypeCC, b"{\"USD\":1}"), Ok(()));
    assert_eq!(check_body_text(ChannelType::ChannelTypeCMC, "€".as_bytes()), Ok(()));
    assert_eq!(check_body_text(ChannelType::ChannelTypeCC, b""), Ok(()));
    // not UTF-8: a lone continuation byte, an overlong encoding, a surrogate
    for bad in [vec![0x80u8], vec![0xC0u8, 0xAF], vec![0xEDu8, 0xA0, 0x80]] {
        assert_eq!(check_body_text(ChannelType::ChannelTypeCC, &bad), Err(Error::HttpFetching01Error));
        assert_eq!(check_body_text(ChannelType::ChannelTypeCMC, &bad), Err(Error::HttpFetching02Error));
    }
}
