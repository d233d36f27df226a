use pallet_template::offchain::accept_reply;
use pallet_template::offchain::check_body_text;
use pallet_template::offchain::ChannelType;
use pallet_template::offchain::HttpReply;
use pallet_template::response::Data;
use pallet_template::response::ETHPriceInfo01CC;
use pallet_template::response::ETHPriceInfo02CMC;
use pallet_template::response::Quote;
use pallet_template::response::Status;
use pallet_template::response::ETH;
use pallet_template::response::USD;
use pallet_template::worker::FetchError;
use pallet_template::worker::FetchStage;
use pallet_template::worker::WorkerAction;
use pallet_template::worker::WorkerEvent;

fn cmc_info(price: u32) -> ETHPriceInfo02CMC {
    ETHPriceInfo02CMC {
        status: Status { timestamp: b"2020-07-01T00:00:00.000Z".to_vec(), error_code: 0 },
        data: Data { eth: ETH { quote: Quote { usd: USD { price } } } },
    }
}

fn ok(body: &[u8]) -> WorkerEvent {
    WorkerEvent::Replied(HttpReply::Received { code: 200, body: body.to_vec() })
}

fn is_finish(a: &WorkerAction, expected: Result<(), FetchError>) -> bool {
    matches!(a, WorkerAction::Finish(r) if *r == expected)
}

#[test]
fn complete_run_submits_average() {
    let (stage, action) = FetchStage::start();
    assert_eq!(stage, FetchStage::CheckingSigner);
    assert!(matches!(action, WorkerAction::CheckSigner));
    let (stage, action) = stage.step(WorkerEvent::SignerChecked(true));
    assert!(matches!(action, WorkerAction::HttpGet(ChannelType::ChannelTypeCC)));
    let (stage, action) = stage.step(ok(b"{\"USD\":381.29}"));
    assert_eq!(stage, FetchStage::DecodingCC);
    match action {
        WorkerAction::DecodeBody(ChannelType::ChannelTypeCC, body) => assert_eq!(body, b"{\"USD\":381.29}".to_vec()),
        other => panic!("unexpected {:?}", other),
    }
    let (stage, action) = stage.step(WorkerEvent::DecodedCC(Some(ETHPriceInfo01CC { usd: 38_129 })));
    assert_eq!(stage, FetchStage::AwaitingReplyCMC { cc_price: 38_129 });
    assert!(matches!(action, WorkerAction::HttpGet(ChannelType::ChannelTypeCMC)));
    let (stage, action) = stage.step(ok(b"{}"));
    assert!(matches!(action, WorkerAction::DecodeBody(ChannelType::ChannelTypeCMC, _)));
    let (stage, action) = stage.step(WorkerEvent::DecodedCMC(Some(cmc_info(38_200))));
    assert_eq!(stage, FetchStage::Submitting { price: 38_164 });
    assert!(matches!(action, WorkerAction::SubmitPrice(38_164)));
    let (stage, action) = stage.step(WorkerEvent::Submitted);
    assert_eq!(stage, FetchStage::Done);
    assert!(is_finish(&action, Ok(())));
}

#[test]
fn no_signer_ends_run() {
    let (stage, _) = FetchStage::start();
    let (stage, action) = stage.step(WorkerEvent::SignerChecked(false));
    assert_eq!(stage, FetchStage::Done);
    assert!(is_finish(&action, Err(FetchError::NoLocalAccounts)));
    assert_eq!(
        FetchError::NoLocalAccounts.message(),
        "No local accounts available. Consider adding one via `author_insertKey` RPC."
    );
}

#[test]
fn cryptocompare_failures_end_run() {
    for reply in [
        HttpReply::Failed,
        HttpReply::Received { code: 500, body: b"{}".to_vec() },
        HttpReply::Received { code: 200, body: vec![0xFF] },
    ] {
        let (stage, action) = FetchStage::AwaitingReplyCC.step(WorkerEvent::Replied(reply));
        assert_eq!(stage, FetchStage::Done);
        assert!(is_finish(&action, Err(FetchError::FetchFailedCC)));
    }
    let (stage, action) = FetchStage::DecodingCC.step(WorkerEvent::DecodedCC(None));
    assert_eq!(stage, FetchStage::Done);
    assert!(is_finish(&action, Err(FetchError::FetchFailedCC)));
    assert_eq!(FetchError::FetchFailedCC.message(), "Failed to fetch eth price from CC");
}

#[test]
fn coinmarketcap_failures_end_run() {
    let (stage, action) = FetchStage::AwaitingReplyCMC { cc_price: 1 }.step(WorkerEvent::Replied(HttpReply::Failed));
    assert_eq!(stage, FetchStage::Done);
    assert!(is_finish(&action, Err(FetchError::FetchFailedCMC)));
    let (stage, action) = FetchStage::DecodingCMC { cc_price: 1 }.step(WorkerEvent::DecodedCMC(None));
    assert_eq!(stage, FetchStage::Done);
    assert!(is_finish(&action, Err(FetchError::FetchFailedCMC)));
    assert_eq!(FetchError::FetchFailedCMC.message(), "Failed to fetch eth price from CMC");
}

#[test]
fn accepts_only_matching_events() {
    assert!(FetchStage::CheckingSigner.accepts(&WorkerEvent::SignerChecked(true)));
    assert!(!FetchStage::CheckingSigner.accepts(&WorkerEvent::Submitted));
    assert!(!FetchStage::Done.accepts(&WorkerEvent::Submitted));
    assert!(FetchStage::DecodingCMC { cc_price: 10 }.accepts(&WorkerEvent::DecodedCMC(Some(cmc_info(20)))));
    assert!(!FetchStage::DecodingCMC { cc_price: u32::MAX }.accepts(&WorkerEvent::DecodedCMC(Some(cmc_info(1)))));
    assert!(FetchStage::DecodingCMC { cc_price: u32::MAX }.accepts(&WorkerEvent::DecodedCMC(None)));
}

#[test]
fn non_text_body_passes_fetch_and_fails_parse() {
    let body = vec![0xFFu8, 0xFE];
    // the fetch step keeps the reply
    let fetched = accept_reply(ChannelType::ChannelTypeCC, HttpReply::Received { code: 200, body: body.clone() });
    assert_eq!(fetched, Ok(body.clone()));
    // reading it as text fails
    assert!(check_body_text(ChannelType::ChannelTypeCC, &body).is_err());
    // so the run ends there, before any decode is asked for
    let (stage, action) = FetchStage::AwaitingReplyCC
        .step(WorkerEvent::Replied(HttpReply::Received { code: 200, body: body.clone() }));
    assert_eq!(stage, FetchStage::Done);
    assert!(is_finish(&action, Err(FetchError::FetchFailedCC)));
    let (stage, action) = FetchStage::AwaitingReplyCMC { cc_price: 5 }
        .step(WorkerEvent::Replied(HttpReply::Received { code: 200, body }));
    assert_eq!(stage, FetchStage::Done);
    assert!(is_finish(&action, Err(FetchError::FetchFailedCMC)));
}
