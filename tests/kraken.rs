use kraken_api::client::Transport;
use kraken_api::crypto::{digest_message, mac_message, sign};
use kraken_api::nonce::{nonce_after, push_decimal, signed_decimal_text};
use kraken_api::query::build_query;
use kraken_api::{connect, API_Option, ApiError, Instruction, Kraken_API, Order_Type, Report_Type};
use std::collections::HashMap;

const SECRET: &str =
    "kQH5HW/8p1uGOVjbgWA7FunAmGO8lsSUXNsu3eow76sz84Q18fWxnyRzBHCd3pd5nE9qa99HAZtuZuj6F1huXg==";

const TIME_ANSWER: &str = "{\"error\":[],\"result\":{\"unixtime\":1688669448,\"rfc1123\":\"Thu, 06 Jul 23 18:50:48 +0000\"}}";

#[derive(Default)]
struct Recorder {
    gets: Vec<String>,
    posts: Vec<(String, String, String, String)>,
    fail: bool,
}

impl Transport for Recorder {
    fn get(&mut self, url: &str) -> Result<String, String> {
        self.gets.push(url.to_string());
        if self.fail {
            Err("connection refused".to_string())
        } else {
            Ok(TIME_ANSWER.to_string())
        }
    }

    fn post(&mut self, url: &str, api_key: &str, api_sign: &str, body: &str) -> Result<String, String> {
        self.posts.push((url.to_string(), api_key.to_string(), api_sign.to_string(), body.to_string()));
        if self.fail {
            Err("connection refused".to_string())
        } else {
            Ok("{\"error\":[],\"result\":{}}".to_string())
        }
    }
}

struct Untouchable;

impl Transport for Untouchable {
    fn get(&mut self, _url: &str) -> Result<String, String> {
        panic!("no request may be sent")
    }

    fn post(&mut self, _url: &str, _k: &str, _s: &str, _b: &str) -> Result<String, String> {
        panic!("no request may be sent")
    }
}

fn expected_signature(secret: &str, path: &str, nonce: &str, body: &str) -> String {
    let key = openssl::base64::decode_block(secret).unwrap();
    let pkey = openssl::pkey::PKey::hmac(&key).unwrap();
    let mut signer = openssl::sign::Signer::new(openssl::hash::MessageDigest::sha512(), &pkey).unwrap();
    signer.update(path.as_bytes()).unwrap();
    let digest = openssl::hash::hash(
        openssl::hash::MessageDigest::sha256(),
        (nonce.to_string() + body).as_bytes(),
    )
    .unwrap();
    signer.update(&digest).unwrap();
    openssl::base64::encode_block(&signer.sign_to_vec().unwrap())
}

#[test]
fn server_time() -> Result<(), String> {
    let mut k = Kraken_API::<Recorder>::default();
    let answer = k.server_time()?;
    let v = serde_json::from_str::<serde_json::Value>(&answer).map_err(|e| e.to_string())?;
    let res = v["result"]["rfc1123"].as_str().ok_or("")?;
    assert!(res.len() > 0);
    assert_eq!(k.get_transport().gets, vec!["https://api.kraken.com/0/public/Time".to_string()]);
    Ok(())
}

#[test]
fn query_keeps_only_whitelisted_options_that_are_set() {
    let mut k = connect(String::new(), String::new(), Recorder::default());
    k.set_opt(API_Option::PAIR, "2");
    k.set_opt(API_Option::TXID, "x");
    let q = k.query_string(&[API_Option::ASSET, API_Option::PAIR, API_Option::SINCE]);
    assert_eq!(q, "pair=2");
}

#[test]
fn query_follows_whitelist_order() {
    let mut k = connect(String::new(), String::new(), Recorder::default());
    let wl = [API_Option::PAIR, API_Option::SINCE];
    assert_eq!(k.query_string(&wl), "");
    k.set_opt(API_Option::PAIR, "XXBTZUSD");
    assert_eq!(k.query_string(&wl), "pair=XXBTZUSD");
    k.set_opt(API_Option::SINCE, 1000);
    assert_eq!(k.query_string(&wl), "pair=XXBTZUSD&since=1000");

    let mut other = connect(String::new(), String::new(), Recorder::default());
    other.set_opt(API_Option::SINCE, "1000");
    other.set_opt(API_Option::PAIR, "XXBTZUSD");
    assert_eq!(other.query_string(&wl), "pair=XXBTZUSD&since=1000");
}

#[test]
fn build_query_on_a_bare_registry() {
    let mut reg: HashMap<u64, String> = HashMap::new();
    reg.insert(API_Option::CLOSE_PRICE_1.code(), "10".to_string());
    reg.insert(API_Option::START_TIME.code(), "5".to_string());
    assert_eq!(
        build_query(&reg, &[API_Option::START_TIME, API_Option::CLOSE_PRICE_1, API_Option::END_TIME]),
        "starttm=5&close[price]=10"
    );
    assert_eq!(build_query(&reg, &[]), "");
}

#[test]
fn setting_again_overwrites() {
    let mut k = connect(String::new(), String::new(), Recorder::default());
    k.set_opt(API_Option::ASSET, "usd");
    k.set_opt(API_Option::ASSET, "eur");
    assert_eq!(k.query_string(&[API_Option::ASSET]), "asset=eur");
    k.clear_opt(API_Option::ASSET);
    assert_eq!(k.query_string(&[API_Option::ASSET]), "");
}

#[test]
fn reset_then_set_leaves_exactly_the_new_options() {
    let mut k = connect(String::new(), String::new(), Recorder::default());
    k.set_opt(API_Option::ASSET, "usd");
    k.set_opt(API_Option::PAIR, "XETHXXBT");
    k.set_opt(API_Option::OFS, 50);
    k.clear_all_options();
    k.set_opt(API_Option::PAIR, "XXBTZUSD");
    k.set_opt(API_Option::COUNT, 10);
    let all = [API_Option::ASSET, API_Option::PAIR, API_Option::OFS, API_Option::COUNT];
    assert_eq!(k.query_string(&all), "pair=XXBTZUSD&count=10");
}

#[test]
fn private_body_with_empty_query_holds_only_the_nonce() {
    let k = connect("key".to_string(), SECRET.to_string(), Untouchable);
    let req = k.private_request("Balance", &[], 1700000000000000).ok().unwrap();
    assert_eq!(req.body, "nonce=1700000000000000");
    assert_eq!(req.url, "https://api.kraken.com/0/private/Balance");
    assert_eq!(req.api_key, "key");
    assert_eq!(
        req.api_sign,
        expected_signature(SECRET, "/0/private/Balance", "1700000000000000", "nonce=1700000000000000")
    );
}

#[test]
fn private_body_appends_the_nonce_to_the_query() {
    let mut k = connect("key".to_string(), SECRET.to_string(), Untouchable);
    k.set_opt(API_Option::ASSET, "ZUSD");
    let req = k.private_request("TradeBalance", &[API_Option::ASSET], 42).ok().unwrap();
    assert_eq!(req.body, "asset=ZUSD&nonce=42");
}

#[test]
fn signature_matches_the_published_example() {
    let body = "nonce=1616492376594&ordertype=limit&pair=XBTUSD&price=37500&type=buy&volume=1.25";
    let sig = sign(SECRET, "/0/private/AddOrder", "1616492376594", body).ok().unwrap();
    assert_eq!(sig, expected_signature(SECRET, "/0/private/AddOrder", "1616492376594", body));
    assert_eq!(
        sig,
        "4/dpxb3iT4tp/ZCVEwSnEsLxx0bqyhLpdfOpc6fn7OR8+UClSV5n9E6aSS8MPtnRfp32bAb0nmbRn6H8ndwLUQ=="
    );
}

#[test]
fn signature_is_deterministic_and_depends_on_nonce_and_body() {
    let a = sign(SECRET, "/0/private/Balance", "1", "nonce=1").ok().unwrap();
    let b = sign(SECRET, "/0/private/Balance", "1", "nonce=1").ok().unwrap();
    let c = sign(SECRET, "/0/private/Balance", "2", "nonce=1").ok().unwrap();
    let d = sign(SECRET, "/0/private/Balance", "1", "nonce=2").ok().unwrap();
    assert_eq!(a, b);
    assert_ne!(a, c);
    assert_ne!(a, d);
    assert_eq!(a.len(), 88);
}

#[test]
fn signing_messages_are_concatenations() {
    assert_eq!(digest_message("12", "nonce=12"), b"12nonce=12".to_vec());
    assert_eq!(mac_message("/0/private/X", &[1, 2]), [b"/0/private/X".to_vec(), vec![1, 2]].concat());
}

#[test]
fn secret_that_is_not_base64_fails_signing() {
    let bad = "!".repeat(88);
    assert_eq!(sign(&bad, "/0/private/Balance", "1", "nonce=1"), Err(ApiError::SigningFailure));
    let mut k = connect("key".to_string(), bad, Recorder::default());
    assert_eq!(k.account_balance(), Err("could not compute the request signature".to_string()));
    assert!(k.get_transport().posts.is_empty());
}

#[test]
fn short_secret_refuses_every_private_call_without_sending() {
    let mut k = connect("key".to_string(), "c2hvcnQ=".to_string(), Untouchable);
    let msg = Err("private key must be 88 characters long".to_string());
    assert_eq!(k.account_balance(), msg);
    assert_eq!(k.trade_balance(), msg);
    assert_eq!(k.open_orders(), msg);
    assert_eq!(k.closed_orders(), msg);
    assert_eq!(k.query_orders("T1".to_string()), msg);
    assert_eq!(k.trades_history(), msg);
    assert_eq!(k.trades_info("T1".to_string()), msg);
    assert_eq!(k.open_margin_positions(), msg);
    assert_eq!(k.ledgers_info(), msg);
    assert_eq!(k.query_ledgers(), msg);
    assert_eq!(k.trade_volume("XXBTZUSD"), msg);
    assert_eq!(k.request_export_report(Report_Type::TRADES, "mine"), msg);
    assert_eq!(k.get_export_report_status(Report_Type::LEDGERS), msg);
    assert_eq!(k.retrieve_data_export("R1"), msg);
    assert_eq!(k.delete_export_report("R1", "cancel"), msg);
    assert_eq!(k.add_order(Order_Type::LIMIT, Instruction::BUY, 1.25, "XBTUSD"), msg);
    assert_eq!(k.edit_order::<f64>("T1", "XBTUSD"), msg);
    assert_eq!(k.cancel_order("T1"), msg);
    assert_eq!(k.cancel_all_orders(), msg);
    assert_eq!(k.cancel_all_orders_after_x(60), msg);
    assert_eq!(k.private_call("Balance", &[]), Err(ApiError::CredentialFormat));
}

#[test]
fn private_call_posts_signed_request() {
    let mut k = connect("the key".to_string(), SECRET.to_string(), Recorder::default());
    k.set_opt(API_Option::ASSET, "ZUSD");
    assert_eq!(k.trade_balance(), Ok("{\"error\":[],\"result\":{}}".to_string()));
    let posts = &k.get_transport().posts;
    assert_eq!(posts.len(), 1);
    let (url, key, sig, body) = &posts[0];
    assert_eq!(url, "https://api.kraken.com/0/private/TradeBalance");
    assert_eq!(key, "the key");
    assert!(body.starts_with("asset=ZUSD&nonce="));
    let nonce = &body["asset=ZUSD&nonce=".len()..];
    assert!(nonce.parse::<u128>().is_ok());
    assert_eq!(sig, &expected_signature(SECRET, "/0/private/TradeBalance", nonce, body));
}

#[test]
fn endpoints_keep_their_arguments_as_options() {
    let mut k = connect("key".to_string(), SECRET.to_string(), Recorder::default());
    k.add_order(Order_Type::STOP_LOSS_LIMIT, Instruction::SELL, 1.25, "XBTUSD").unwrap();
    k.cancel_all_orders_after_x(-5).unwrap();
    k.delete_export_report("R1", "delete").unwrap();
    k.request_export_report(Report_Type::TRADES, "mine").unwrap();
    let bodies: Vec<&String> = k.get_transport().posts.iter().map(|p| &p.3).collect();
    assert!(bodies[0].starts_with("ordertype=stop-loss-limit&type=sell&volume=1.25&pair=XBTUSD&nonce="));
    assert!(bodies[1].starts_with("timeout=-5&nonce="));
    assert!(bodies[2].starts_with("id=R1&type=delete&nonce="));
    assert!(bodies[3].starts_with("report=trades&description=mine&nonce="));
    assert!(k.get_transport().posts[2].0.ends_with("/private/RemoveExport"));
}

#[test]
fn edit_order_posts_to_the_edit_end_point() {
    let mut k = connect("key".to_string(), SECRET.to_string(), Recorder::default());
    k.set_opt(API_Option::PRICE, "10");
    k.edit_order::<f64>("OTX1", "XBTUSD").unwrap();
    let (url, _, sig, body) = &k.get_transport().posts[0];
    assert_eq!(url, "https://api.kraken.com/0/private/EditOrder");
    assert!(body.starts_with("pair=XBTUSD&price=10&txid=OTX1&nonce="));
    let nonce = &body["pair=XBTUSD&price=10&txid=OTX1&nonce=".len()..];
    assert_eq!(sig, &expected_signature(SECRET, "/0/private/EditOrder", nonce, body));
}

#[test]
fn secret_that_is_not_base64_sends_nothing() {
    let bad = "*".repeat(88);
    let mut k = connect("key".to_string(), bad, Recorder::default());
    assert_eq!(k.private_call("Balance", &[]), Err(ApiError::SigningFailure));
    assert_eq!(k.cancel_order("T1"), Err("could not compute the request signature".to_string()));
    assert!(k.get_transport().posts.is_empty());
}

#[test]
fn removal_kind_outside_delete_and_cancel_is_refused() {
    let mut k = connect("key".to_string(), SECRET.to_string(), Untouchable);
    assert_eq!(
        k.delete_export_report("R1", "erase"),
        Err("argument outside the values the end-point accepts".to_string())
    );
    assert_eq!(k.query_string(&[API_Option::ID, API_Option::TYPE]), "");
}

#[test]
fn public_calls_put_the_query_in_the_url() {
    let mut k = connect(String::new(), String::new(), Recorder::default());
    k.set_opt(API_Option::INTERVAL, 60);
    k.ohlc_data("XXBTZUSD".to_string()).unwrap();
    k.ticker_info("XETHZEUR".to_string()).unwrap();
    k.system_status().unwrap();
    k.asset_info().unwrap();
    k.asset_pairs().unwrap();
    k.order_book("XXBTZUSD".to_string()).unwrap();
    k.recent_trades("XXBTZUSD".to_string()).unwrap();
    k.spread_data("XXBTZUSD".to_string()).unwrap();
    assert_eq!(
        k.get_transport().gets,
        vec![
            "https://api.kraken.com/0/public/OHLC?pair=XXBTZUSD&interval=60",
            "https://api.kraken.com/0/public/Ticker?pair=XETHZEUR",
            "https://api.kraken.com/0/public/SystemStatus",
            "https://api.kraken.com/0/public/Assets",
            "https://api.kraken.com/0/public/AssetPairs?pair=XETHZEUR",
            "https://api.kraken.com/0/public/Depth?pair=XXBTZUSD",
            "https://api.kraken.com/0/public/Trades?pair=XXBTZUSD",
            "https://api.kraken.com/0/public/Spread?pair=XXBTZUSD",
        ]
    );
}

#[test]
fn transport_failure_is_reported() {
    let mut k = connect(String::new(), SECRET.to_string(), Recorder { fail: true, ..Default::default() });
    assert_eq!(k.server_time(), Err("connection refused".to_string()));
    assert_eq!(k.account_balance(), Err("connection refused".to_string()));
    assert_eq!(
        k.public_call("Time", &[]),
        Err(ApiError::Transport("connection refused".to_string()))
    );
}

#[test]
fn nonces_strictly_increase() {
    let mut k = connect(String::new(), String::new(), Untouchable);
    let mut last = 0u128;
    for _ in 0..1000 {
        let n = k.issue_nonce();
        assert!(n > last);
        last = n;
    }
}

#[test]
fn nonce_guards_against_a_clock_that_stands_or_goes_back() {
    assert_eq!(nonce_after(10, 50), 50);
    assert_eq!(nonce_after(50, 50), 51);
    assert_eq!(nonce_after(50, 7), 51);
    assert_eq!(nonce_after(u128::MAX, 7), u128::MAX);
}

#[test]
fn decimal_texts() {
    let mut s = String::from("n=");
    push_decimal(&mut s, 1700000000000000);
    assert_eq!(s, "n=1700000000000000");
    let mut z = String::new();
    push_decimal(&mut z, 0);
    assert_eq!(z, "0");
    assert_eq!(signed_decimal_text(-42), "-42");
    assert_eq!(signed_decimal_text(isize::MIN), isize::MIN.to_string());
    assert_eq!(signed_decimal_text(7), "7");
}

#[test]
fn kraken_strings() {
    assert_eq!(Instruction::BUY.as_kraken_string(), "buy");
    assert_eq!(Instruction::SELL.as_kraken_string(), "sell");
    assert_eq!(Order_Type::MARKET.as_kraken_string(), "market");
    assert_eq!(Order_Type::TAKE_PROFIT_LIMIT.as_kraken_string(), "take-profit-limit");
    assert_eq!(Order_Type::SETTLE_POSITION.as_kraken_string(), "settle-position");
    assert_eq!(Report_Type::LEDGERS.as_kraken_string(), "ledgers");
    assert_eq!(API_Option::CLOSE_TYPE.wire_name(), "close[ordertype]");
    assert_eq!(API_Option::FEE_INFO.wire_name(), "fee-info");
    assert_eq!(API_Option::START_TIME.wire_name(), "starttm");
    assert_eq!(API_Option::CANCEL_RESPONSE.wire_name(), "cancel_response");
}

#[test]
fn error_messages() {
    assert_eq!(ApiError::CredentialFormat.message(), "private key must be 88 characters long");
    assert_eq!(ApiError::Transport("x".to_string()).message(), "x");
}
