use gdk_rust::dispatch::{log_input, log_output, session_reply};
use gdk_rust::error::Error;
use gdk_rust::exchange_rates::{ExchangeRatesCacher, RateQuote};
use gdk_rust::session::{Session, SessionRegistry};
use gdk_rust::wire::JsonError;
use gdk_rust::{
    call_session, create_session, GDKRUST_call_session, GDKRUST_create_session,
    GDKRUST_destroy_session, GDKRUST_set_notification_handler, GdkBackend, GdkSession,
    GreenlightSession, GA_ERROR, GA_NOT_AUTHORIZED, GA_OK,
};
use serde_json::Value;

/// A cache that knows the rates it was given, by currency.
#[derive(Default, Debug, PartialEq)]
struct Rates {
    known: Vec<(String, u64)>,
    asked: usize,
}

impl ExchangeRatesCacher for Rates {
    fn fetch_cached(&mut self, params: Value) -> Result<RateQuote, JsonError> {
        self.asked += 1;
        let currency = match params["currency"].as_str() {
            Some(c) => c.to_string(),
            None => return Err(JsonError::from(Error::Generic("no currency".to_string()))),
        };
        let rate = self.known.iter().find(|(c, _)| *c == currency).map(|(_, r)| *r);
        Ok(RateQuote { currency, rate })
    }
}

/// A backend that answers "echo" with its input, fails "pin" with a wrong
/// PIN, and knows nothing else.
#[derive(Debug, PartialEq)]
struct Wallet {
    name: String,
    calls: Vec<String>,
    handler: Option<u32>,
    rates: Rates,
}

impl ExchangeRatesCacher for Wallet {
    fn fetch_cached(&mut self, params: Value) -> Result<RateQuote, JsonError> {
        self.rates.fetch_cached(params)
    }
}

impl Session for Wallet {
    type Notify = u32;

    fn new(network: &Value) -> Result<Self, JsonError> {
        match network["name"].as_str() {
            Some(name) => Ok(Wallet {
                name: name.to_string(),
                calls: Vec::new(),
                handler: None,
                rates: Rates { known: vec![("EUR".to_string(), 123_456_789)], asked: 0 },
            }),
            None => Err(JsonError::from(Error::InvalidElectrumUrl("none".to_string()))),
        }
    }

    fn handle_call(&mut self, method: &str, input: Value) -> Result<Value, JsonError> {
        self.calls.push(method.to_string());
        match method {
            "echo" | "login" | "credentials_from_pin_data" => Ok(input),
            "pin" => Err(JsonError::from(Error::InvalidPin)),
            "pin_service" => Err(JsonError::from(Error::PinError)),
            _ => Err(JsonError::from(Error::MethodNotFound {
                method: method.to_string(),
                in_session: true,
            })),
        }
    }

    fn set_notification(&mut self, handler: u32) {
        self.handler = Some(handler);
    }
}

fn json(text: &str) -> Value {
    serde_json::from_str(text).unwrap()
}

fn greenlight() -> GdkSession<Wallet, Rates> {
    create_session::<Wallet, Rates>(&json("{\"server_type\":\"greenlight\"}")).unwrap()
}

fn electrum() -> GdkSession<Wallet, Rates> {
    create_session::<Wallet, Rates>(&json("{\"server_type\":\"electrum\",\"name\":\"w\"}")).unwrap()
}

fn wallet_of(session: &GdkSession<Wallet, Rates>) -> &Wallet {
    match &session.backend {
        GdkBackend::Electrum(w) => w,
        GdkBackend::Greenlight(_) => panic!("not an electrum session"),
    }
}

#[test]
fn a_network_without_server_type_is_refused() {
    for text in ["null", "1", "\"electrum\"", "[\"server_type\"]", "{}", "{\"name\":\"w\"}"] {
        match create_session::<Wallet, Rates>(&json(text)) {
            Err(e) => {
                assert_eq!(e.error, "id_unknown");
                assert_eq!(e.message, "Expected network to be an object with a server_type key");
            }
            Ok(_) => panic!("{}", text),
        }
    }
}

#[test]
fn an_unknown_server_type_is_refused() {
    for text in [
        "{\"server_type\":\"rpc\"}",
        "{\"server_type\":\"Electrum\"}",
        "{\"server_type\":\"\"}",
        "{\"server_type\":1}",
        "{\"server_type\":null}",
        "{\"server_type\":[\"electrum\"]}",
    ] {
        match create_session::<Wallet, Rates>(&json(text)) {
            Err(e) => {
                assert_eq!(e.error, "id_unknown");
                assert_eq!(e.message, "server_type invalid");
            }
            Ok(_) => panic!("{}", text),
        }
    }
}

#[test]
fn greenlight_gives_the_backend_that_is_yet_to_come() {
    let session = greenlight();
    match session.backend {
        GdkBackend::Greenlight(g) => assert_eq!(*g.xr_cache(), Rates::default()),
        GdkBackend::Electrum(_) => panic!("not a greenlight session"),
    }
}

#[test]
fn electrum_gives_the_backend_made_from_the_network() {
    let session = electrum();
    assert_eq!(wallet_of(&session).name, "w");
}

#[test]
fn a_backend_that_cannot_be_made_fails_the_session() {
    match create_session::<Wallet, Rates>(&json("{\"server_type\":\"electrum\"}")) {
        Err(e) => assert_eq!(e, JsonError::from(Error::InvalidElectrumUrl("none".to_string()))),
        Ok(_) => panic!("made"),
    }
}

#[test]
fn greenlight_knows_no_method() {
    let mut session = greenlight();
    let mut log = Vec::new();
    let r = call_session(&mut session, "get_balance", "{\"subaccount\":1}", &mut log);
    assert_eq!(
        r,
        Err(JsonError {
            message: "session method not found: \"get_balance\"".to_string(),
            error: "id_unknown".to_string(),
        })
    );
    let mut g = GreenlightSession { xr_cache: Rates::default() };
    assert_eq!(g.handle_call("x", Value::Null), Err(JsonError::from(Error::MethodNotFound {
        method: "x".to_string(),
        in_session: true,
    })));
    assert_eq!(g.xr_cache, Rates::default());
}

#[test]
fn an_input_that_is_no_json_fails_and_logs_nothing() {
    let mut session = electrum();
    let mut log = vec!["earlier".to_string()];
    let r = call_session(&mut session, "echo", "{not json", &mut log);
    let expected = serde_json::from_str::<Value>("{not json").unwrap_err().to_string();
    assert_eq!(r, Err(JsonError { message: expected, error: "id_unknown".to_string() }));
    assert_eq!(log, vec!["earlier".to_string()]);
    assert!(wallet_of(&session).calls.is_empty());
}

#[test]
fn a_call_returns_what_the_backend_returns() {
    let mut session = electrum();
    let mut log = Vec::new();
    let r = call_session(&mut session, "echo", "{\"a\":[1,2]}", &mut log);
    assert_eq!(r, Ok(json("{\"a\":[1,2]}")));
    let r = call_session(&mut session, "pin", "{}", &mut log);
    assert_eq!(r, Err(JsonError::from(Error::InvalidPin)));
    assert_eq!(wallet_of(&session).calls, vec!["echo".to_string(), "pin".to_string()]);
}

#[test]
fn a_call_logs_its_input_and_its_output() {
    let mut session = electrum();
    let mut log = vec!["earlier".to_string()];
    let r = call_session(&mut session, "echo", "{\"subaccount\":1}", &mut log);
    assert_eq!(log.len(), 3);
    assert_eq!(log[0], "earlier");
    assert_eq!(
        log[1],
        "GDKRUST_call_session handle_call echo input \"Object {\\\"subaccount\\\": Number(1)}\""
    );
    assert_eq!(
        log[2],
        "GDKRUST_call_session echo output \"Ok(Object {\\\"subaccount\\\": Number(1)})\""
    );
    assert_eq!(log[1], log_input("echo", &json("{\"subaccount\":1}")));
    assert_eq!(log[2], log_output("echo", &r));
    assert_eq!(log[2], format!("GDKRUST_call_session {} output {:?}", "echo", format!("{:?}", r)));
}

#[test]
fn the_log_of_a_failed_call() {
    let mut session = greenlight();
    let mut log = Vec::new();
    let r = call_session(&mut session, "get_balance", "null", &mut log);
    assert_eq!(log.len(), 2);
    assert_eq!(log[0], "GDKRUST_call_session handle_call get_balance input \"Null\"");
    assert_eq!(
        log[1],
        format!("GDKRUST_call_session {} output {:?}", "get_balance", format!("{:?}", r))
    );
}

#[test]
fn the_log_of_a_login_does_not_show_the_input() {
    let mut session = electrum();
    let mut log = Vec::new();
    let input = "{\"password\":\"hunter2\"}";
    let r = call_session(&mut session, "login", input, &mut log);
    // The backend got the input as it was.
    assert_eq!(r, Ok(json(input)));
    assert_eq!(log[0], "GDKRUST_call_session handle_call login input \"redacted\"");
    assert!(!log[0].contains("hunter2"));
}

#[test]
fn the_log_does_not_show_an_input_with_a_mnemonic() {
    let mut session = electrum();
    let mut log = Vec::new();
    let input = "{\"mnemonic\":\"abandon abandon about\"}";
    let r = call_session(&mut session, "get_assets", input, &mut log);
    assert_eq!(r, Err(JsonError::from(Error::MethodNotFound {
        method: "get_assets".to_string(),
        in_session: true,
    })));
    assert_eq!(log[0], "GDKRUST_call_session handle_call get_assets input \"redacted\"");
    assert!(!log[0].contains("abandon"));
}

#[test]
fn the_log_does_not_show_recovered_credentials() {
    let mut session = electrum();
    let mut log = Vec::new();
    let r = call_session(&mut session, "credentials_from_pin_data", "{\"seed\":\"s3cret\"}", &mut log);
    assert!(r.is_ok());
    assert_eq!(log[0], "GDKRUST_call_session handle_call credentials_from_pin_data input \"redacted\"");
    assert_eq!(log[1], "GDKRUST_call_session credentials_from_pin_data output \"redacted\"");
}

#[test]
fn a_long_output_is_cut_in_the_log() {
    let mut session = electrum();
    let mut log = Vec::new();
    let input = format!("\"{}\"", "z".repeat(1000));
    let r = call_session(&mut session, "echo", &input, &mut log);
    assert_eq!(r, Ok(Value::String("z".repeat(1000))));
    let shown: String = format!("{:?}", r).chars().take(200).collect();
    assert_eq!(log[1], format!("GDKRUST_call_session echo output {:?}", shown));
}

#[test]
fn a_rate_that_is_not_cached_is_the_empty_string() {
    let mut session = greenlight();
    let mut log = Vec::new();
    let r = call_session(&mut session, "exchange_rates", "{\"currency\":\"USD\"}", &mut log);
    assert_eq!(r, Ok(json("{\"currencies\":{\"USD\":\"\"}}")));
    assert_eq!(r.unwrap().to_string(), "{\"currencies\":{\"USD\":\"\"}}");
    assert!(log.is_empty());
}

#[test]
fn a_cached_rate_is_written_with_eight_decimals() {
    let mut session = electrum();
    let mut log = Vec::new();
    let r = call_session(&mut session, "exchange_rates", "{\"currency\":\"EUR\"}", &mut log);
    assert_eq!(r.unwrap().to_string(), "{\"currencies\":{\"EUR\":\"1.23456789\"}}");
    // The request went to the cache, not to the backend's methods.
    assert!(wallet_of(&session).calls.is_empty());
    assert_eq!(wallet_of(&session).rates.asked, 1);
    assert!(log.is_empty());
}

#[test]
fn a_failed_rate_request_is_reported_as_it_is() {
    let mut session = electrum();
    let mut log = Vec::new();
    let r = call_session(&mut session, "exchange_rates", "{}", &mut log);
    assert_eq!(r, Err(JsonError::from(Error::Generic("no currency".to_string()))));
}

#[test]
fn the_reply_of_a_session_call() {
    assert_eq!(session_reply(&Ok(json("{\"a\":1}"))), (GA_OK, "{\"a\":1}".to_string()));
    assert_eq!(
        session_reply(&Err(JsonError::from(Error::InvalidPin))),
        (
            GA_NOT_AUTHORIZED,
            "{\"message\":\"id_invalid_pin\",\"error\":\"id_invalid_pin\"}".to_string()
        )
    );
    assert_eq!(
        session_reply(&Err(JsonError::from(Error::PinError))),
        (
            GA_ERROR,
            "{\"message\":\"id_connection_failed\",\"error\":\"id_connection_failed\"}".to_string()
        )
    );
}

#[test]
fn handles_are_given_out_once() {
    let mut registry: SessionRegistry<Wallet, Rates> = SessionRegistry::new();
    assert!(!registry.contains(0));
    let (status, first) = GDKRUST_create_session(&mut registry, "{\"server_type\":\"greenlight\"}");
    assert_eq!(status, GA_OK);
    let first = first.unwrap();
    let (status, second) =
        GDKRUST_create_session(&mut registry, "{\"server_type\":\"electrum\",\"name\":\"w\"}");
    assert_eq!(status, GA_OK);
    let second = second.unwrap();
    assert_ne!(first, second);
    assert!(registry.contains(first));
    assert!(registry.contains(second));

    GDKRUST_destroy_session(&mut registry, first);
    assert!(!registry.contains(first));
    assert!(registry.contains(second));

    // A new session never gets the handle of a destroyed one.
    let (_, third) = GDKRUST_create_session(&mut registry, "{\"server_type\":\"greenlight\"}");
    let third = third.unwrap();
    assert_ne!(third, first);
    assert_ne!(third, second);
    assert!(!registry.contains(first));
}

#[test]
fn a_session_that_cannot_be_made_gets_no_handle() {
    let mut registry: SessionRegistry<Wallet, Rates> = SessionRegistry::new();
    for text in ["{not json", "", "null", "{}", "{\"server_type\":\"rpc\"}", "{\"server_type\":\"electrum\"}"] {
        assert_eq!(GDKRUST_create_session(&mut registry, text), (GA_ERROR, None), "{}", text);
    }
    assert!(!registry.contains(0));
    let (status, handle) = GDKRUST_create_session(&mut registry, "{\"server_type\":\"greenlight\"}");
    assert_eq!((status, handle), (GA_OK, Some(0)));
}

#[test]
fn a_call_on_a_handle() {
    let mut registry: SessionRegistry<Wallet, Rates> = SessionRegistry::new();
    let (_, handle) =
        GDKRUST_create_session(&mut registry, "{\"server_type\":\"electrum\",\"name\":\"w\"}");
    let handle = handle.unwrap();
    let mut log = Vec::new();
    assert_eq!(
        GDKRUST_call_session(&mut registry, handle, "echo", "[1, 2]", &mut log),
        (GA_OK, Some("[1,2]".to_string()))
    );
    assert_eq!(log.len(), 2);
    assert_eq!(
        GDKRUST_call_session(&mut registry, handle, "pin", "{}", &mut log),
        (
            GA_NOT_AUTHORIZED,
            Some("{\"message\":\"id_invalid_pin\",\"error\":\"id_invalid_pin\"}".to_string())
        )
    );
    assert_eq!(
        GDKRUST_call_session(&mut registry, handle, "pin_service", "{}", &mut log),
        (
            GA_ERROR,
            Some(
                "{\"message\":\"id_connection_failed\",\"error\":\"id_connection_failed\"}"
                    .to_string()
            )
        )
    );
    let (status, text) = GDKRUST_call_session(&mut registry, handle, "echo", "{oops", &mut log);
    assert_eq!(status, GA_ERROR);
    let parsed = JsonError::from_value(&json(&text.unwrap())).unwrap();
    assert_eq!(parsed.error, "id_unknown");
    assert_eq!(log.len(), 6);
}

#[test]
fn a_handle_that_is_not_live_is_refused() {
    let mut registry: SessionRegistry<Wallet, Rates> = SessionRegistry::new();
    let mut log = Vec::new();
    assert_eq!(GDKRUST_call_session(&mut registry, 0, "echo", "{}", &mut log), (GA_ERROR, None));
    assert_eq!(GDKRUST_call_session(&mut registry, usize::MAX, "echo", "{}", &mut log), (GA_ERROR, None));
    assert_eq!(GDKRUST_set_notification_handler(&mut registry, 0, 1), GA_ERROR);

    let (_, handle) =
        GDKRUST_create_session(&mut registry, "{\"server_type\":\"electrum\",\"name\":\"w\"}");
    let handle = handle.unwrap();
    GDKRUST_destroy_session(&mut registry, handle);
    assert_eq!(GDKRUST_call_session(&mut registry, handle, "echo", "{}", &mut log), (GA_ERROR, None));
    assert_eq!(GDKRUST_set_notification_handler(&mut registry, handle, 1), GA_ERROR);
    assert!(log.is_empty());
}

#[test]
fn a_failure_in_one_session_leaves_the_others_alone() {
    let mut registry: SessionRegistry<Wallet, Rates> = SessionRegistry::new();
    let network = "{\"server_type\":\"electrum\",\"name\":\"w\"}";
    let a = GDKRUST_create_session(&mut registry, network).1.unwrap();
    let b = GDKRUST_create_session(&mut registry, network).1.unwrap();
    let mut log = Vec::new();
    let (status, _) = GDKRUST_call_session(&mut registry, a, "explode", "{}", &mut log);
    assert_eq!(status, GA_ERROR);
    GDKRUST_destroy_session(&mut registry, a);
    assert_eq!(
        GDKRUST_call_session(&mut registry, b, "echo", "true", &mut log),
        (GA_OK, Some("true".to_string()))
    );
}

#[test]
fn the_handler_goes_to_the_backend() {
    let mut session = electrum();
    session.backend.set_notification(7);
    assert_eq!(wallet_of(&session).handler, Some(7));

    let mut registry: SessionRegistry<Wallet, Rates> = SessionRegistry::new();
    let e = GDKRUST_create_session(&mut registry, "{\"server_type\":\"electrum\",\"name\":\"w\"}")
        .1
        .unwrap();
    let g = GDKRUST_create_session(&mut registry, "{\"server_type\":\"greenlight\"}").1.unwrap();
    assert_eq!(GDKRUST_set_notification_handler(&mut registry, e, 9), GA_OK);
    // A backend without notifications takes the call and does nothing.
    assert_eq!(GDKRUST_set_notification_handler(&mut registry, g, 9), GA_OK);
}

#[test]
fn destroying_what_is_not_live_changes_nothing() {
    let mut registry: SessionRegistry<Wallet, Rates> = SessionRegistry::new();
    // A handle that was never given out.
    GDKRUST_destroy_session(&mut registry, 0);
    GDKRUST_destroy_session(&mut registry, usize::MAX);
    assert!(!registry.contains(0));

    let network = "{\"server_type\":\"electrum\",\"name\":\"w\"}";
    let a = GDKRUST_create_session(&mut registry, network).1.unwrap();
    let b = GDKRUST_create_session(&mut registry, network).1.unwrap();
    assert_eq!((a, b), (0, 1));
    GDKRUST_destroy_session(&mut registry, a);
    // A second time, and a handle beyond the table.
    GDKRUST_destroy_session(&mut registry, a);
    GDKRUST_destroy_session(&mut registry, 7);
    assert!(!registry.contains(a));
    assert!(registry.contains(b));
    let mut log = Vec::new();
    assert_eq!(
        GDKRUST_call_session(&mut registry, b, "echo", "1", &mut log),
        (GA_OK, Some("1".to_string()))
    );
    // The next handle is still a new one.
    assert_eq!(GDKRUST_create_session(&mut registry, network).1, Some(2));
}
