use gdk_rust::dispatch::{call_reply, Collaborators, InitParam, StatelessMethod};
use gdk_rust::error::Error;
use gdk_rust::logger::{LevelFilter, LoggerState};
use gdk_rust::registry;
use gdk_rust::{handle_call, GDKRUST_call, GA_ERROR, GA_OK};
use serde_json::Value;

/// Operations that note what they were asked and answer with the name of
/// the method.
#[derive(Default)]
struct Noting {
    seen: Vec<String>,
    initialised: bool,
}

impl Collaborators for Noting {
    fn init_param(&mut self, input: Value) -> Result<InitParam, Error> {
        self.seen.push(format!("init_param {}", input));
        match (input["log_level"].as_str(), input["registry_dir"].as_str()) {
            (Some(level), Some(dir)) => {
                Ok(InitParam { log_level: level.to_string(), registry_dir: dir.to_string() })
            }
            _ => Err(Error::JSON("missing field".to_string())),
        }
    }

    fn registry_init(&mut self, registry_dir: &str) -> Result<(), Error> {
        self.seen.push(format!("registry_init {}", registry_dir));
        if self.initialised {
            return Err(Error::Registry(registry::Error::AlreadyInitialized));
        }
        self.initialised = true;
        Ok(())
    }

    fn run(&mut self, method: StatelessMethod, input: Value) -> Result<String, Error> {
        self.seen.push(format!("{:?} {}", method, input));
        if input.as_str() == Some("fail") {
            return Err(Error::InvalidAssetId);
        }
        Ok(format!("\"{:?}\"", method))
    }
}

fn parse_failure(text: &str) -> String {
    serde_json::from_str::<Value>(text).unwrap_err().to_string()
}

#[test]
fn the_stateless_methods() {
    assert_eq!(StatelessMethod::from_name("init"), Some(StatelessMethod::Init));
    assert_eq!(StatelessMethod::from_name("psbt_extract"), Some(StatelessMethod::PsbtExtract));
    assert_eq!(StatelessMethod::from_name("psbt_from_tx"), Some(StatelessMethod::PsbtFromTx));
    assert_eq!(StatelessMethod::from_name("psbt_merge_tx"), Some(StatelessMethod::PsbtMergeTx));
    assert_eq!(StatelessMethod::from_name("spv_verify_tx"), Some(StatelessMethod::SpvVerifyTx));
    assert_eq!(
        StatelessMethod::from_name("spv_download_headers"),
        Some(StatelessMethod::SpvDownloadHeaders)
    );
    assert_eq!(StatelessMethod::from_name("refresh_assets"), Some(StatelessMethod::RefreshAssets));
    assert_eq!(StatelessMethod::from_name("get_assets"), Some(StatelessMethod::GetAssets));
    assert_eq!(StatelessMethod::from_name("not_a_real_method"), None);
    assert_eq!(StatelessMethod::from_name("Init"), None);
    assert_eq!(StatelessMethod::from_name(""), None);
    assert_eq!(StatelessMethod::from_name("login"), None);
}

#[test]
fn an_unknown_method_is_not_found() {
    let mut ops = Noting::default();
    let mut logger = LoggerState::new();
    let r = handle_call(&mut ops, &mut logger, "not_a_real_method", "{}");
    assert_eq!(
        r,
        Err(Error::MethodNotFound { method: "not_a_real_method".to_string(), in_session: false })
    );
    assert_eq!(r.unwrap_err().to_gdk_code(), "id_unknown");
    assert!(ops.seen.is_empty());
    assert_eq!(logger.max_level(), LevelFilter::Off);
}

#[test]
fn an_unknown_method_is_reported_as_unknown() {
    let mut ops = Noting::default();
    let mut logger = LoggerState::new();
    assert_eq!(
        GDKRUST_call(&mut ops, &mut logger, "not_a_real_method", "{}"),
        (
            GA_ERROR,
            "{\"message\":\"method not found: \\\"not_a_real_method\\\"\",\"error\":\"id_unknown\"}"
                .to_string()
        )
    );
}

#[test]
fn a_method_is_handed_to_its_operation() {
    let mut ops = Noting::default();
    let mut logger = LoggerState::new();
    assert_eq!(
        handle_call(&mut ops, &mut logger, "psbt_extract", "{\"psbt\":\"x\"}"),
        Ok("\"PsbtExtract\"".to_string())
    );
    assert_eq!(
        GDKRUST_call(&mut ops, &mut logger, "get_assets", "{}"),
        (GA_OK, "\"GetAssets\"".to_string())
    );
    assert_eq!(
        GDKRUST_call(&mut ops, &mut logger, "refresh_assets", " \"fail\" "),
        (
            GA_ERROR,
            "{\"message\":\"invalid asset id\",\"error\":\"id_invalid_asset_id\"}".to_string()
        )
    );
    assert_eq!(
        ops.seen,
        vec![
            "PsbtExtract {\"psbt\":\"x\"}".to_string(),
            "GetAssets {}".to_string(),
            "RefreshAssets \"fail\"".to_string()
        ]
    );
    assert_eq!(logger.max_level(), LevelFilter::Off);
}

#[test]
fn init_sets_the_level_and_the_registry() {
    let mut ops = Noting::default();
    let mut logger = LoggerState::new();
    let input = "{\"log_level\":\"debug\",\"registry_dir\":\"/tmp/r\"}";
    assert_eq!(handle_call(&mut ops, &mut logger, "init", input), Ok("\"\"".to_string()));
    assert_eq!(logger.max_level(), LevelFilter::Debug);
    assert_eq!(
        ops.seen,
        vec![format!("init_param {}", input), "registry_init /tmp/r".to_string()]
    );
}

#[test]
fn init_with_an_unknown_level_logs_nothing() {
    let mut ops = Noting::default();
    let mut logger = LoggerState::new();
    let input = "{\"log_level\":\"chatty\",\"registry_dir\":\"/tmp/r\"}";
    assert_eq!(GDKRUST_call(&mut ops, &mut logger, "init", input), (GA_OK, "\"\"".to_string()));
    assert_eq!(logger.max_level(), LevelFilter::Off);
    // The level was chosen all the same: a later init cannot change it.
    let input = "{\"log_level\":\"trace\",\"registry_dir\":\"/tmp/r\"}";
    let (status, text) = GDKRUST_call(&mut ops, &mut logger, "init", input);
    assert_eq!(status, GA_ERROR);
    assert_eq!(
        text,
        "{\"message\":\"Cannot call `init` more than once\",\"error\":\"id_unknown\"}"
    );
    assert_eq!(logger.max_level(), LevelFilter::Off);
}

#[test]
fn init_with_bad_parameters_touches_nothing() {
    let mut ops = Noting::default();
    let mut logger = LoggerState::new();
    let r = handle_call(&mut ops, &mut logger, "init", "{}");
    assert_eq!(r, Err(Error::JSON("missing field".to_string())));
    assert_eq!(ops.seen, vec!["init_param {}".to_string()]);
    assert!(!ops.initialised);
    // Logging is still to be initialised.
    assert!(gdk_rust::init_logging(&mut logger, LevelFilter::Info));
}

#[test]
fn the_reply_of_a_stateless_call() {
    assert_eq!(call_reply("m", Ok("[1]".to_string())), (GA_OK, "[1]".to_string()));
    assert_eq!(
        call_reply("m", Err(Error::InvalidPin)),
        (GA_ERROR, "{\"message\":\"id_invalid_pin\",\"error\":\"id_invalid_pin\"}".to_string())
    );
}

#[test]
fn an_input_that_is_no_json_fails_before_the_operation_runs() {
    let mut ops = Noting::default();
    let mut logger = LoggerState::new();
    let r = handle_call(&mut ops, &mut logger, "psbt_extract", "not json");
    assert_eq!(r, Err(Error::JSON(parse_failure("not json"))));
    assert_eq!(r.unwrap_err().to_gdk_code(), "id_unknown");
    assert!(ops.seen.is_empty());

    for method in [
        "init",
        "psbt_extract",
        "psbt_from_tx",
        "psbt_merge_tx",
        "spv_verify_tx",
        "spv_download_headers",
        "refresh_assets",
        "get_assets",
    ] {
        for input in ["", "{", "fail", "{\"a\":}", "[1,]"] {
            let r = handle_call(&mut ops, &mut logger, method, input);
            assert_eq!(r, Err(Error::JSON(parse_failure(input))), "{} {}", method, input);
        }
    }
    assert!(ops.seen.is_empty());
    assert!(!ops.initialised);
    assert_eq!(logger.chosen(), None);
}

#[test]
fn an_input_that_is_no_json_is_reported_as_unknown() {
    let mut ops = Noting::default();
    let mut logger = LoggerState::new();
    let (status, text) = GDKRUST_call(&mut ops, &mut logger, "get_assets", "{oops");
    assert_eq!(status, GA_ERROR);
    let reply: Value = serde_json::from_str(&text).unwrap();
    assert_eq!(reply["error"].as_str(), Some("id_unknown"));
    assert_eq!(reply["message"].as_str(), Some(parse_failure("{oops").as_str()));
    assert!(ops.seen.is_empty());
}

#[test]
fn an_unknown_method_is_not_found_whatever_the_input() {
    let mut ops = Noting::default();
    let mut logger = LoggerState::new();
    let r = handle_call(&mut ops, &mut logger, "not_a_real_method", "not json");
    assert_eq!(
        r,
        Err(Error::MethodNotFound { method: "not_a_real_method".to_string(), in_session: false })
    );
    assert!(ops.seen.is_empty());
}

#[test]
fn the_operation_gets_the_parsed_input() {
    let mut ops = Noting::default();
    let mut logger = LoggerState::new();
    let r = handle_call(&mut ops, &mut logger, "spv_verify_tx", " { \"height\" : 7 } ");
    assert_eq!(r, Ok("\"SpvVerifyTx\"".to_string()));
    assert_eq!(ops.seen, vec!["SpvVerifyTx {\"height\":7}".to_string()]);
}
