//! Calls by name. A call on a session is parsed, logged with its secrets
//! taken out, handed to the session's backend and logged again; a call
//! without a session is parsed and handed to one of a fixed set of
//! free-standing operations. Neither is ever retried.

use crate::error::{method_not_found_text, Error};
use crate::exchange_rates::{
    exchange_rates_reply, quoted_rate_text, ExchangeRatesCacher, RateQuote,
};
use crate::json::{
    json_debug_text, json_member, json_parse, json_quoted, json_str, json_text, object_text,
    parse_json, value_debug, value_text,
};
use crate::logger::{init_logging, level_filter_named, LevelFilter, LoggerState};
use crate::redact::{redact_input, redact_output, redacted_input, redacted_output};
use crate::session::{GdkBackend, GdkSession, Session};
use crate::text::{debug_quote, debug_quoted, join3, join4, same_text};
use crate::wire::{
    build_error, json_quote, status_of_code, wire_debug_text, wire_text, JsonError,
};
use crate::{GA_ERROR, GA_OK};
use serde_json::Value;
use vstd::prelude::*;
use vstd::string::*;

verus! {

/// The text that stands for the outcome of a call in a log.
pub open spec fn outcome_debug_text(outcome: Result<Value, JsonError>) -> Seq<char> {
    match outcome {
        Ok(v) => "Ok("@ + json_debug_text(v) + ")"@,
        Err(e) => "Err("@ + wire_debug_text(e.message@, e.error@) + ")"@,
    }
}

/// The line that is logged before a call goes to the backend.
pub open spec fn input_line(method: Seq<char>, input: Value) -> Seq<char> {
    "GDKRUST_call_session handle_call "@ + method + " input "@ + debug_quoted(
        redacted_input(method, json_debug_text(input)),
    )
}

/// The line that is logged when the backend has answered.
pub open spec fn output_line(method: Seq<char>, outcome: Result<Value, JsonError>) -> Seq<char> {
    "GDKRUST_call_session "@ + method + " output "@ + debug_quoted(
        redacted_output(method, outcome_debug_text(outcome)),
    )
}

/// The text of the reply to a request for the rate of `currency`.
pub open spec fn rates_reply_text(currency: Seq<char>, rate: Option<u64>) -> Seq<char> {
    object_text("currencies"@, object_text(currency, json_quoted(quoted_rate_text(rate))))
}

/// The status that a boundary call returns for an outcome.
pub open spec fn reply_status(outcome: Result<Value, JsonError>) -> i32 {
    match outcome {
        Ok(_) => GA_OK,
        Err(e) => status_of_code(e.error@),
    }
}

/// The text that a boundary call returns for an outcome.
pub open spec fn reply_text(outcome: Result<Value, JsonError>) -> Seq<char> {
    match outcome {
        Ok(v) => json_text(v),
        Err(e) => wire_text(e.message@, e.error@),
    }
}

/// What the answer to a request for an exchange rate is, given what the
/// backend returned: the reply that holds the rate, or the backend's
/// failure as it is.
pub open spec fn rates_outcome(
    quoted: Result<RateQuote, JsonError>,
    outcome: Result<Value, JsonError>,
) -> bool {
    match quoted {
        Ok(quote) => {
            &&& outcome matches Ok(reply)
            &&& json_text(reply) == rates_reply_text(quote.currency@, quote.rate)
            &&& json_member(reply, "currencies"@) matches Some(inner) && (json_member(
                inner,
                quote.currency@,
            ) matches Some(rate) && json_str(rate) == Some(quoted_rate_text(quote.rate)))
        },
        Err(e) => outcome matches Err(f) && f == e,
    }
}

/// What a call on a session does to the session and the log.
///
/// An input that is no JSON fails with the parser's message under the
/// code `id_unknown`, and touches nothing. A request for exchange rates is
/// answered without a line in the log. Every other call adds two lines to
/// the log: before the backend runs, the line of the input; after it, the
/// line of the outcome.
pub open spec fn call_session_post<E, C>(
    before: GdkSession<E, C>,
    after: GdkSession<E, C>,
    method: Seq<char>,
    input: Seq<char>,
    log_before: Seq<String>,
    log_after: Seq<String>,
    outcome: Result<Value, JsonError>,
) -> bool {
    match json_parse(input) {
        Err(message) => {
            &&& outcome matches Err(e) && e.message@ == message && e.error@ == "id_unknown"@
            &&& after == before
            &&& log_after == log_before
        },
        Ok(v) => if method == "exchange_rates"@ {
            log_after == log_before
        } else {
            &&& log_after.len() == log_before.len() + 2
            &&& log_after.subrange(0, log_before.len() as int) == log_before
            &&& log_after[log_before.len() as int]@ == input_line(method, v)
            &&& log_after[log_before.len() as int + 1]@ == output_line(method, outcome)
        },
    }
}

/// The line to log before a call goes to the backend.
pub fn log_input(method: &str, input: &Value) -> (r: String)
    ensures
        r@ == input_line(method@, *input),
{
    let shown = redact_input(method, value_debug(input));
    let quoted = debug_quote(shown.as_str());
    join4("GDKRUST_call_session handle_call ", method, " input ", quoted.as_str())
}

/// The text that stands for the outcome of a call in a log.
pub fn outcome_debug(outcome: &Result<Value, JsonError>) -> (r: String)
    ensures
        r@ == outcome_debug_text(*outcome),
{
    match outcome {
        Ok(v) => {
            let shown = value_debug(v);
            join3("Ok(", shown.as_str(), ")")
        },
        Err(e) => {
            let shown = e.debug_text();
            join3("Err(", shown.as_str(), ")")
        },
    }
}

/// The line to log when the backend has answered.
pub fn log_output(method: &str, outcome: &Result<Value, JsonError>) -> (r: String)
    ensures
        r@ == output_line(method@, *outcome),
{
    let shown = redact_output(method, outcome_debug(outcome));
    let quoted = debug_quote(shown.as_str());
    join4("GDKRUST_call_session ", method, " output ", quoted.as_str())
}

/// The status and the text that a boundary call returns for an outcome:
/// the value as JSON text with `GA_OK`, or the failure as JSON text with
/// `GA_NOT_AUTHORIZED` for a wrong PIN and `GA_ERROR` for anything else.
pub fn session_reply(outcome: &Result<Value, JsonError>) -> (r: (i32, String))
    ensures
        r.0 == reply_status(*outcome),
        r.1@ == reply_text(*outcome),
{
    match outcome {
        Ok(value) => (GA_OK, value_text(value)),
        Err(err) => (err.status(), err.to_json()),
    }
}

/// Runs one method on a session. `input` is the JSON text of the
/// parameters; the lines that the call logs are appended to `log`.
///
/// The input is parsed first. A request for exchange rates then goes to
/// the backend's `fetch_cached`, with the parsed input, and the answer is
/// made from what that returns. Every other method goes to the backend's
/// `handle_call`, with the method and the parsed input, and what that
/// returns is returned. The backend is called once.
pub fn call_session<E: Session, C: ExchangeRatesCacher>(
    sess: &mut GdkSession<E, C>,
    method: &str,
    input: &str,
    log: &mut Vec<String>,
) -> (r: Result<Value, JsonError>)
    ensures
        call_session_post(*old(sess), *final(sess), method@, input@, old(log)@, final(log)@, r),
        json_parse(input@) matches Ok(v) ==> (method@ == "exchange_rates"@ ==> exists|
            b: &mut GdkBackend<E, C>,
            quoted: Result<RateQuote, JsonError>,
        |
            {
                &&& *b == old(sess).backend
                &&& *final(b) == final(sess).backend
                &&& #[trigger] call_ensures(GdkBackend::<E, C>::fetch_cached, (b, v), quoted)
                &&& rates_outcome(quoted, r)
            }),
        json_parse(input@) matches Ok(v) ==> (method@ != "exchange_rates"@ ==> exists|
            b: &mut GdkBackend<E, C>,
        |
            {
                &&& *b == old(sess).backend
                &&& *final(b) == final(sess).backend
                &&& #[trigger] call_ensures(GdkBackend::<E, C>::handle_call, (b, method, v), r)
            }),
{
    let input = match parse_json(input) {
        Ok(value) => value,
        Err(message) => { return Err(JsonError::from(Error::JSON(message))); },
    };

    if same_text(method, "exchange_rates") {
        let quote = match sess.backend.fetch_cached(input) {
            Ok(quote) => quote,
            Err(e) => { return Err(e); },
        };
        return Ok(exchange_rates_reply(&quote));
    }

    let line = log_input(method, &input);
    log.push(line);

    let res = sess.backend.handle_call(method, input);

    let line = log_output(method, &res);
    log.push(line);
    assert(final(log)@.subrange(0, old(log)@.len() as int) == old(log)@);

    res
}

/// A method that needs no session.
#[derive(Debug, Clone, Copy, PartialEq, Eq, Structural)]
pub enum StatelessMethod {
    Init,
    PsbtExtract,
    PsbtFromTx,
    PsbtMergeTx,
    SpvVerifyTx,
    SpvDownloadHeaders,
    RefreshAssets,
    GetAssets,
}

impl StatelessMethod {
    /// The method that a name stands for, if it stands for one.
    pub open spec fn named(method: Seq<char>) -> Option<StatelessMethod> {
        if method == "init"@ {
            Some(StatelessMethod::Init)
        } else if method == "psbt_extract"@ {
            Some(StatelessMethod::PsbtExtract)
        } else if method == "psbt_from_tx"@ {
            Some(StatelessMethod::PsbtFromTx)
        } else if method == "psbt_merge_tx"@ {
            Some(StatelessMethod::PsbtMergeTx)
        } else if method == "spv_verify_tx"@ {
            Some(StatelessMethod::SpvVerifyTx)
        } else if method == "spv_download_headers"@ {
            Some(StatelessMethod::SpvDownloadHeaders)
        } else if method == "refresh_assets"@ {
            Some(StatelessMethod::RefreshAssets)
        } else if method == "get_assets"@ {
            Some(StatelessMethod::GetAssets)
        } else {
            None
        }
    }

    /// The method that a name stands for, if it stands for one.
    pub fn from_name(method: &str) -> (r: Option<StatelessMethod>)
        ensures
            r == Self::named(method@),
    {
        if same_text(method, "init") {
            Some(StatelessMethod::Init)
        } else if same_text(method, "psbt_extract") {
            Some(StatelessMethod::PsbtExtract)
        } else if same_text(method, "psbt_from_tx") {
            Some(StatelessMethod::PsbtFromTx)
        } else if same_text(method, "psbt_merge_tx") {
            Some(StatelessMethod::PsbtMergeTx)
        } else if same_text(method, "spv_verify_tx") {
            Some(StatelessMethod::SpvVerifyTx)
        } else if same_text(method, "spv_download_headers") {
            Some(StatelessMethod::SpvDownloadHeaders)
        } else if same_text(method, "refresh_assets") {
            Some(StatelessMethod::RefreshAssets)
        } else if same_text(method, "get_assets") {
            Some(StatelessMethod::GetAssets)
        } else {
            None
        }
    }
}

/// The parameters of `init`.
#[derive(Debug, Clone, PartialEq, Eq)]
pub struct InitParam {
    /// The name of the verbosity to log with.
    pub log_level: String,
    /// Where the asset registry keeps its files.
    pub registry_dir: String,
}

/// The free-standing operations behind the stateless methods. Each takes
/// its parameters as parsed JSON and gives the JSON text of its result.
pub trait Collaborators {
    /// Reads the parameters of `init`.
    fn init_param(&mut self, input: Value) -> Result<InitParam, Error>;

    /// Initialises the asset registry in a directory.
    fn registry_init(&mut self, registry_dir: &str) -> Result<(), Error>;

    /// Runs any stateless method but `init`.
    fn run(&mut self, method: StatelessMethod, input: Value) -> Result<String, Error>;
}

/// The state of logging after an initialisation with `level`: the level
/// that was chosen before, or `level` if none was.
pub open spec fn chosen_level(before: Option<LevelFilter>, level: LevelFilter) -> Option<
    LevelFilter,
> {
    match before {
        Some(chosen) => Some(chosen),
        None => Some(level),
    }
}

/// The filter that a name stands for, `Off` where it stands for none.
pub open spec fn level_or_off(name: Seq<char>) -> LevelFilter {
    match level_filter_named(name) {
        Some(filter) => filter,
        None => LevelFilter::Off,
    }
}

/// Runs one stateless method.
///
/// A name that stands for no stateless method fails with `MethodNotFound`,
/// which carries the name and says that no session was involved; the
/// input is not looked at, nothing is called and nothing changes.
///
/// For a known method the input is parsed first. An input that is no JSON
/// fails with the parser's message as a JSON failure; no operation runs
/// and nothing changes.
///
/// `init` then reads its parameters with `init_param`. If that fails, the
/// failure is returned and logging is left alone. Otherwise logging is
/// initialised with the level that the parameters name, `Off` if they
/// name none, which has an effect only the first time; then the registry
/// is initialised in the directory that the parameters give, and the
/// result is the JSON text of the empty string, or the registry's failure.
///
/// Every other method is handed to `run` with the parsed input, and what
/// that returns is returned. Only `init` can touch the state of logging.
pub fn handle_call<K: Collaborators>(
    ops: &mut K,
    logger: &mut LoggerState,
    method: &str,
    input: &str,
) -> (r: Result<String, Error>)
    ensures
        StatelessMethod::named(method@) is None ==> {
            &&& *final(ops) == *old(ops)
            &&& *final(logger) == *old(logger)
            &&& r matches Err(Error::MethodNotFound { method: name, in_session })
                && name@ == method@ && !in_session
        },
        StatelessMethod::named(method@) is Some ==> (json_parse(input@) matches Err(message) ==> {
            &&& *final(ops) == *old(ops)
            &&& *final(logger) == *old(logger)
            &&& r matches Err(Error::JSON(text)) && text@ == message
        }),
        StatelessMethod::named(method@) == Some(StatelessMethod::Init) ==> (json_parse(
            input@,
        ) matches Ok(v) ==> exists|a: &mut K, read: Result<InitParam, Error>|
            {
                &&& *a == *old(ops)
                &&& #[trigger] call_ensures(K::init_param, (a, v), read)
                &&& match read {
                    Err(e) => {
                        &&& r matches Err(f) && f == e
                        &&& *final(ops) == *final(a)
                        &&& *final(logger) == *old(logger)
                    },
                    Ok(param) => {
                        &&& final(logger)@ == chosen_level(
                            old(logger)@,
                            level_or_off(param.log_level@),
                        )
                        &&& exists|b: &mut K, dir: &str, done: Result<(), Error>|
                            {
                                &&& *b == *final(a)
                                &&& *final(b) == *final(ops)
                                &&& dir@ == param.registry_dir@
                                &&& #[trigger] call_ensures(K::registry_init, (b, dir), done)
                                &&& match done {
                                    Err(e) => r matches Err(f) && f == e,
                                    Ok(_) => r matches Ok(text) && text@ == json_quoted(
                                        Seq::<char>::empty(),
                                    ),
                                }
                            }
                    },
                }
            }),
        StatelessMethod::named(method@) matches Some(known) ==> (known != StatelessMethod::Init
            ==> (json_parse(input@) matches Ok(v) ==> {
            &&& *final(logger) == *old(logger)
            &&& exists|s: &mut K|
                *s == *old(ops) && *final(s) == *final(ops) && #[trigger] call_ensures(
                    K::run,
                    (s, known, v),
                    r,
                )
        })),
{
    let known = match StatelessMethod::from_name(method) {
        Some(known) => known,
        None => {
            return Err(Error::MethodNotFound { method: String::from_str(method), in_session: false });
        },
    };
    let input = match parse_json(input) {
        Ok(value) => value,
        Err(message) => { return Err(Error::JSON(message)); },
    };
    let res = match known {
        StatelessMethod::Init => {
            let param = match ops.init_param(input) {
                Ok(param) => param,
                Err(e) => { return Err(e); },
            };
            init_logging(logger, LevelFilter::from_name_or_off(param.log_level.as_str()));
            match ops.registry_init(param.registry_dir.as_str()) {
                Ok(()) => (),
                Err(e) => { return Err(e); },
            };
            let empty = String::new();
            json_quote(empty.as_str())
        },
        other => {
            match ops.run(other, input) {
                Ok(text) => text,
                Err(e) => { return Err(e); },
            }
        },
    };
    Ok(res)
}

/// The status and the text that a stateless call returns for an outcome:
/// the result with `GA_OK`, or the failure as JSON text with `GA_ERROR`.
pub fn call_reply(method: &str, outcome: Result<String, Error>) -> (r: (i32, String))
    ensures
        match outcome {
            Ok(text) => r.0 == GA_OK && r.1@ == text@,
            Err(e) => r.0 == GA_ERROR && r.1@ == wire_text(e.message_spec(), e.code_spec()),
        },
{
    match outcome {
        Ok(value) => (GA_OK, value),
        Err(err) => (GA_ERROR, build_error(method, &err)),
    }
}

/// Runs one stateless method and reports the outcome as a status and a
/// text.
///
/// The call is what `handle_call` makes of it. A result is returned as it
/// is, with `GA_OK`; a failure is returned as JSON text, with `GA_ERROR`,
/// whatever its code. So a name that stands for no stateless method is
/// answered with `GA_ERROR` and the JSON text of a failure whose message
/// names the method and whose code is `id_unknown`; and an input of a
/// known method that is no JSON is answered with `GA_ERROR` and the
/// parser's message under `id_unknown`.
#[allow(non_snake_case)]
pub fn GDKRUST_call<K: Collaborators>(
    ops: &mut K,
    logger: &mut LoggerState,
    method: &str,
    input: &str,
) -> (r: (i32, String))
    ensures
        exists|o: &mut K, g: &mut LoggerState, outcome: Result<String, Error>|
            {
                &&& *o == *old(ops)
                &&& *final(o) == *final(ops)
                &&& *g == *old(logger)
                &&& *final(g) == *final(logger)
                &&& #[trigger] call_ensures(handle_call::<K>, (o, g, method, input), outcome)
                &&& match outcome {
                    Ok(text) => r.0 == GA_OK && r.1@ == text@,
                    Err(e) => r.0 == GA_ERROR && r.1@ == wire_text(
                        e.message_spec(),
                        e.code_spec(),
                    ),
                }
            },
        StatelessMethod::named(method@) is None ==> {
            &&& r.0 == GA_ERROR
            &&& r.1@ == wire_text(method_not_found_text(method@, false), "id_unknown"@)
            &&& *final(ops) == *old(ops)
            &&& *final(logger) == *old(logger)
        },
        StatelessMethod::named(method@) is Some ==> (json_parse(input@) matches Err(message) ==> {
            &&& r.0 == GA_ERROR
            &&& r.1@ == wire_text(message, "id_unknown"@)
            &&& *final(ops) == *old(ops)
            &&& *final(logger) == *old(logger)
        }),
{
    let outcome = handle_call(ops, logger, method, input);
    call_reply(method, outcome)
}

/// A method that is not found is reported under `id_unknown`, which is
/// answered with the general error; and where no session was involved,
/// its message is the method's name between quotes after the words
/// "method not found: ".
pub proof fn lemma_unknown_method(e: Error)
    requires
        e is MethodNotFound,
    ensures
        e.code_spec() == "id_unknown"@,
        status_of_code(e.code_spec()) == GA_ERROR,
        !e->in_session ==> e.message_spec() == "method not found: "@ + debug_quoted(e->method@),
{
    crate::error::lemma_invalid_pin_only(e);
}

} // verus!
