//! Sessions: what a backend must offer, the backend that offers nothing
//! yet, how a session is made from a network configuration, and the table
//! that keeps the live sessions and hands out their handles.
//!
//! A handle is the number of the session in the table. No number is given
//! out twice, so the handle of a destroyed session never comes to mean
//! another session.

use crate::dispatch::{call_session, reply_status, reply_text, session_reply};
use crate::error::{method_not_found_text, Error};
use crate::exchange_rates::{ExchangeRatesCacher, RateQuote};
use crate::json::{json_member, json_parse, json_str, parse_json, value_member, value_str};
use crate::text::same_text;
use crate::wire::JsonError;
use crate::{GA_ERROR, GA_OK};
use serde_json::Value;
use vstd::prelude::*;
use vstd::string::*;

verus! {

/// A wallet backend that a session can own: it is made from a network
/// configuration, answers calls by name, can be asked for exchange rates,
/// and takes the handler that it notifies of wallet events. When and how
/// often it calls the handler is its own business.
pub trait Session: ExchangeRatesCacher + Sized {
    /// What the backend notifies.
    type Notify;

    fn new(network: &Value) -> Result<Self, JsonError>;

    fn handle_call(&mut self, method: &str, input: Value) -> Result<Value, JsonError>;

    fn set_notification(&mut self, handler: Self::Notify);
}

/// The backend that is yet to come: it knows no method. All it holds is
/// its cache of exchange rates.
pub struct GreenlightSession<C> {
    pub xr_cache: C,
}

impl<C> GreenlightSession<C> {
    /// The cache of exchange rates of this session.
    pub fn xr_cache(&self) -> (r: &C)
        ensures
            *r == self.xr_cache,
    {
        &self.xr_cache
    }

    /// Answers every call with the failure that the method is not found in
    /// the session, and changes nothing.
    pub fn handle_call(&mut self, method: &str, _input: Value) -> (r: Result<Value, JsonError>)
        ensures
            r matches Err(e) && e.message@ == method_not_found_text(method@, true) && e.error@
                == "id_unknown"@,
            *final(self) == *old(self),
    {
        let failure = Error::MethodNotFound { method: String::from_str(method), in_session: true };
        Err(JsonError::from(failure))
    }
}

impl<C: ExchangeRatesCacher> ExchangeRatesCacher for GreenlightSession<C> {
    /// Asks the session's cache, and returns what the cache returns.
    fn fetch_cached(&mut self, params: Value) -> (r: Result<RateQuote, JsonError>)
        ensures
            exists|c: &mut C|
                *c == old(self).xr_cache && *final(c) == final(self).xr_cache
                    && #[trigger] call_ensures(C::fetch_cached, (c, params), r),
    {
        self.xr_cache.fetch_cached(params)
    }
}

impl<C: Default> Default for GreenlightSession<C> {
    /// A session with the cache that `C` starts with.
    fn default() -> (r: Self)
        ensures
            call_ensures(C::default, (), r.xr_cache),
    {
        GreenlightSession { xr_cache: C::default() }
    }
}

/// The backend of a session: one of the kinds of wallet engine.
pub enum GdkBackend<E, C> {
    Electrum(E),
    Greenlight(GreenlightSession<C>),
}

/// A session: it owns exactly one backend.
pub struct GdkSession<E, C> {
    pub backend: GdkBackend<E, C>,
}

impl<E: Session, C: ExchangeRatesCacher> GdkBackend<E, C> {
    /// Hands a call to the backend and returns what it returns. The kind
    /// of the backend never changes. A wallet backend is called with the
    /// method and the input as they are; the backend that is yet to come
    /// stays as it is and fails with the method not found in the session.
    pub fn handle_call(&mut self, method: &str, input: Value) -> (r: Result<Value, JsonError>)
        ensures
            match *old(self) {
                GdkBackend::Electrum(before) => *final(self) matches GdkBackend::Electrum(after)
                    && exists|s: &mut E|
                    *s == before && *final(s) == after && #[trigger] call_ensures(
                        E::handle_call,
                        (s, method, input),
                        r,
                    ),
                GdkBackend::Greenlight(_) => {
                    &&& *final(self) == *old(self)
                    &&& r matches Err(e) && e.message@ == method_not_found_text(method@, true)
                        && e.error@ == "id_unknown"@
                },
            },
    {
        match self {
            GdkBackend::Electrum(s) => s.handle_call(method, input),
            GdkBackend::Greenlight(s) => s.handle_call(method, input),
        }
    }

    /// Asks the backend for an exchange rate and returns what it returns.
    /// The kind of the backend never changes. A wallet backend is asked
    /// itself; of the backend that is yet to come, the cache is asked.
    pub fn fetch_cached(&mut self, params: Value) -> (r: Result<RateQuote, JsonError>)
        ensures
            match *old(self) {
                GdkBackend::Electrum(before) => *final(self) matches GdkBackend::Electrum(after)
                    && exists|s: &mut E|
                    *s == before && *final(s) == after && #[trigger] call_ensures(
                        E::fetch_cached,
                        (s, params),
                        r,
                    ),
                GdkBackend::Greenlight(before) => *final(self) matches GdkBackend::Greenlight(
                    after,
                ) && exists|c: &mut C|
                    *c == before.xr_cache && *final(c) == after.xr_cache
                        && #[trigger] call_ensures(C::fetch_cached, (c, params), r),
            },
    {
        match self {
            GdkBackend::Electrum(s) => s.fetch_cached(params),
            GdkBackend::Greenlight(s) => s.fetch_cached(params),
        }
    }

    /// Gives the backend the handler to notify. The kind of the backend
    /// never changes. A wallet backend is given the handler; the backend
    /// that is yet to come takes none and stays as it is.
    pub fn set_notification(&mut self, handler: E::Notify)
        ensures
            match *old(self) {
                GdkBackend::Electrum(before) => *final(self) matches GdkBackend::Electrum(after)
                    && exists|s: &mut E|
                    *s == before && *final(s) == after && #[trigger] call_ensures(
                        E::set_notification,
                        (s, handler),
                        (),
                    ),
                GdkBackend::Greenlight(_) => *final(self) == *old(self),
            },
    {
        match self {
            GdkBackend::Electrum(s) => s.set_notification(handler),
            GdkBackend::Greenlight(_s) => (),
        }
    }
}

/// The kind of backend that a network configuration asks for: the text
/// under "server_type", if the configuration is an object and holds a
/// string there.
pub open spec fn server_type_of(network: Value) -> Option<Seq<char>> {
    match json_member(network, "server_type"@) {
        Some(kind) => json_str(kind),
        None => None,
    }
}

/// The failure that has no code of its own, with the given description.
fn generic_failure(message: &str) -> (r: JsonError)
    ensures
        r.message@ == message@,
        r.error@ == "id_unknown"@,
{
    JsonError::from(Error::Generic(String::from_str(message)))
}

/// What making a session from a network configuration gives.
///
/// A configuration that is no object, or has no member "server_type",
/// fails; so does one whose "server_type" is not the string "electrum" or
/// "greenlight". Both fail with the code `id_unknown`, before a backend is
/// made. "greenlight" always gives a session, with the cache that `C`
/// starts with. "electrum" hands the configuration to the backend: the
/// session owns the backend that was made, or the backend's failure is
/// returned as it is.
pub open spec fn create_session_post<E: Session, C: ExchangeRatesCacher + Default>(
    network: &Value,
    r: Result<GdkSession<E, C>, JsonError>,
) -> bool {
    if json_member(*network, "server_type"@) is None {
        r matches Err(e) && e.message@ == "Expected network to be an object with a server_type key"@
            && e.error@ == "id_unknown"@
    } else if server_type_of(*network) == Some("greenlight"@) {
        r matches Ok(session) && (session.backend matches GdkBackend::Greenlight(g)
            && call_ensures(C::default, (), g.xr_cache))
    } else if server_type_of(*network) == Some("electrum"@) {
        exists|made: Result<E, JsonError>| #[trigger]
            call_ensures(E::new, (network,), made) && match made {
                Ok(backend) => r matches Ok(session) && session.backend == GdkBackend::<
                    E,
                    C,
                >::Electrum(backend),
                Err(e) => r matches Err(f) && f == e,
            }
    } else {
        r matches Err(e) && e.message@ == "server_type invalid"@ && e.error@ == "id_unknown"@
    }
}

/// Makes a session from a network configuration.
pub fn create_session<E: Session, C: ExchangeRatesCacher + Default>(network: &Value) -> (r: Result<
    GdkSession<E, C>,
    JsonError,
>)
    ensures
        create_session_post::<E, C>(network, r),
{
    proof {
        reveal_strlit("electrum");
        reveal_strlit("greenlight");
        assert("electrum"@.len() != "greenlight"@.len());
    }
    let kind = match value_member(network, "server_type") {
        Some(kind) => kind,
        None => {
            return Err(generic_failure("Expected network to be an object with a server_type key"));
        },
    };
    let backend = match value_str(kind) {
        Some(name) => {
            if same_text(name, "greenlight") {
                GdkBackend::Greenlight(GreenlightSession::default())
            } else if same_text(name, "electrum") {
                match E::new(network) {
                    Ok(session) => GdkBackend::Electrum(session),
                    Err(e) => { return Err(e); },
                }
            } else {
                return Err(generic_failure("server_type invalid"));
            }
        },
        None => {
            return Err(generic_failure("server_type invalid"));
        },
    };
    Ok(GdkSession { backend })
}

/// The table of sessions.
pub struct SessionRegistry<E, C> {
    slots: Vec<Option<GdkSession<E, C>>>,
}

impl<E, C> SessionRegistry<E, C> {
    /// Whether `handle` was ever given out.
    pub closed spec fn was_issued(&self, handle: usize) -> bool {
        handle < self.slots.len()
    }

    /// Whether `handle` stands for a session that was made and not yet
    /// destroyed.
    pub closed spec fn is_live(&self, handle: usize) -> bool {
        handle < self.slots.len() && self.slots[handle as int] is Some
    }

    /// The session that a live handle stands for.
    pub closed spec fn session(&self, handle: usize) -> GdkSession<E, C> {
        self.slots[handle as int]->0
    }

    /// Every handle but `handle` means after what it meant before.
    pub open spec fn same_but(&self, before: &Self, handle: usize) -> bool {
        forall|k: usize|
            k != handle ==> {
                &&& #[trigger] self.is_live(k) == before.is_live(k)
                &&& self.was_issued(k) == before.was_issued(k)
                &&& before.is_live(k) ==> self.session(k) == before.session(k)
            }
    }

    /// A table without sessions: no handle was given out.
    pub fn new() -> (r: Self)
        ensures
            forall|h: usize| !r.was_issued(h) && !r.is_live(h),
    {
        SessionRegistry { slots: Vec::new() }
    }

    /// Whether `handle` stands for a live session.
    pub fn contains(&self, handle: usize) -> (r: bool)
        ensures
            r == self.is_live(handle),
    {
        handle < self.slots.len() && self.slots[handle].is_some()
    }

    /// A live handle was given out.
    pub proof fn lemma_live_was_issued(&self, handle: usize)
        requires
            self.is_live(handle),
        ensures
            self.was_issued(handle),
    {
    }
}

/// Makes a session from the text of a network configuration and puts it in
/// the table.
///
/// The text is parsed and the session is made as `create_session` makes
/// it. If both succeed, the status is `GA_OK` and the handle is new: it was
/// never given out before, it stands for the session that was made, and
/// every other handle means what it meant. If the text is no JSON or the
/// session cannot be made, the status is `GA_ERROR`, there is no handle,
/// and the table is as it was.
#[allow(non_snake_case)]
pub fn GDKRUST_create_session<E: Session, C: ExchangeRatesCacher + Default>(
    registry: &mut SessionRegistry<E, C>,
    network: &str,
) -> (r: (i32, Option<usize>))
    ensures
        r.0 == if r.1 is Some {
            GA_OK
        } else {
            GA_ERROR
        },
        r.1 is None ==> *final(registry) == *old(registry),
        r.1 matches Some(handle) ==> {
            &&& !old(registry).was_issued(handle)
            &&& final(registry).was_issued(handle)
            &&& final(registry).is_live(handle)
            &&& final(registry).same_but(old(registry), handle)
        },
        match json_parse(network@) {
            Err(_) => r.1 is None,
            Ok(v) => exists|made: Result<GdkSession<E, C>, JsonError>| #[trigger]
                create_session_post::<E, C>(&v, made) && match made {
                    Ok(session) => r.1 matches Some(handle) && final(registry).session(handle)
                        == session,
                    Err(_) => r.1 is None,
                },
        },
{
    let network = match parse_json(network) {
        Ok(value) => value,
        Err(_) => { return (GA_ERROR, None); },
    };
    match create_session::<E, C>(&network) {
        Err(_) => (GA_ERROR, None),
        Ok(session) => {
            let handle = registry.slots.len();
            registry.slots.push(Some(session));
            (GA_OK, Some(handle))
        },
    }
}

/// Runs one method on the session that `handle` stands for, and reports
/// the outcome as a status and a text.
///
/// A handle that stands for no live session is refused with `GA_ERROR` and
/// no text, and nothing changes. Otherwise the call is what `call_session`
/// makes of it on that session and this log, the status and the text are
/// those of its outcome, and no other session is touched.
#[allow(non_snake_case)]
pub fn GDKRUST_call_session<E: Session, C: ExchangeRatesCacher>(
    registry: &mut SessionRegistry<E, C>,
    handle: usize,
    method: &str,
    input: &str,
    log: &mut Vec<String>,
) -> (r: (i32, Option<String>))
    ensures
        !old(registry).is_live(handle) ==> {
            &&& r.0 == GA_ERROR
            &&& r.1 is None
            &&& *final(registry) == *old(registry)
            &&& final(log)@ == old(log)@
        },
        final(registry).is_live(handle) == old(registry).is_live(handle),
        final(registry).was_issued(handle) == old(registry).was_issued(handle),
        final(registry).same_but(old(registry), handle),
        old(registry).is_live(handle) ==> exists|
            s: &mut GdkSession<E, C>,
            l: &mut Vec<String>,
            outcome: Result<Value, JsonError>,
        |
            {
                &&& *s == old(registry).session(handle)
                &&& *final(s) == final(registry).session(handle)
                &&& *l == *old(log)
                &&& *final(l) == *final(log)
                &&& #[trigger] call_ensures(call_session::<E, C>, (s, method, input, l), outcome)
                &&& r.0 == reply_status(outcome)
                &&& r.1 matches Some(text) && text@ == reply_text(outcome)
            },
{
    if !registry.contains(handle) {
        return (GA_ERROR, None);
    }
    match &mut registry.slots[handle] {
        Some(session) => {
            let outcome = call_session(session, method, input, log);
            let (status, text) = session_reply(&outcome);
            (status, Some(text))
        },
        None => (GA_ERROR, None),
    }
}

/// Gives the backend of a session the handler to notify. A handle that
/// stands for no live session is refused with `GA_ERROR` and nothing
/// changes. Otherwise the status is `GA_OK`, the backend of that session
/// is given the handler as `set_notification` gives it, and no other
/// session is touched.
#[allow(non_snake_case)]
pub fn GDKRUST_set_notification_handler<E: Session, C: ExchangeRatesCacher>(
    registry: &mut SessionRegistry<E, C>,
    handle: usize,
    handler: E::Notify,
) -> (r: i32)
    ensures
        r == if old(registry).is_live(handle) {
            GA_OK
        } else {
            GA_ERROR
        },
        !old(registry).is_live(handle) ==> *final(registry) == *old(registry),
        final(registry).is_live(handle) == old(registry).is_live(handle),
        final(registry).was_issued(handle) == old(registry).was_issued(handle),
        final(registry).same_but(old(registry), handle),
        old(registry).is_live(handle) ==> exists|b: &mut GdkBackend<E, C>|
            {
                &&& *b == old(registry).session(handle).backend
                &&& *final(b) == final(registry).session(handle).backend
                &&& #[trigger] call_ensures(
                    GdkBackend::<E, C>::set_notification,
                    (b, handler),
                    (),
                )
            },
{
    if !registry.contains(handle) {
        return GA_ERROR;
    }
    match &mut registry.slots[handle] {
        Some(session) => {
            session.backend.set_notification(handler);
            GA_OK
        },
        None => GA_ERROR,
    }
}

/// Destroys the session that `handle` stands for. Afterwards the handle
/// stands for nothing, for good; every other handle means what it meant.
/// A handle that stands for no live session is turned away: nothing is
/// looked at behind it and the table stays as it is. So to destroy twice
/// does no harm.
#[allow(non_snake_case)]
pub fn GDKRUST_destroy_session<E, C>(registry: &mut SessionRegistry<E, C>, handle: usize)
    ensures
        !final(registry).is_live(handle),
        final(registry).was_issued(handle) == old(registry).was_issued(handle),
        final(registry).same_but(old(registry), handle),
        !old(registry).is_live(handle) ==> *final(registry) == *old(registry),
{
    if !registry.contains(handle) {
        return ;
    }
    registry.slots[handle] = None;
}

} // verus!
