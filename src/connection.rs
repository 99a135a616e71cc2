//! A connection: one attempt at sending one request, and what happens to it
//! between the blocking steps that the I/O driver performs.
use vstd::prelude::*;

use crate::error::{Error, IoErrorKind};
use crate::host::{ascii_host, ensure_ascii_host};
use crate::request::{redirect_error, redirected, Method, Request};
use crate::timing::{
    budget_of,
    deadline_at,
    deadline_fits,
    deadline_of,
    parse_timeout_secs,
    parse_u64,
    remaining_at,
    timeout_duration,
};

verus! {

/// A connection to the server for sending one [`Request`]. It is made for
/// each attempt, redirect hops included, and consumed by sending it.
pub struct Connection {
    pub request: Request,
    /// The timeout in whole seconds; `None` leaves the send unbounded.
    pub timeout: Option<u64>,
}

/// A connection whose host is in wire form, with its time budget and
/// absolute deadline fixed at the start of the send.
pub struct Started {
    pub connection: Connection,
    pub timeout: Option<u128>,
    pub timeout_at: Option<u128>,
}

/// What a response leads to: itself, or a follow-up request.
pub enum Next<R> {
    Done(R),
    Follow(Request),
}

pub open spec fn str_view(s: Option<&str>) -> Option<Seq<char>> {
    match s {
        Some(t) => Some(t@),
        None => None,
    }
}

/// The timeout of a connection: the request's own, else a readable setting
/// of the environment, else none.
pub open spec fn resolved_timeout(explicit: Option<u64>, setting: Option<Seq<char>>) -> Option<
    u64,
> {
    match explicit {
        Some(t) => Some(t),
        None => match setting {
            Some(e) => parse_u64(e),
            None => None,
        },
    }
}

pub open spec fn is_redirect_status(status_code: i32) -> bool {
    status_code == 301 || status_code == 302 || status_code == 303 || status_code == 307
}

/// The method of the follow-up request: "see other" turns POST, PUT and
/// DELETE into GET; everything else keeps its method.
pub open spec fn follow_up_method(status_code: i32, method: Method) -> Method {
    if status_code == 303 && (method == Method::Post || method == Method::Put || method
        == Method::Delete) {
        Method::Get
    } else {
        method
    }
}

/// `new` is the follow-up of `old` for a redirect with this status to `url`.
pub open spec fn follow_up(new: Request, old: Request, status_code: i32, url: Seq<char>) -> bool {
    redirected(new, old, url) && new.method == follow_up_method(status_code, old.method)
}

/// The redirect decision law for methods: "see other" (303) downgrades POST,
/// PUT and DELETE to GET and keeps other methods; 301, 302 and 307 always
/// keep the method.
pub proof fn law_redirect_method(status_code: i32, method: Method)
    requires
        is_redirect_status(status_code),
    ensures
        status_code == 303 && (method == Method::Post || method == Method::Put || method
            == Method::Delete) ==> follow_up_method(status_code, method) == Method::Get,
        status_code == 303 && !(method == Method::Post || method == Method::Put || method
            == Method::Delete) ==> follow_up_method(status_code, method) == method,
        status_code != 303 ==> follow_up_method(status_code, method) == method,
{
}

/// A request without a timeout, sent where the environment gives none that
/// reads as a number, gets a connection without a timeout: no budget and no
/// deadline, so connect, write and every read run unbounded.
pub proof fn law_no_timeout_is_unbounded(setting: Option<Seq<char>>, now: u128, later: u128)
    requires
        setting is None || parse_u64(setting->0) is None,
    ensures
        resolved_timeout(None, setting) is None,
        budget_of(resolved_timeout(None, setting)) is None,
        deadline_of(resolved_timeout(None, setting), now) is None,
        remaining_at(deadline_of(None, now), later, Error::DeadlineExceeded) == Ok::<
            Option<u128>,
            Error,
        >(None),
        remaining_at(deadline_of(None, now), later, Error::IoError(IoErrorKind::TimedOut)) == Ok::<Option<u128>, Error>(
            None,
        ),
{
}

impl Connection {
    /// Creates a connection for `request`. Its timeout is the request's own,
    /// else `env_timeout` (the text of the environment's default) when that
    /// reads as a number of seconds, else none.
    pub fn new(request: Request, env_timeout: Option<&str>) -> (r: Connection)
        ensures
            r.request == request,
            r.timeout == resolved_timeout(request.timeout, str_view(env_timeout)),
    {
        let timeout = match request.timeout {
            Some(t) => Some(t),
            None => match env_timeout {
                Some(e) => parse_timeout_secs(e),
                None => None,
            },
        };
        Connection { request, timeout }
    }

    /// Starts a send at `now`: puts the host in wire form and fixes the time
    /// budget and the absolute deadline.
    pub fn start(self, now: u128) -> (r: Result<Started, Error>)
        requires
            deadline_fits(self.timeout, now),
        ensures
            r is Ok <==> ascii_host(self.request.host@) is Some,
            r is Err ==> r == Err::<Started, Error>(Error::PunycodeConversionFailed),
            r matches Ok(s) ==> {
                &&& s.connection.request.host@ == ascii_host(self.request.host@)->0
                &&& s.connection.request.method == self.request.method
                &&& s.connection.request.https == self.request.https
                &&& s.connection.request.resource == self.request.resource
                &&& s.connection.request.body == self.request.body
                &&& s.connection.request.timeout == self.request.timeout
                &&& s.connection.request.proxy == self.request.proxy
                &&& s.connection.timeout == self.timeout
                &&& s.timeout == budget_of(self.timeout)
                &&& s.timeout_at == deadline_of(self.timeout, now)
            },
    {
        let Connection { request, timeout } = self;
        let Request { method, https, host, resource, body, timeout: request_timeout, proxy } =
            request;
        let host = match ensure_ascii_host(host) {
            Ok(h) => h,
            Err(e) => return Err(e),
        };
        let request = Request {
            method,
            https,
            host,
            resource,
            body,
            timeout: request_timeout,
            proxy,
        };
        Ok(
            Started {
                connection: Connection { request, timeout },
                timeout: timeout_duration(timeout),
                timeout_at: deadline_at(timeout, now),
            },
        )
    }
}

/// Decides whether a response with `status_code` and the `Location` value
/// `url` is followed: `None` for a status that is not a redirect, an error
/// for a redirect without a target or with a target that cannot be used,
/// else the follow-up request.
pub fn get_redirect(connection: Connection, status_code: i32, url: Option<&String>) -> (r: Option<
    Result<Request, Error>,
>)
    ensures
        r is None <==> !is_redirect_status(status_code),
        is_redirect_status(status_code) && url is None ==> r == Some(
            Err::<Request, Error>(Error::RedirectLocationMissing),
        ),
        is_redirect_status(status_code) && url is Some ==> match redirect_error(url->0@) {
            Some(e) => r == Some(Err::<Request, Error>(e)),
            None => r matches Some(Ok(n)) && follow_up(n, connection.request, status_code, url->0@),
        },
{
    if status_code == 301 || status_code == 302 || status_code == 303 || status_code == 307 {
        let url = match url {
            Some(url) => url,
            None => return Some(Err(Error::RedirectLocationMissing)),
        };
        match connection.request.redirect_to(url.as_str()) {
            Ok(mut request) => {
                if status_code == 303 {
                    match request.method {
                        Method::Post | Method::Put | Method::Delete => {
                            request.method = Method::Get;
                        },
                        _ => {},
                    }
                }
                Some(Ok(request))
            },
            Err(err) => Some(Err(err)),
        }
    } else {
        None
    }
}

/// Turns a response into what comes next: a status that is not a redirect
/// hands back the response itself; a redirect gives the follow-up request,
/// or the error that stops it.
pub fn handle_redirects<R>(
    connection: Connection,
    response: R,
    status_code: i32,
    location: Option<&String>,
) -> (r: Result<Next<R>, Error>)
    ensures
        !is_redirect_status(status_code) ==> r == Ok::<Next<R>, Error>(Next::Done(response)),
        is_redirect_status(status_code) && location is None ==> r == Err::<Next<R>, Error>(
            Error::RedirectLocationMissing,
        ),
        is_redirect_status(status_code) && location is Some ==> match redirect_error(
            location->0@,
        ) {
            Some(e) => r == Err::<Next<R>, Error>(e),
            None => r matches Ok(Next::Follow(n)) && follow_up(
                n,
                connection.request,
                status_code,
                location->0@,
            ),
        },
{
    match get_redirect(connection, status_code, location) {
        Some(Ok(request)) => Ok(Next::Follow(request)),
        Some(Err(e)) => Err(e),
        None => Ok(Next::Done(response)),
    }
}

} // verus!
