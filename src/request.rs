//! The request as the connection core sees it, and where a redirect sends it.
use vstd::prelude::*;

use crate::error::Error;
use crate::text::{char_index, has_prefix, index_of, starts_with};

verus! {

/// An HTTP request method.
#[derive(Debug, Clone, Copy, PartialEq, Eq, Structural)]
pub enum Method {
    Get,
    Head,
    Post,
    Put,
    Delete,
    Connect,
    Options,
    Trace,
    Patch,
}

/// An HTTP proxy that tunnels the connection with `CONNECT`.
pub struct Proxy {
    pub server: String,
    pub port: u16,
}

/// One request to send. `host` always carries an explicit port
/// (`name:port`); `resource` is the path and query sent on the request line.
pub struct Request {
    pub method: Method,
    pub https: bool,
    pub host: String,
    pub resource: String,
    pub body: Vec<u8>,
    pub timeout: Option<u64>,
    pub proxy: Option<Proxy>,
}

/// Where an absolute URL points.
pub struct Target {
    pub https: bool,
    pub host: String,
    pub resource: String,
}

pub open spec fn http_prefix() -> Seq<char> {
    seq!['h', 't', 't', 'p', ':', '/', '/']
}

pub open spec fn https_prefix() -> Seq<char> {
    seq!['h', 't', 't', 'p', 's', ':', '/', '/']
}

/// The length of the URL's `http://` or `https://` scheme, 0 when it has none.
pub open spec fn scheme_len(url: Seq<char>) -> int {
    if has_prefix(url, http_prefix()) {
        7
    } else if has_prefix(url, https_prefix()) {
        8
    } else {
        0
    }
}

pub open spec fn is_absolute(url: Seq<char>) -> bool {
    scheme_len(url) > 0
}

pub open spec fn is_https_url(url: Seq<char>) -> bool {
    scheme_len(url) == 8
}

/// What follows the scheme.
pub open spec fn url_rest(url: Seq<char>) -> Seq<char> {
    url.skip(scheme_len(url))
}

/// The authority: what follows the scheme, up to the first `/`.
pub open spec fn url_authority(url: Seq<char>) -> Seq<char> {
    url_rest(url).take(index_of(url_rest(url), '/'))
}

pub open spec fn default_port(https: bool) -> Seq<char> {
    if https {
        seq![':', '4', '4', '3']
    } else {
        seq![':', '8', '0']
    }
}

/// The host with its port: the authority, given the scheme's default port
/// when it names none.
pub open spec fn url_host(url: Seq<char>) -> Seq<char> {
    let a = url_authority(url);
    if index_of(a, ':') < a.len() {
        a
    } else {
        a + default_port(is_https_url(url))
    }
}

/// The path and query of an absolute URL, `/` when it has none.
pub open spec fn url_resource(url: Seq<char>) -> Seq<char> {
    let rest = url_rest(url);
    if index_of(rest, '/') < rest.len() {
        rest.skip(index_of(rest, '/'))
    } else {
        seq!['/']
    }
}

/// Why a redirect to `url` cannot be followed, if it cannot.
pub open spec fn redirect_error(url: Seq<char>) -> Option<Error> {
    if is_absolute(url) && url_authority(url).len() == 0 {
        Some(Error::InvalidRedirectUrl)
    } else {
        None
    }
}

/// `new` is `old` sent to `url` instead, method aside: an absolute URL
/// replaces scheme, host and resource; any other value replaces the
/// resource alone.
pub open spec fn redirected(new: Request, old: Request, url: Seq<char>) -> bool {
    &&& new.body == old.body
    &&& new.timeout == old.timeout
    &&& new.proxy == old.proxy
    &&& if is_absolute(url) {
        &&& new.https == is_https_url(url)
        &&& new.host@ == url_host(url)
        &&& new.resource@ == url_resource(url)
    } else {
        &&& new.https == old.https
        &&& new.host@ == old.host@
        &&& new.resource@ == url
    }
}

proof fn lemma_schemes_exclusive(url: Seq<char>)
    ensures
        !(has_prefix(url, http_prefix()) && has_prefix(url, https_prefix())),
{
    if has_prefix(url, http_prefix()) && has_prefix(url, https_prefix()) {
        assert(url.take(7)[4] == ':');
        assert(url.take(8)[4] == 's');
    }
}

/// Splits an absolute `http://` or `https://` URL into scheme, host with
/// port, and resource. A URL with an empty authority is refused.
pub fn split_url(url: &str) -> (r: Result<Target, Error>)
    requires
        is_absolute(url@),
    ensures
        r is Err <==> url_authority(url@).len() == 0,
        r is Err ==> r == Err::<Target, Error>(Error::InvalidRedirectUrl),
        r matches Ok(t) ==> t.https == is_https_url(url@) && t.host@ == url_host(url@)
            && t.resource@ == url_resource(url@),
{
    proof {
        reveal_strlit("https://");
        lemma_schemes_exclusive(url@);
        assert("https://"@ =~= https_prefix());
    }
    let https = starts_with(url, "https://");
    let k: usize = if https {
        8
    } else {
        7
    };
    assert(k == scheme_len(url@));
    let n = url.unicode_len();
    let rest = url.substring_char(k, n);
    assert(rest@ =~= url_rest(url@));
    let rest_len = rest.unicode_len();
    let slash = char_index(rest, '/');
    let authority = rest.substring_char(0, slash);
    assert(authority@ =~= url_authority(url@));
    if slash == 0 {
        return Err(Error::InvalidRedirectUrl);
    }
    let colon = char_index(authority, ':');
    let host = if colon < slash {
        String::from_str(authority)
    } else if https {
        proof {
            reveal_strlit(":443");
        }
        let h = String::from_str(authority).concat(":443");
        assert(":443"@ =~= default_port(true));
        h
    } else {
        proof {
            reveal_strlit(":80");
        }
        let h = String::from_str(authority).concat(":80");
        assert(":80"@ =~= default_port(false));
        h
    };
    let resource = if slash < rest_len {
        String::from_str(rest.substring_char(slash, rest_len))
    } else {
        proof {
            reveal_strlit("/");
        }
        let slash_only = String::from_str("/");
        assert(slash_only@ =~= seq!['/']);
        slash_only
    };
    Ok(Target { https, host, resource })
}

impl Request {
    /// The request that follows a redirect to `url`, with the same method.
    pub fn redirect_to(self, url: &str) -> (r: Result<Request, Error>)
        ensures
            r is Err <==> redirect_error(url@) is Some,
            r matches Err(e) ==> redirect_error(url@) == Some(e),
            r matches Ok(n) ==> redirected(n, self, url@) && n.method == self.method,
    {
        proof {
            reveal_strlit("http://");
            reveal_strlit("https://");
            assert("http://"@ =~= http_prefix());
            assert("https://"@ =~= https_prefix());
        }
        if starts_with(url, "http://") || starts_with(url, "https://") {
            match split_url(url) {
                Ok(t) => Ok(
                    Request {
                        method: self.method,
                        https: t.https,
                        host: t.host,
                        resource: t.resource,
                        body: self.body,
                        timeout: self.timeout,
                        proxy: self.proxy,
                    },
                ),
                Err(e) => Err(e),
            }
        } else {
            Ok(
                Request {
                    method: self.method,
                    https: self.https,
                    host: self.host,
                    resource: String::from_str(url),
                    body: self.body,
                    timeout: self.timeout,
                    proxy: self.proxy,
                },
            )
        }
    }
}

} // verus!
