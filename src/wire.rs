//! The request head as it goes on the wire.
use vstd::prelude::*;

use crate::request::{Method, Request};

verus! {

pub open spec fn digit_char(d: int) -> char {
    seq!['0', '1', '2', '3', '4', '5', '6', '7', '8', '9'][d]
}

/// The decimal digits of `n`, most significant first, without leading zeros.
pub open spec fn decimal(n: nat) -> Seq<char>
    decreases n,
{
    if n < 10 {
        seq![digit_char(n as int)]
    } else {
        decimal(n / 10) + seq![digit_char((n % 10) as int)]
    }
}

fn digit_text(d: usize) -> (r: &'static str)
    requires
        d < 10,
    ensures
        r@ == seq![digit_char(d as int)],
{
    proof {
        reveal_strlit("0");
        reveal_strlit("1");
        reveal_strlit("2");
        reveal_strlit("3");
        reveal_strlit("4");
        reveal_strlit("5");
        reveal_strlit("6");
        reveal_strlit("7");
        reveal_strlit("8");
        reveal_strlit("9");
    }
    let r = match d {
        0 => "0",
        1 => "1",
        2 => "2",
        3 => "3",
        4 => "4",
        5 => "5",
        6 => "6",
        7 => "7",
        8 => "8",
        _ => "9",
    };
    assert(r@ =~= seq![digit_char(d as int)]);
    r
}

/// Writes `n` in decimal.
pub fn decimal_text(n: usize) -> (r: String)
    ensures
        r@ == decimal(n as nat),
    decreases n,
{
    if n < 10 {
        String::from_str(digit_text(n))
    } else {
        decimal_text(n / 10).concat(digit_text(n % 10))
    }
}

/// The method's name on the request line.
pub open spec fn method_text(method: Method) -> Seq<char> {
    match method {
        Method::Get => "GET"@,
        Method::Head => "HEAD"@,
        Method::Post => "POST"@,
        Method::Put => "PUT"@,
        Method::Delete => "DELETE"@,
        Method::Connect => "CONNECT"@,
        Method::Options => "OPTIONS"@,
        Method::Trace => "TRACE"@,
        Method::Patch => "PATCH"@,
    }
}

impl Method {
    /// The method's name on the request line.
    pub fn name(&self) -> (r: &'static str)
        ensures
            r@ == method_text(*self),
    {
        match self {
            Method::Get => "GET",
            Method::Head => "HEAD",
            Method::Post => "POST",
            Method::Put => "PUT",
            Method::Delete => "DELETE",
            Method::Connect => "CONNECT",
            Method::Options => "OPTIONS",
            Method::Trace => "TRACE",
            Method::Patch => "PATCH",
        }
    }
}

/// The head of a request: request line, `Host`, a `Content-Length` when
/// there is a body, and the blank line that ends the head.
pub open spec fn request_head(request: Request) -> Seq<char> {
    let line = method_text(request.method) + " "@ + request.resource@ + " HTTP/1.1\r\nHost: "@
        + request.host@ + "\r\n"@;
    if request.body@.len() > 0 {
        line + "Content-Length: "@ + decimal(request.body@.len()) + "\r\n\r\n"@
    } else {
        line + "\r\n"@
    }
}

impl Request {
    /// Writes the head of the request; the body follows it on the wire.
    pub fn head(&self) -> (r: String)
        ensures
            r@ == request_head(*self),
    {
        let line = String::from_str(self.method.name()).concat(" ").concat(
            self.resource.as_str(),
        ).concat(" HTTP/1.1\r\nHost: ").concat(self.host.as_str()).concat("\r\n");
        if self.body.len() > 0 {
            let length = decimal_text(self.body.len());
            line.concat("Content-Length: ").concat(length.as_str()).concat("\r\n\r\n")
        } else {
            line.concat("\r\n")
        }
    }
}

} // verus!
