//! What the HTTP layer decides around the handlers: how a rejected JSON body
//! is answered, which headers every response carries for cross-origin
//! clients, and at which level a request is logged.
use vstd::prelude::*;
use crate::error::ErrorKind;
use crate::text::same_text;

verus! {

/// A request body read as JSON.
pub struct Json<T>(pub T);

/// Why a JSON body was rejected.
#[derive(Clone, Copy, Debug, PartialEq, Eq, Structural)]
pub enum JsonRejection {
    /// The body is JSON but not of the expected shape.
    JsonDataError,
    /// The body is not JSON.
    JsonSyntaxError,
    /// The request does not say that its body is JSON.
    MissingJsonContentType,
    /// The body could not be read at all.
    BytesRejection,
}

impl<T> Json<T> {
    /// The error a rejected body is answered with: a body that the client got
    /// wrong is an invalid payload; anything else is the service's failure.
    pub fn rejection_kind(rejection: JsonRejection) -> (k: ErrorKind)
        ensures
            k == (match rejection {
                JsonRejection::JsonDataError => ErrorKind::InvalidPayload,
                JsonRejection::JsonSyntaxError => ErrorKind::InvalidPayload,
                JsonRejection::MissingJsonContentType => ErrorKind::InvalidPayload,
                JsonRejection::BytesRejection => ErrorKind::InternalFailure,
            }),
    {
        match rejection {
            JsonRejection::JsonDataError
            | JsonRejection::JsonSyntaxError
            | JsonRejection::MissingJsonContentType => ErrorKind::InvalidPayload,
            JsonRejection::BytesRejection => ErrorKind::InternalFailure,
        }
    }
}

/// The texts of a list of headers: names, as lower-case header names, and values.
pub open spec fn header_view(h: Seq<(String, String)>) -> Seq<(Seq<char>, Seq<char>)> {
    h.map_values(|e: (String, String)| (e.0@, e.1@))
}

/// The headers of a list but those of the given name, in their order.
pub open spec fn without_header(
    h: Seq<(Seq<char>, Seq<char>)>,
    name: Seq<char>,
) -> Seq<(Seq<char>, Seq<char>)> {
    h.filter(|e: (Seq<char>, Seq<char>)| e.0 != name)
}

/// Sets a header: any value it had is replaced.
pub fn insert_header(headers: &mut Vec<(String, String)>, name: &str, value: &str)
    ensures
        header_view(final(headers)@) == without_header(header_view(old(headers)@), name@).push(
            (name@, value@),
        ),
{
    let mut out: Vec<(String, String)> = Vec::new();
    let n = headers.len();
    for i in 0..n
        invariant
            n == headers@.len(),
            header_view(out@) == without_header(header_view(headers@).take(i as int), name@),
    {
        let ghost before = header_view(headers@).take(i as int);
        let ghost after = header_view(headers@).take(i as int + 1);
        proof {
            assert(after.drop_last() =~= before);
            assert(after.last() == (headers@[i as int].0@, headers@[i as int].1@));
        }
        let same = same_text(headers[i].0.as_str(), name);
        proof {
            assert(same == (headers@[i as int].0@ == name@));
        }
        if !same {
            let e = (headers[i].0.clone(), headers[i].1.clone());
            out.push(e);
            proof {
                assert(header_view(out@) =~= without_header(before, name@).push(after.last()));
                assert(without_header(after, name@) == without_header(before, name@).push(
                    after.last(),
                )) by {
                    reveal(Seq::filter);
                }
            }
        } else {
            proof {
                assert(header_view(out@) =~= without_header(before, name@));
                assert(without_header(after, name@) == without_header(before, name@)) by {
                    reveal(Seq::filter);
                }
            }
        }
    }
    proof {
        assert(header_view(headers@).take(n as int) =~= header_view(headers@));
    }
    let ghost kept = out@;
    out.push((name.to_owned(), value.to_owned()));
    proof {
        assert(header_view(out@) =~= header_view(kept).push((name@, value@)));
    }
    *headers = out;
}

/// A service whose responses are opened to cross-origin clients.
pub struct CorsMiddleware<S> {
    pub service: S,
}

/// What wraps a service into a `CorsMiddleware`.
pub struct CorsMiddlewareLayer;

impl CorsMiddlewareLayer {
    pub fn layer<S>(&self, service: S) -> (r: CorsMiddleware<S>)
        ensures
            r.service == service,
    {
        CorsMiddleware { service }
    }
}

/// The headers of a response once opened to cross-origin clients: the three
/// access-control headers are set, each once, last, and every other header
/// stays as it was.
pub open spec fn spec_cors_headers(h: Seq<(Seq<char>, Seq<char>)>) -> Seq<(Seq<char>, Seq<char>)> {
    let m = without_header(h, "access-control-allow-methods"@).push(
        ("access-control-allow-methods"@, "GET, OPTIONS, PUT"@),
    );
    let o = without_header(m, "access-control-allow-origin"@).push(
        ("access-control-allow-origin"@, "*"@),
    );
    without_header(o, "access-control-allow-headers"@).push(
        ("access-control-allow-headers"@, "*"@),
    )
}

impl<S> CorsMiddleware<S> {
    /// Opens a response of the wrapped service to cross-origin clients.
    pub fn decorate(&self, headers: &mut Vec<(String, String)>)
        ensures
            header_view(final(headers)@) == spec_cors_headers(header_view(old(headers)@)),
    {
        proof {
            reveal_strlit("GET, OPTIONS, PUT");
            reveal_strlit("*");
        }
        insert_header(headers, "access-control-allow-methods", "GET, OPTIONS, PUT");
        insert_header(headers, "access-control-allow-origin", "*");
        insert_header(headers, "access-control-allow-headers", "*");
    }
}

/// The level a request is logged at.
#[derive(Clone, Copy, Debug, PartialEq, Eq, Structural)]
pub enum LogLevel {
    Info,
    Warn,
    Error,
}

/// Logs each request with its response.
pub struct LogMiddleware {}

impl LogMiddleware {
    pub fn new() -> (r: LogMiddleware) {
        LogMiddleware {}
    }

    /// Server errors are logged as errors, client errors as warnings, and
    /// everything else as information.
    pub fn level(&self, status: u16) -> (r: LogLevel)
        ensures
            r == (if 500 <= status < 600 {
                LogLevel::Error
            } else if 400 <= status < 500 {
                LogLevel::Warn
            } else {
                LogLevel::Info
            }),
    {
        if 500 <= status && status < 600 {
            LogLevel::Error
        } else if 400 <= status && status < 500 {
            LogLevel::Warn
        } else {
            LogLevel::Info
        }
    }

    /// The body of a request is logged unless it is a GET.
    pub fn logs_body(&self, method: &str) -> (r: bool)
        ensures
            r == (method@ != "GET"@),
    {
        !same_text(method, "GET")
    }
}

/// Dropping a header from a list with one more entry.
proof fn lemma_without_push(
    h: Seq<(Seq<char>, Seq<char>)>,
    e: (Seq<char>, Seq<char>),
    name: Seq<char>,
)
    ensures
        without_header(h.push(e), name) == if e.0 != name {
            without_header(h, name).push(e)
        } else {
            without_header(h, name)
        },
{
    reveal(Seq::filter);
    assert(h.push(e).drop_last() =~= h);
}

/// Dropping a header twice drops it once.
proof fn lemma_without_twice(h: Seq<(Seq<char>, Seq<char>)>, name: Seq<char>)
    ensures
        without_header(without_header(h, name), name) == without_header(h, name),
    decreases h.len(),
{
    if h.len() == 0 {
        reveal(Seq::filter);
    } else {
        let (init, last) = (h.drop_last(), h.last());
        assert(init.push(last) =~= h);
        lemma_without_twice(init, name);
        lemma_without_push(init, last, name);
        if last.0 != name {
            lemma_without_push(without_header(init, name), last, name);
        }
    }
}

/// Dropping two headers does not depend on their order.
proof fn lemma_without_commutes(h: Seq<(Seq<char>, Seq<char>)>, a: Seq<char>, b: Seq<char>)
    ensures
        without_header(without_header(h, a), b) == without_header(without_header(h, b), a),
    decreases h.len(),
{
    if h.len() == 0 {
        reveal(Seq::filter);
        assert(without_header(h, a) =~= h);
        assert(without_header(h, b) =~= h);
    } else {
        let (init, last) = (h.drop_last(), h.last());
        assert(init.push(last) =~= h);
        lemma_without_commutes(init, a, b);
        lemma_without_push(init, last, a);
        lemma_without_push(init, last, b);
        lemma_without_push(without_header(init, a), last, b);
        lemma_without_push(without_header(init, b), last, a);
    }
}

/// The headers of a response opened to cross-origin clients: the others, as
/// they were, then the three access-control headers.
proof fn lemma_cors_shape(h: Seq<(Seq<char>, Seq<char>)>)
    ensures
        spec_cors_headers(h) == without_header(
            without_header(without_header(h, "access-control-allow-methods"@), "access-control-allow-origin"@),
            "access-control-allow-headers"@,
        ).push(("access-control-allow-methods"@, "GET, OPTIONS, PUT"@)).push(
            ("access-control-allow-origin"@, "*"@),
        ).push(("access-control-allow-headers"@, "*"@)),
{
    let m = "access-control-allow-methods"@;
    let o = "access-control-allow-origin"@;
    let hd = "access-control-allow-headers"@;
    reveal_strlit("access-control-allow-methods");
    reveal_strlit("access-control-allow-origin");
    reveal_strlit("access-control-allow-headers");
    assert(m.len() != o.len());
    assert(hd.len() != o.len());
    assert(m[21] != hd[21]);
    let pm = (m, "GET, OPTIONS, PUT"@);
    let po = (o, "*"@);
    let a = without_header(h, m);
    lemma_without_push(a, pm, o);
    lemma_without_push(without_header(a, o).push(pm), po, hd);
    lemma_without_push(without_header(a, o), pm, hd);
}

/// Opening a response to cross-origin clients a second time changes nothing.
pub proof fn lemma_cors_idempotent(h: Seq<(Seq<char>, Seq<char>)>)
    ensures
        spec_cors_headers(spec_cors_headers(h)) == spec_cors_headers(h),
{
    let m = "access-control-allow-methods"@;
    let o = "access-control-allow-origin"@;
    let hd = "access-control-allow-headers"@;
    reveal_strlit("access-control-allow-methods");
    reveal_strlit("access-control-allow-origin");
    reveal_strlit("access-control-allow-headers");
    assert(m.len() != o.len());
    assert(hd.len() != o.len());
    assert(m[21] != hd[21]);
    let pm = (m, "GET, OPTIONS, PUT"@);
    let po = (o, "*"@);
    let ph = (hd, "*"@);
    let x = without_header(without_header(without_header(h, m), o), hd);
    let c = spec_cors_headers(h);
    lemma_cors_shape(h);
    lemma_cors_shape(c);
    assert(c == x.push(pm).push(po).push(ph));
    // Dropping any of the three headers from `x` leaves it as it is.
    lemma_without_commutes(without_header(without_header(h, m), o), hd, m);
    lemma_without_commutes(without_header(h, m), o, m);
    lemma_without_twice(h, m);
    assert(without_header(x, m) == x);
    lemma_without_commutes(without_header(without_header(h, m), o), hd, o);
    lemma_without_twice(without_header(h, m), o);
    assert(without_header(x, o) == x);
    lemma_without_twice(without_header(without_header(h, m), o), hd);
    assert(without_header(x, hd) == x);
    // Drop the methods header from the opened headers, then the others.
    lemma_without_push(x.push(pm).push(po), ph, m);
    lemma_without_push(x.push(pm), po, m);
    lemma_without_push(x, pm, m);
    let c1 = without_header(x, m).push(po).push(ph);
    assert(without_header(c, m) == c1);
    lemma_without_push(without_header(x, m).push(po), ph, o);
    lemma_without_push(without_header(x, m), po, o);
    assert(without_header(c1, o) == without_header(without_header(x, m), o).push(ph));
    lemma_without_push(without_header(without_header(x, m), o), ph, hd);
    assert(without_header(without_header(c1, o), hd) == without_header(
        without_header(without_header(x, m), o),
        hd,
    ));
}

} // verus!
