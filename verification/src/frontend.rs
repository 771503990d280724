//! Redirecting a client to the frontend of its tenant's application, with
//! the address to come back to.
use vstd::prelude::*;
use vstd::string::*;
use crate::classes::opt_text;
use crate::error::{failure, AppError, ErrorKind};

verus! {

/// Whether a byte is kept as it is in a percent-encoded text: an ASCII
/// digit or letter.
pub open spec fn is_alnum_byte(b: u8) -> bool {
    (48 <= b <= 57) || (65 <= b <= 90) || (97 <= b <= 122)
}

/// An upper-case hexadecimal digit.
pub open spec fn hex_digit(n: int) -> char {
    if n < 10 {
        (48 + n) as char
    } else {
        (55 + n) as char
    }
}

/// How one byte is written: as itself if it is an ASCII digit or letter,
/// else as `%` and its two upper-case hexadecimal digits.
pub open spec fn encode_byte(b: u8) -> Seq<char> {
    if is_alnum_byte(b) {
        seq![b as char]
    } else {
        seq!['%', hex_digit(b as int / 16), hex_digit(b as int % 16)]
    }
}

/// The percent-encoding of bytes in which only ASCII digits and letters are
/// left as they are.
pub open spec fn spec_percent_encode(bytes: Seq<u8>) -> Seq<char>
    decreases bytes.len(),
{
    if bytes.len() == 0 {
        Seq::empty()
    } else {
        spec_percent_encode(bytes.drop_last()) + encode_byte(bytes.last())
    }
}

/// The value of an upper-case hexadecimal digit.
pub open spec fn hex_value(c: char) -> int {
    if (c as int) < 65 {
        c as int - 48
    } else {
        c as int - 55
    }
}

/// Percent-encoding keeps ASCII digits and letters as they are and writes
/// every other byte as `%` and two upper-case hexadecimal digits from which
/// the byte is read back; the encoding of joined bytes is the joined
/// encodings.
pub proof fn lemma_percent_encoding(b: u8, x: Seq<u8>, y: Seq<u8>)
    ensures
        is_alnum_byte(b) ==> encode_byte(b) == seq![b as char],
        !is_alnum_byte(b) ==> {
            let e = encode_byte(b);
            &&& e.len() == 3
            &&& e[0] == '%'
            &&& forall|k: int|
                1 <= k < 3 ==> (48 <= #[trigger] e[k] as int <= 57) || (65 <= e[k] as int <= 70)
            &&& 16 * hex_value(e[1]) + hex_value(e[2]) == b
        },
        spec_percent_encode(x + y) == spec_percent_encode(x) + spec_percent_encode(y),
    decreases y.len(),
{
    if y.len() > 0 {
        lemma_percent_encoding(b, x, y.drop_last());
        assert((x + y).drop_last() =~= x + y.drop_last());
        assert((x + y).last() == y.last());
        assert(spec_percent_encode(x) + spec_percent_encode(y) =~= spec_percent_encode(x) + (
        spec_percent_encode(y.drop_last()) + encode_byte(y.last())));
    } else {
        assert(x + y =~= x);
        assert(spec_percent_encode(x) + spec_percent_encode(y) =~= spec_percent_encode(x));
    }
}

/// Percent-encodes the UTF-8 bytes of a text with
/// `percent_encoding::percent_encode` and the set `NON_ALPHANUMERIC`: every
/// byte that is not an ASCII digit or letter becomes `%XX` (upper-case
/// hexadecimal), the others stay.
#[verifier::external_body]
fn percent_encode_alnum(text: &str) -> (r: String)
    ensures
        r@ == spec_percent_encode(text.spec_bytes()),
{
    percent_encoding::percent_encode(text.as_bytes(), percent_encoding::NON_ALPHANUMERIC).to_string()
}

/// Whether `url::Url::parse` accepts a text.
pub uninterp spec fn url_parses(text: Seq<char>) -> bool;

/// The text of a URL after `Url::set_query` with the given query and
/// `query_pairs_mut().append_pair` with the given name and value: a function
/// of these texts alone.
pub uninterp spec fn url_with_query_pair(
    url: Seq<char>,
    query: Option<Seq<char>>,
    name: Seq<char>,
    value: Seq<char>,
) -> Seq<char>;

/// Asks `url::Url::parse` whether a text is a URL.
#[verifier::external_body]
pub(crate) fn parses_as_url(text: &str) -> (r: bool)
    ensures
        r == url_parses(text@),
{
    url::Url::parse(text).is_ok()
}

/// Texts of optional strings.
pub open spec fn opt_str(s: Option<&str>) -> Option<Seq<char>> {
    match s {
        Some(x) => Some(x@),
        None => None,
    }
}

/// The texts a URL is built of stay far below the four gigabytes past which
/// the `url` crate cannot index its serialization (and panics): a byte is
/// written as at most three characters, and a character takes at most four
/// bytes.
pub open spec fn url_parts_fit(url: Seq<char>, query: Option<Seq<char>>, name: Seq<char>, value: Seq<char>) -> bool {
    url.len() + (match query {
        Some(q) => q.len(),
        None => 0,
    }) + name.len() + value.len() < 0x0100_0000
}

/// Parses a URL with `url::Url::parse`, replaces its query with
/// `Url::set_query`, appends a pair with `Url::query_pairs_mut` and
/// `append_pair`, and gives the result's text. Nothing is stated of the text
/// but that it is `url_with_query_pair` of the arguments.
#[verifier::external_body]
fn with_query_pair(url: &str, query: Option<&str>, name: &str, value: &str) -> (r: String)
    requires
        url_parses(url@),
        url_parts_fit(url@, opt_str(query), name@, value@),
    ensures
        r@ == url_with_query_pair(url@, opt_str(query), name@, value@),
{
    let mut u = url::Url::parse(url).unwrap();
    u.set_query(query);
    u.query_pairs_mut().append_pair(name, value);
    u.to_string()
}

/// The frontend a client is sent to: the one stored for the scope, where it
/// is a URL, else the tenant's default one, where it has one.
pub open spec fn chosen_frontend(stored: Option<Seq<char>>, default: Option<Seq<char>>) -> Option<
    Seq<char>,
> {
    match (stored, default) {
        (Some(s), _) if url_parses(s) => Some(s),
        (_, Some(d)) if url_parses(d) => Some(d),
        _ => None,
    }
}

/// A frontend stored for the scope that is a URL is where the client goes,
/// whatever the tenant's default; the default is taken only where no stored
/// frontend is a URL, and then only if it is one; nothing else is ever
/// chosen.
pub proof fn lemma_stored_frontend_first(
    stored: Option<Seq<char>>,
    default: Option<Seq<char>>,
    other_default: Option<Seq<char>>,
)
    ensures
        stored matches Some(s) ==> (url_parses(s) ==> chosen_frontend(stored, default) == Some(s)
            && chosen_frontend(stored, default) == chosen_frontend(stored, other_default)),
        (match stored {
            Some(s) => !url_parses(s),
            None => true,
        }) ==> chosen_frontend(stored, default) == (match default {
            Some(d) => if url_parses(d) {
                Some(d)
            } else {
                None
            },
            None => None,
        }),
        chosen_frontend(stored, default) matches Some(b) ==> url_parses(b) && (stored == Some(b)
            || default == Some(b)),
{
}

/// Where a client is redirected to: the chosen frontend, with the query of
/// the client's request, and the address of this service's page to come back
/// to, percent-encoded, as the `backurl` parameter. A tenant with no
/// frontend is unknown.
pub fn redirect_location(
    stored: Option<String>,
    default: Option<String>,
    tenant: &str,
    query: Option<&str>,
    back_url: &str,
) -> (r: Result<String, AppError>)
    requires
        stored matches Some(s) ==> url_parts_fit(s@, opt_str(query), "backurl"@, spec_percent_encode(back_url.spec_bytes())),
        default matches Some(d) ==> url_parts_fit(d@, opt_str(query), "backurl"@, spec_percent_encode(back_url.spec_bytes())),
    ensures
        match chosen_frontend(opt_text(stored), opt_text(default)) {
            None => r matches Err(e) && e.spec_kind() == ErrorKind::UnknownTenant,
            Some(base) => r matches Ok(u) && u@ == url_with_query_pair(
                base,
                opt_str(query),
                "backurl"@,
                spec_percent_encode(back_url.spec_bytes()),
            ),
        },
{
    let stored_ok = match &stored {
        Some(s) => parses_as_url(s.as_str()),
        None => false,
    };
    let base = if stored_ok {
        stored
    } else {
        let default_ok = match &default {
            Some(d) => parses_as_url(d.as_str()),
            None => false,
        };
        if default_ok {
            default
        } else {
            None
        }
    };
    match base {
        None => {
            let message = "tenant '".to_owned().concat(tenant).concat("' not found");
            Err(AppError::new(ErrorKind::UnknownTenant, failure(message.as_str())))
        },
        Some(b) => {
            let encoded = percent_encode_alnum(back_url);
            Ok(with_query_pair(b.as_str(), query, "backurl", encoded.as_str()))
        },
    }
}

} // verus!
