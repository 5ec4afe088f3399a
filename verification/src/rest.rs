use crate::errors::APIError;
use crate::errors::ConstructorError;
use crate::params::ParamPair;
use crate::params::encode_query;
use crate::params::query_string_of;
use crate::params::views_of;
use vstd::prelude::*;

verus! {

/// The timeout applied to every request when none is given at construction.
pub const DEFAULT_TIMEOUT_MILLIS: u32 = 3000;

/// Whether a string passes URL validation.
pub uninterp spec fn url_ok(s: Seq<char>) -> bool;

/// Relies on `is_url::is_url`: a match of the string against one fixed URL
/// pattern, a function of the characters alone.
#[verifier::external_body]
fn check_url(s: &str) -> (r: bool)
    ensures
        r == url_ok(s@),
{
    is_url::is_url(s)
}

/// The host with one trailing path separator stripped. Exactly one: several
/// trailing separators are not collapsed.
pub open spec fn normalized_host(s: Seq<char>) -> Seq<char> {
    if s.len() > 0 && s.last() == '/' {
        s.drop_last()
    } else {
        s
    }
}

/// A host that ends in exactly one separator normalizes to the same form as
/// the host with that separator already removed.
pub proof fn lemma_normalize_one_trailing_separator(h: Seq<char>)
    requires
        h.len() > 0,
        h.last() == '/',
        h.len() > 1 ==> h[h.len() - 2] != '/',
    ensures
        normalized_host(h) == normalized_host(h.drop_last()),
{
    if h.len() > 1 {
        assert(h.drop_last().last() == h[h.len() - 2]);
    }
}

/// A host with no trailing separator is left unchanged by normalization.
pub proof fn lemma_normalize_no_trailing_separator(h: Seq<char>)
    requires
        h.len() == 0 || h.last() != '/',
    ensures
        normalized_host(h) == h,
{
}

/// Strip one trailing path separator from a host, if present.
pub fn normalize_host(host: String) -> (r: String)
    ensures
        r@ == normalized_host(host@),
{
    let n: usize = host.as_str().unicode_len();
    if n > 0 && host.as_str().get_char(n - 1) == '/' {
        let r = host.as_str().substring_char(0, n - 1).to_owned();
        proof {
            assert(host@.subrange(0, n as int - 1) =~= host@.drop_last());
        }
        r
    } else {
        host
    }
}

/// The message carried by a `ConstructorError` for a host that failed URL
/// validation.
pub open spec fn bad_host_msg(host: Seq<char>) -> Seq<char> {
    "Provided api host is not a url: "@ + host
}

/// The message carried by an `APIError` for a constructed request URL that
/// failed validation.
pub open spec fn not_url_msg(url: Seq<char>) -> Seq<char> {
    "String is not URL: "@ + url
}

/// The full request URL: host, then path, then `?` and the query string --
/// but no `?` when the query string is empty.
pub open spec fn url_of(host: Seq<char>, path: Seq<char>, q: Seq<char>) -> Seq<char> {
    if q.len() == 0 {
        host + path
    } else {
        host + path + seq!['?'] + q
    }
}

/// The query string of an optional parameter list: absent means empty.
pub open spec fn opt_query_of(qp: Option<Vec<ParamPair>>) -> Seq<char> {
    match qp {
        Option::Some(ps) => query_string_of(views_of(ps@)),
        Option::None => Seq::empty(),
    }
}

/// What building a request URL returns: the URL itself when it passes
/// validation, and otherwise an `APIError` naming the offending URL.
pub open spec fn request_url_outcome(url: Seq<char>, r: Result<String, APIError>) -> bool {
    match r {
        Result::Ok(u) => url_ok(url) && u@ == url,
        Result::Err(e) => !url_ok(url) && e.spec_message() == not_url_msg(url),
    }
}

/// The request engine: a validated host and the timeout bound applied to
/// every request issued against it. The engine performs all URL-safety and
/// error-classification logic exactly once for every domain accessor.
#[derive(Debug)]
pub struct RestHandler {
    host: String,
    timeout: u32,
}

impl RestHandler {
    /// The validated host, with its trailing separator already stripped.
    pub closed spec fn spec_host(&self) -> Seq<char> {
        self.host@
    }

    /// The timeout in milliseconds bound to this engine.
    pub closed spec fn spec_timeout(&self) -> u32 {
        self.timeout
    }

    /// The engine's invariant: its host passed URL validation.
    pub open spec fn wf(&self) -> bool {
        url_ok(self.spec_host())
    }

    /// Validate and keep a host: strip one trailing separator, then require
    /// the result to be a syntactically well-formed URL. This is the only
    /// gate at configuration time; no reachability check is performed.
    pub fn new(api_host: String, api_timeout: Option<u32>) -> (r: Result<Self, ConstructorError>)
        ensures
            match r {
                Result::Ok(h) => {
                    &&& url_ok(normalized_host(api_host@))
                    &&& h.wf()
                    &&& h.spec_host() == normalized_host(api_host@)
                    &&& h.spec_timeout() == (match api_timeout {
                        Option::Some(t) => t,
                        Option::None => DEFAULT_TIMEOUT_MILLIS,
                    })
                },
                Result::Err(e) => {
                    &&& !url_ok(normalized_host(api_host@))
                    &&& e.spec_message() == bad_host_msg(normalized_host(api_host@))
                },
            },
    {
        let host = normalize_host(api_host);
        if !check_url(host.as_str()) {
            let mut m = String::from_str("Provided api host is not a url: ");
            m.append(host.as_str());
            return Err(ConstructorError::new(m));
        }
        let timeout = match api_timeout {
            Some(t) => t,
            None => DEFAULT_TIMEOUT_MILLIS,
        };
        Ok(RestHandler { host, timeout })
    }

    /// The host as a string slice.
    pub fn host(&self) -> (h: &str)
        ensures
            h@ == self.spec_host(),
    {
        self.host.as_str()
    }

    /// The timeout in milliseconds.
    pub fn timeout_millis(&self) -> (t: u32)
        ensures
            t == self.spec_timeout(),
    {
        self.timeout
    }

    /// Build and validate the URL of a GET request: host, path, and the
    /// encoded query string when it is non-empty. Validation defends against
    /// path values whose characters would corrupt the URL.
    pub fn get_url(&self, path: String, query_params: Option<Vec<ParamPair>>) -> (r: Result<
        String,
        APIError,
    >)
        ensures
            request_url_outcome(url_of(self.spec_host(), path@, opt_query_of(query_params)), r),
    {
        let q = match &query_params {
            Some(ps) => encode_query(ps),
            None => String::new(),
        };
        let mut url = String::new();
        url.append(self.host.as_str());
        url.append(path.as_str());
        if !q.as_str().is_empty() {
            url.append("?");
            url.append(q.as_str());
            proof {
                reveal_strlit("?");
                assert("?"@ =~= seq!['?']);
                assert(url@ =~= url_of(self.spec_host(), path@, opt_query_of(query_params)));
            }
        } else {
            proof {
                assert(url@ =~= url_of(self.spec_host(), path@, opt_query_of(query_params)));
            }
        }
        if check_url(url.as_str()) {
            Ok(url)
        } else {
            let mut m = String::from_str("String is not URL: ");
            m.append(url.as_str());
            Err(APIError::new(m))
        }
    }

    /// Build and validate the URL of a POST request: host and path, with no
    /// query string. Serializing the body and issuing the request sit with
    /// the transport.
    pub fn post_url(&self, path: String) -> (r: Result<String, APIError>)
        ensures
            request_url_outcome(url_of(self.spec_host(), path@, Seq::empty()), r),
    {
        let mut url = String::new();
        url.append(self.host.as_str());
        url.append(path.as_str());
        if check_url(url.as_str()) {
            Ok(url)
        } else {
            let mut m = String::from_str("String is not URL: ");
            m.append(url.as_str());
            Err(APIError::new(m))
        }
    }
}

/// Finish one request exchange, given what the transport and decoder made of
/// it: a decoded value passes through unchanged, and a failure description
/// becomes an `APIError` carrying it. A call therefore either fully succeeds
/// with a typed value or fully fails with one error value -- no partial
/// result exists.
pub fn complete_request<T>(outcome: Result<T, String>) -> (r: Result<T, APIError>)
    ensures
        match outcome {
            Result::Ok(v) => r is Ok && r->Ok_0 == v,
            Result::Err(m) => r is Err && r->Err_0.spec_message() == m@,
        },
{
    match outcome {
        Ok(v) => Ok(v),
        Err(m) => Err(APIError::new(m)),
    }
}

} // verus!
