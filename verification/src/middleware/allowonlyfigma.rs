//! The origin gate: the primary trust boundary. It runs before any handler
//! touches the filesystem and admits a request only when the scheme+host of
//! its declared origin is the one allow-listed origin. Pure header
//! inspection: O(1), no blocking, no I/O.

use vstd::prelude::*;

verus! {

/// One request header as the edge hands it over: absent, present but not
/// readable as text, or its text value.
pub enum HeaderField {
    Absent,
    Unreadable,
    Value(String),
}

/// The mathematical shape of a [`HeaderField`].
pub enum HeaderFieldModel {
    Absent,
    Unreadable,
    Value(Seq<char>),
}

impl View for HeaderField {
    type V = HeaderFieldModel;

    open spec fn view(&self) -> HeaderFieldModel {
        match self {
            HeaderField::Absent => HeaderFieldModel::Absent,
            HeaderField::Unreadable => HeaderFieldModel::Unreadable,
            HeaderField::Value(s) => HeaderFieldModel::Value(s@),
        }
    }
}

/// The one origin that may call this server.
pub open spec fn spec_allowed_origin() -> Seq<char> {
    "https://www.figma.com"@
}

/// The number of `/` characters in `s`.
pub open spec fn slash_count(s: Seq<char>) -> int
    decreases s.len(),
{
    if s.len() == 0 {
        0
    } else {
        slash_count(s.drop_last()) + if s.last() == '/' {
            1int
        } else {
            0
        }
    }
}

/// The scheme+host prefix of a declared origin value: everything before the
/// third `/` — `scheme://host` of a URL that carries a path — or the whole
/// value when it holds no third `/`.
pub open spec fn spec_scheme_host(s: Seq<char>) -> Seq<char>
    decreases s.len(),
{
    if s.len() == 0 {
        s
    } else if slash_count(s.drop_last()) >= 3 || (s.last() == '/' && slash_count(s.drop_last())
        == 2) {
        spec_scheme_host(s.drop_last())
    } else {
        s
    }
}

/// The declared origin of a request: the `Origin` header when it exists
/// (an unreadable one is not excused by a good `Referer`), else the
/// `Referer` header.
pub open spec fn spec_request_host(
    origin: HeaderFieldModel,
    referer: HeaderFieldModel,
) -> Option<Seq<char>> {
    match origin {
        HeaderFieldModel::Value(s) => Some(s),
        HeaderFieldModel::Unreadable => None,
        HeaderFieldModel::Absent => match referer {
            HeaderFieldModel::Value(s) => Some(s),
            _ => None,
        },
    }
}

/// Whether the origin gate forwards the request: the scheme+host extracted
/// from the declared value must equal the allow-listed origin, exactly.
pub open spec fn spec_allows(origin: HeaderFieldModel, referer: HeaderFieldModel) -> bool {
    match spec_request_host(origin, referer) {
        Some(v) => spec_scheme_host(v) == spec_allowed_origin(),
        None => false,
    }
}

proof fn lemma_slash_count_monotone(s: Seq<char>, m: int)
    requires
        0 <= m <= s.len(),
    ensures
        slash_count(s.subrange(0, m)) <= slash_count(s),
    decreases s.len(),
{
    if m < s.len() {
        assert(s.drop_last().subrange(0, m) =~= s.subrange(0, m));
        lemma_slash_count_monotone(s.drop_last(), m);
    } else {
        assert(s.subrange(0, m) =~= s);
    }
}

/// A value with at most two `/` characters is its own scheme+host.
proof fn lemma_scheme_host_whole(s: Seq<char>)
    requires
        slash_count(s) <= 2,
    ensures
        spec_scheme_host(s) == s,
{
}

/// When the `/` at index `k` is the third one, scheme+host is the prefix
/// before it.
proof fn lemma_scheme_host_at(s: Seq<char>, k: int)
    requires
        0 <= k < s.len(),
        s[k] == '/',
        slash_count(s.subrange(0, k)) == 2,
    ensures
        spec_scheme_host(s) == s.subrange(0, k),
    decreases s.len(),
{
    if k == s.len() - 1 {
        assert(s.drop_last() =~= s.subrange(0, k));
        lemma_scheme_host_whole(s.drop_last());
    } else {
        assert(s.subrange(0, k + 1).drop_last() =~= s.subrange(0, k));
        assert(s.subrange(0, k + 1).last() == s[k]);
        assert(slash_count(s.subrange(0, k + 1)) == 3);
        assert(s.drop_last().subrange(0, k + 1) =~= s.subrange(0, k + 1));
        lemma_slash_count_monotone(s.drop_last(), k + 1);
        assert(s.drop_last().subrange(0, k) =~= s.subrange(0, k));
        lemma_scheme_host_at(s.drop_last(), k);
    }
}

/// Extract the scheme+host prefix of a declared origin value.
pub fn scheme_host(value: &str) -> (r: String)
    ensures
        r@ == spec_scheme_host(value@),
{
    let n = value.unicode_len();
    let mut slashes: usize = 0;
    let mut i: usize = 0;
    proof {
        assert(value@.subrange(0, 0) =~= Seq::<char>::empty());
    }
    while i < n
        invariant
            n == value@.len(),
            i <= n,
            slashes == slash_count(value@.subrange(0, i as int)),
            slashes <= 2,
        decreases n - i,
    {
        proof {
            assert(value@.subrange(0, i + 1).drop_last() =~= value@.subrange(0, i as int));
            assert(value@.subrange(0, i + 1).last() == value@[i as int]);
        }
        if value.get_char(i) == '/' {
            if slashes == 2 {
                proof {
                    lemma_scheme_host_at(value@, i as int);
                }
                return value.substring_char(0, i).to_owned();
            }
            slashes = slashes + 1;
        }
        i += 1;
    }
    proof {
        assert(value@.subrange(0, n as int) =~= value@);
        lemma_scheme_host_whole(value@);
    }
    value.to_owned()
}

/// The origin gate's factory, shaped the way the surrounding framework
/// installs middleware: it wraps a service once and yields the per-request
/// gate.
pub struct AllowFigmaOnly;

impl AllowFigmaOnly {
    /// The allow-listed origin, as also sent back in every response's
    /// `Access-Control-Allow-Origin` header, so that a disallowed browser
    /// caller observes a CORS failure rather than a silent hang.
    pub fn allowed_origin() -> (s: String)
        ensures
            s@ == spec_allowed_origin(),
    {
        String::from_str("https://www.figma.com")
    }

    /// Install the origin gate in front of a service.
    pub fn new_transform(&self) -> (m: AllowFigmaOnlyMiddleware) {
        AllowFigmaOnlyMiddleware {}
    }
}

/// The per-request gate.
pub struct AllowFigmaOnlyMiddleware {}

impl AllowFigmaOnlyMiddleware {
    /// Decide one request from its `Origin` and `Referer` headers alone.
    /// `true` forwards the request unchanged; `false` short-circuits it
    /// with a Forbidden response before any handler runs.
    pub fn call(&self, origin: &HeaderField, referer: &HeaderField) -> (allow: bool)
        ensures
            allow == spec_allows(origin@, referer@),
    {
        let request_host: Option<&String> = match origin {
            HeaderField::Value(s) => Some(s),
            HeaderField::Unreadable => None,
            HeaderField::Absent => match referer {
                HeaderField::Value(s) => Some(s),
                _ => None,
            },
        };
        match request_host {
            Some(host) => {
                let extracted = scheme_host(host.as_str());
                let allowed = AllowFigmaOnly::allowed_origin();
                extracted == allowed
            },
            None => false,
        }
    }
}

/// The allow-listed origin is a bare scheme+host: it holds exactly the two
/// `/` of `https://`, so extraction leaves it unchanged.
proof fn lemma_allowed_origin_is_scheme_host()
    ensures
        spec_scheme_host(spec_allowed_origin()) == spec_allowed_origin(),
{
    reveal_strlit("https://www.figma.com");
    assert(slash_count(spec_allowed_origin()) == 2) by {
        reveal_with_fuel(slash_count, 25);
    }
    lemma_scheme_host_whole(spec_allowed_origin());
}

/// Law: a request carrying neither `Origin` nor `Referer` is always denied.
pub proof fn lemma_missing_headers_denied()
    ensures
        !spec_allows(HeaderFieldModel::Absent, HeaderFieldModel::Absent),
{
}

/// Law: a request whose `Origin` header equals the allow-listed origin is
/// always let through, whatever the `Referer` header holds.
pub proof fn lemma_allowed_origin_admitted(referer: HeaderFieldModel)
    ensures
        spec_allows(HeaderFieldModel::Value(spec_allowed_origin()), referer),
{
    lemma_allowed_origin_is_scheme_host();
}

} // verus!
