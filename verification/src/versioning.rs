//! API versions: how a request's version is resolved from its path or its
//! headers, and which headers announce a deprecated version.

use vstd::prelude::*;
use crate::text::{chars_eq, chars_of, concat, is_white_space, str_eq, trim, trim_end, trim_start, trimmed_chars};

verus! {

/// The supported API versions, oldest first.
#[derive(Debug, Clone, Copy, PartialEq, Eq, Structural, Ord)]
pub enum ApiVersion {
    V1,
    V2,
}

/// The version's name as it appears in paths and headers.
pub open spec fn version_text(v: ApiVersion) -> Seq<char> {
    match v {
        ApiVersion::V1 => "v1"@,
        ApiVersion::V2 => "v2"@,
    }
}

/// The sunset date of a deprecated version (an RFC 2822 date).
pub open spec fn sunset_text(v: ApiVersion) -> Option<Seq<char>> {
    match v {
        ApiVersion::V1 => Some("Fri, 01 Jan 2027 00:00:00 GMT"@),
        ApiVersion::V2 => None,
    }
}

/// The migration guide of a deprecated version.
pub open spec fn guide_text(v: ApiVersion) -> Option<Seq<char>> {
    match v {
        ApiVersion::V1 => Some("https://docs.blinks.app/api/migration/v1-to-v2"@),
        ApiVersion::V2 => None,
    }
}

/// The version a path segment names exactly.
pub open spec fn version_of_segment(seg: Seq<char>) -> Option<ApiVersion> {
    if seg == "v1"@ {
        Some(ApiVersion::V1)
    } else if seg == "v2"@ {
        Some(ApiVersion::V2)
    } else {
        None
    }
}

/// The version a header value names, once trimmed: `v1` or `1`, `v2` or
/// `2`.
pub open spec fn version_of_header(value: Seq<char>) -> Option<ApiVersion> {
    let t = trim(value);
    if t == "v1"@ || t == "1"@ {
        Some(ApiVersion::V1)
    } else if t == "v2"@ || t == "2"@ {
        Some(ApiVersion::V2)
    } else {
        None
    }
}

pub open spec fn spec_latest() -> ApiVersion {
    ApiVersion::V2
}

impl ApiVersion {
    pub fn as_str(&self) -> (r: &'static str)
        ensures
            r@ == version_text(*self),
    {
        match self {
            ApiVersion::V1 => "v1",
            ApiVersion::V2 => "v2",
        }
    }

    pub fn as_numeric(&self) -> (r: u32)
        ensures
            r == (match *self {
                ApiVersion::V1 => 1u32,
                ApiVersion::V2 => 2u32,
            }),
    {
        match self {
            ApiVersion::V1 => 1,
            ApiVersion::V2 => 2,
        }
    }

    /// Whether this version is deprecated.
    pub fn is_deprecated(&self) -> (r: bool)
        ensures
            r == (*self == ApiVersion::V1),
    {
        match self {
            ApiVersion::V1 => true,
            ApiVersion::V2 => false,
        }
    }

    /// The sunset date of a deprecated version (RFC 2822 HTTP-date).
    pub fn sunset_date(&self) -> (r: Option<&'static str>)
        ensures
            match r {
                Some(t) => sunset_text(*self) == Some(t@),
                None => sunset_text(*self) is None,
            },
    {
        match self {
            ApiVersion::V1 => Some("Fri, 01 Jan 2027 00:00:00 GMT"),
            ApiVersion::V2 => None,
        }
    }

    /// The migration guide of a deprecated version.
    pub fn migration_guide_url(&self) -> (r: Option<&'static str>)
        ensures
            match r {
                Some(t) => guide_text(*self) == Some(t@),
                None => guide_text(*self) is None,
            },
    {
        match self {
            ApiVersion::V1 => Some("https://docs.blinks.app/api/migration/v1-to-v2"),
            ApiVersion::V2 => None,
        }
    }

    /// The version a path segment names (`v1`, `v2`).
    pub fn from_path_segment(segment: &str) -> (r: Option<Self>)
        ensures
            r == version_of_segment(segment@),
    {
        if str_eq(segment, "v1") {
            Some(ApiVersion::V1)
        } else if str_eq(segment, "v2") {
            Some(ApiVersion::V2)
        } else {
            None
        }
    }

    /// The version a header or query value names: `v1`, `v2`, `1` or `2`,
    /// with surrounding white space ignored.
    pub fn from_header_value(value: &str) -> (r: Option<Self>)
        ensures
            r == version_of_header(value@),
    {
        let t = trimmed_chars(value);
        if chars_eq(&t, &chars_of("v1")) || chars_eq(&t, &chars_of("1")) {
            Some(ApiVersion::V1)
        } else if chars_eq(&t, &chars_of("v2")) || chars_eq(&t, &chars_of("2")) {
            Some(ApiVersion::V2)
        } else {
            None
        }
    }

    /// The latest stable version.
    pub fn latest() -> (r: Self)
        ensures
            r == spec_latest(),
    {
        ApiVersion::V2
    }
}

/// The version resolved for a request, kept with the request for the
/// handlers.
#[derive(Debug, Clone, Copy)]
pub struct ApiVersionExtension(pub ApiVersion);

/// The length of the first `/`-separated segment of `s`.
pub open spec fn segment_len(s: Seq<char>) -> nat
    decreases s.len(),
{
    if s.len() == 0 || s[0] == '/' {
        0
    } else {
        1 + segment_len(s.drop_first())
    }
}

pub proof fn lemma_segment_len_bound(s: Seq<char>)
    ensures
        segment_len(s) <= s.len(),
        segment_len(s) < s.len() ==> s[segment_len(s) as int] == '/',
    decreases s.len(),
{
    if s.len() > 0 && s[0] != '/' {
        lemma_segment_len_bound(s.drop_first());
    }
}

proof fn lemma_segment_len_is(s: Seq<char>, m: int)
    requires
        0 <= m <= s.len(),
        forall|k: int| 0 <= k < m ==> s[k] != '/',
        m == s.len() || s[m] == '/',
    ensures
        segment_len(s) == m,
    decreases m,
{
    if m > 0 {
        lemma_segment_len_is(s.drop_first(), m - 1);
    }
}

/// The version named by the first segment of a `/`-separated path that
/// names one, as splitting the path on `/` and testing each piece finds it.
pub open spec fn version_in_path(s: Seq<char>) -> Option<ApiVersion>
    decreases s.len(),
{
    let k = segment_len(s);
    proof {
        lemma_segment_len_bound(s);
    }
    match version_of_segment(s.subrange(0, k as int)) {
        Some(v) => Some(v),
        None => if k >= s.len() {
            None
        } else {
            version_in_path(s.subrange(k as int + 1, s.len() as int))
        },
    }
}

/// The version named by a segment of `path`, the first that names one.
pub fn extract_version_from_path(path: &str) -> (r: Option<ApiVersion>)
    ensures
        r == version_in_path(path@),
{
    let cs = chars_of(path);
    let n = cs.len();
    let mut start: usize = 0;
    let mut i: usize = 0;
    let mut seg: Vec<char> = Vec::new();
    assert(path@.subrange(0, n as int) =~= path@);
    while i < n
        invariant
            cs@ == path@,
            n == cs@.len(),
            start <= i <= n,
            seg@ == path@.subrange(start as int, i as int),
            forall|k: int| start <= k < i ==> path@[k] != '/',
            version_in_path(path@) == version_in_path(path@.subrange(start as int, n as int)),
        decreases n - i,
    {
        if cs[i] == '/' {
            let ghost rest = path@.subrange(start as int, n as int);
            proof {
                lemma_segment_len_is(rest, i - start);
                assert(rest.subrange(0, i - start) =~= seg@);
                assert(rest.subrange(i - start + 1, rest.len() as int) =~= path@.subrange(i + 1, n as int));
            }
            let found = segment_version(&seg);
            if found.is_some() {
                return found;
            }
            seg = Vec::new();
            start = i + 1;
            i = i + 1;
            assert(seg@ =~= path@.subrange(start as int, i as int));
        } else {
            seg.push(cs[i]);
            i = i + 1;
            assert(seg@ =~= path@.subrange(start as int, i as int));
        }
    }
    let ghost rest = path@.subrange(start as int, n as int);
    proof {
        lemma_segment_len_is(rest, n - start);
        assert(rest.subrange(0, n - start) =~= seg@);
    }
    segment_version(&seg)
}

fn segment_version(seg: &Vec<char>) -> (r: Option<ApiVersion>)
    ensures
        r == version_of_segment(seg@),
{
    if chars_eq(seg, &chars_of("v1")) {
        Some(ApiVersion::V1)
    } else if chars_eq(seg, &chars_of("v2")) {
        Some(ApiVersion::V2)
    } else {
        None
    }
}

/// The version headers of a request: the first value of each of
/// `X-API-Version`, `Accept-Version` and `API-Version`, where present and
/// readable as text.
#[derive(Debug, Clone)]
pub struct VersionHeaders {
    pub x_api_version: Option<String>,
    pub accept_version: Option<String>,
    pub api_version: Option<String>,
}

pub open spec fn header_version(value: Option<String>) -> Option<ApiVersion> {
    match value {
        Some(t) => version_of_header(t@),
        None => None,
    }
}

/// The version named by the first of the three headers that names one.
pub open spec fn version_in_headers(h: VersionHeaders) -> Option<ApiVersion> {
    if header_version(h.x_api_version) is Some {
        header_version(h.x_api_version)
    } else if header_version(h.accept_version) is Some {
        header_version(h.accept_version)
    } else {
        header_version(h.api_version)
    }
}

fn version_of_optional(value: &Option<String>) -> (r: Option<ApiVersion>)
    ensures
        r == header_version(*value),
{
    match value {
        Some(t) => ApiVersion::from_header_value(t.as_str()),
        None => None,
    }
}

/// The version named by the request headers, checked in the order
/// `X-API-Version`, `Accept-Version`, `API-Version`.
pub fn extract_version_from_headers(headers: &VersionHeaders) -> (r: Option<ApiVersion>)
    ensures
        r == version_in_headers(*headers),
{
    let a = version_of_optional(&headers.x_api_version);
    if a.is_some() {
        return a;
    }
    let b = version_of_optional(&headers.accept_version);
    if b.is_some() {
        return b;
    }
    version_of_optional(&headers.api_version)
}

/// The version a request is served with: the one its path names, else the
/// one its headers name, else v1 for backward compatibility.
pub open spec fn resolved_version(path: Seq<char>, headers: VersionHeaders) -> ApiVersion {
    match version_in_path(path) {
        Some(v) => v,
        None => match version_in_headers(headers) {
            Some(v) => v,
            None => ApiVersion::V1,
        },
    }
}

/// Resolves the version of a request from its path and headers.
pub fn resolve_version(path: &str, headers: &VersionHeaders) -> (r: ApiVersion)
    ensures
        r == resolved_version(path@, *headers),
{
    match extract_version_from_path(path) {
        Some(v) => v,
        None => match extract_version_from_headers(headers) {
            Some(v) => v,
            None => ApiVersion::V1,
        },
    }
}

/// A response header: its name and value.
pub struct HeaderLine {
    pub name: String,
    pub value: String,
}

/// The text of the `Warning` header for a deprecated version.
pub open spec fn warning_text(v: ApiVersion) -> Seq<char> {
    "299 - \"API "@ + version_text(v) + " is deprecated and will be removed on "@ + (match sunset_text(v) {
        Some(t) => t,
        None => "TBD"@,
    }) + ". Migrate to "@ + version_text(spec_latest()) + ": "@ + (match guide_text(v) {
        Some(t) => t,
        None => "https://docs.blinks.app/api"@,
    }) + "\""@
}

/// The headers announcing `v` on a response, as (name, value): the version
/// itself, and for a deprecated version `Deprecation`, `Sunset`, `Link` to the
/// migration guide and a `Warning` (RFC 8594, RFC 7234).
pub open spec fn version_headers(v: ApiVersion) -> Seq<(Seq<char>, Seq<char>)> {
    let base = seq![("x-api-version"@, version_text(v))];
    if v == ApiVersion::V1 {
        base + seq![
            ("deprecation"@, "true"@),
            ("sunset"@, sunset_text(v)->0),
            ("link"@, "<"@ + guide_text(v)->0 + ">; rel=\"deprecation\""@),
            ("warning"@, warning_text(v)),
        ]
    } else {
        base
    }
}

pub open spec fn header_lines_view(lines: Seq<HeaderLine>) -> Seq<(Seq<char>, Seq<char>)> {
    lines.map_values(|h: HeaderLine| (h.name@, h.value@))
}

fn header_line(name: &str, value: String) -> (h: HeaderLine)
    ensures
        h.name@ == name@,
        h.value@ == value@,
{
    HeaderLine { name: name.to_owned(), value }
}

/// The headers a response to a request served with `version` carries.
pub fn version_response_headers(version: ApiVersion) -> (r: Vec<HeaderLine>)
    ensures
        header_lines_view(r@) == version_headers(version),
{
    let mut lines: Vec<HeaderLine> = Vec::new();
    lines.push(header_line("x-api-version", version.as_str().to_owned()));
    if version.is_deprecated() {
        lines.push(header_line("deprecation", "true".to_owned()));
        let sunset: &str = match version.sunset_date() {
            Some(s) => s,
            None => "TBD",
        };
        let guide: &str = match version.migration_guide_url() {
            Some(u) => u,
            None => "https://docs.blinks.app/api",
        };
        lines.push(header_line("sunset", sunset.to_owned()));
        let link = concat(concat("<", guide).as_str(), ">; rel=\"deprecation\"");
        lines.push(header_line("link", link));
        let w1 = concat("299 - \"API ", version.as_str());
        let w2 = concat(w1.as_str(), " is deprecated and will be removed on ");
        let w3 = concat(w2.as_str(), sunset);
        let w4 = concat(w3.as_str(), ". Migrate to ");
        let w5 = concat(w4.as_str(), ApiVersion::latest().as_str());
        let w6 = concat(w5.as_str(), ": ");
        let w7 = concat(w6.as_str(), guide);
        let warning = concat(w7.as_str(), "\"");
        lines.push(header_line("warning", warning));
    }
    proof {
        assert(header_lines_view(lines@) =~= version_headers(version));
    }
    lines
}


/// Each version's name reads back as that version, whether it comes as a
/// path segment, as a whole path, or as a header value; and a version is
/// deprecated exactly when it has a sunset date and a migration guide.
pub proof fn law_version_names_round_trip(v: ApiVersion)
    ensures
        version_of_segment(version_text(v)) == Some(v),
        version_of_header(version_text(v)) == Some(v),
        version_in_path(version_text(v)) == Some(v),
        (v == ApiVersion::V1) == (sunset_text(v) is Some),
        (v == ApiVersion::V1) == (guide_text(v) is Some),
{
    reveal_strlit("v1");
    reveal_strlit("v2");
    reveal_strlit("1");
    reveal_strlit("2");
    let t = version_text(v);
    assert(t.len() == 2);
    assert(!is_white_space(t[0]) && !is_white_space(t[1]));
    assert(trim_start(t) == t);
    assert(trim_end(t) == t);
    assert(t[0] != '/' && t[1] != '/');
    lemma_segment_len_is(t, 2);
    assert(t.subrange(0, 2) =~= t);
    assert("v1"@ != "v2"@) by {
        assert("v1"@[1] != "v2"@[1]);
    }
}

/// Headers are read in a fixed order: a version named by `X-API-Version`
/// wins whatever the others say; without one, `Accept-Version` decides, and
/// only then `API-Version`. A request whose path names no version is served
/// with the version its headers name this way, else v1.
pub proof fn law_header_precedence(path: Seq<char>, h: VersionHeaders, v: ApiVersion)
    ensures
        h.x_api_version matches Some(x) && version_of_header(x@) == Some(v) ==> version_in_headers(h) == Some(v),
        (h.x_api_version matches Some(x) ==> version_of_header(x@) is None) ==> (h.accept_version matches Some(a)
            && version_of_header(a@) == Some(v) ==> version_in_headers(h) == Some(v)),
        (h.x_api_version matches Some(x) ==> version_of_header(x@) is None) && (h.accept_version matches Some(a)
            ==> version_of_header(a@) is None) ==> (h.api_version matches Some(p) && version_of_header(p@) == Some(
            v,
        ) ==> version_in_headers(h) == Some(v)),
        (h.x_api_version matches Some(x) ==> version_of_header(x@) is None) && (h.accept_version matches Some(a)
            ==> version_of_header(a@) is None) && (h.api_version matches Some(p) ==> version_of_header(p@) is None)
            ==> version_in_headers(h) is None,
        version_in_path(path) is None && version_in_headers(h) == Some(v) ==> resolved_version(path, h) == v,
        version_in_path(path) is None && version_in_headers(h) is None ==> resolved_version(path, h)
            == ApiVersion::V1,
        version_in_path(path) == Some(v) ==> resolved_version(path, h) == v,
{
}

} // verus!
