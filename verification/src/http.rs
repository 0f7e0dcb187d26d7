//! The HTTP domain: request contexts and data inputs for matching HTTP
//! requests, plus the pure helpers that split paths and query strings.

use vstd::prelude::*;

verus! {

use crate::config::ConfigValue;
use crate::data_input::DataInput;
use crate::errors::ErrorView;
use crate::errors::MatcherError;
use crate::kvmap::KvMap;
use crate::matching_data::MatchingData;
use crate::registry::IntoDataInput;
use crate::registry::RegistryBuilder;
use crate::registry::register_core_matchers;
use crate::strings::lower_seq;
use crate::strings::str_to_lower;
use vstd::string::StrSliceExecFns;

/// The position of the first occurrence of `c` in `s`, or -1.
pub open spec fn first_pos(s: Seq<char>, c: char) -> int
    decreases s,
{
    if s.len() == 0 {
        -1
    } else if s[0] == c {
        0
    } else {
        let r = first_pos(s.skip(1), c);
        if r < 0 {
            -1
        } else {
            r + 1
        }
    }
}

/// Finds the first occurrence of a character.
pub fn find_char(s: &str, c: char) -> (r: Option<usize>)
    ensures
        match r {
            Some(i) => first_pos(s@, c) == i,
            None => first_pos(s@, c) < 0,
        },
{
    let n = s.unicode_len();
    let mut i: usize = 0;
    proof {
        assert(s@.skip(0) =~= s@);
    }
    while i < n
        invariant
            n == s@.len(),
            i <= n,
            first_pos(s@, c) == if first_pos(s@.skip(i as int), c) < 0 {
                -1
            } else {
                first_pos(s@.skip(i as int), c) + i
            },
        decreases n - i,
    {
        proof {
            assert(s@.skip(i as int)[0] == s@[i as int]);
            assert(s@.skip(i as int).skip(1) =~= s@.skip(i + 1));
        }
        let ch = s.get_char(i);
        if ch as u32 == c as u32 {
            proof {
                vstd::utf8::char_u32_cast(ch, ch as u32);
                vstd::utf8::char_u32_cast(c, c as u32);
                assert(s@[i as int] == c);
                assert(first_pos(s@.skip(i as int), c) == 0);
            }
            return Some(i);
        }
        proof {
            vstd::utf8::char_u32_cast(ch, ch as u32);
            vstd::utf8::char_u32_cast(c, c as u32);
            assert(s@[i as int] != c);
        }
        i += 1;
    }
    proof {
        assert(s@.skip(i as int) =~= Seq::<char>::empty());
    }
    None
}

/// The query-string part of a path: everything after the first `?`, when
/// there is one.
pub open spec fn spec_query_of(path: Seq<char>) -> Option<Seq<char>> {
    let p = first_pos(path, '?');
    if p < 0 {
        None
    } else {
        Some(path.skip(p + 1))
    }
}

/// The path without its query string: everything before the first `?`.
pub open spec fn spec_path_only(path: Seq<char>) -> Seq<char> {
    let p = first_pos(path, '?');
    if p < 0 {
        path
    } else {
        path.take(p)
    }
}

/// Parse the query string from a path: the part after the first `?`, or
/// nothing when the path has none.
pub fn parse_query_string(path: &str) -> (r: Option<&str>)
    ensures
        match r {
            Some(q) => spec_query_of(path@) == Some(q@),
            None => spec_query_of(path@) is None,
        },
{
    proof {
        lemma_first_pos_range(path@, '?');
    }
    match find_char(path, '?') {
        Some(p) => {
            let n = path.unicode_len();
            let q = path.substring_char(p + 1, n);
            proof {
                assert(q@ =~= path@.skip(p + 1));
            }
            Some(q)
        },
        None => None,
    }
}

/// Parse the path without its query string.
pub fn parse_path_only(path: &str) -> (r: &str)
    ensures
        r@ == spec_path_only(path@),
{
    proof {
        lemma_first_pos_range(path@, '?');
    }
    match find_char(path, '?') {
        Some(p) => {
            let r = path.substring_char(0, p);
            proof {
                assert(r@ =~= path@.take(p as int));
            }
            r
        },
        None => path,
    }
}

/// The first position is within the sequence.
pub proof fn lemma_first_pos_range(s: Seq<char>, c: char)
    ensures
        first_pos(s, c) < s.len(),
        first_pos(s, c) >= -1,
        first_pos(s, c) >= 0 ==> s[first_pos(s, c)] == c,
    decreases s,
{
    if s.len() > 0 && s[0] != c {
        lemma_first_pos_range(s.skip(1), c);
    }
}

/// The value of the named parameter in a query string: the first
/// `&`-separated pair whose key, before the first `=`, equals the name.
pub open spec fn spec_query_param(query: Seq<char>, name: Seq<char>) -> Option<Seq<char>>
    decreases query.len(),
    via spec_query_param_dec
{
    let amp = first_pos(query, '&');
    let seg = if amp < 0 {
        query
    } else {
        query.take(amp)
    };
    let eq = first_pos(seg, '=');
    if eq >= 0 && seg.take(eq) == name {
        Some(seg.skip(eq + 1))
    } else if amp < 0 {
        None
    } else {
        spec_query_param(query.skip(amp + 1), name)
    }
}

#[via_fn]
proof fn spec_query_param_dec(query: Seq<char>, name: Seq<char>) {
    lemma_first_pos_range(query, '&');
}

/// Get a query parameter value from a query string.
pub fn get_query_param<'a>(query: &'a str, name: &str) -> (r: Option<&'a str>)
    ensures
        match r {
            Some(v) => spec_query_param(query@, name@) == Some(v@),
            None => spec_query_param(query@, name@) is None,
        },
    decreases query@.len(),
{
    let n = query.unicode_len();
    let amp = find_char(query, '&');
    proof {
        lemma_first_pos_range(query@, '&');
    }
    let seg = match amp {
        Some(a) => query.substring_char(0, a),
        None => query,
    };
    proof {
        match amp {
            Some(a) => {
                assert(seg@ =~= query@.take(a as int));
            },
            None => {
                assert(seg@ =~= query@);
            },
        }
        lemma_first_pos_range(seg@, '=');
    }
    let eq = find_char(seg, '=');
    match eq {
        Some(e) => {
            let key = seg.substring_char(0, e);
            let sn = seg.unicode_len();
            if crate::strings::str_eq(key, name) {
                proof {
                    assert(key@ =~= seg@.take(e as int));
                }
                let v = seg.substring_char(e + 1, sn);
                proof {
                    assert(v@ =~= seg@.skip(e + 1));
                }
                return Some(v);
            }
        },
        None => {},
    }
    match amp {
        Some(a) => {
            let rest = query.substring_char(a + 1, n);
            proof {
                assert(rest@ =~= query@.skip(a + 1));
                match eq {
                    Some(e) => {
                        assert(seg@.take(e as int) != name@) by {
                            assert(seg@.take(e as int) =~= seg@.take(e as int));
                        }
                    },
                    None => {},
                }
            }
            get_query_param(rest, name)
        },
        None => None,
    }
}

/// A simple HTTP request context for testing and basic use.
pub struct HttpRequest {
    /// The HTTP method.
    pub method: String,
    /// The request path.
    pub path: String,
    /// Headers, keyed by lowercased name.
    pub headers: KvMap,
    /// Query parameters.
    pub query_params: KvMap,
}

impl HttpRequest {
    /// The context is well formed.
    pub open spec fn wf(&self) -> bool {
        self.headers.wf() && self.query_params.wf()
    }

    /// Create a builder for a request.
    pub fn builder() -> (r: HttpRequestBuilder)
        ensures
            r.request.wf(),
            r.request.method@.len() == 0,
            r.request.path@.len() == 0,
            forall|k: Seq<char>| #[trigger] r.request.headers.spec_get(k) is None,
            forall|k: Seq<char>| #[trigger] r.request.query_params.spec_get(k) is None,
    {
        HttpRequestBuilder {
            request: HttpRequest {
                method: String::new(),
                path: String::new(),
                headers: KvMap::new(),
                query_params: KvMap::new(),
            },
        }
    }

    /// Get the HTTP method.
    pub fn method(&self) -> (r: &str)
        ensures
            r@ == self.method@,
    {
        self.method.as_str()
    }

    /// Get the request path.
    pub fn path(&self) -> (r: &str)
        ensures
            r@ == self.path@,
    {
        self.path.as_str()
    }

    /// Get a header value by name; names are matched case-insensitively.
    pub fn header(&self, name: &str) -> (r: Option<&str>)
        ensures
            match r {
                Some(v) => self.headers.spec_get(lower_seq(name@)) matches Some(w) && v@ == w@,
                None => self.headers.spec_get(lower_seq(name@)) is None,
            },
    {
        let lowered = str_to_lower(name);
        match self.headers.get(lowered.as_str()) {
            Some(v) => Some(v.as_str()),
            None => None,
        }
    }

    /// Get a query parameter by name.
    pub fn query_param(&self, name: &str) -> (r: Option<&str>)
        ensures
            match r {
                Some(v) => self.query_params.spec_get(name@) matches Some(w) && v@ == w@,
                None => self.query_params.spec_get(name@) is None,
            },
    {
        match self.query_params.get(name) {
            Some(v) => Some(v.as_str()),
            None => None,
        }
    }
}

/// Builder for an [`HttpRequest`].
pub struct HttpRequestBuilder {
    /// The request under construction.
    pub request: HttpRequest,
}

impl HttpRequestBuilder {
    /// Set the HTTP method.
    pub fn method(self, method: &str) -> (r: Self)
        requires
            self.request.wf(),
        ensures
            r.request.wf(),
            r.request.method@ == method@,
            r.request.path == self.request.path,
            r.request.headers == self.request.headers,
            r.request.query_params == self.request.query_params,
    {
        let mut this = self;
        this.request.method = method.to_owned();
        this
    }

    /// Set the request path.
    pub fn path(self, path: &str) -> (r: Self)
        requires
            self.request.wf(),
        ensures
            r.request.wf(),
            r.request.path@ == path@,
            r.request.method == self.request.method,
            r.request.headers == self.request.headers,
            r.request.query_params == self.request.query_params,
    {
        let mut this = self;
        this.request.path = path.to_owned();
        this
    }

    /// Add a header; the name is lowercased so lookups are
    /// case-insensitive.
    pub fn header(self, name: &str, value: &str) -> (r: Self)
        requires
            self.request.wf(),
        ensures
            r.request.wf(),
            r.request.headers.spec_get(lower_seq(name@)) matches Some(v) && v@ == value@,
            forall|k: Seq<char>|
                k != lower_seq(name@) ==> #[trigger] r.request.headers.spec_get(k)
                    == self.request.headers.spec_get(k),
            r.request.method == self.request.method,
            r.request.path == self.request.path,
            r.request.query_params == self.request.query_params,
    {
        let mut this = self;
        this.request.headers.insert(str_to_lower(name), value.to_owned());
        this
    }

    /// Add a query parameter.
    pub fn query_param(self, name: &str, value: &str) -> (r: Self)
        requires
            self.request.wf(),
        ensures
            r.request.wf(),
            r.request.query_params.spec_get(name@) matches Some(v) && v@ == value@,
            forall|k: Seq<char>|
                k != name@ ==> #[trigger] r.request.query_params.spec_get(k)
                    == self.request.query_params.spec_get(k),
            r.request.method == self.request.method,
            r.request.path == self.request.path,
            r.request.headers == self.request.headers,
    {
        let mut this = self;
        this.request.query_params.insert(name.to_owned(), value.to_owned());
        this
    }

    /// Build the request.
    pub fn build(self) -> (r: HttpRequest)
        ensures
            r == self.request,
    {
        self.request
    }
}

/// Extracts the HTTP method from a simple request.
#[derive(Debug, Clone, Copy)]
pub struct SimpleMethodInput;

/// Extracts the path from a simple request.
#[derive(Debug, Clone, Copy)]
pub struct SimplePathInput;

/// Extracts a header from a simple request, by lowercased name.
#[derive(Debug, Clone)]
pub struct SimpleHeaderInput {
    /// The lowercased header name.
    pub name: String,
}

impl SimpleHeaderInput {
    /// Create a header input for the given name (case-insensitive).
    pub fn new(name: &str) -> (r: Self)
        ensures
            r.name@ == lower_seq(name@),
    {
        SimpleHeaderInput { name: str_to_lower(name) }
    }
}

/// Extracts a query parameter from a simple request.
#[derive(Debug, Clone)]
pub struct SimpleQueryParamInput {
    /// The parameter name.
    pub name: String,
}

impl SimpleQueryParamInput {
    /// Create a query parameter input for the given name.
    pub fn new(name: &str) -> (r: Self)
        ensures
            r.name@ == name@,
    {
        SimpleQueryParamInput { name: name.to_owned() }
    }
}

/// The sum of the simple-request inputs, usable inside one predicate tree.
#[derive(Debug, Clone)]
pub enum SimpleInput {
    /// A [`SimpleMethodInput`].
    Method(SimpleMethodInput),
    /// A [`SimplePathInput`].
    Path(SimplePathInput),
    /// A [`SimpleHeaderInput`].
    Header(SimpleHeaderInput),
    /// A [`SimpleQueryParamInput`].
    QueryParam(SimpleQueryParamInput),
}

impl DataInput for SimpleInput {
    type Ctx = HttpRequest;

    open spec fn spec_get(&self, ctx: &HttpRequest) -> MatchingData {
        match self {
            SimpleInput::Method(_) => MatchingData::String(ctx.method),
            SimpleInput::Path(_) => MatchingData::String(ctx.path),
            SimpleInput::Header(i) => match ctx.headers.spec_get(i.name@) {
                Some(v) => MatchingData::String(v),
                None => MatchingData::Absent,
            },
            SimpleInput::QueryParam(i) => match ctx.query_params.spec_get(i.name@) {
                Some(v) => MatchingData::String(v),
                None => MatchingData::Absent,
            },
        }
    }

    open spec fn spec_data_type(&self) -> Seq<char> {
        "string"@
    }

    open spec fn spec_describe(&self) -> Seq<char> {
        match self {
            SimpleInput::Method(_) => "MethodInput"@,
            SimpleInput::Path(_) => "PathInput"@,
            SimpleInput::Header(_) => "HeaderInput"@,
            SimpleInput::QueryParam(_) => "QueryParamInput"@,
        }
    }

    fn get(&self, ctx: &HttpRequest) -> (r: MatchingData) {
        match self {
            SimpleInput::Method(_) => MatchingData::String(ctx.method.clone()),
            SimpleInput::Path(_) => MatchingData::String(ctx.path.clone()),
            SimpleInput::Header(i) => match ctx.headers.get(i.name.as_str()) {
                Some(v) => MatchingData::String(v.clone()),
                None => MatchingData::Absent,
            },
            SimpleInput::QueryParam(i) => match ctx.query_params.get(i.name.as_str()) {
                Some(v) => MatchingData::String(v.clone()),
                None => MatchingData::Absent,
            },
        }
    }

    fn data_type(&self) -> (r: &'static str) {
        "string"
    }

    fn describe(&self) -> (r: String) {
        match self {
            SimpleInput::Method(_) => "MethodInput".to_owned(),
            SimpleInput::Path(_) => "PathInput".to_owned(),
            SimpleInput::Header(_) => "HeaderInput".to_owned(),
            SimpleInput::QueryParam(_) => "QueryParamInput".to_owned(),
        }
    }
}


/// The four pseudo-header names.
pub open spec fn is_pseudo_name(key: Seq<char>) -> bool {
    key == ":path"@ || key == ":method"@ || key == ":authority"@ || key == ":scheme"@
}

/// The value of the last header whose lowercased name equals `name`;
/// later occurrences replace earlier ones.
pub open spec fn spec_pseudo(hs: Seq<(String, String)>, name: Seq<char>) -> Option<String>
    decreases hs,
{
    if hs.len() == 0 {
        None
    } else if lower_seq(hs.last().0@) == name {
        Some(hs.last().1)
    } else {
        spec_pseudo(hs.drop_last(), name)
    }
}

/// The value of the last plain (non-pseudo) header whose lowercased name
/// equals `key`.
pub open spec fn spec_plain_header(hs: Seq<(String, String)>, key: Seq<char>) -> Option<String>
    decreases hs,
{
    if hs.len() == 0 {
        None
    } else if lower_seq(hs.last().0@) == key && !is_pseudo_name(key) {
        Some(hs.last().1)
    } else {
        spec_plain_header(hs.drop_last(), key)
    }
}

/// An indexed view over HTTP request data: headers keyed by lowercased
/// name, pseudo-headers parsed into dedicated fields, and query parameters
/// pre-indexed from the raw path.
pub struct HttpMessage {
    /// All plain headers, keyed by lowercased name.
    pub headers: KvMap,
    /// The parsed path, without its query string.
    pub path: Option<String>,
    /// The full raw path, with its query string.
    pub raw_path: Option<String>,
    /// The HTTP method.
    pub method: Option<String>,
    /// The authority.
    pub authority: Option<String>,
    /// The scheme.
    pub scheme: Option<String>,
    /// Query parameters, pre-indexed from the raw path; the first
    /// occurrence of a name wins.
    pub query: KvMap,
}

impl HttpMessage {
    /// The message is well formed.
    pub open spec fn wf(&self) -> bool {
        self.headers.wf() && self.query.wf()
    }

    /// Builds an indexed message from a flat header list. Pseudo-headers
    /// fill the dedicated fields, with the last occurrence winning; plain
    /// headers are indexed by lowercased name; query parameters are
    /// pre-indexed from the raw path.
    pub fn from_headers(header_list: Vec<(String, String)>) -> (r: HttpMessage)
        ensures
            r.wf(),
            r.raw_path == spec_pseudo(header_list@, ":path"@),
            r.method == spec_pseudo(header_list@, ":method"@),
            r.authority == spec_pseudo(header_list@, ":authority"@),
            r.scheme == spec_pseudo(header_list@, ":scheme"@),
            match (r.raw_path, r.path) {
                (Some(rp), Some(p)) => p@ == spec_path_only(rp@),
                (None, None) => true,
                _ => false,
            },
            forall|k: Seq<char>|
                #[trigger] r.headers.spec_get(k) == spec_plain_header(header_list@, k),
    {
        let mut msg = HttpMessage {
            headers: KvMap::new(),
            path: None,
            raw_path: None,
            method: None,
            authority: None,
            scheme: None,
            query: KvMap::new(),
        };
        let n = header_list.len();
        let mut i: usize = 0;
        proof {
            assert(header_list@.take(0) =~= Seq::<(String, String)>::empty());
        }
        while i < n
            invariant
                n == header_list@.len(),
                i <= n,
                msg.wf(),
                msg.raw_path == spec_pseudo(header_list@.take(i as int), ":path"@),
                msg.method == spec_pseudo(header_list@.take(i as int), ":method"@),
                msg.authority == spec_pseudo(header_list@.take(i as int), ":authority"@),
                msg.scheme == spec_pseudo(header_list@.take(i as int), ":scheme"@),
                match (msg.raw_path, msg.path) {
                    (Some(rp), Some(p)) => p@ == spec_path_only(rp@),
                    (None, None) => true,
                    _ => false,
                },
                forall|k: Seq<char>|
                    #[trigger] msg.headers.spec_get(k) == spec_plain_header(
                        header_list@.take(i as int),
                        k,
                    ),
            decreases n - i,
        {
            let key = str_to_lower(header_list[i].0.as_str());
            index_header(&mut msg, key, &header_list[i].1);
            i += 1;
            proof {
                let pre = header_list@.take(i - 1);
                let cur = header_list@.take(i as int);
                assert(cur.drop_last() =~= pre);
                assert(cur.last() == header_list@[i - 1]);
                assert forall|k: Seq<char>|
                    #[trigger] msg.headers.spec_get(k) == spec_plain_header(cur, k) by {}
            }
        }
        proof {
            assert(header_list@.take(n as int) =~= header_list@);
        }
        match &msg.raw_path {
            Some(rp) => {
                let raw = rp.clone();
                match parse_query_string(raw.as_str()) {
                    Some(q) => {
                        let pairs = index_query_params(q);
                        msg.query = pairs;
                    },
                    None => {},
                }
            },
            None => {},
        }
        msg
    }

    /// Get the request path, without its query string.
    pub fn path(&self) -> (r: Option<&str>)
        ensures
            match r {
                Some(p) => self.path matches Some(q) && p@ == q@,
                None => self.path is None,
            },
    {
        match &self.path {
            Some(p) => Some(p.as_str()),
            None => None,
        }
    }

    /// Get the full raw path, with its query string.
    pub fn raw_path(&self) -> (r: Option<&str>)
        ensures
            match r {
                Some(p) => self.raw_path matches Some(q) && p@ == q@,
                None => self.raw_path is None,
            },
    {
        match &self.raw_path {
            Some(p) => Some(p.as_str()),
            None => None,
        }
    }

    /// Get the HTTP method.
    pub fn method(&self) -> (r: Option<&str>)
        ensures
            match r {
                Some(m) => self.method matches Some(q) && m@ == q@,
                None => self.method is None,
            },
    {
        match &self.method {
            Some(m) => Some(m.as_str()),
            None => None,
        }
    }

    /// Get the authority.
    pub fn authority(&self) -> (r: Option<&str>)
        ensures
            match r {
                Some(a) => self.authority matches Some(q) && a@ == q@,
                None => self.authority is None,
            },
    {
        match &self.authority {
            Some(a) => Some(a.as_str()),
            None => None,
        }
    }

    /// Get the scheme.
    pub fn scheme(&self) -> (r: Option<&str>)
        ensures
            match r {
                Some(s) => self.scheme matches Some(q) && s@ == q@,
                None => self.scheme is None,
            },
    {
        match &self.scheme {
            Some(s) => Some(s.as_str()),
            None => None,
        }
    }

    /// Get a header value by name; names are matched case-insensitively.
    pub fn header(&self, name: &str) -> (r: Option<&str>)
        ensures
            match r {
                Some(v) => self.headers.spec_get(lower_seq(name@)) matches Some(w) && v@ == w@,
                None => self.headers.spec_get(lower_seq(name@)) is None,
            },
    {
        let lowered = str_to_lower(name);
        match self.headers.get(lowered.as_str()) {
            Some(v) => Some(v.as_str()),
            None => None,
        }
    }

    /// Get a query parameter value by name.
    pub fn query_param(&self, name: &str) -> (r: Option<&str>)
        ensures
            match r {
                Some(v) => self.query.spec_get(name@) matches Some(w) && v@ == w@,
                None => self.query.spec_get(name@) is None,
            },
    {
        match self.query.get(name) {
            Some(v) => Some(v.as_str()),
            None => None,
        }
    }
}

/// Indexes one header into a message: a pseudo-header replaces the
/// corresponding field, anything else is stored as a plain header under its
/// lowercased name.
fn index_header(msg: &mut HttpMessage, key: String, value: &String)
    requires
        old(msg).wf(),
    ensures
        final(msg).wf(),
        final(msg).raw_path == if key@ == ":path"@ {
            Some(*value)
        } else {
            old(msg).raw_path
        },
        key@ == ":path"@ ==> (final(msg).path matches Some(p) && p@ == spec_path_only(value@)),
        key@ != ":path"@ ==> final(msg).path == old(msg).path,
        final(msg).method == if key@ == ":method"@ {
            Some(*value)
        } else {
            old(msg).method
        },
        final(msg).authority == if key@ == ":authority"@ {
            Some(*value)
        } else {
            old(msg).authority
        },
        final(msg).scheme == if key@ == ":scheme"@ {
            Some(*value)
        } else {
            old(msg).scheme
        },
        forall|k: Seq<char>|
            #[trigger] final(msg).headers.spec_get(k) == if k == key@ && !is_pseudo_name(k) {
                Some(*value)
            } else {
                old(msg).headers.spec_get(k)
            },
        final(msg).query == old(msg).query,
{
    if crate::strings::str_eq(key.as_str(), ":path") {
        msg.raw_path = Some(value.clone());
        msg.path = Some(parse_path_only(value.as_str()).to_owned());
        proof {
            reveal_strlit(":path");
            reveal_strlit(":method");
            reveal_strlit(":authority");
            reveal_strlit(":scheme");
            assert(key@ != ":method"@ && key@ != ":authority"@ && key@ != ":scheme"@) by {
                assert(":path"@.len() != ":method"@.len());
                assert(":path"@.len() != ":authority"@.len());
                assert(":path"@.len() != ":scheme"@.len());
            }
            assert(is_pseudo_name(key@));
        }
    } else if crate::strings::str_eq(key.as_str(), ":method") {
        msg.method = Some(value.clone());
        proof {
            reveal_strlit(":path");
            reveal_strlit(":method");
            reveal_strlit(":authority");
            reveal_strlit(":scheme");
            assert(key@ != ":path"@ && key@ != ":authority"@ && key@ != ":scheme"@) by {
                assert(":method"@.len() != ":path"@.len());
                assert(":method"@.len() != ":authority"@.len());
                assert(":method"@[1] != ":scheme"@[1]);
            }
            assert(is_pseudo_name(key@));
        }
    } else if crate::strings::str_eq(key.as_str(), ":authority") {
        msg.authority = Some(value.clone());
        proof {
            reveal_strlit(":path");
            reveal_strlit(":method");
            reveal_strlit(":authority");
            reveal_strlit(":scheme");
            assert(key@ != ":path"@ && key@ != ":method"@ && key@ != ":scheme"@) by {
                assert(":authority"@.len() != ":path"@.len());
                assert(":authority"@.len() != ":method"@.len());
                assert(":authority"@.len() != ":scheme"@.len());
            }
            assert(is_pseudo_name(key@));
        }
    } else if crate::strings::str_eq(key.as_str(), ":scheme") {
        msg.scheme = Some(value.clone());
        proof {
            reveal_strlit(":path");
            reveal_strlit(":method");
            reveal_strlit(":authority");
            reveal_strlit(":scheme");
            assert(key@ != ":path"@ && key@ != ":method"@ && key@ != ":authority"@) by {
                assert(":scheme"@.len() != ":path"@.len());
                assert(":scheme"@[1] != ":method"@[1]);
                assert(":scheme"@.len() != ":authority"@.len());
            }
            assert(is_pseudo_name(key@));
        }
    } else {
        let ghost gkey = key@;
        msg.headers.insert(key, value.clone());
        proof {
            assert(!is_pseudo_name(gkey));
        }
    }
}

/// Indexes the pairs of a query string into a map; the first occurrence of
/// a name wins.
fn index_query_params(q: &str) -> (r: KvMap)
    ensures
        r.wf(),
    decreases q@.len(),
{
    proof {
        lemma_first_pos_range(q@, '&');
    }
    let n = q.unicode_len();
    let amp = find_char(q, '&');
    let seg = match amp {
        Some(a) => q.substring_char(0, a),
        None => q,
    };
    let mut rest_map = match amp {
        Some(a) => {
            let rest = q.substring_char(a + 1, n);
            proof {
                assert(rest@ =~= q@.skip(a + 1));
            }
            index_query_params(rest)
        },
        None => KvMap::new(),
    };
    proof {
        lemma_first_pos_range(seg@, '=');
    }
    match find_char(seg, '=') {
        Some(e) => {
            let sn = seg.unicode_len();
            let key = seg.substring_char(0, e);
            let value = seg.substring_char(e + 1, sn);
            // first occurrence wins: this segment overrides later ones
            rest_map.insert(key.to_owned(), value.to_owned());
        },
        None => {},
    }
    rest_map
}

/// Extracts the request path (without query string).
#[derive(Debug, Clone, Copy, Default)]
pub struct PathInput;

/// Extracts the HTTP method.
#[derive(Debug, Clone, Copy, Default)]
pub struct MethodInput;

/// Extracts a header value, by lowercased name.
#[derive(Debug, Clone)]
pub struct HeaderInput {
    /// The header name.
    pub name: String,
}

impl HeaderInput {
    /// Create a new header input extractor.
    pub fn new(name: &str) -> (r: Self)
        ensures
            r.name@ == name@,
    {
        HeaderInput { name: name.to_owned() }
    }
}

/// Extracts a query parameter value.
#[derive(Debug, Clone)]
pub struct QueryParamInput {
    /// The parameter name.
    pub name: String,
}

impl QueryParamInput {
    /// Create a new query parameter input extractor.
    pub fn new(name: &str) -> (r: Self)
        ensures
            r.name@ == name@,
    {
        QueryParamInput { name: name.to_owned() }
    }
}

/// Extracts the scheme.
#[derive(Debug, Clone, Copy, Default)]
pub struct SchemeInput;

/// Extracts the authority.
#[derive(Debug, Clone, Copy, Default)]
pub struct AuthorityInput;

/// The sum of the indexed-message inputs, usable inside one predicate
/// tree.
#[derive(Debug, Clone)]
pub enum MessageInput {
    /// A [`PathInput`].
    Path(PathInput),
    /// A [`MethodInput`].
    Method(MethodInput),
    /// A [`HeaderInput`].
    Header(HeaderInput),
    /// A [`QueryParamInput`].
    QueryParam(QueryParamInput),
    /// A [`SchemeInput`].
    Scheme(SchemeInput),
    /// An [`AuthorityInput`].
    Authority(AuthorityInput),
}

impl DataInput for MessageInput {
    type Ctx = HttpMessage;

    open spec fn spec_get(&self, ctx: &HttpMessage) -> MatchingData {
        match self {
            MessageInput::Path(_) => match ctx.path {
                Some(p) => MatchingData::String(p),
                None => MatchingData::Absent,
            },
            MessageInput::Method(_) => match ctx.method {
                Some(m) => MatchingData::String(m),
                None => MatchingData::Absent,
            },
            MessageInput::Header(i) => match ctx.headers.spec_get(lower_seq(i.name@)) {
                Some(v) => MatchingData::String(v),
                None => MatchingData::Absent,
            },
            MessageInput::QueryParam(i) => match ctx.query.spec_get(i.name@) {
                Some(v) => MatchingData::String(v),
                None => MatchingData::Absent,
            },
            MessageInput::Scheme(_) => match ctx.scheme {
                Some(s) => MatchingData::String(s),
                None => MatchingData::Absent,
            },
            MessageInput::Authority(_) => match ctx.authority {
                Some(a) => MatchingData::String(a),
                None => MatchingData::Absent,
            },
        }
    }

    open spec fn spec_data_type(&self) -> Seq<char> {
        "string"@
    }

    open spec fn spec_describe(&self) -> Seq<char> {
        match self {
            MessageInput::Path(_) => "PathInput"@,
            MessageInput::Method(_) => "MethodInput"@,
            MessageInput::Header(_) => "HeaderInput"@,
            MessageInput::QueryParam(_) => "QueryParamInput"@,
            MessageInput::Scheme(_) => "SchemeInput"@,
            MessageInput::Authority(_) => "AuthorityInput"@,
        }
    }

    fn get(&self, ctx: &HttpMessage) -> (r: MatchingData) {
        match self {
            MessageInput::Path(_) => match &ctx.path {
                Some(p) => MatchingData::String(p.clone()),
                None => MatchingData::Absent,
            },
            MessageInput::Method(_) => match &ctx.method {
                Some(m) => MatchingData::String(m.clone()),
                None => MatchingData::Absent,
            },
            MessageInput::Header(i) => {
                let lowered = str_to_lower(i.name.as_str());
                match ctx.headers.get(lowered.as_str()) {
                    Some(v) => MatchingData::String(v.clone()),
                    None => MatchingData::Absent,
                }
            },
            MessageInput::QueryParam(i) => match ctx.query.get(i.name.as_str()) {
                Some(v) => MatchingData::String(v.clone()),
                None => MatchingData::Absent,
            },
            MessageInput::Scheme(_) => match &ctx.scheme {
                Some(s) => MatchingData::String(s.clone()),
                None => MatchingData::Absent,
            },
            MessageInput::Authority(_) => match &ctx.authority {
                Some(a) => MatchingData::String(a.clone()),
                None => MatchingData::Absent,
            },
        }
    }

    fn data_type(&self) -> (r: &'static str) {
        "string"
    }

    fn describe(&self) -> (r: String) {
        match self {
            MessageInput::Path(_) => "PathInput".to_owned(),
            MessageInput::Method(_) => "MethodInput".to_owned(),
            MessageInput::Header(_) => "HeaderInput".to_owned(),
            MessageInput::QueryParam(_) => "QueryParamInput".to_owned(),
            MessageInput::Scheme(_) => "SchemeInput".to_owned(),
            MessageInput::Authority(_) => "AuthorityInput".to_owned(),
        }
    }
}

/// Configuration shape for [`HeaderInput`].
#[derive(Debug, Clone)]
pub struct HeaderInputConfig {
    /// The header name to extract.
    pub name: String,
}

/// Configuration shape for [`QueryParamInput`].
#[derive(Debug, Clone)]
pub struct QueryParamInputConfig {
    /// The parameter name to extract.
    pub name: String,
}

/// The factory for the HTTP domain's inputs.
#[derive(Debug, Clone, Copy)]
pub enum HttpInputFactory {
    /// Builds a [`PathInput`].
    Path,
    /// Builds a [`MethodInput`].
    Method,
    /// Builds a [`HeaderInput`]; the payload names the header.
    Header,
    /// Builds a [`QueryParamInput`]; the payload names the parameter.
    QueryParam,
    /// Builds a [`SchemeInput`].
    Scheme,
    /// Builds an [`AuthorityInput`].
    Authority,
}

/// The error rejecting a header or query-parameter payload without a
/// string `name` field.
pub open spec fn named_config_error() -> Seq<char> {
    "input config needs a string field \"name\""@
}

impl IntoDataInput for HttpInputFactory {
    type Input = MessageInput;

    open spec fn spec_from_config(&self, config: &ConfigValue) -> Result<MessageInput, ErrorView> {
        match self {
            HttpInputFactory::Path => Ok(MessageInput::Path(PathInput)),
            HttpInputFactory::Method => Ok(MessageInput::Method(MethodInput)),
            HttpInputFactory::Header => match config.spec_get("name"@) {
                Some(v) => match v {
                    ConfigValue::Str(name) => Ok(MessageInput::Header(HeaderInput { name })),
                    _ => Err(ErrorView::InvalidConfig { source: named_config_error() }),
                },
                None => Err(ErrorView::InvalidConfig { source: named_config_error() }),
            },
            HttpInputFactory::QueryParam => match config.spec_get("name"@) {
                Some(v) => match v {
                    ConfigValue::Str(name) => Ok(
                        MessageInput::QueryParam(QueryParamInput { name }),
                    ),
                    _ => Err(ErrorView::InvalidConfig { source: named_config_error() }),
                },
                None => Err(ErrorView::InvalidConfig { source: named_config_error() }),
            },
            HttpInputFactory::Scheme => Ok(MessageInput::Scheme(SchemeInput)),
            HttpInputFactory::Authority => Ok(MessageInput::Authority(AuthorityInput)),
        }
    }

    fn from_config(&self, config: &ConfigValue) -> (r: Result<MessageInput, MatcherError>) {
        match self {
            HttpInputFactory::Path => Ok(MessageInput::Path(PathInput)),
            HttpInputFactory::Method => Ok(MessageInput::Method(MethodInput)),
            HttpInputFactory::Header => match config.get("name") {
                Some(v) => match v.as_string() {
                    Some(name) => Ok(MessageInput::Header(HeaderInput { name: name.clone() })),
                    None => Err(
                        MatcherError::InvalidConfig {
                            source: "input config needs a string field \"name\"".to_owned(),
                        },
                    ),
                },
                None => Err(
                    MatcherError::InvalidConfig {
                        source: "input config needs a string field \"name\"".to_owned(),
                    },
                ),
            },
            HttpInputFactory::QueryParam => match config.get("name") {
                Some(v) => match v.as_string() {
                    Some(name) => Ok(
                        MessageInput::QueryParam(QueryParamInput { name: name.clone() }),
                    ),
                    None => Err(
                        MatcherError::InvalidConfig {
                            source: "input config needs a string field \"name\"".to_owned(),
                        },
                    ),
                },
                None => Err(
                    MatcherError::InvalidConfig {
                        source: "input config needs a string field \"name\"".to_owned(),
                    },
                ),
            },
            HttpInputFactory::Scheme => Ok(MessageInput::Scheme(SchemeInput)),
            HttpInputFactory::Authority => Ok(MessageInput::Authority(AuthorityInput)),
        }
    }
}

/// Register the HTTP domain: the core matchers and the six message inputs
/// under their stable type URLs.
pub fn register(builder: RegistryBuilder<HttpInputFactory>) -> (r: RegistryBuilder<
    HttpInputFactory,
>)
    requires
        builder.wf(),
    ensures
        r.wf(),
{
    register_core_matchers(builder).input("xuma.http.v1.PathInput", HttpInputFactory::Path).input(
        "xuma.http.v1.MethodInput",
        HttpInputFactory::Method,
    ).input("xuma.http.v1.HeaderInput", HttpInputFactory::Header).input(
        "xuma.http.v1.QueryParamInput",
        HttpInputFactory::QueryParam,
    ).input("xuma.http.v1.SchemeInput", HttpInputFactory::Scheme).input(
        "xuma.http.v1.AuthorityInput",
        HttpInputFactory::Authority,
    )
}

} // verus!
