//! The request builder: from an endpoint descriptor and typed
//! parameters to a fully qualified request descriptor, with every
//! validation error caught before anything would be sent.

use vstd::prelude::*;
use vstd::string::StrSliceExecFns;
use vstd::string::StringExecFns;
use crate::errors::RequestConstructionError;
use crate::registry::Scope;
use crate::text::chars_to_string;

verus! {

#[derive(Clone, Copy, Debug, PartialEq, Eq, Structural)]
pub enum HttpMethod {
    Get,
    Post,
    Patch,
    Delete,
}

/// One endpoint: its path under the API base, its method, the scopes a
/// caller must hold, and the API version tag it belongs to. Immutable,
/// one value per registered endpoint kind.
pub struct EndpointDescriptor {
    pub path: String,
    pub method: HttpMethod,
    pub scopes: Vec<Scope>,
    pub version: String,
}

/// A fully qualified request, ready for a caller-supplied transport:
/// the URL with its query string, the method, an optional serialized
/// body, and the scopes the bearer token must carry.
#[derive(Debug)]
pub struct RequestDescriptor {
    pub url: String,
    pub method: HttpMethod,
    pub body: Option<String>,
    pub scopes: Vec<Scope>,
}

/// Every character is ASCII: the only parameter text the query encoder
/// writes.
pub open spec fn all_ascii(s: Seq<char>) -> bool {
    forall|i: int| 0 <= i < s.len() ==> s[i] as int <= 127
}

/// A character the query string carries as itself.
pub open spec fn is_unreserved(c: char) -> bool {
    (48 <= c as int <= 57) || (65 <= c as int <= 90) || (97 <= c as int <= 122)
        || c as int == 45 || c as int == 46 || c as int == 95 || c as int == 126
}

/// The upper-case hex digit for a value below sixteen.
pub open spec fn pct_digit(n: int) -> char {
    "0123456789ABCDEF"@[n]
}

/// How one character is written in a query string.
pub open spec fn pct_char(c: char) -> Seq<char> {
    if is_unreserved(c) {
        seq![c]
    } else {
        seq!['%', pct_digit(c as int / 16), pct_digit(c as int % 16)]
    }
}

/// How a parameter name or value is written in a query string.
pub open spec fn pct_str(s: Seq<char>) -> Seq<char>
    decreases s.len(),
{
    if s.len() == 0 {
        Seq::empty()
    } else {
        pct_str(s.drop_last()) + pct_char(s.last())
    }
}

/// One `name=value` pair.
pub open spec fn pair_text(p: (Seq<char>, Seq<char>)) -> Seq<char> {
    pct_str(p.0) + seq!['='] + pct_str(p.1)
}

/// The whole query string: pairs in order, joined by `&`. A repeated
/// name simply occurs again, which is how list-valued fields are sent.
pub open spec fn query_text(params: Seq<(Seq<char>, Seq<char>)>) -> Seq<char>
    decreases params.len(),
{
    if params.len() == 0 {
        Seq::empty()
    } else if params.len() == 1 {
        pair_text(params.last())
    } else {
        query_text(params.drop_last()) + seq!['&'] + pair_text(params.last())
    }
}

/// The first construction error a parameter list holds, scanned in
/// order: an empty value, then a non-ASCII name or value.
pub open spec fn params_first_error(
    params: Seq<(Seq<char>, Seq<char>)>,
) -> Option<RequestConstructionError>
    decreases params.len(),
{
    if params.len() == 0 {
        None
    } else if params[0].1.len() == 0 {
        Some(RequestConstructionError::EmptyRequiredField)
    } else if !all_ascii(params[0].0) || !all_ascii(params[0].1) {
        Some(RequestConstructionError::NonAsciiParam)
    } else {
        params_first_error(params.drop_first())
    }
}

/// What building a request fails with, if anything.
pub open spec fn spec_build_error(
    method: HttpMethod,
    has_body: bool,
    params: Seq<(Seq<char>, Seq<char>)>,
) -> Option<RequestConstructionError> {
    if method == HttpMethod::Get && has_body {
        Some(RequestConstructionError::BodyNotAllowed)
    } else {
        params_first_error(params)
    }
}

/// The API base every endpoint path hangs under.
pub fn base_url() -> (r: &'static str)
    ensures
        r@ == "https://api.twitch.tv/helix/"@,
{
    "https://api.twitch.tv/helix/"
}

/// The URL a request is sent to.
pub open spec fn spec_url(path: Seq<char>, params: Seq<(Seq<char>, Seq<char>)>) -> Seq<char> {
    if params.len() == 0 {
        "https://api.twitch.tv/helix/"@ + path
    } else {
        "https://api.twitch.tv/helix/"@ + path + seq!['?'] + query_text(params)
    }
}

/// Writes one parameter string in its query form.
fn push_pct(out: &mut Vec<char>, s: &str)
    requires
        all_ascii(s@),
    ensures
        final(out)@ == old(out)@ + pct_str(s@),
{
    let digits = "0123456789ABCDEF";
    proof {
        reveal_strlit("0123456789ABCDEF");
    }
    let n = s.unicode_len();
    let mut i: usize = 0;
    while i < n
        invariant
            i <= n,
            n == s@.len(),
            all_ascii(s@),
            digits@ == "0123456789ABCDEF"@,
            digits@.len() == 16,
            out@ == old(out)@ + pct_str(s@.subrange(0, i as int)),
        decreases n - i,
    {
        let c = s.get_char(i);
        let cu = c as u32;
        if (48 <= cu && cu <= 57) || (65 <= cu && cu <= 90) || (97 <= cu && cu <= 122)
            || cu == 45 || cu == 46 || cu == 95 || cu == 126 {
            out.push(c);
        } else {
            out.push('%');
            out.push(digits.get_char((cu / 16) as usize));
            out.push(digits.get_char((cu % 16) as usize));
        }
        proof {
            assert(s@.subrange(0, i + 1).drop_last() =~= s@.subrange(0, i as int));
            assert(s@.subrange(0, i + 1).last() == s@[i as int]);
        }
        i += 1;
    }
    proof {
        assert(s@.subrange(0, n as int) =~= s@);
    }
}

/// Writes the query string for a parameter list.
fn build_query(params: &Vec<(String, String)>) -> (r: Vec<char>)
    requires
        forall|k: int| 0 <= k < params@.len() ==> all_ascii(#[trigger] params@[k].0@)
            && all_ascii(params@[k].1@),
    ensures
        r@ == query_text(params.deep_view()),
{
    let ghost dv = params.deep_view();
    proof {
        assert(forall|k: int| 0 <= k < params@.len() ==> dv[k]
            == (params@[k].0@, params@[k].1@));
    }
    let mut out: Vec<char> = Vec::new();
    let mut i: usize = 0;
    while i < params.len()
        invariant
            i <= params@.len(),
            dv == params.deep_view(),
            dv.len() == params@.len(),
            forall|k: int| 0 <= k < params@.len() ==> dv[k]
                == (params@[k].0@, params@[k].1@),
            forall|k: int| 0 <= k < params@.len() ==> all_ascii(#[trigger] params@[k].0@)
                && all_ascii(params@[k].1@),
            out@ == query_text(dv.subrange(0, i as int)),
        decreases params@.len() - i,
    {
        if i > 0 {
            out.push('&');
        }
        push_pct(&mut out, params[i].0.as_str());
        out.push('=');
        push_pct(&mut out, params[i].1.as_str());
        proof {
            let pre = dv.subrange(0, i as int);
            let step = dv.subrange(0, i + 1);
            assert(step.drop_last() =~= pre);
            assert(step.last() == dv[i as int]);
            if i == 0 {
                assert(query_text(step) == pair_text(dv[i as int]));
            } else {
                assert(query_text(step)
                    == query_text(pre) + seq!['&'] + pair_text(dv[i as int]));
            }
            assert(out@ =~= query_text(step));
        }
        i += 1;
    }
    proof {
        assert(dv.subrange(0, dv.len() as int) =~= dv);
    }
    out
}

/// Copies the scope list of a descriptor into the request.
fn copy_scopes(scopes: &Vec<Scope>) -> (r: Vec<Scope>)
    ensures
        r@ == scopes@,
{
    let mut out: Vec<Scope> = Vec::new();
    let mut i: usize = 0;
    while i < scopes.len()
        invariant
            i <= scopes@.len(),
            out@ == scopes@.subrange(0, i as int),
        decreases scopes@.len() - i,
    {
        out.push(scopes[i]);
        proof {
            assert(scopes@.subrange(0, i + 1)
                =~= scopes@.subrange(0, i as int).push(scopes@[i as int]));
        }
        i += 1;
    }
    proof {
        assert(scopes@.subrange(0, scopes@.len() as int) =~= scopes@);
    }
    out
}

/// Builds a request descriptor, or reports the first validation error.
/// Nothing is sent: a failure here is local and distinct from any
/// transport or server error.
pub fn build_request(
    desc: &EndpointDescriptor,
    params: &Vec<(String, String)>,
    body: Option<String>,
) -> (r: Result<RequestDescriptor, RequestConstructionError>)
    ensures
        match r {
            Ok(rd) => spec_build_error(desc.method, body is Some, params.deep_view()) is None
                && rd.url@ == spec_url(desc.path@, params.deep_view())
                && rd.method == desc.method
                && rd.body.deep_view() == body.deep_view()
                && rd.scopes@ == desc.scopes@,
            Err(e) => spec_build_error(desc.method, body is Some, params.deep_view())
                == Some(e),
        },
{
    let has_body = body.is_some();
    if desc.method == HttpMethod::Get && has_body {
        return Err(RequestConstructionError::BodyNotAllowed);
    }
    let ghost dv = params.deep_view();
    proof {
        assert(forall|k: int| 0 <= k < params@.len() ==> dv[k]
            == (params@[k].0@, params@[k].1@));
        assert(dv.skip(0) =~= dv);
    }
    let mut i: usize = 0;
    while i < params.len()
        invariant
            i <= params@.len(),
            dv == params.deep_view(),
            dv.len() == params@.len(),
            forall|k: int| 0 <= k < params@.len() ==> dv[k]
                == (params@[k].0@, params@[k].1@),
            !(desc.method == HttpMethod::Get && body is Some),
            params_first_error(dv) == params_first_error(dv.skip(i as int)),
            forall|k: int| 0 <= k < i ==> all_ascii(#[trigger] dv[k].0) && all_ascii(dv[k].1),
        decreases params@.len() - i,
    {
        proof {
            assert(dv.skip(i as int)[0] == dv[i as int]);
            assert(dv.skip(i as int).drop_first() =~= dv.skip(i + 1));
        }
        if params[i].1.as_str().unicode_len() == 0 {
            proof {
                assert(params_first_error(dv.skip(i as int))
                    == Some(RequestConstructionError::EmptyRequiredField));
            }
            return Err(RequestConstructionError::EmptyRequiredField);
        }
        if !ascii_only(params[i].0.as_str()) || !ascii_only(params[i].1.as_str()) {
            proof {
                assert(params_first_error(dv.skip(i as int))
                    == Some(RequestConstructionError::NonAsciiParam));
            }
            return Err(RequestConstructionError::NonAsciiParam);
        }
        i += 1;
    }
    proof {
        assert(dv.skip(dv.len() as int) =~= Seq::<(Seq<char>, Seq<char>)>::empty());
        assert(forall|k: int| 0 <= k < dv.len() ==> dv[k] == (params@[k].0@, params@[k].1@));
    }
    proof {
        assert forall|k: int|
            0 <= k < params@.len() implies all_ascii(#[trigger] params@[k].0@)
            && all_ascii(params@[k].1@) by {
            assert(dv[k] == (params@[k].0@, params@[k].1@));
            assert(all_ascii(dv[k].0));
            assert(all_ascii(dv[k].1));
        }
    }
    let mut url = base_url().to_owned();
    url.append(desc.path.as_str());
    if params.len() > 0 {
        url.append("?");
        let q = build_query(params);
        let q_text = chars_to_string(&q);
        url.append(q_text.as_str());
        proof {
            reveal_strlit("?");
            assert("?"@ =~= seq!['?']);
            assert(url@ =~= spec_url(desc.path@, dv));
        }
    } else {
        proof {
            assert(url@ =~= spec_url(desc.path@, dv));
        }
    }
    Ok(RequestDescriptor {
        url,
        method: desc.method,
        body,
        scopes: copy_scopes(&desc.scopes),
    })
}

/// Whether every character of a string is ASCII.
pub fn ascii_only(s: &str) -> (r: bool)
    ensures
        r == all_ascii(s@),
{
    let n = s.unicode_len();
    let mut i: usize = 0;
    while i < n
        invariant
            i <= n,
            n == s@.len(),
            forall|j: int| 0 <= j < i ==> s@[j] as int <= 127,
        decreases n - i,
    {
        if s.get_char(i) as u32 > 127 {
            return false;
        }
        i += 1;
    }
    true
}

} // verus!
