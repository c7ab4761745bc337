//! The pagination driver's cursor rule: when to fetch another page, when
//! to stop, and when to call a server out for echoing the same cursor.

use vstd::prelude::*;
use vstd::string::StringExecFns;
use crate::errors::NextPageError;
use crate::errors::PaginationProtocolError;
use crate::request::EndpointDescriptor;
use crate::request::RequestDescriptor;
use crate::request::build_request;
use crate::request::spec_build_error;
use crate::request::spec_url;
use crate::text::str_eq;

verus! {

/// What the driver does after one page: fetch the next page with the
/// returned cursor, or stop. An absent or empty cursor, or an empty
/// page, is the terminal signal; a cursor equal to the one just used is
/// a protocol violation, reported after at most one extra exchange.
pub open spec fn spec_next_cursor(
    prev: Option<Seq<char>>,
    cursor: Option<Seq<char>>,
    data_len: nat,
) -> Result<Option<Seq<char>>, PaginationProtocolError> {
    match cursor {
        None => Ok(None),
        Some(c) => if c.len() == 0 || data_len == 0 {
            Ok(None)
        } else if prev == Some(c) {
            Err(PaginationProtocolError::RepeatedCursor)
        } else {
            Ok(Some(c))
        },
    }
}

/// Decides the next step from the cursor the page carried, the number of
/// records it held, and the cursor the page was requested with.
pub fn next_cursor(
    prev: &Option<String>,
    cursor: &Option<String>,
    data_len: usize,
) -> (r: Result<Option<String>, PaginationProtocolError>)
    ensures
        match r {
            Ok(next) => Ok::<Option<Seq<char>>, PaginationProtocolError>(next.deep_view())
                == spec_next_cursor(prev.deep_view(), cursor.deep_view(), data_len as nat),
            Err(e) => Err::<Option<Seq<char>>, PaginationProtocolError>(e)
                == spec_next_cursor(prev.deep_view(), cursor.deep_view(), data_len as nat),
        },
{
    match cursor {
        None => Ok(None),
        Some(c) => {
            if c.as_str().unicode_len() == 0 || data_len == 0 {
                Ok(None)
            } else {
                let repeated = match prev {
                    Some(p) => str_eq(p.as_str(), c.as_str()),
                    None => false,
                };
                if repeated {
                    Err(PaginationProtocolError::RepeatedCursor)
                } else {
                    Ok(Some(c.clone()))
                }
            }
        },
    }
}

/// The parameters of the next page: the original parameters with the
/// cursor injected under the continuation key.
pub open spec fn spec_next_params(
    original: Seq<(Seq<char>, Seq<char>)>,
    cursor: Seq<char>,
) -> Seq<(Seq<char>, Seq<char>)> {
    original.push(("after"@, cursor))
}

/// Copies a parameter list.
fn copy_params(params: &Vec<(String, String)>) -> (r: Vec<(String, String)>)
    ensures
        r.deep_view() == params.deep_view(),
{
    let mut out: Vec<(String, String)> = Vec::new();
    let mut i: usize = 0;
    while i < params.len()
        invariant
            i <= params@.len(),
            out@.len() == i,
            forall|k: int| 0 <= k < i ==> #[trigger] out@[k].0@ == params@[k].0@
                && out@[k].1@ == params@[k].1@,
        decreases params@.len() - i,
    {
        out.push((params[i].0.clone(), params[i].1.clone()));
        i += 1;
    }
    proof {
        assert(out.deep_view() =~= params.deep_view());
    }
    out
}

/// Produces the next page's request, or the terminal signal, from the
/// decoded envelope's cursor, the page's record count, and the cursor
/// the page was requested with. The next request carries the original
/// parameters with the cursor injected.
pub fn next_request(
    desc: &EndpointDescriptor,
    original_params: &Vec<(String, String)>,
    prev: &Option<String>,
    cursor: &Option<String>,
    data_len: usize,
) -> (r: Result<Option<RequestDescriptor>, NextPageError>)
    ensures
        match spec_next_cursor(prev.deep_view(), cursor.deep_view(), data_len as nat) {
            Err(pe) => r matches Err(NextPageError::Protocol(e)) && e == pe,
            Ok(None) => r matches Ok(None),
            Ok(Some(c)) => {
                let params = spec_next_params(original_params.deep_view(), c);
                match spec_build_error(desc.method, false, params) {
                    Some(ce) => r matches Err(NextPageError::Construction(e)) && e == ce,
                    None => r matches Ok(Some(rd)) && rd.url@ == spec_url(desc.path@, params)
                        && rd.method == desc.method && rd.body is None
                        && rd.scopes@ == desc.scopes@,
                }
            },
        },
{
    let step = match next_cursor(prev, cursor, data_len) {
        Err(e) => {
            return Err(NextPageError::Protocol(e));
        },
        Ok(None) => {
            return Ok(None);
        },
        Ok(Some(c)) => c,
    };
    let mut params = copy_params(original_params);
    params.push((String::from_str("after"), step));
    proof {
        assert(params.deep_view() =~= spec_next_params(
            original_params.deep_view(),
            cursor.deep_view()->Some_0,
        ));
    }
    match build_request(desc, &params, None) {
        Ok(rd) => Ok(Some(rd)),
        Err(e) => Err(NextPageError::Construction(e)),
    }
}

/// A server that answers a non-empty page with the cursor it was just
/// asked for is reported, not asked again: the driver never loops on a
/// repeated cursor.
pub proof fn lemma_repeated_cursor_terminates(c: Seq<char>, data_len: nat)
    requires
        c.len() > 0,
        data_len > 0,
    ensures
        spec_next_cursor(Some(c), Some(c), data_len)
            == Err::<Option<Seq<char>>, PaginationProtocolError>(
            PaginationProtocolError::RepeatedCursor,
        ),
{
}

} // verus!
