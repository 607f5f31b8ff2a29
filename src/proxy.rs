//! Local proxy URLs: `http://127.0.0.1:<port>/proxy/<token>?<headers>`.
use vstd::prelude::*;
use vstd::string::StringExecFns;
use crate::codec::{all_base58, decoded, encode, is_base58_char, token_of};
use crate::headers::{form_decoded, form_encoded, HeaderSet};
use crate::urls::{parse_url, url_parsed};

verus! {

/// The loopback port the relay listens on.
pub const PROXY_PORT: u16 = 63510;

/// What every proxy URL starts with; the token follows.
pub open spec fn proxy_prefix() -> Seq<char> {
    "http://127.0.0.1:63510/proxy/"@
}

/// The query part of a proxy URL: none for no headers, else `?` and the headers.
pub open spec fn query_suffix(h: Seq<(Seq<char>, Seq<char>)>) -> Seq<char> {
    if h.len() == 0 {
        Seq::empty()
    } else {
        seq!['?'] + form_encoded(h)
    }
}

/// The proxy URL that stands for a target URL fetched with the headers `h`.
pub open spec fn proxy_text(target: Seq<char>, h: Seq<(Seq<char>, Seq<char>)>) -> Seq<char> {
    proxy_prefix() + token_of(target) + query_suffix(h)
}

/// Where the token of a proxy URL ends.
pub open spec fn token_end(target: Seq<char>) -> int {
    proxy_prefix().len() + token_of(target).len() as int
}

/// A proxy URL splits back into its parts: after the prefix the token runs up
/// to the first `?`, or to the end where no headers ride along, and what
/// follows that `?` is the query of the headers. The token holds no `/` either,
/// so it stays one path segment.
pub proof fn lemma_proxy_parts(target: Seq<char>, h: Seq<(Seq<char>, Seq<char>)>)
    requires
        all_base58(token_of(target)),
    ensures
        proxy_text(target, h).subrange(0, proxy_prefix().len() as int) == proxy_prefix(),
        proxy_text(target, h).subrange(proxy_prefix().len() as int, token_end(target))
            == token_of(target),
        forall|i: int|
            proxy_prefix().len() <= i < token_end(target) ==> #[trigger] proxy_text(
                target,
                h,
            )[i] != '?' && proxy_text(target, h)[i] != '/',
        h.len() == 0 ==> proxy_text(target, h).len() == token_end(target),
        h.len() > 0 ==> proxy_text(target, h)[token_end(target)] == '?' && proxy_text(
            target,
            h,
        ).subrange(token_end(target) + 1, proxy_text(target, h).len() as int)
            == form_encoded(h),
{
    let pre = proxy_prefix();
    let tok = token_of(target);
    let u = proxy_text(target, h);
    assert(u.subrange(0, pre.len() as int) =~= pre);
    assert(u.subrange(pre.len() as int, token_end(target)) =~= tok);
    assert forall|i: int| pre.len() <= i < token_end(target) implies #[trigger] u[i] != '?' && u[i] != '/' by {
        assert(u[i] == tok[i - pre.len()]);
        assert(is_base58_char(tok[i - pre.len()]));
    }
    if h.len() > 0 {
        let k = token_end(target);
        assert(u[k] == '?');
        assert(u.subrange(k + 1, u.len() as int) =~= form_encoded(h));
    }
}

/// Why `proxify` refused its input.
#[derive(Debug, Clone, Copy, PartialEq, Eq)]
pub enum ProxifyError {
    /// The input is not an absolute URL.
    InvalidUrl,
}

/// The proxy URL for `target`, carrying `headers`. Its token decodes to
/// `target`, is non-empty for a non-empty target, holds no character that
/// needs escaping in a path (so none that ends the path), and the query,
/// where there is one, reads back as `headers`.
pub fn proxy_url(target: &str, headers: &HeaderSet) -> (r: String)
    ensures
        r@ == proxy_text(target@, headers@),
        decoded(token_of(target@)) == Some(target@),
        all_base58(token_of(target@)),
        target@.len() > 0 ==> token_of(target@).len() > 0,
        form_decoded(form_encoded(headers@)) == headers@,
{
    let mut r = String::from_str("http://127.0.0.1:63510/proxy/");
    let token = encode(target);
    r.append(token.as_str());
    let query = headers.to_query();
    if !headers.is_empty() {
        r.append("?");
        r.append(query.as_str());
        proof {
            reveal_strlit("?");
        }
    }
    proof {
        if headers@.len() > 0 {
            assert(proxy_text(target@, headers@) =~= proxy_prefix() + token_of(target@) + (seq!['?'] + form_encoded(headers@)));
        } else {
            assert(proxy_text(target@, headers@) =~= proxy_prefix() + token_of(target@));
        }
    }
    r
}

/// The proxy URL for `url`, with no headers attached; an error where `url`
/// is not an absolute URL. The token encodes `url` exactly as given, so
/// distinct inputs give distinct proxy URLs.
pub fn proxify(url: &str) -> (r: Result<String, ProxifyError>)
    ensures
        r is Err <==> url_parsed(url@) is None,
        r matches Ok(p) ==> p@ == proxy_text(url@, Seq::empty()),
        r is Ok ==> decoded(token_of(url@)) == Some(url@),
        r is Ok ==> all_base58(token_of(url@)) && token_of(url@).len() > 0,
{
    match parse_url(url) {
        None => Err(ProxifyError::InvalidUrl),
        Some(_) => {
            let none = HeaderSet::new();
            Ok(proxy_url(url, &none))
        },
    }
}

} // verus!
