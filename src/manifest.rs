//! HLS manifest rewriting: every entry URI of a fetched playlist becomes a
//! proxy URL for the entry resolved against the manifest's own URL.
use vstd::prelude::*;
use crate::codec::{all_base58, decoded, token_of};
use crate::headers::{form_decoded, form_encoded, HeaderSet};
use crate::proxy::{proxy_text, proxy_url};
use crate::urls::{join_url, url_joined};

verus! {

#[verifier::external_type_specification]
#[verifier::external_body]
pub struct ExPlaylist(m3u8_rs::Playlist);

/// The entry URIs of a playlist, in order: the variant streams of a master
/// playlist, the media segments of a media playlist.
pub uninterp spec fn playlist_uris(p: m3u8_rs::Playlist) -> Seq<Seq<char>>;

/// The entry URIs of the playlist that `m3u8_rs::parse_playlist` reads from a
/// body, or `None` where it reads none.
pub uninterp spec fn parsed_uris(body: Seq<u8>) -> Option<Seq<Seq<char>>>;

/// The two playlists are of one kind and agree in every field, tag and
/// attribute, and in every field of every entry, but the entry URIs.
pub uninterp spec fn same_but_uris(p: m3u8_rs::Playlist, q: m3u8_rs::Playlist) -> bool;

/// The playlist is the one that `m3u8_rs::parse_playlist` reads from the body.
pub uninterp spec fn parsed_as(body: Seq<u8>, p: m3u8_rs::Playlist) -> bool;

/// The text is one that `m3u8_rs::Playlist::write_to` writes for the playlist:
/// the writer walks each entry's unknown attributes in a hash map's order, so
/// the text is fixed up to that order.
pub uninterp spec fn written_as(p: m3u8_rs::Playlist, text: Seq<u8>) -> bool;

/// A body the relay reads as a playlist.
pub open spec fn manifest_parses(body: Seq<u8>) -> bool {
    parsed_uris(body) is Some
}

/// The text holds `pat` somewhere.
pub open spec fn contains_text(s: Seq<char>, pat: Seq<char>) -> bool {
    exists|i: int| 0 <= i && i + pat.len() <= s.len() && #[trigger] s.subrange(i, i + pat.len()) == pat
}

/// A fetch is treated as a manifest when its resolved URL mentions `m3u8`.
pub open spec fn is_manifest_url(url: Seq<char>) -> bool {
    contains_text(url, "m3u8"@)
}

/// What an entry URI becomes: the proxy URL of the URI resolved against the
/// manifest's URL, carrying the request's headers.
pub open spec fn rewritten_uri(base: Seq<char>, uri: Seq<char>, h: Seq<(Seq<char>, Seq<char>)>) -> Option<
    Seq<char>,
> {
    match url_joined(base, uri) {
        Some(abs) => Some(proxy_text(abs, h)),
        None => None,
    }
}

/// Texts as characters.
pub open spec fn texts(v: Seq<String>) -> Seq<Seq<char>> {
    v.map_values(|u: String| u@)
}

/// Every entry URI resolves against the base.
pub open spec fn all_resolve(base: Seq<char>, uris: Seq<Seq<char>>) -> bool {
    forall|i: int| 0 <= i < uris.len() ==> (#[trigger] url_joined(base, uris[i])) is Some
}

/// The entry resolves against the base, and the token of the resolved URL is
/// all base58 (so the first `?` after it starts the query) and decodes back
/// to that URL.
pub open spec fn entry_sound(base: Seq<char>, uri: Seq<char>) -> bool {
    match url_joined(base, uri) {
        Some(abs) => all_base58(token_of(abs)) && decoded(token_of(abs)) == Some(abs),
        None => false,
    }
}

/// `out` is `uris` with each entry rewritten: each new URI is the proxy URL
/// of the resolved entry, whose token reads back as that entry and whose
/// query, where there is one, reads back as the headers.
pub open spec fn rewrites_of(
    base: Seq<char>,
    uris: Seq<Seq<char>>,
    h: Seq<(Seq<char>, Seq<char>)>,
    out: Seq<Seq<char>>,
) -> bool {
    &&& out.len() == uris.len()
    &&& forall|i: int| 0 <= i < uris.len() ==> rewritten_uri(base, uris[i], h) == Some(#[trigger] out[i])
    &&& forall|i: int| 0 <= i < uris.len() ==> #[trigger] entry_sound(base, uris[i])
    &&& uris.len() > 0 ==> form_decoded(form_encoded(h)) == h
}

/// `text` is the playlist `p`, fetched from `base`, written out with each
/// entry URI rewritten, in order, and nothing else changed.
pub open spec fn rewritten_text(
    p: m3u8_rs::Playlist,
    base: Seq<char>,
    h: Seq<(Seq<char>, Seq<char>)>,
    text: Seq<u8>,
) -> bool {
    exists|q: m3u8_rs::Playlist|
        #![trigger playlist_uris(q)]
        same_but_uris(p, q) && rewrites_of(base, playlist_uris(p), h, playlist_uris(q)) && written_as(q, text)
}

/// The body reads as a playlist whose every entry resolves against `base`.
pub open spec fn body_resolves(base: Seq<char>, body: Seq<u8>) -> bool {
    match parsed_uris(body) {
        Some(us) => all_resolve(base, us),
        None => false,
    }
}

/// `text` is the playlist read from `body`, fetched from `base`, written out
/// with each entry URI rewritten, in order, and nothing else changed.
pub open spec fn rewritten_body(
    body: Seq<u8>,
    base: Seq<char>,
    h: Seq<(Seq<char>, Seq<char>)>,
    text: Seq<u8>,
) -> bool {
    exists|p: m3u8_rs::Playlist| #[trigger] parsed_as(body, p) && rewritten_text(p, base, h, text)
}

/// What a fetch turned into: the upstream body as it was, or a rewritten manifest.
#[derive(Debug, Clone, PartialEq, Eq)]
pub enum RewriteOutcome {
    Unchanged(Vec<u8>),
    Rewritten(Vec<u8>),
}

/// Why a manifest could not be rewritten.
#[derive(Debug, Clone, Copy, PartialEq, Eq)]
pub enum RewriteError {
    /// The body is not a playlist.
    Parse,
    /// The rewritten playlist could not be written out.
    Serialize,
}

/// Relies on `str::contains`: whether the text holds the pattern.
#[verifier::external_body]
fn text_contains(s: &str, pat: &str) -> (r: bool)
    ensures
        r == contains_text(s@, pat@),
{
    s.contains(pat)
}

/// Relies on `m3u8_rs::parse_playlist`: a master or a media playlist, read
/// from the body alone.
#[verifier::external_body]
fn parse_manifest(body: &[u8]) -> (r: Option<m3u8_rs::Playlist>)
    ensures
        r is Some <==> parsed_uris(body@) is Some,
        r matches Some(p) ==> parsed_as(body@, p) && parsed_uris(body@) == Some(playlist_uris(p)) && same_but_uris(
            p,
            p,
        ),
{
    m3u8_rs::parse_playlist(body).ok().map(|(_, p)| p)
}

/// Relies on the entry vectors of `m3u8_rs`'s playlists: how many entries there are.
#[verifier::external_body]
fn uri_count(p: &m3u8_rs::Playlist) -> (r: usize)
    ensures
        r == playlist_uris(*p).len(),
{
    match p {
        m3u8_rs::Playlist::MasterPlaylist(m) => m.variants.len(),
        m3u8_rs::Playlist::MediaPlaylist(m) => m.segments.len(),
    }
}

/// Relies on the `uri` field of `m3u8_rs`'s variant streams and media segments.
#[verifier::external_body]
fn uri_at(p: &m3u8_rs::Playlist, i: usize) -> (r: String)
    requires
        i < playlist_uris(*p).len(),
    ensures
        r@ == playlist_uris(*p)[i as int],
{
    match p {
        m3u8_rs::Playlist::MasterPlaylist(m) => m.variants[i].uri.clone(),
        m3u8_rs::Playlist::MediaPlaylist(m) => m.segments[i].uri.clone(),
    }
}

/// Relies on the `uri` field of `m3u8_rs`'s variant streams and media
/// segments: it is set, and nothing else changes.
#[verifier::external_body]
fn set_uri_at(p: &mut m3u8_rs::Playlist, i: usize, uri: String)
    requires
        i < playlist_uris(*old(p)).len(),
    ensures
        playlist_uris(*final(p)) == playlist_uris(*old(p)).update(i as int, uri@),
        forall|q: m3u8_rs::Playlist| #[trigger] same_but_uris(q, *old(p)) ==> same_but_uris(q, *final(p)),
{
    match p {
        m3u8_rs::Playlist::MasterPlaylist(m) => m.variants[i].uri = uri,
        m3u8_rs::Playlist::MediaPlaylist(m) => m.segments[i].uri = uri,
    }
}

/// Relies on `m3u8_rs::Playlist::write_to`: the playlist as text. Only the
/// writer's own errors are passed on, and a `Vec` raises none.
#[verifier::external_body]
fn write_manifest(p: &m3u8_rs::Playlist) -> (r: Option<Vec<u8>>)
    ensures
        r is Some,
        r matches Some(b) ==> written_as(*p, b@),
{
    let mut out: Vec<u8> = Vec::new();
    p.write_to(&mut out).ok().map(|_| out)
}

/// Whether a fetch's resolved URL marks it as a manifest.
pub fn is_manifest(url: &str) -> (r: bool)
    ensures
        r == is_manifest_url(url@),
{
    text_contains(url, "m3u8")
}

/// Rewrites a list of entry URIs against `base`, or `None` where one of them
/// does not resolve. Each new URI is a proxy URL whose token decodes to the
/// resolved entry and whose query reads back as `headers`.
pub fn rewrite_uris(base: &str, uris: &Vec<String>, headers: &HeaderSet) -> (r: Option<Vec<String>>)
    ensures
        r is Some <==> all_resolve(base@, texts(uris@)),
        r matches Some(out) ==> rewrites_of(base@, texts(uris@), headers@, texts(out@)),
{
    let ghost us = texts(uris@);
    let mut out: Vec<String> = Vec::new();
    let n = uris.len();
    let mut i: usize = 0;
    while i < n
        invariant
            n == uris.len(),
            us == texts(uris@),
            0 <= i <= n,
            out@.len() == i,
            forall|j: int| 0 <= j < i ==> (#[trigger] url_joined(base@, us[j])) is Some,
            forall|j: int| 0 <= j < i ==> rewritten_uri(base@, us[j], headers@) == Some(#[trigger] out@[j]@),
            forall|j: int| 0 <= j < i ==> #[trigger] entry_sound(base@, us[j]),
            i > 0 ==> form_decoded(form_encoded(headers@)) == headers@,
        decreases n - i,
    {
        match join_url(base, uris[i].as_str()) {
            None => {
                assert(url_joined(base@, us[i as int]) is None);
                return None;
            },
            Some(abs) => {
                let p = proxy_url(abs.as_str(), headers);
                out.push(p);
                assert(entry_sound(base@, us[i as int]));
            },
        }
        i = i + 1;
    }
    proof {
        assert(texts(out@).len() == us.len());
        assert forall|j: int| 0 <= j < us.len() implies rewritten_uri(base@, us[j], headers@) == Some(
            #[trigger] texts(out@)[j],
        ) by {
            assert(texts(out@)[j] == out@[j]@);
        }
    }
    Some(out)
}

/// Rewrites a parsed playlist fetched from `base`: where every entry
/// resolves, the playlist written out with each entry URI rewritten and
/// nothing else touched; where one does not, the body unchanged. The playlist
/// is one the parser read, for which `same_but_uris` is known to hold of it
/// and itself.
pub fn rewrite_playlist(p: m3u8_rs::Playlist, base: &str, body: Vec<u8>, headers: &HeaderSet) -> (r: Result<
    RewriteOutcome,
    RewriteError,
>)
    requires
        same_but_uris(p, p),
    ensures
        r is Ok,
        r matches Ok(RewriteOutcome::Rewritten(_)) <==> all_resolve(base@, playlist_uris(p)),
        r matches Ok(RewriteOutcome::Unchanged(b)) ==> b@ == body@,
        r matches Ok(RewriteOutcome::Rewritten(b)) ==> rewritten_text(p, base@, headers@, b@),
{
    let ghost p0 = p;
    let mut p = p;
    let n = uri_count(&p);
    let mut uris: Vec<String> = Vec::new();
    let mut i: usize = 0;
    while i < n
        invariant
            n == playlist_uris(p0).len(),
            p == p0,
            0 <= i <= n,
            uris@.len() == i,
            forall|j: int| 0 <= j < i ==> (#[trigger] uris@[j])@ == playlist_uris(p0)[j],
        decreases n - i,
    {
        uris.push(uri_at(&p, i));
        i = i + 1;
    }
    assert(texts(uris@) =~= playlist_uris(p0));
    match rewrite_uris(base, &uris, headers) {
        None => Ok(RewriteOutcome::Unchanged(body)),
        Some(new_uris) => {
            let ghost target = texts(new_uris@);
            let mut k: usize = 0;
            while k < n
                invariant
                    n == playlist_uris(p0).len(),
                    new_uris@.len() == n,
                    target == texts(new_uris@),
                    0 <= k <= n,
                    playlist_uris(p).len() == n,
                    same_but_uris(p0, p),
                    forall|j: int| 0 <= j < k ==> playlist_uris(p)[j] == #[trigger] target[j],
                    forall|j: int| k <= j < n ==> playlist_uris(p)[j] == #[trigger] playlist_uris(p0)[j],
                decreases n - k,
            {
                set_uri_at(&mut p, k, new_uris[k].clone());
                k = k + 1;
            }
            assert(playlist_uris(p) =~= target);
            match write_manifest(&p) {
                Some(text) => {
                    assert(rewrites_of(base@, playlist_uris(p0), headers@, playlist_uris(p)));
                    Ok(RewriteOutcome::Rewritten(text))
                },
                None => Err(RewriteError::Serialize),
            }
        },
    }
}

/// What a fetch from `url` returns: the body as it was where the URL does not
/// mark a manifest; otherwise a parse error where the body is no playlist,
/// the playlist with every entry URI rewritten where each resolves against
/// `url`, and the body as it was where one does not.
pub fn maybe_rewrite(url: &str, body: Vec<u8>, headers: &HeaderSet) -> (r: Result<RewriteOutcome, RewriteError>)
    ensures
        !is_manifest_url(url@) ==> (r matches Ok(RewriteOutcome::Unchanged(b)) && b@ == body@),
        is_manifest_url(url@) && parsed_uris(body@) is None ==> r == Err::<RewriteOutcome, RewriteError>(
            RewriteError::Parse,
        ),
        is_manifest_url(url@) && body_resolves(url@, body@) ==> (r matches Ok(RewriteOutcome::Rewritten(b))
            && rewritten_body(body@, url@, headers@, b@)),
        is_manifest_url(url@) && manifest_parses(body@) && !body_resolves(url@, body@) ==> (r matches Ok(
            RewriteOutcome::Unchanged(b),
        ) && b@ == body@),
{
    if !is_manifest(url) {
        return Ok(RewriteOutcome::Unchanged(body));
    }
    match parse_manifest(body.as_slice()) {
        None => Err(RewriteError::Parse),
        Some(p) => {
            let ghost p0 = p;
            let ghost b0 = body@;
            let r = rewrite_playlist(p, url, body, headers);
            assert(parsed_as(b0, p0));
            r
        },
    }
}

} // verus!
