use vstd::prelude::*;
use vstd::string::*;

verus! {

/// The origin of the chat server that hosts the media: its scheme (`https`)
/// and its authority (host, with `:port` where one is given).
pub struct Homeserver {
    pub scheme: String,
    pub authority: String,
}

/// A media reference that could not be split into an origin name and a media id.
#[derive(Debug, Clone, Copy, PartialEq, Eq, Structural)]
pub enum FormatError {
    MissingOrigin,
    MissingMediaId,
}

pub open spec fn is_separator_at(r: Seq<char>, i: int) -> bool {
    0 <= i && i + 3 <= r.len() && r[i] == ':' && r[i + 1] == '/' && r[i + 2] == '/'
}

/// Index of the first `://` at or after `i`.
pub open spec fn scheme_end(r: Seq<char>, i: nat) -> Option<nat>
    decreases r.len() - i,
{
    if i + 3 > r.len() {
        None
    } else if is_separator_at(r, i as int) {
        Some(i)
    } else {
        scheme_end(r, i + 1)
    }
}

/// What follows the scheme prefix `scheme://`, or the whole reference if it has none.
pub open spec fn reference_body(r: Seq<char>) -> Seq<char> {
    match scheme_end(r, 0) {
        Some(k) => r.subrange(k + 3 as int, r.len() as int),
        None => r,
    }
}

/// Index of the first `/` at or after `i`.
pub open spec fn first_slash(s: Seq<char>, i: nat) -> Option<nat>
    decreases s.len() - i,
{
    if i >= s.len() {
        None
    } else if s[i as int] == '/' {
        Some(i)
    } else {
        first_slash(s, i + 1)
    }
}

/// Index of the last `/` before `n`.
pub open spec fn last_slash(s: Seq<char>, n: nat) -> Option<nat>
    decreases n,
{
    if n == 0 || n > s.len() {
        None
    } else if s[n - 1] == '/' {
        Some((n - 1) as nat)
    } else {
        last_slash(s, (n - 1) as nat)
    }
}

/// The origin name (first segment) and the media id (last segment) of a
/// reference `scheme://origin-name/.../media-id`, or the reason it has none.
pub open spec fn parse_reference(r: Seq<char>) -> Result<(Seq<char>, Seq<char>), FormatError> {
    let b = reference_body(r);
    match first_slash(b, 0) {
        None => Err(FormatError::MissingMediaId),
        Some(f) => {
            let origin = b.subrange(0, f as int);
            let l = last_slash(b, b.len()).unwrap();
            let id = b.subrange(l + 1 as int, b.len() as int);
            if origin.len() == 0 {
                Err(FormatError::MissingOrigin)
            } else if id.len() == 0 {
                Err(FormatError::MissingMediaId)
            } else {
                Ok((origin, id))
            }
        },
    }
}

pub open spec fn download_prefix() -> Seq<char> {
    seq!['/', '_', 'm', 'a', 't', 'r', 'i', 'x', '/', 'm', 'e', 'd', 'i', 'a', '/', 'r', '0', '/', 'd', 'o', 'w', 'n', 'l', 'o', 'a', 'd', '/']
}

/// `{scheme}://{authority}/_matrix/media/r0/download/{origin}/{id}`
pub open spec fn download_url_text(
    scheme: Seq<char>,
    authority: Seq<char>,
    origin: Seq<char>,
    id: Seq<char>,
) -> Seq<char> {
    scheme + seq![':', '/', '/'] + authority + download_prefix() + origin + seq!['/'] + id
}

proof fn lemma_last_slash_found(s: Seq<char>, n: nat)
    requires
        n <= s.len(),
        first_slash(s, 0) is Some,
        first_slash(s, 0).unwrap() < n,
    ensures
        last_slash(s, n) is Some,
        last_slash(s, n).unwrap() < n,
        s[last_slash(s, n).unwrap() as int] == '/',
    decreases n,
{
    lemma_first_slash_is_slash(s, 0);
    if s[n - 1] != '/' {
        lemma_last_slash_found(s, (n - 1) as nat);
    }
}

proof fn lemma_first_slash_is_slash(s: Seq<char>, i: nat)
    ensures
        first_slash(s, i) matches Some(f) ==> i <= f < s.len() && s[f as int] == '/'
            && forall|j: int| i <= j < f ==> s[j] != '/',
    decreases s.len() - i,
{
    if i < s.len() && s[i as int] != '/' {
        lemma_first_slash_is_slash(s, i + 1);
    }
}

proof fn lemma_scheme_end_at(r: Seq<char>, i: nat, k: nat)
    requires
        i <= k,
        is_separator_at(r, k as int),
        forall|j: int| i <= j < k ==> !is_separator_at(r, j),
    ensures
        scheme_end(r, i) == Some(k),
    decreases k - i,
{
    if i < k {
        lemma_scheme_end_at(r, i + 1, k);
    }
}

proof fn lemma_first_slash_at(s: Seq<char>, i: nat, k: nat)
    requires
        i <= k < s.len(),
        s[k as int] == '/',
        forall|j: int| i <= j < k ==> s[j] != '/',
    ensures
        first_slash(s, i) == Some(k),
    decreases k - i,
{
    if i < k {
        lemma_first_slash_at(s, i + 1, k);
    }
}

proof fn lemma_last_slash_at(s: Seq<char>, n: nat, k: nat)
    requires
        k < n <= s.len(),
        s[k as int] == '/',
        forall|j: int| k < j < n ==> s[j] != '/',
    ensures
        last_slash(s, n) == Some(k),
    decreases n,
{
    if k + 1 < n {
        lemma_last_slash_at(s, (n - 1) as nat, k);
    }
}

/// A well-formed reference `scheme://origin/id` resolves to exactly its
/// origin name and media id, so the download URL is
/// `{scheme}://{authority}/_matrix/media/r0/download/{origin}/{id}` for any
/// homeserver.
pub proof fn lemma_well_formed_reference(scheme: Seq<char>, origin: Seq<char>, id: Seq<char>)
    requires
        forall|j: int| 0 <= j < scheme.len() ==> scheme[j] != ':',
        origin.len() > 0,
        id.len() > 0,
        forall|j: int| 0 <= j < origin.len() ==> origin[j] != '/',
        forall|j: int| 0 <= j < id.len() ==> id[j] != '/',
    ensures
        parse_reference(scheme + seq![':', '/', '/'] + origin + seq!['/'] + id) == Ok::<
            (Seq<char>, Seq<char>),
            FormatError,
        >((origin, id)),
{
    let r = scheme + seq![':', '/', '/'] + origin + seq!['/'] + id;
    let k = scheme.len();
    assert forall|j: int| 0 <= j < k implies !is_separator_at(r, j) by {
        assert(r[j] == scheme[j]);
    }
    lemma_scheme_end_at(r, 0, k);
    let b = origin + seq!['/'] + id;
    assert(r.subrange(k + 3 as int, r.len() as int) =~= b);
    assert(reference_body(r) == b);
    let f = origin.len();
    assert forall|j: int| 0 <= j < f implies b[j] != '/' by {
        assert(b[j] == origin[j]);
    }
    lemma_first_slash_at(b, 0, f);
    assert forall|j: int| f < j < b.len() implies b[j] != '/' by {
        assert(b[j] == id[j - f - 1]);
    }
    lemma_last_slash_at(b, b.len(), f);
    assert(b.subrange(0, f as int) =~= origin);
    assert(b.subrange(f + 1 as int, b.len() as int) =~= id);
}

/// A reference whose first path segment is empty, such as `scheme:///id`,
/// has no origin name.
pub proof fn lemma_reference_without_origin(scheme: Seq<char>, rest: Seq<char>)
    requires
        forall|j: int| 0 <= j < scheme.len() ==> scheme[j] != ':',
    ensures
        parse_reference(scheme + seq![':', '/', '/', '/'] + rest) is Err,
{
    let r = scheme + seq![':', '/', '/', '/'] + rest;
    let k = scheme.len();
    assert forall|j: int| 0 <= j < k implies !is_separator_at(r, j) by {
        assert(r[j] == scheme[j]);
    }
    lemma_scheme_end_at(r, 0, k);
    let b = seq!['/'] + rest;
    assert(r.subrange(k + 3 as int, r.len() as int) =~= b);
    lemma_first_slash_at(b, 0, 0);
}

/// A reference with no `/` after its scheme prefix, or one that ends in `/`,
/// has no media id.
pub proof fn lemma_reference_without_media_id(r: Seq<char>)
    requires
        first_slash(reference_body(r), 0) is None || (reference_body(r).len() > 0
            && reference_body(r).last() == '/'),
    ensures
        parse_reference(r) is Err,
{
    let b = reference_body(r);
    if first_slash(b, 0) is Some {
        lemma_first_slash_is_slash(b, 0);
        lemma_last_slash_at(b, b.len(), (b.len() - 1) as nat);
    }
}

/// Position just after the scheme prefix, or 0 if the reference has none.
fn body_start(r: &str) -> (k: usize)
    ensures
        k <= r@.len(),
        r@.subrange(k as int, r@.len() as int) == reference_body(r@),
{
    let n = r.unicode_len();
    if n < 3 {
        assert(r@.subrange(0, r@.len() as int) == r@);
        return 0;
    }
    let mut i: usize = 0;
    while i < n - 2
        invariant
            n == r@.len(),
            n >= 3,
            i <= n - 2,
            scheme_end(r@, 0) == scheme_end(r@, i as nat),
        decreases n - i,
    {
        if r.get_char(i) == ':' && r.get_char(i + 1) == '/' && r.get_char(i + 2) == '/' {
            return i + 3;
        }
        i = i + 1;
    }
    assert(r@.subrange(0, r@.len() as int) == r@);
    0
}

/// Splits a media reference into its origin name and its media id.
pub fn parse_media_reference(reference: &str) -> (r: Result<(String, String), FormatError>)
    ensures
        match (r, parse_reference(reference@)) {
            (Ok((o, id)), Ok((so, sid))) => o@ == so && id@ == sid,
            (Err(e), Err(se)) => e == se,
            _ => false,
        },
{
    let start = body_start(reference);
    let n = reference.unicode_len();
    let body = reference.substring_char(start, n);
    let ghost b = body@;
    assert(b == reference_body(reference@));
    let m = n - start;
    let mut f: usize = 0;
    while f < m && body.get_char(f) != '/'
        invariant
            m == b.len(),
            body@ == b,
            f <= m,
            first_slash(b, 0) == first_slash(b, f as nat),
        decreases m - f,
    {
        f = f + 1;
    }
    if f == m {
        return Err(FormatError::MissingMediaId);
    }
    proof {
        lemma_first_slash_is_slash(b, 0);
        lemma_last_slash_found(b, m as nat);
    }
    let mut l: usize = m;
    while body.get_char(l - 1) != '/'
        invariant
            m == b.len(),
            body@ == b,
            f < l <= m,
            b[f as int] == '/',
            last_slash(b, m as nat) == last_slash(b, l as nat),
        decreases l,
    {
        l = l - 1;
    }
    if f == 0 {
        return Err(FormatError::MissingOrigin);
    }
    if l == m {
        return Err(FormatError::MissingMediaId);
    }
    let origin = body.substring_char(0, f);
    let id = body.substring_char(l, m);
    Ok((String::from_str(origin), String::from_str(id)))
}

/// The URL from which the chat server serves the media that `reference` names.
pub fn get_media_download_url(reference: &str, homeserver: &Homeserver) -> (r: Result<String, FormatError>)
    ensures
        match (r, parse_reference(reference@)) {
            (Ok(u), Ok((o, id))) => u@ == download_url_text(
                homeserver.scheme@,
                homeserver.authority@,
                o,
                id,
            ),
            (Err(e), Err(se)) => e == se,
            _ => false,
        },
{
    match parse_media_reference(reference) {
        Err(e) => Err(e),
        Ok((origin, id)) => {
            let mut u = homeserver.scheme.clone();
            u.append("://");
            u.append(homeserver.authority.as_str());
            u.append("/_matrix/media/r0/download/");
            u.append(origin.as_str());
            u.append("/");
            u.append(id.as_str());
            proof {
                reveal_strlit("://");
                reveal_strlit("/_matrix/media/r0/download/");
                reveal_strlit("/");
                assert(u@ == download_url_text(
                    homeserver.scheme@,
                    homeserver.authority@,
                    origin@,
                    id@,
                ));
            }
            Ok(u)
        },
    }
}

} // verus!
