//! The server that a client calls.
use vstd::prelude::*;

verus! {

/// The command line of the client with a public address.
#[derive(Clone, Debug, PartialEq, Eq)]
pub struct CmdOptions {
    /// The address of the server: what stands behind `https://` in its URI.
    pub target: String,
}

/// The parts of a URI.
#[derive(Debug, PartialEq, Eq)]
pub struct UriParts {
    pub scheme: Option<String>,
    pub authority: Option<String>,
    pub path_and_query: Option<String>,
}

/// The parts of a URI, as text.
pub struct UriPartsView {
    pub scheme: Option<Seq<char>>,
    pub authority: Option<Seq<char>>,
    pub path_and_query: Option<Seq<char>>,
}

/// Why a client has no server to call.
#[derive(Clone, Copy, Debug, PartialEq, Eq, Structural)]
pub enum TargetError {
    /// The target does not make a URI.
    InvalidUri,
}

/// The text in an optional string.
pub open spec fn text_of(s: Option<String>) -> Option<Seq<char>> {
    match s {
        Some(s) => Some(s@),
        None => None,
    }
}

impl View for UriParts {
    type V = UriPartsView;

    open spec fn view(&self) -> UriPartsView {
        UriPartsView {
            scheme: text_of(self.scheme),
            authority: text_of(self.authority),
            path_and_query: text_of(self.path_and_query),
        }
    }
}

/// What `http::Uri` reads from a text: the parts of the URI, or nothing where
/// the text is not one.
pub uninterp spec fn parsed_uri(text: Seq<char>) -> Option<UriPartsView>;

/// The number of characters before the first at which `stop` holds.
pub open spec fn until(text: Seq<char>, stop: spec_fn(char) -> bool) -> nat
    decreases text.len(),
{
    if text.len() == 0 || stop(text[0]) {
        0
    } else {
        1 + until(text.skip(1), stop)
    }
}

/// How far the authority reaches into the text behind `https://`: up to the
/// first slash, question mark or number sign.
pub open spec fn authority_len(text: Seq<char>) -> nat {
    until(text, |c: char| c == '/' || c == '?' || c == '#')
}

/// The authority in the text behind `https://`.
pub open spec fn authority_of(text: Seq<char>) -> Seq<char> {
    text.take(authority_len(text) as int)
}

/// The path and the query in the text behind `https://`: what follows the
/// authority, without the fragment, or `/` where that is empty.
pub open spec fn path_and_query_of(text: Seq<char>) -> Seq<char> {
    let tail = text.skip(authority_len(text) as int);
    let kept = tail.take(until(tail, |c: char| c == '#') as int);
    if kept.len() == 0 {
        "/"@
    } else {
        kept
    }
}

/// The parts of `https://` and a text.
pub open spec fn https_parts(text: Seq<char>) -> UriPartsView {
    UriPartsView {
        scheme: Some("https"@),
        authority: Some(authority_of(text)),
        path_and_query: Some(path_and_query_of(text)),
    }
}

/// A host with or without a port, of letters, digits, dots and hyphens.
pub open spec fn is_host_port(text: Seq<char>) -> bool {
    &&& 0 < text.len() <= 65526
    &&& forall|i: int|
        0 <= i < text.len() ==> #[trigger] is_host_char(text[i]) || text[i] == ':'
    &&& forall|i: int, j: int| 0 <= i < j < text.len() ==> !(text[i] == ':' && text[j] == ':')
}

/// A letter or digit of ASCII, a dot or a hyphen.
pub open spec fn is_host_char(c: char) -> bool {
    'a' <= c <= 'z' || 'A' <= c <= 'Z' || '0' <= c <= '9' || c == '.' || c == '-'
}

/// The error of `http::Uri`'s parser.
#[verifier::external_type_specification]
#[verifier::external_body]
pub struct ExInvalidUri(http::uri::InvalidUri);

/// `http::Uri::from_str`, with the scheme, the authority and the path and query
/// of the URI that it gives.
///
/// What it reads is a function of the text.  A text of `https://` and more has,
/// where it is accepted, the scheme `https`, as its authority what follows up
/// to the first `/`, `?` or `#`, which is not empty, and as its path and query
/// the rest without the fragment, or `/`.  Such a text is accepted where a host
/// of letters, digits, dots and hyphens, with at most one colon, follows.
/// Which other texts are accepted is left to the name.
#[verifier::external_body]
fn parse_uri(text: &str) -> (r: Result<UriParts, http::uri::InvalidUri>)
    ensures
        match r {
            Ok(parts) => parsed_uri(text@) == Some(parts@),
            Err(_) => parsed_uri(text@) is None,
        },
        forall|rest: Seq<char>|
            text@ == #[trigger] ("https://"@ + rest) ==> {
                &&& r matches Ok(parts) ==> parts@ == https_parts(rest) && authority_len(rest) > 0
                &&& is_host_port(rest) ==> r is Ok
            },
{
    let uri = text.parse::<http::Uri>()?;
    Ok(
        UriParts {
            scheme: uri.scheme_str().map(str::to_owned),
            authority: uri.authority().map(|a| a.as_str().to_owned()),
            path_and_query: uri.path_and_query().map(|p| p.as_str().to_owned()),
        },
    )
}

/// The text of the URI under which a target is called.
pub open spec fn uri_text(target: Seq<char>) -> Seq<char> {
    "https://"@ + target
}

/// The target that is called where the command line names none.
pub open spec fn default_target() -> Seq<char> {
    "127.0.0.1:5047"@
}

impl Default for CmdOptions {
    fn default() -> (r: CmdOptions)
        ensures
            r.target@ == default_target(),
            r.target@ == "127.0.0.1:5047"@,
            is_host_port(r.target@),
    {
        proof {
            reveal_strlit("127.0.0.1:5047");
        }
        CmdOptions { target: "127.0.0.1:5047".to_owned() }
    }
}

impl CmdOptions {
    /// The text of the URI of the server.
    pub fn server_uri_text(&self) -> (r: String)
        ensures
            r@ == uri_text(self.target@),
            r@ == "https://"@ + self.target@,
    {
        let mut text = "https://".to_owned();
        text.append(self.target.as_str());
        text
    }

    /// The URI of the server.  It is refused where `http::Uri` refuses its
    /// text.
    pub fn server_uri(&self) -> (r: Result<UriParts, TargetError>)
        ensures
            match parsed_uri(uri_text(self.target@)) {
                Some(parts) => r is Ok && r->Ok_0@ == parts,
                None => r == Err::<UriParts, TargetError>(TargetError::InvalidUri),
            },
            r is Ok <==> parsed_uri("https://"@ + self.target@) is Some,
            r matches Ok(parts) ==> parts@.scheme == Some("https"@),
            r matches Ok(parts) ==> parts@ == https_parts(self.target@) && authority_len(
                self.target@,
            ) > 0,
            is_host_port(self.target@) ==> r is Ok,
    {
        let text = self.server_uri_text();
        match parse_uri(text.as_str()) {
            Ok(parts) => Ok(parts),
            Err(_) => Err(TargetError::InvalidUri),
        }
    }
}

/// A target that is a host, with or without a port, is the whole authority of
/// its URI, and the path is `/`.
pub proof fn law_host_port_is_the_authority(target: Seq<char>)
    requires
        is_host_port(target),
    ensures
        https_parts(target) == (UriPartsView {
            scheme: Some("https"@),
            authority: Some(target),
            path_and_query: Some("/"@),
        }),
{
    assert forall|i: int| 0 <= i < target.len() implies target[i] != '/' && target[i] != '?'
        && #[trigger] target[i] != '#' by {
        assert(is_host_char(target[i]) || target[i] == ':');
    }
    lemma_until_end(target, |c: char| c == '/' || c == '?' || c == '#');
    assert(target.take(target.len() as int) =~= target);
    let tail = target.skip(target.len() as int);
    assert(until(tail, |c: char| c == '#') == 0);
}

proof fn lemma_until_end(text: Seq<char>, stop: spec_fn(char) -> bool)
    requires
        forall|i: int| 0 <= i < text.len() ==> !stop(#[trigger] text[i]),
    ensures
        until(text, stop) == text.len(),
    decreases text.len(),
{
    if text.len() > 0 {
        lemma_until_end(text.skip(1), stop);
    }
}

/// Two targets that are not the same text have URIs that are not the same
/// text.
pub proof fn law_uri_text_is_injective(target: Seq<char>, other: Seq<char>)
    ensures
        uri_text(target) == uri_text(other) <==> target == other,
{
    let scheme = "https://"@;
    assert(uri_text(target).skip(scheme.len() as int) =~= target);
    assert(uri_text(other).skip(scheme.len() as int) =~= other);
}

/// The text of a URI is eight fixed characters and then the target, whole,
/// whatever the target is.
pub proof fn law_uri_text_holds_the_target(target: Seq<char>)
    ensures
        uri_text(target).len() == 8 + target.len(),
        uri_text(target).take(8) == seq!['h', 't', 't', 'p', 's', ':', '/', '/'],
        uri_text(target).skip(8) == target,
{
    reveal_strlit("https://");
    assert(uri_text(target).take(8) =~= seq!['h', 't', 't', 'p', 's', ':', '/', '/']);
    assert(uri_text(target).skip(8) =~= target);
}

/// The text of the parts of a URI is the text of each part, and a part that is
/// not there has none.
pub proof fn law_view_holds_every_part(parts: UriParts)
    ensures
        parts.scheme matches Some(scheme) ==> parts@.scheme == Some(scheme@),
        parts.scheme is None ==> parts@.scheme is None,
        parts.authority matches Some(authority) ==> parts@.authority == Some(authority@),
        parts.authority is None ==> parts@.authority is None,
        parts.path_and_query matches Some(path_and_query) ==> parts@.path_and_query == Some(
            path_and_query@,
        ),
        parts.path_and_query is None ==> parts@.path_and_query is None,
{
}

/// Where a target is an authority, a path and query, and a fragment, those are
/// the parts of its URI: the authority is what has no slash, question mark or
/// number sign, the path and query begins with one of the first two or is
/// empty and has no number sign, and the fragment begins with a number sign or
/// is empty, and is dropped.  An empty path and query is `/`.
pub proof fn law_parts_of_a_target(
    authority: Seq<char>,
    path_and_query: Seq<char>,
    fragment: Seq<char>,
)
    requires
        forall|i: int|
            0 <= i < authority.len() ==> #[trigger] authority[i] != '/' && authority[i] != '?'
                && authority[i] != '#',
        path_and_query.len() > 0 ==> path_and_query[0] == '/' || path_and_query[0] == '?',
        forall|i: int| 0 <= i < path_and_query.len() ==> #[trigger] path_and_query[i] != '#',
        fragment.len() > 0 ==> fragment[0] == '#',
    ensures
        https_parts(authority + path_and_query + fragment).scheme == Some(
            seq!['h', 't', 't', 'p', 's'],
        ),
        https_parts(authority + path_and_query + fragment).authority == Some(authority),
        https_parts(authority + path_and_query + fragment).path_and_query == Some(
            if path_and_query.len() == 0 {
                seq!['/']
            } else {
                path_and_query
            },
        ),
{
    let text = authority + path_and_query + fragment;
    let tail = path_and_query + fragment;
    reveal_strlit("https");
    reveal_strlit("/");
    assert("https"@ =~= seq!['h', 't', 't', 'p', 's']);
    assert("/"@ =~= seq!['/']);
    assert(text =~= authority + tail);
    lemma_until_split(authority, tail, |c: char| c == '/' || c == '?' || c == '#');
    assert(text.take(authority.len() as int) =~= authority);
    assert(text.skip(authority.len() as int) =~= tail);
    lemma_until_split(path_and_query, fragment, |c: char| c == '#');
    assert(tail.take(path_and_query.len() as int) =~= path_and_query);
}

proof fn lemma_until_split(head: Seq<char>, tail: Seq<char>, stop: spec_fn(char) -> bool)
    requires
        forall|i: int| 0 <= i < head.len() ==> !stop(#[trigger] head[i]),
        tail.len() > 0 ==> stop(tail[0]),
    ensures
        until(head + tail, stop) == head.len(),
    decreases head.len(),
{
    if head.len() > 0 {
        lemma_until_split(head.skip(1), tail, stop);
        assert((head + tail).skip(1) =~= head.skip(1) + tail);
    } else {
        assert(head + tail =~= tail);
    }
}

} // verus!
