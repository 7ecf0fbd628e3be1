//! The routing table: which operation a request line asks for.
//!
//! A path is matched against three patterns under the version prefix. The
//! pattern decides which methods are allowed, and the item pattern hands its
//! last segment to the id parser.

use crate::ident::{id_of, parse_id};
use crate::model::is_client_error;
use vstd::prelude::*;

verus! {

/// The method of a request, as far as the table tells methods apart.
#[derive(Clone, Copy, Debug, PartialEq, Eq, Structural)]
pub enum Method {
    Get,
    Head,
    Post,
    Put,
    Delete,
    Other,
}

/// A path pattern of the table.
#[derive(Clone, Copy, Debug, PartialEq, Eq, Structural)]
pub enum Pattern {
    /// The version prefix itself, with or without a closing slash.
    Listing,
    /// The collection of todos under the prefix.
    Collection,
    /// One todo under the collection, named by the last segment.
    Item,
}

/// The operation that a request asks for.
#[derive(Clone, Copy, Debug, PartialEq, Eq, Structural)]
pub enum Endpoint {
    List,
    Create,
    Update { id: u64 },
    Delete { id: u64 },
}

/// Why a request line names no operation.
#[derive(Clone, Copy, Debug, PartialEq, Eq, Structural)]
pub enum RouteError {
    /// The path matches no pattern.
    NotFound,
    /// The path matches a pattern that does not take the method.
    MethodNotAllowed,
    /// The last segment of an item path holds no id.
    PathParse,
}

/// The status code that answers an item path without an id.
pub const BAD_REQUEST: u16 = 400;

/// The status code that answers a path outside the table.
pub const NOT_FOUND: u16 = 404;

/// The status code that answers a method that the path does not take.
pub const METHOD_NOT_ALLOWED: u16 = 405;

/// The status code of the response that reports `error`.
pub open spec fn status_of(error: RouteError) -> u16 {
    match error {
        RouteError::NotFound => NOT_FOUND,
        RouteError::MethodNotAllowed => METHOD_NOT_ALLOWED,
        RouteError::PathParse => BAD_REQUEST,
    }
}

impl RouteError {
    /// The status code of the response that reports this error: always one
    /// of the client-error class.
    pub fn status(&self) -> (code: u16)
        ensures
            code == status_of(*self),
            is_client_error(code),
    {
        match self {
            RouteError::NotFound => NOT_FOUND,
            RouteError::MethodNotAllowed => METHOD_NOT_ALLOWED,
            RouteError::PathParse => BAD_REQUEST,
        }
    }
}

impl Pattern {
    /// The pattern as a route template, with the id segment as `:id`.
    pub fn template(&self) -> (text: &'static str)
        ensures
            text@ == match *self {
                Pattern::Listing => "/v1"@,
                Pattern::Collection => "/v1/todos"@,
                Pattern::Item => "/v1/todos/:id"@,
            },
    {
        match self {
            Pattern::Listing => "/v1",
            Pattern::Collection => "/v1/todos",
            Pattern::Item => "/v1/todos/:id",
        }
    }
}

impl Endpoint {
    /// Whether the operation reads the request body.
    pub fn takes_payload(&self) -> (yes: bool)
        ensures
            yes == (*self == Endpoint::Create || self is Update),
    {
        match self {
            Endpoint::Create => true,
            Endpoint::Update { .. } => true,
            _ => false,
        }
    }
}

/// The version prefix, `/v1`.
pub open spec fn version_prefix() -> Seq<u8> {
    seq!['/' as u8, 'v' as u8, '1' as u8]
}

/// The path of the collection, `/v1/todos`.
pub open spec fn collection_path() -> Seq<u8> {
    seq!['/' as u8, 'v' as u8, '1' as u8, '/' as u8, 't' as u8, 'o' as u8, 'd' as u8, 'o' as u8, 's' as u8]
}

/// What every item path starts with, `/v1/todos/`.
pub open spec fn item_prefix() -> Seq<u8> {
    collection_path().push('/' as u8)
}

/// Whether `s` is one segment of a path: not empty, and without a slash.
pub open spec fn is_segment(s: Seq<u8>) -> bool {
    s.len() > 0 && forall|i: int| 0 <= i < s.len() ==> #[trigger] s[i] != '/' as u8
}

/// The last segment of an item path.
pub open spec fn item_segment(path: Seq<u8>) -> Seq<u8> {
    path.skip(item_prefix().len() as int)
}

/// The pattern that `path` matches, if it matches one.
pub open spec fn pattern_of(path: Seq<u8>) -> Option<Pattern> {
    if path == version_prefix() || path == version_prefix().push('/' as u8) {
        Some(Pattern::Listing)
    } else if path == collection_path() {
        Some(Pattern::Collection)
    } else if item_prefix().is_prefix_of(path) && is_segment(item_segment(path)) {
        Some(Pattern::Item)
    } else {
        None
    }
}

/// The operation that the table gives for a request line, or the reason why
/// it gives none. The path is looked at first, then the method, then the id.
/// A `Head` asks for what a `Get` asks for.
pub open spec fn endpoint_of(method: Method, path: Seq<u8>) -> Result<Endpoint, RouteError> {
    match pattern_of(path) {
        None => Err(RouteError::NotFound),
        Some(Pattern::Listing) => match method {
            Method::Get | Method::Head => Ok(Endpoint::List),
            _ => Err(RouteError::MethodNotAllowed),
        },
        Some(Pattern::Collection) => match method {
            Method::Post => Ok(Endpoint::Create),
            _ => Err(RouteError::MethodNotAllowed),
        },
        Some(Pattern::Item) => match (method, id_of(item_segment(path))) {
            (Method::Put, Some(id)) => Ok(Endpoint::Update { id }),
            (Method::Delete, Some(id)) => Ok(Endpoint::Delete { id }),
            (Method::Put, None) | (Method::Delete, None) => Err(RouteError::PathParse),
            _ => Err(RouteError::MethodNotAllowed),
        },
    }
}

/// Whether `path` starts with `word`.
fn starts_with(path: &[u8], word: &[u8]) -> (yes: bool)
    ensures
        yes == word@.is_prefix_of(path@),
{
    if word.len() > path.len() {
        return false;
    }
    let mut i: usize = 0;
    while i < word.len()
        invariant
            i <= word@.len() <= path@.len(),
            forall|k: int| 0 <= k < i ==> word@[k] == path@[k],
        decreases word.len() - i,
    {
        if word[i] != path[i] {
            return false;
        }
        i = i + 1;
    }
    assert(word@ =~= path@.subrange(0, word@.len() as int));
    true
}

/// Whether `path` holds no slash from `from` on.
fn no_slash_from(path: &[u8], from: usize) -> (yes: bool)
    requires
        from <= path@.len(),
    ensures
        yes == (forall|i: int| 0 <= i < path@.len() - from ==> #[trigger] path@.skip(from as int)[i] != '/' as u8),
{
    let mut i: usize = from;
    while i < path.len()
        invariant
            from <= i <= path@.len(),
            forall|k: int| 0 <= k < i - from ==> #[trigger] path@.skip(from as int)[k] != '/' as u8,
        decreases path.len() - i,
    {
        if path[i] == '/' as u8 {
            assert(path@.skip(from as int)[i - from] == '/' as u8);
            return false;
        }
        i = i + 1;
    }
    true
}

/// Matches a request path against the patterns of the table.
pub fn match_path(path: &[u8]) -> (found: Option<Pattern>)
    ensures
        found == pattern_of(path@),
{
    let collection: [u8; 9] = ['/' as u8, 'v' as u8, '1' as u8, '/' as u8, 't' as u8, 'o' as u8, 'd' as u8, 'o' as u8, 's' as u8];
    let item: [u8; 10] = ['/' as u8, 'v' as u8, '1' as u8, '/' as u8, 't' as u8, 'o' as u8, 'd' as u8, 'o' as u8, 's' as u8, '/' as u8];
    assert(collection@ =~= collection_path());
    assert(item@ =~= item_prefix());
    assert(collection@.take(3) =~= version_prefix());
    assert(collection@.take(4) =~= version_prefix().push('/' as u8));
    let n: usize = path.len();
    if starts_with(path, item.as_slice()) {
        if n > 10 && no_slash_from(path, 10) {
            Some(Pattern::Item)
        } else {
            None
        }
    } else if starts_with(collection.as_slice(), path) {
        if n == 9 {
            assert(path@ =~= collection@);
            Some(Pattern::Collection)
        } else if n == 3 || n == 4 {
            assert(path@ =~= collection@.take(n as int));
            Some(Pattern::Listing)
        } else {
            None
        }
    } else {
        None
    }
}

/// Looks a request line up in the table.
pub fn resolve(method: Method, path: &[u8]) -> (found: Result<Endpoint, RouteError>)
    ensures
        found == endpoint_of(method, path@),
{
    match match_path(path) {
        None => Err(RouteError::NotFound),
        Some(Pattern::Listing) => match method {
            Method::Get | Method::Head => Ok(Endpoint::List),
            _ => Err(RouteError::MethodNotAllowed),
        },
        Some(Pattern::Collection) => match method {
            Method::Post => Ok(Endpoint::Create),
            _ => Err(RouteError::MethodNotAllowed),
        },
        Some(Pattern::Item) => {
            let updates = match method {
                Method::Put => true,
                Method::Delete => false,
                _ => { return Err(RouteError::MethodNotAllowed); },
            };
            let segment = vstd::slice::slice_subrange(path, 10, path.len());
            assert(segment@ =~= item_segment(path@));
            match parse_id(segment) {
                Ok(id) => if updates { Ok(Endpoint::Update { id }) } else { Ok(Endpoint::Delete { id }) },
                Err(_) => Err(RouteError::PathParse),
            }
        },
    }
}

/// An item path whose last segment holds no id is answered with a client
/// error, for an update and for a delete alike.
pub proof fn lemma_bad_id_is_client_error(method: Method, path: Seq<u8>)
    requires
        method == Method::Put || method == Method::Delete,
        pattern_of(path) == Some(Pattern::Item),
        id_of(item_segment(path)).is_none(),
    ensures
        endpoint_of(method, path) == Err::<Endpoint, RouteError>(RouteError::PathParse),
        is_client_error(status_of(RouteError::PathParse)),
{
}

/// Whatever follows the item prefix in one segment matches the item
/// pattern, so the table never leaves such a path to chance: it answers an
/// update or a delete with the id's operation or with `PathParse`.
pub proof fn lemma_item_paths_are_decided(method: Method, segment: Seq<u8>)
    requires
        method == Method::Put || method == Method::Delete,
        is_segment(segment),
    ensures
        pattern_of(item_prefix() + segment) == Some(Pattern::Item),
        item_segment(item_prefix() + segment) == segment,
        match id_of(segment) {
            Some(id) => endpoint_of(method, item_prefix() + segment) == Ok::<Endpoint, RouteError>(
                if method == Method::Put {
                    Endpoint::Update { id }
                } else {
                    Endpoint::Delete { id }
                },
            ),
            None => endpoint_of(method, item_prefix() + segment) == Err::<Endpoint, RouteError>(
                RouteError::PathParse,
            ),
        },
{
    let path = item_prefix() + segment;
    assert(path.skip(item_prefix().len() as int) =~= segment);
    assert(path.subrange(0, item_prefix().len() as int) =~= item_prefix());
    assert(path.len() > 10);
    assert(path != version_prefix());
    assert(path != version_prefix().push('/' as u8));
    assert(path != collection_path());
}

} // verus!
