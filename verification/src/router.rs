//! The routing table: which handler a method and path fall to. The
//! greeting route takes `GET /`, user creation takes `POST /users`, and
//! every other slash-led `GET` path falls to the static-file route, which
//! receives the path with its leading slash stripped.

use vstd::prelude::*;
use vstd::string::StrSliceExecFns;

verus! {

/// The request methods the routing table distinguishes.
#[derive(Clone, Copy, Debug, PartialEq, Eq)]
pub enum Method {
    Get,
    Post,
}

/// Where a request goes: one of the three handlers, with the captured
/// suffix for the static route, or nowhere.
#[derive(Debug, PartialEq, Eq)]
pub enum RouteTarget {
    Root,
    CreateUser,
    StaticPage(String),
    NoMatch,
}

/// The greeting route: a `GET` of exactly `/`.
pub open spec fn routes_to_root(method: Method, path: Seq<char>) -> bool {
    &&& method is Get
    &&& path == "/"@
}

/// The user-creation route: a `POST` of exactly `/users`.
pub open spec fn routes_to_create_user(method: Method, path: Seq<char>) -> bool {
    &&& method is Post
    &&& path == "/users"@
}

/// The wildcard static route: a `GET` whose path has a leading slash and
/// at least one character after it.
pub open spec fn routes_to_static(method: Method, path: Seq<char>) -> bool {
    &&& method is Get
    &&& path.len() >= 2
    &&& path[0] == '/'
}

/// Character-for-character equality of two string slices.
pub fn str_eq(a: &str, b: &str) -> (r: bool)
    ensures
        r == (a@ == b@),
{
    let a_len = a.unicode_len();
    let b_len = b.unicode_len();
    if a_len != b_len {
        return false;
    }
    let mut i: usize = 0;
    while i < a_len
        invariant
            a_len == a@.len(),
            a_len == b@.len(),
            i <= a_len,
            forall|j: int| 0 <= j < i ==> a@[j] == b@[j],
        decreases a_len - i,
    {
        if a.get_char(i) != b.get_char(i) {
            return false;
        }
        i = i + 1;
    }
    proof {
        assert(a@ =~= b@);
    }
    true
}

/// Sends a request where the routing table says: to exactly one handler,
/// or nowhere when no row matches. The static route's capture is the path
/// without its leading slash.
pub fn route(method: Method, path: &str) -> (r: RouteTarget)
    ensures
        r is Root <==> routes_to_root(method, path@),
        r is CreateUser <==> routes_to_create_user(method, path@),
        r is StaticPage <==> routes_to_static(method, path@),
        (r matches RouteTarget::StaticPage(suffix) ==> suffix@ == path@.subrange(
            1,
            path@.len() as int,
        )),
        r is NoMatch <==> {
            &&& !routes_to_root(method, path@)
            &&& !routes_to_create_user(method, path@)
            &&& !routes_to_static(method, path@)
        },
{
    match method {
        Method::Get => {
            if str_eq(path, "/") {
                proof {
                    reveal_strlit("/");
                }
                RouteTarget::Root
            } else {
                let n = path.unicode_len();
                if n >= 2 && path.get_char(0) == '/' {
                    let suffix = path.substring_char(1, n);
                    RouteTarget::StaticPage(String::from_str(suffix))
                } else {
                    RouteTarget::NoMatch
                }
            }
        },
        Method::Post => {
            if str_eq(path, "/users") {
                RouteTarget::CreateUser
            } else {
                RouteTarget::NoMatch
            }
        },
    }
}

} // verus!
