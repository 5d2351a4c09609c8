//! Where the control endpoint of an enclave lives on the file system.
//!
//! An enclave identifier is made of letters, digits and dashes, and ends in
//! `-enc` and a token of letters and digits, as in
//! `i-0123456789abcdef0-enc0123456789abcdef`. The whole identifier names the
//! endpoint, `/var/run/nitro_enclaves/<identifier>.sock`, so that no two
//! identifiers meet on one path.

use vstd::prelude::*;
use vstd::string::*;

verus! {

/// What separates the token from the rest of an identifier.
pub open spec fn marker() -> Seq<char> {
    seq!['-', 'e', 'n', 'c']
}

/// The characters a token is made of: ASCII letters and digits.
pub open spec fn is_token_char(c: char) -> bool {
    ('0' <= c && c <= '9') || ('a' <= c && c <= 'z') || ('A' <= c && c <= 'Z')
}

/// Whether `token` is a token: not empty, letters and digits only.
pub open spec fn is_token(token: Seq<char>) -> bool {
    token.len() > 0 && forall|i: int| 0 <= i < token.len() ==> is_token_char(#[trigger] token[i])
}

/// Whether `id` is some prefix, the marker, and a token that starts at
/// index `at`.
pub open spec fn token_starts_at(id: Seq<char>, at: int) -> bool {
    4 <= at < id.len() && id.subrange(at - 4, at) == marker() && is_token(
        id.subrange(at, id.len() as int),
    )
}

/// The characters an identifier is made of: ASCII letters, digits and the
/// dash. None of them means anything to the file system.
pub open spec fn is_id_char(c: char) -> bool {
    is_token_char(c) || c == '-'
}

/// Whether `id` ends in the marker and a token.
pub open spec fn has_token(id: Seq<char>) -> bool {
    exists|at: int| token_starts_at(id, at)
}

/// Whether `id` is an enclave identifier: it ends in the marker and a
/// token, and holds nothing but letters, digits and dashes.
pub open spec fn well_formed_id(id: Seq<char>) -> bool {
    has_token(id) && forall|i: int| 0 <= i < id.len() ==> is_id_char(#[trigger] id[i])
}

/// The token of an identifier that has one.
pub open spec fn enclave_token(id: Seq<char>) -> Seq<char> {
    let at = choose|at: int| token_starts_at(id, at);
    id.subrange(at, id.len() as int)
}

/// The directory that holds the endpoints, with its trailing separator.
pub open spec fn sockets_dir() -> Seq<char> {
    "/var/run/nitro_enclaves/"@
}

/// The extension of an endpoint.
pub open spec fn socket_extension() -> Seq<char> {
    ".sock"@
}

/// The endpoint path of an enclave identifier.
pub open spec fn socket_path_of(id: Seq<char>) -> Seq<char> {
    sockets_dir() + id + socket_extension()
}

/// An identifier has one token at most: the dash of the marker is the last
/// character of the identifier that is neither a letter nor a digit.
pub proof fn token_start_is_unique(id: Seq<char>, a: int, b: int)
    requires
        token_starts_at(id, a),
        token_starts_at(id, b),
    ensures
        a == b,
{
    lemma_marker_ends_before_token(id, a, b);
    lemma_marker_ends_before_token(id, b, a);
}

/// No marker ends behind the start of a token: its dash would stand in the
/// token, or in the `enc` before it.
proof fn lemma_marker_ends_before_token(id: Seq<char>, at: int, end: int)
    requires
        token_starts_at(id, at),
        4 <= end <= id.len(),
        id.subrange(end - 4, end) == marker(),
    ensures
        end <= at,
{
    let len = id.len() as int;
    let dash = end - 4;
    assert(id[dash] == id.subrange(end - 4, end)[0]);
    assert(id[dash] == '-');
    if at < end {
        if dash >= at {
            assert(id.subrange(at, len)[dash - at] == id[dash]);
            assert(is_token_char(id[dash]));
        } else {
            assert(id[dash] == id.subrange(at - 4, at)[dash - (at - 4)]);
            assert(marker()[1] == 'e' && marker()[2] == 'n' && marker()[3] == 'c');
        }
    }
}

/// Where the scan from the right stops: everything from `stop` on is a
/// letter or a digit, and the character before `stop`, if there is one, is
/// not.
spec fn scan_stops_at(id: Seq<char>, stop: int) -> bool {
    &&& 0 <= stop <= id.len()
    &&& forall|i: int| stop <= i < id.len() ==> is_token_char(#[trigger] id[i])
    &&& stop > 0 ==> !is_token_char(id[stop - 1])
}

/// A token can only start three characters after the point where the scan
/// from the right stops: those three are `enc`.
proof fn lemma_start_follows_scan(id: Seq<char>, stop: int, at: int)
    requires
        scan_stops_at(id, stop),
        token_starts_at(id, at),
    ensures
        stop >= 1,
        at == stop + 3,
{
    let len = id.len() as int;
    let dash = at - 4;
    assert(id[dash] == id.subrange(at - 4, at)[0]);
    assert(!is_token_char(id[dash]));
    assert(dash < stop);
    assert forall|i: int| dash < i < len implies is_token_char(id[i]) by {
        if i < at {
            assert(id[i] == id.subrange(at - 4, at)[i - dash]);
            assert(marker()[1] == 'e' && marker()[2] == 'n' && marker()[3] == 'c');
        } else {
            assert(id[i] == id.subrange(at, len)[i - at]);
        }
    }
    assert(stop >= 1);
    if stop - 1 > dash {
        assert(is_token_char(id[stop - 1]));
    }
}

/// Tells whether `c` can stand in a token.
pub fn token_char(c: char) -> (yes: bool)
    ensures
        yes == is_token_char(c),
{
    ('0' <= c && c <= '9') || ('a' <= c && c <= 'z') || ('A' <= c && c <= 'Z')
}

/// Tells whether `c` can stand in an identifier.
pub fn id_char(c: char) -> (yes: bool)
    ensures
        yes == is_id_char(c),
{
    token_char(c) || c == '-'
}

/// Finds the token of an identifier: the index of its first character, or
/// `None` where `id` does not end in the marker and a token. What stands
/// before the marker is not looked at.
pub fn find_token(id: &str) -> (start: Option<usize>)
    ensures
        start is Some <==> has_token(id@),
        start is Some ==> token_starts_at(id@, start->0 as int),
{
    let len: usize = id.unicode_len();
    let mut stop: usize = len;
    while stop > 0 && token_char(id.get_char(stop - 1))
        invariant
            stop <= len,
            len == id@.len(),
            forall|i: int| stop <= i < len ==> is_token_char(#[trigger] id@[i]),
        decreases stop,
    {
        stop -= 1;
    }
    assert(scan_stops_at(id@, stop as int));
    if stop == 0 || len - stop < 4 {
        proof {
            assert forall|at: int| !token_starts_at(id@, at) by {
                if token_starts_at(id@, at) {
                    lemma_start_follows_scan(id@, stop as int, at);
                }
            }
        }
        return None;
    }
    let is_marker = id.get_char(stop - 1) == '-' && id.get_char(stop) == 'e' && id.get_char(
        stop + 1,
    ) == 'n' && id.get_char(stop + 2) == 'c';
    let at: usize = stop + 3;
    if is_marker {
        proof {
            assert(id@.subrange(at - 4, at as int) =~= marker());
            assert forall|i: int| 0 <= i < len - at implies is_token_char(
                #[trigger] id@.subrange(at as int, len as int)[i],
            ) by {
                assert(id@.subrange(at as int, len as int)[i] == id@[at + i]);
            }
            assert(token_starts_at(id@, at as int));
        }
        Some(at)
    } else {
        proof {
            assert forall|at2: int| !token_starts_at(id@, at2) by {
                if token_starts_at(id@, at2) {
                    lemma_start_follows_scan(id@, stop as int, at2);
                    let m = id@.subrange(at2 - 4, at2);
                    assert(m[0] == id@[stop - 1] && m[1] == id@[stop as int] && m[2] == id@[stop
                        + 1] && m[3] == id@[stop + 2]);
                }
            }
        }
        None
    }
}

/// Derives the endpoint path of an enclave: `None` where `enclave_id` is no
/// enclave identifier, else the path that it names. No file system object
/// is made or looked at.
pub fn get_socket_path(enclave_id: &str) -> (path: Option<String>)
    ensures
        path is Some <==> well_formed_id(enclave_id@),
        path is Some ==> path->0@ == socket_path_of(enclave_id@),
{
    match find_token(enclave_id) {
        None => None,
        Some(at) => {
            let ghost id = enclave_id@;
            let mut i: usize = 0;
            while i < at - 4
                invariant
                    token_starts_at(id, at as int),
                    id == enclave_id@,
                    i <= at - 4,
                    forall|k: int| 0 <= k < i ==> is_id_char(#[trigger] id[k]),
                decreases at - i,
            {
                if !id_char(enclave_id.get_char(i)) {
                    return None;
                }
                i += 1;
            }
            proof {
                assert forall|k: int| 0 <= k < id.len() implies is_id_char(#[trigger] id[k]) by {
                    if at - 4 <= k < at {
                        assert(id[k] == id.subrange(at - 4, at as int)[k - (at - 4)]);
                        assert(marker()[0] == '-' && marker()[1] == 'e' && marker()[2] == 'n'
                            && marker()[3] == 'c');
                    } else if k >= at {
                        assert(id[k] == id.subrange(at as int, id.len() as int)[k - at]);
                    }
                }
            }
            let mut path = String::from_str("/var/run/nitro_enclaves/");
            path.append(enclave_id);
            path.append(".sock");
            Some(path)
        },
    }
}

/// Two identifiers share an endpoint only if they are one identifier:
/// enclaves that run at the same time never meet on one path.
pub proof fn socket_paths_do_not_collide(a: Seq<char>, b: Seq<char>)
    ensures
        socket_path_of(a) == socket_path_of(b) <==> a == b,
{
    let dir = sockets_dir();
    let ext = socket_extension();
    if socket_path_of(a) == socket_path_of(b) {
        assert((dir + a + ext).len() == (dir + b + ext).len());
        assert(a.len() == b.len());
        assert((dir + a + ext).subrange(dir.len() as int, (dir.len() + a.len()) as int) =~= a);
        assert((dir + b + ext).subrange(dir.len() as int, (dir.len() + b.len()) as int) =~= b);
    }
}

/// An identifier is a prefix of letters, digits and dashes, the marker and
/// a token. Its token is what follows the marker, and its endpoint path
/// ends in the token and the extension.
pub proof fn token_of_composed_id(prefix: Seq<char>, token: Seq<char>)
    requires
        is_token(token),
        forall|i: int| 0 <= i < prefix.len() ==> is_id_char(#[trigger] prefix[i]),
    ensures
        well_formed_id(prefix + marker() + token),
        enclave_token(prefix + marker() + token) == token,
        socket_path_of(prefix + marker() + token) == sockets_dir() + prefix + marker() + token
            + socket_extension(),
{
    let id = prefix + marker() + token;
    let at = prefix.len() as int + 4;
    assert(id.subrange(at - 4, at) =~= marker());
    assert(id.subrange(at, id.len() as int) =~= token);
    assert(token_starts_at(id, at));
    let chosen = choose|k: int| token_starts_at(id, k);
    token_start_is_unique(id, at, chosen);
    assert forall|i: int| 0 <= i < id.len() implies is_id_char(#[trigger] id[i]) by {
        if i < prefix.len() {
            assert(id[i] == prefix[i]);
        } else if i < at {
            assert(id[i] == marker()[i - prefix.len()]);
        } else {
            assert(id[i] == token[i - at]);
        }
    }
    assert(sockets_dir() + id + socket_extension() =~= sockets_dir() + prefix + marker() + token
        + socket_extension());
}

} // verus!
