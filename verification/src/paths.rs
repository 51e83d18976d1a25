//! Paths: cutting a prefix of a given byte length off a path (as
//! `String::replace_range(..n, ..)` does), the rewriting of `file://` URIs
//! of the music library into paths, and the parent directory of a path.

use vstd::prelude::*;
use vstd::utf8::*;
use vstd::string::*;

verus! {

broadcast use vstd::utf8::group_utf8_lib;

/// The number of bytes of the UTF-8 encoding of `s`.
pub open spec fn utf8_len(s: Seq<char>) -> int {
    encode_utf8(s).len() as int
}

/// The first `n` bytes of the UTF-8 encoding of `s` end on a character boundary.
pub open spec fn cuts_at(s: Seq<char>, n: int) -> bool {
    is_char_boundary(encode_utf8(s), n)
}

/// The characters that `s` encodes after its first `n` bytes.
pub open spec fn after_bytes(s: Seq<char>, n: int) -> Seq<char> {
    decode_utf8(encode_utf8(s).subrange(n, utf8_len(s)))
}

/// The URI scheme of the entries of the music library.
pub open spec fn file_scheme() -> Seq<char> {
    seq!['f', 'i', 'l', 'e', ':', '/', '/']
}

/// The byte length of `file_scheme()`.
pub const FILE_SCHEME_BYTES: usize = 7;

/// `s` with its first `n` bytes replaced by `replacement`: what
/// `String::replace_range(..n, replacement)` leaves. `None` where that call
/// panics: `n` is past the end of `s` or inside the encoding of a character.
pub fn replace_byte_prefix(s: &str, n: usize, replacement: &str) -> (r: Option<String>)
    ensures
        r is Some <==> cuts_at(s@, n as int),
        r matches Some(t) ==> t@ == replacement@ + after_bytes(s@, n as int),
        r is Some <==> is_char_boundary(encode_utf8(s@), n as int),
        r matches Some(t) ==> t@ == replacement@ + decode_utf8(
            encode_utf8(s@).subrange(n as int, encode_utf8(s@).len() as int),
        ),
{
    if s.is_char_boundary(n) {
        let (_head, tail) = s.split_at(n);
        proof {
            assert(tail@ == decode_utf8(encode_utf8(tail@)));
        }
        let mut t = replacement.to_owned();
        t.append(tail);
        Some(t)
    } else {
        None
    }
}

/// The path in the view directory of a library entry: its URI with the
/// scheme and the library root cut off (by byte length) and the view root put
/// in their place. `None` where the cut does not fall on a character boundary
/// of the URI, or its offset does not fit in a `usize`.
pub fn view_path_for_uri(uri: &str, library_root: &str, view_root: &str) -> (r: Option<String>)
    requires
        utf8_len(library_root@) <= usize::MAX,
    ensures
        r is Some <==> (FILE_SCHEME_BYTES + utf8_len(library_root@) <= usize::MAX && cuts_at(
            uri@,
            FILE_SCHEME_BYTES + utf8_len(library_root@),
        )),
        r matches Some(t) ==> t@ == view_root@ + after_bytes(
            uri@,
            FILE_SCHEME_BYTES + utf8_len(library_root@),
        ),
        r is Some <==> (7 + encode_utf8(library_root@).len() <= usize::MAX && is_char_boundary(
            encode_utf8(uri@),
            7 + encode_utf8(library_root@).len() as int,
        )),
        r matches Some(t) ==> t@ == view_root@ + decode_utf8(
            encode_utf8(uri@).subrange(
                7 + encode_utf8(library_root@).len() as int,
                encode_utf8(uri@).len() as int,
            ),
        ),
{
    match FILE_SCHEME_BYTES.checked_add(library_root.len()) {
        Some(n) => replace_byte_prefix(uri, n, view_root),
        None => None,
    }
}

/// The file a library entry names: its URI without the scheme (the first
/// seven bytes). `None` where the URI is shorter or the cut falls inside a
/// character.
pub fn library_path_for_uri(uri: &str) -> (r: Option<String>)
    ensures
        r is Some <==> cuts_at(uri@, FILE_SCHEME_BYTES as int),
        r matches Some(t) ==> t@ == after_bytes(uri@, FILE_SCHEME_BYTES as int),
        r is Some <==> is_char_boundary(encode_utf8(uri@), 7),
        r matches Some(t) ==> t@ == decode_utf8(
            encode_utf8(uri@).subrange(7, encode_utf8(uri@).len() as int),
        ),
{
    let r = replace_byte_prefix(uri, FILE_SCHEME_BYTES, "");
    proof {
        if r is Some {
            reveal_strlit("");
            assert(""@ + after_bytes(uri@, FILE_SCHEME_BYTES as int) =~= after_bytes(
                uri@,
                FILE_SCHEME_BYTES as int,
            ));
        }
    }
    r
}

/// The parent directory of a path, as `std::path::Path::parent` gives it,
/// as text. It depends on the path alone.
pub uninterp spec fn path_parent_of(path: Seq<char>) -> Option<Seq<char>>;

/// `std::path::Path::parent` on `path`, converted back to text. The claim
/// is only that the result is the named function `path_parent_of` of the
/// path; what `Path::parent` computes (component splitting, trailing
/// separators, `.` components) is not stated.
#[verifier::external_body]
pub(crate) fn path_parent(path: &str) -> (r: Option<String>)
    ensures
        match r {
            Some(p) => path_parent_of(path@) == Some(p@),
            None => path_parent_of(path@) is None,
        },
{
    match std::path::Path::new(path).parent() {
        Some(parent) => Some(parent.to_string_lossy().into_owned()),
        None => None,
    }
}

/// The encoding of a concatenation is the concatenation of the encodings.
proof fn lemma_encode_concat(a: Seq<char>, b: Seq<char>)
    ensures
        encode_utf8(a + b) == encode_utf8(a) + encode_utf8(b),
    decreases a.len(),
{
    if a.len() == 0 {
        assert(a + b =~= b);
        assert(encode_utf8(a) + encode_utf8(b) =~= encode_utf8(b));
    } else {
        assert((a + b)[0] == a[0]);
        assert((a + b).drop_first() =~= a.drop_first() + b);
        lemma_encode_concat(a.drop_first(), b);
        assert(encode_scalar(a[0] as u32) + (encode_utf8(a.drop_first()) + encode_utf8(b))
            =~= (encode_scalar(a[0] as u32) + encode_utf8(a.drop_first())) + encode_utf8(b));
    }
}

/// The bytes of `a` end on a character boundary of the bytes of `a + b`, and
/// what follows them decodes to `b`: cutting the bytes of a text off a longer
/// text leaves the rest.
pub proof fn lemma_cut_at_join(a: Seq<char>, b: Seq<char>)
    ensures
        cuts_at(a + b, utf8_len(a)),
        after_bytes(a + b, utf8_len(a)) == b,
        is_char_boundary(encode_utf8(a + b), encode_utf8(a).len() as int),
        decode_utf8(
            encode_utf8(a + b).subrange(
                encode_utf8(a).len() as int,
                encode_utf8(a + b).len() as int,
            ),
        ) == b,
    decreases a.len(),
{
    lemma_encode_concat(a, b);
    let bytes = encode_utf8(a + b);
    assert(bytes.subrange(utf8_len(a), utf8_len(a + b)) =~= encode_utf8(b));
    if a.len() > 0 {
        let s = a + b;
        encode_utf8_first_scalar(s);
        assert(pop_first_scalar(bytes) =~= encode_utf8(s.drop_first()));
        assert(s.drop_first() =~= a.drop_first() + b);
        assert(s[0] == a[0]);
        lemma_cut_at_join(a.drop_first(), b);
        assert(encode_scalar(a[0] as u32).len() > 0);
        assert(utf8_len(a) == encode_scalar(a[0] as u32).len() + utf8_len(a.drop_first()));
    } else {
        assert(utf8_len(a) == 0);
    }
}

/// The scheme takes seven bytes.
proof fn lemma_file_scheme_bytes()
    ensures
        utf8_len(file_scheme()) == FILE_SCHEME_BYTES,
        FILE_SCHEME_BYTES == 7,
        file_scheme() == seq!['f', 'i', 'l', 'e', ':', '/', '/'],
{
    reveal_with_fuel(encode_utf8, 8);
    let s = file_scheme();
    assert(s.drop_first() =~= seq!['i', 'l', 'e', ':', '/', '/']);
    assert(s.drop_first().drop_first() =~= seq!['l', 'e', ':', '/', '/']);
    assert(s.drop_first().drop_first().drop_first() =~= seq!['e', ':', '/', '/']);
    assert(s.drop_first().drop_first().drop_first().drop_first() =~= seq![':', '/', '/']);
    assert(s.drop_first().drop_first().drop_first().drop_first().drop_first() =~= seq!['/', '/']);
    assert(s.drop_first().drop_first().drop_first().drop_first().drop_first().drop_first()
        =~= seq!['/']);
    assert(s.drop_first().drop_first().drop_first().drop_first().drop_first().drop_first().drop_first()
        =~= Seq::<char>::empty());
}

/// For an entry of the library, `file://` followed by the library root and a
/// relative path, the view path keeps the relative path under the view root,
/// and the library path is the library root followed by the same relative path.
pub proof fn lemma_uri_rewrite_keeps_relative_path(library_root: Seq<char>, relative: Seq<char>)
    ensures
        cuts_at(
            file_scheme() + library_root + relative,
            FILE_SCHEME_BYTES + utf8_len(library_root),
        ),
        after_bytes(
            file_scheme() + library_root + relative,
            FILE_SCHEME_BYTES + utf8_len(library_root),
        ) == relative,
        cuts_at(file_scheme() + library_root + relative, FILE_SCHEME_BYTES as int),
        after_bytes(file_scheme() + library_root + relative, FILE_SCHEME_BYTES as int)
            == library_root + relative,
{
    lemma_file_scheme_bytes();
    let head = file_scheme() + library_root;
    lemma_encode_concat(file_scheme(), library_root);
    lemma_cut_at_join(head, relative);
    assert(file_scheme() + (library_root + relative) =~= head + relative);
    lemma_cut_at_join(file_scheme(), library_root + relative);
}

} // verus!
