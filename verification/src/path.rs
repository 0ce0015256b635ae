//! File system paths as bytes, compared by component. Components and display are those of Unix,
//! on every platform: a slash alone separates, and the bytes are shown as UTF-8.

use crate::text::{from_utf8_lossy, lossy_text, REPLACEMENT};
use vstd::prelude::*;
use vstd::string::*;
use vstd::utf8::{decode_utf8, encode_utf8, valid_utf8};

verus! {

/// The byte between the components of a path.
pub const SLASH: u8 = 0x2f;

/// The byte that alone stands for the current directory.
pub const DOT: u8 = 0x2e;

/// A file system path, held as bytes so that names which are not valid text survive. Two paths
/// are equal where their components are, however they are spelt. The components are those of
/// Unix, and so is the way it is shown: a backslash or a drive letter means nothing special.
#[derive(Debug, Eq)]
pub struct FilePath {
    /// The path's bytes.
    pub bytes: Vec<u8>,
}

impl View for FilePath {
    type V = Seq<u8>;

    open spec fn view(&self) -> Seq<u8> {
        self.bytes@
    }
}

impl Clone for FilePath {
    fn clone(&self) -> (r: Self)
        ensures
            r@ == self@,
    {
        let bytes = self.bytes.clone();
        assert(bytes@ =~= self.bytes@);
        FilePath { bytes }
    }
}

/// What stands before, between and after the slashes of a path, empty pieces and all.
pub open spec fn pieces(path: Seq<u8>) -> Seq<Seq<u8>>
    decreases path.len(),
{
    if path.len() == 0 {
        seq![Seq::empty()]
    } else if path.last() == SLASH {
        pieces(path.drop_last()).push(Seq::empty())
    } else {
        let front = pieces(path.drop_last());
        front.drop_last().push(front.last().push(path.last()))
    }
}

/// The pieces that name something: not the empty ones, and not a single dot unless the path
/// begins with it.
pub open spec fn names(pieces: Seq<Seq<u8>>) -> Seq<Seq<u8>>
    decreases pieces.len(),
{
    if pieces.len() == 0 {
        Seq::empty()
    } else {
        let front = names(pieces.drop_last());
        let piece = pieces.last();
        if piece.len() == 0 || (piece == seq![DOT] && pieces.len() > 1) {
            front
        } else {
            front.push(piece)
        }
    }
}

/// The components of a path on Unix: the root, as a slash, where the path begins with one, and then the
/// names.
pub open spec fn components(path: Seq<u8>) -> Seq<Seq<u8>> {
    let root = if path.len() > 0 && path.first() == SLASH {
        seq![seq![SLASH]]
    } else {
        Seq::empty()
    };
    root + names(pieces(path))
}

/// The views of a sequence of byte strings.
pub open spec fn byte_strings(items: Seq<Vec<u8>>) -> Seq<Seq<u8>> {
    items.map_values(|v: Vec<u8>| v@)
}

/// The components of an optional path.
pub open spec fn opt_components(p: Option<Seq<u8>>) -> Option<Seq<Seq<u8>>> {
    match p {
        Some(path) => Some(components(path)),
        None => None,
    }
}

/// The views of a sequence of paths.
pub open spec fn paths(items: Seq<FilePath>) -> Seq<Seq<u8>> {
    items.map_values(|p: FilePath| p@)
}

/// The view of an optional path.
pub open spec fn opt_path(p: Option<FilePath>) -> Option<Seq<u8>> {
    match p {
        Some(q) => Some(q@),
        None => None,
    }
}

/// A copy of an optional path.
pub(crate) fn clone_opt_path(p: &Option<FilePath>) -> (r: Option<FilePath>)
    ensures
        opt_path(r) == opt_path(*p),
{
    match p {
        Some(q) => Some(q.clone()),
        None => None,
    }
}

impl FilePath {
    /// The path that a user wrote as text.
    pub fn from_text(text: &str) -> (r: Self)
        ensures
            r@ == encode_utf8(text@),
    {
        FilePath { bytes: text.as_bytes_vec() }
    }

    /// The path as text for a reader, as on Unix: exactly the text it encodes where it is valid
    /// UTF-8, and with replacement characters where it is not.
    pub fn display(&self) -> (r: String)
        ensures
            r@ == lossy_text(self@),
            valid_utf8(self@) ==> r@ == decode_utf8(self@),
            !valid_utf8(self@) ==> r@.contains(REPLACEMENT),
    {
        from_utf8_lossy(self.bytes.as_slice())
    }

    /// The components of the path.
    pub fn components(&self) -> (r: Vec<Vec<u8>>)
        ensures
            byte_strings(r@) == components(self@),
    {
        let n: usize = self.bytes.len();
        let mut r: Vec<Vec<u8>> = Vec::new();
        if n > 0 && self.bytes[0] == SLASH {
            let mut root: Vec<u8> = Vec::new();
            root.push(SLASH);
            assert(root@ =~= seq![SLASH]);
            r.push(root);
        }
        let ghost root = byte_strings(r@);
        let mut piece: Vec<u8> = Vec::new();
        let mut leading: bool = true;
        let mut i: usize = 0;
        let ghost mut before = Seq::<Seq<u8>>::empty();
        proof {
            assert(root =~= if self@.len() > 0 && self@.first() == SLASH {
                seq![seq![SLASH]]
            } else {
                Seq::empty()
            });
            assert(self@.take(0).len() == 0);
            assert(pieces(self@.take(0)) =~= before.push(piece@));
            assert(byte_strings(r@) =~= root + names(before));
        }
        while i < n
            invariant
                n == self.bytes@.len(),
                i <= n,
                leading == (before.len() == 0),
                pieces(self@.take(i as int)) == before.push(piece@),
                byte_strings(r@) == root + names(before),
            decreases n - i,
        {
            let ghost so_far = self@.take(i + 1);
            assert(so_far.drop_last() =~= self@.take(i as int));
            assert(so_far.last() == self@[i as int]);
            if self.bytes[i] == SLASH {
                let mut full: Vec<u8> = Vec::new();
                std::mem::swap(&mut full, &mut piece);
                let ghost after = before.push(full@);
                keep_piece(&mut r, full, leading, Ghost(root), Ghost(before));
                leading = false;
                proof {
                    before = after;
                }
                assert(pieces(so_far) =~= before.push(piece@));
            } else {
                let ghost front = pieces(self@.take(i as int));
                assert(front.drop_last() =~= before);
                piece.push(self.bytes[i]);
                assert(pieces(so_far) =~= before.push(piece@));
            }
            i = i + 1;
        }
        assert(self@.take(n as int) =~= self@);
        keep_piece(&mut r, piece, leading, Ghost(root), Ghost(before));
        r
    }

    /// Tells whether two paths have the same components.
    pub fn same(&self, other: &FilePath) -> (r: bool)
        ensures
            r == (components(self@) == components(other@)),
    {
        let a = self.components();
        let b = other.components();
        let ghost left = byte_strings(a@);
        let ghost right = byte_strings(b@);
        if a.len() != b.len() {
            assert(left.len() != right.len());
            return false;
        }
        let mut i: usize = 0;
        while i < a.len()
            invariant
                a@.len() == b@.len(),
                i <= a@.len(),
                left == byte_strings(a@) && left == components(self@),
                right == byte_strings(b@) && right == components(other@),
                forall|j: int| 0 <= j < i ==> left[j] == right[j],
            decreases a.len() - i,
        {
            if !same_bytes(&a[i], &b[i]) {
                assert(left[i as int] != right[i as int]);
                return false;
            }
            assert(left[i as int] == right[i as int]);
            i = i + 1;
        }
        assert(left =~= right);
        true
    }
}

impl PartialEq for FilePath {
    fn eq(&self, other: &FilePath) -> (r: bool) {
        self.same(other)
    }
}

impl vstd::std_specs::cmp::PartialEqSpecImpl for FilePath {
    open spec fn obeys_eq_spec() -> bool {
        true
    }

    open spec fn eq_spec(&self, other: &FilePath) -> bool {
        components(self@) == components(other@)
    }
}

/// Puts a piece behind the components so far, if it names something.
fn keep_piece(
    kept: &mut Vec<Vec<u8>>,
    piece: Vec<u8>,
    leading: bool,
    Ghost(root): Ghost<Seq<Seq<u8>>>,
    Ghost(before): Ghost<Seq<Seq<u8>>>,
)
    requires
        leading == (before.len() == 0),
        byte_strings(old(kept)@) == root + names(before),
    ensures
        byte_strings(final(kept)@) == root + names(before.push(piece@)),
{
    let ghost all = before.push(piece@);
    let ghost start = kept@;
    assert(all.drop_last() =~= before);
    if piece.len() == 0 {
        return;
    }
    if piece.len() == 1 && piece[0] == DOT && !leading {
        assert(piece@ =~= seq![DOT]);
        return;
    }
    assert(piece@ == seq![DOT] ==> piece@.len() == 1 && piece@[0] == DOT);
    kept.push(piece);
    assert(byte_strings(kept@) =~= byte_strings(start).push(piece@));
    assert(byte_strings(kept@) =~= root + names(all));
}

/// Tells whether two byte strings are the same.
fn same_bytes(a: &Vec<u8>, b: &Vec<u8>) -> (r: bool)
    ensures
        r == (a@ == b@),
{
    if a.len() != b.len() {
        return false;
    }
    let mut i: usize = 0;
    while i < a.len()
        invariant
            a@.len() == b@.len(),
            i <= a@.len(),
            forall|j: int| 0 <= j < i ==> a@[j] == b@[j],
        decreases a.len() - i,
    {
        if a[i] != b[i] {
            return false;
        }
        i = i + 1;
    }
    assert(a@ =~= b@);
    true
}

/// Tells whether two optional paths have the same components, or are both missing.
pub(crate) fn same_opt_path(a: &Option<FilePath>, b: &Option<FilePath>) -> (r: bool)
    ensures
        r == (opt_components(opt_path(*a)) == opt_components(opt_path(*b))),
{
    match (a, b) {
        (Some(p), Some(q)) => p.same(q),
        (None, None) => true,
        _ => false,
    }
}

/// A path written as text shows as that same text: its bytes are valid, and they decode to it.
pub proof fn written_path_shows_as_written(text: Seq<char>)
    ensures
        valid_utf8(encode_utf8(text)),
        decode_utf8(encode_utf8(text)) == text,
{
    vstd::utf8::encode_utf8_valid_utf8(text);
    vstd::utf8::encode_utf8_decode_utf8(text);
}

} // verus!
