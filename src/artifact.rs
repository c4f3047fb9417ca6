use std::path::Path;
use vstd::prelude::*;

use crate::encoding::{decimal_of, hex_of, push_decimal, push_hex};
use crate::sha::{sha256, sha256_of};

verus! {

/// Why a chunk artifact could not be named.
#[derive(Debug, Clone, Copy, PartialEq, Eq, Structural)]
pub enum ChunkError {
    /// The source path has no file name from which a stem can be taken.
    NoStem,
}

/// The delimiter between the parts of an artifact name.
pub open spec fn delimiter() -> Seq<char> {
    seq!['_']
}

/// The suffix of every artifact name.
pub open spec fn artifact_suffix() -> Seq<char> {
    seq!['.', 'c', 'h', 'u', 'n', 'k']
}

/// `<stem>_<index>_<hex digest>.chunk`: the name of the stored chunk `index` of the
/// source with stem `stem`, whose payload has digest `digest`.
pub open spec fn artifact_name_of(stem: Seq<char>, index: nat, digest: Seq<u8>) -> Seq<char> {
    stem + delimiter() + decimal_of(index) + delimiter() + hex_of(digest) + artifact_suffix()
}

/// The name of chunk `chunk_index` of the source with stem `stem`, given the digest of
/// the chunk's payload.
pub fn artifact_name_for_digest(stem: &str, chunk_index: u64, digest: &[u8]) -> (r: String)
    ensures
        r@ == artifact_name_of(stem@, chunk_index as nat, digest@),
{
    let mut out = String::new();
    out.append(stem);
    proof {
        reveal_strlit("_");
    }
    out.append("_");
    push_decimal(&mut out, chunk_index);
    out.append("_");
    push_hex(&mut out, digest);
    proof {
        reveal_strlit(".chunk");
    }
    out.append(".chunk");
    assert(out@ =~= artifact_name_of(stem@, chunk_index as nat, digest@));
    out
}

/// The name of chunk `chunk_index` of the source with stem `stem` whose payload is
/// `chunk_contents`: the name is addressed by the payload's SHA-256 digest.
pub fn artifact_name(stem: &str, chunk_index: u64, chunk_contents: &[u8]) -> (r: String)
    ensures
        r@ == artifact_name_of(stem@, chunk_index as nat, sha256_of(chunk_contents@)),
{
    let digest = sha256(chunk_contents);
    artifact_name_for_digest(stem, chunk_index, &digest)
}

/// A single file name with no extension: not empty, and without a path separator
/// (`/`, `\`), a drive separator (`:`) or a dot.
pub open spec fn plain_name(p: Seq<char>) -> bool {
    p.len() > 0 && forall|i: int|
        0 <= i < p.len() ==> p[i] != '/' && p[i] != '\\' && p[i] != ':' && p[i] != '.'
}

/// A path with no file name: the empty path, the root `/`, or a path whose last
/// component is `..`.
pub open spec fn has_no_file_name(p: Seq<char>) -> bool {
    ||| p.len() == 0
    ||| p == seq!['/']
    ||| p == seq!['.', '.']
    ||| (p.len() >= 3 && p.subrange(p.len() - 3, p.len() as int) == seq!['/', '.', '.'])
}

/// `stem` is the stem of the path `p`, in the shapes whose stem is plain: a plain name
/// (its own stem), a plain name with a plain extension (`stem.ext`), and a plain name
/// in a plain directory (`dir/stem`).
pub open spec fn known_stem(p: Seq<char>, stem: Seq<char>) -> bool {
    ||| plain_name(p) && stem == p
    ||| exists|ext: Seq<char>|
        plain_name(stem) && plain_name(ext) && p == stem + seq!['.'] + ext
    ||| exists|dir: Seq<char>|
        plain_name(dir) && plain_name(stem) && p == dir + seq!['/'] + stem
}

/// Relies on `std::path::Path::file_stem`: the file name of the path without its final
/// extension, or none where the path has no file name (it is empty, `/`, or ends in
/// `..`). A name without a dot is its own stem; `base.ext` has the stem `base`; a
/// directory in front of the name does not change its stem.
#[verifier::external_body]
fn file_stem(path: &str) -> (r: Option<String>)
    ensures
        has_no_file_name(path@) ==> r is None,
        forall|stem: Seq<char>| #[trigger]
            known_stem(path@, stem) ==> (r is Some && r->Some_0@ == stem),
{
    match Path::new(path).file_stem() {
        Some(s) => s.to_str().map(String::from),
        None => None,
    }
}

/// The name under which chunk `chunk_index` of the file at `file_path` is stored, with
/// payload `chunk_contents`: the file's stem, the index and the payload's digest. A path
/// with no file name is refused with `ChunkError::NoStem`.
pub fn chunk_file_name(file_path: &str, chunk_index: u64, chunk_contents: &[u8]) -> (r: Result<
    String,
    ChunkError,
>)
    ensures
        r matches Ok(name) ==> exists|stem: Seq<char>|
            name@ == artifact_name_of(stem, chunk_index as nat, sha256_of(chunk_contents@)),
        r matches Err(e) ==> e == ChunkError::NoStem,
        has_no_file_name(file_path@) ==> r == Err::<String, ChunkError>(ChunkError::NoStem),
        forall|stem: Seq<char>| #[trigger]
            known_stem(file_path@, stem) ==> (r is Ok && r->Ok_0@ == artifact_name_of(
                stem,
                chunk_index as nat,
                sha256_of(chunk_contents@),
            )),
{
    match file_stem(file_path) {
        None => Err(ChunkError::NoStem),
        Some(stem) => Ok(artifact_name(stem.as_str(), chunk_index, chunk_contents)),
    }
}

} // verus!

verus! {

/// Artifact names of one stem never collide: two chunks whose indices differ, or whose
/// digests (of one length) differ, get different names.
pub proof fn lemma_artifact_names_distinct(
    stem: Seq<char>,
    i1: nat,
    d1: Seq<u8>,
    i2: nat,
    d2: Seq<u8>,
)
    requires
        d1.len() == d2.len(),
        i1 != i2 || d1 != d2,
    ensures
        artifact_name_of(stem, i1, d1) != artifact_name_of(stem, i2, d2),
{
    if artifact_name_of(stem, i1, d1) == artifact_name_of(stem, i2, d2) {
        let name = artifact_name_of(stem, i1, d1);
        crate::encoding::lemma_hex_of_len(d1);
        crate::encoding::lemma_hex_of_len(d2);
        let h = hex_of(d1).len() as int;
        let p1 = stem + delimiter() + decimal_of(i1) + delimiter();
        let p2 = stem + delimiter() + decimal_of(i2) + delimiter();
        assert(name =~= p1 + hex_of(d1) + artifact_suffix());
        assert(name =~= p2 + hex_of(d2) + artifact_suffix());
        assert(p1.len() == p2.len());
        assert(p1 =~= name.subrange(0, p1.len() as int));
        assert(p2 =~= name.subrange(0, p2.len() as int));
        assert(hex_of(d1) =~= name.subrange(p1.len() as int, p1.len() + h));
        assert(hex_of(d2) =~= name.subrange(p2.len() as int, p2.len() + h));
        crate::encoding::lemma_hex_of_injective(d1, d2);
        let k: int = stem.len() as int + 1;
        assert(decimal_of(i1) =~= p1.subrange(k, p1.len() - 1));
        assert(decimal_of(i2) =~= p2.subrange(k, p2.len() - 1));
        crate::encoding::lemma_decimal_of_injective(i1, i2);
    }
}

} // verus!
