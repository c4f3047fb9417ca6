use vstd::prelude::*;

verus! {

pub open spec fn min_nat(a: nat, b: nat) -> nat {
    if a < b {
        a
    } else {
        b
    }
}

/// Where chunk `index` of a `len`-byte file starts: its offset, or the end of the file
/// when the offset lies beyond it.
pub open spec fn chunk_start(len: nat, size: nat, index: nat) -> nat {
    min_nat(size * index, len)
}

/// Where chunk `index` of a `len`-byte file ends: one chunk size past its offset, cut at
/// the end of the file.
pub open spec fn chunk_end(len: nat, size: nat, index: nat) -> nat {
    min_nat(size * index + size, len)
}

/// The bytes of chunk `index` when `data` is cut into chunks of `size` bytes.
pub open spec fn chunk_spec(data: Seq<u8>, size: nat, index: nat) -> Seq<u8> {
    data.subrange(
        chunk_start(data.len(), size, index) as int,
        chunk_end(data.len(), size, index) as int,
    )
}

/// How many chunks of `size` bytes a `len`-byte file has: `len / size` rounded up.
pub open spec fn chunk_count(len: nat, size: nat) -> nat
    recommends
        size > 0,
{
    ((len + size - 1) / (size as int)) as nat
}

/// Chunks `0 .. n` of `data`, joined in order.
pub open spec fn chunks_joined(data: Seq<u8>, size: nat, n: nat) -> Seq<u8>
    decreases n,
{
    if n == 0 {
        Seq::empty()
    } else {
        chunks_joined(data, size, (n - 1) as nat) + chunk_spec(data, size, (n - 1) as nat)
    }
}

/// The byte range to read for chunk `chunk_index` of a file of `file_len` bytes: the
/// offset to seek to and the number of bytes there. A chunk whose offset lies at or
/// past the end of the file is empty; so is every chunk when `chunk_size` is zero.
pub fn chunk_span(file_len: u64, chunk_size: u64, chunk_index: u64) -> (r: (u64, u64))
    ensures
        r.0 == chunk_start(file_len as nat, chunk_size as nat, chunk_index as nat),
        r.0 + r.1 == chunk_end(file_len as nat, chunk_size as nat, chunk_index as nat),
        r.1 <= chunk_size,
        chunk_size * chunk_index >= file_len ==> r.1 == 0,
{
    match chunk_size.checked_mul(chunk_index) {
        None => (file_len, 0),
        Some(offset) => {
            if offset >= file_len {
                (file_len, 0)
            } else if chunk_size <= file_len - offset {
                (offset, chunk_size)
            } else {
                (offset, file_len - offset)
            }
        },
    }
}

/// Chunk `chunk_index` of `data` cut into chunks of `chunk_size` bytes: the bytes from
/// offset `chunk_size * chunk_index`, at most `chunk_size` of them. Past the end of
/// the data the chunk is empty, which ends a chunking session and is no error.
pub fn chunk_of(data: &[u8], chunk_size: u64, chunk_index: u64) -> (r: Vec<u8>)
    ensures
        r@ == chunk_spec(data@, chunk_size as nat, chunk_index as nat),
        r@.len() <= chunk_size,
        chunk_size * chunk_index >= data@.len() ==> r@.len() == 0,
{
    let len = data.len() as u64;
    assert(len == data@.len());
    let (start, count) = chunk_span(len, chunk_size, chunk_index);
    let start = start as usize;
    let end = start + count as usize;
    let mut out: Vec<u8> = Vec::new();
    let mut i: usize = start;
    while i < end
        invariant
            start <= i <= end <= data@.len(),
            out@ == data@.subrange(start as int, i as int),
        decreases end - i,
    {
        out.push(data[i]);
        assert(data@.subrange(start as int, i + 1) =~= data@.subrange(start as int, i as int).push(
            data@[i as int],
        ));
        i = i + 1;
    }
    out
}

proof fn lemma_chunks_joined_prefix(data: Seq<u8>, size: nat, n: nat)
    requires
        size > 0,
    ensures
        chunks_joined(data, size, n) == data.subrange(0, min_nat(size * n, data.len()) as int),
    decreases n,
{
    if n == 0 {
        assert(size * n == 0) by (nonlinear_arith)
            requires
                n == 0,
        ;
        assert(chunks_joined(data, size, n) =~= data.subrange(0, 0));
    } else {
        let m = (n - 1) as nat;
        lemma_chunks_joined_prefix(data, size, m);
        assert(size * m + size == size * n) by (nonlinear_arith)
            requires
                m + 1 == n,
        ;
        assert(size * m <= size * n) by (nonlinear_arith)
            requires
                m + 1 == n,
        ;
        assert(chunks_joined(data, size, n) =~= data.subrange(
            0,
            min_nat(size * n, data.len()) as int,
        ));
    }
}

/// Joining chunks `0 .. ceil(L / size)` of a file of `L` bytes, in order, gives back
/// the file, byte for byte.
pub proof fn lemma_chunks_reassemble(data: Seq<u8>, size: nat)
    requires
        size > 0,
    ensures
        chunks_joined(data, size, chunk_count(data.len(), size)) == data,
{
    let len = data.len();
    let n = chunk_count(len, size);
    lemma_chunks_joined_prefix(data, size, n);
    assert(size * n >= len) by (nonlinear_arith)
        requires
            size > 0,
            n == (len + size - 1) / (size as int),
    ;
    assert(data.subrange(0, len as int) =~= data);
}

/// Every chunk whose offset lies at or past the end of the data is empty.
pub proof fn lemma_chunk_past_end_is_empty(data: Seq<u8>, size: nat, index: nat)
    requires
        size * index >= data.len(),
    ensures
        chunk_spec(data, size, index) == Seq::<u8>::empty(),
{
    assert(chunk_spec(data, size, index) =~= Seq::<u8>::empty());
}

} // verus!
