//! The checksum transform: every byte read from a file is fed to a running
//! SHA-256 hash, and the hash is given out only once the stream has been
//! read to its end.

use vstd::prelude::*;

verus! {

/// A running SHA-256 computation of the `sha2` crate. The hasher is opaque
/// to the verifier: all that is known of it is the byte string it has
/// absorbed, see [`absorbed`].
#[verifier::external_body]
pub struct Hasher {
    inner: sha2::Sha256,
}

/// The bytes that a hasher has been fed since it was created, in order.
pub uninterp spec fn absorbed(hasher: Hasher) -> Seq<u8>;

/// The SHA-256 digest of a byte string, as `sha2` computes it.
pub uninterp spec fn sha256(data: Seq<u8>) -> Seq<u8>;

/// `sha2::Sha256::new` (`Digest::new`): a hasher that has absorbed nothing.
#[verifier::external_body]
fn hasher_new() -> (hasher: Hasher)
    ensures
        absorbed(hasher) == Seq::<u8>::empty(),
{
    Hasher { inner: <sha2::Sha256 as sha2::Digest>::new() }
}

/// `Digest::update` on a `sha2::Sha256`: the hasher absorbs `data` after
/// what it had absorbed before.
#[verifier::external_body]
fn hasher_update(hasher: &mut Hasher, data: &[u8])
    ensures
        absorbed(*final(hasher)) == absorbed(*old(hasher)) + data@,
{
    sha2::Digest::update(&mut hasher.inner, data);
}

/// `Digest::finalize` on a `sha2::Sha256`: the digest of everything the
/// hasher has absorbed.
#[verifier::external_body]
fn hasher_finalize(hasher: Hasher) -> (digest: Vec<u8>)
    ensures
        digest@ == sha256(absorbed(hasher)),
{
    sha2::Digest::finalize(hasher.inner).to_vec()
}

/// The character that writes the hexadecimal digit `d` in lower case.
pub open spec fn hex_digit(d: nat) -> char {
    if d == 0 {
        '0'
    } else if d == 1 {
        '1'
    } else if d == 2 {
        '2'
    } else if d == 3 {
        '3'
    } else if d == 4 {
        '4'
    } else if d == 5 {
        '5'
    } else if d == 6 {
        '6'
    } else if d == 7 {
        '7'
    } else if d == 8 {
        '8'
    } else if d == 9 {
        '9'
    } else if d == 10 {
        'a'
    } else if d == 11 {
        'b'
    } else if d == 12 {
        'c'
    } else if d == 13 {
        'd'
    } else if d == 14 {
        'e'
    } else {
        'f'
    }
}

/// Lower-case hexadecimal notation: two digits per byte, high nibble first.
pub open spec fn hex_lower(bytes: Seq<u8>) -> Seq<char>
    decreases bytes.len(),
{
    if bytes.len() == 0 {
        Seq::empty()
    } else {
        hex_lower(bytes.drop_last()) + seq![
            hex_digit((bytes.last() / 16) as nat),
            hex_digit((bytes.last() % 16) as nat),
        ]
    }
}

fn hex_digit_str(d: u8) -> (s: &'static str)
    requires
        d < 16,
    ensures
        s@ == seq![hex_digit(d as nat)],
{
    proof {
        reveal_strlit("0");
        reveal_strlit("1");
        reveal_strlit("2");
        reveal_strlit("3");
        reveal_strlit("4");
        reveal_strlit("5");
        reveal_strlit("6");
        reveal_strlit("7");
        reveal_strlit("8");
        reveal_strlit("9");
        reveal_strlit("a");
        reveal_strlit("b");
        reveal_strlit("c");
        reveal_strlit("d");
        reveal_strlit("e");
        reveal_strlit("f");
    }
    let s = if d == 0 {
        "0"
    } else if d == 1 {
        "1"
    } else if d == 2 {
        "2"
    } else if d == 3 {
        "3"
    } else if d == 4 {
        "4"
    } else if d == 5 {
        "5"
    } else if d == 6 {
        "6"
    } else if d == 7 {
        "7"
    } else if d == 8 {
        "8"
    } else if d == 9 {
        "9"
    } else if d == 10 {
        "a"
    } else if d == 11 {
        "b"
    } else if d == 12 {
        "c"
    } else if d == 13 {
        "d"
    } else if d == 14 {
        "e"
    } else {
        "f"
    };
    assert(s@ =~= seq![hex_digit(d as nat)]);
    s
}

/// Writes `bytes` in lower-case hexadecimal notation.
pub fn to_hex_lower(bytes: &[u8]) -> (s: String)
    ensures
        s@ == hex_lower(bytes@),
{
    let mut s = String::new();
    let mut i: usize = 0;
    assert(bytes@.take(0) =~= Seq::<u8>::empty());
    while i < bytes.len()
        invariant
            i <= bytes.len(),
            s@ == hex_lower(bytes@.take(i as int)),
        decreases bytes.len() - i,
    {
        let b = bytes[i];
        s.append(hex_digit_str(b / 16));
        s.append(hex_digit_str(b % 16));
        proof {
            let next = bytes@.take(i + 1);
            assert(next.drop_last() =~= bytes@.take(i as int));
            assert(next.last() == b);
            assert(s@ =~= hex_lower(next));
        }
        i += 1;
    }
    assert(bytes@.take(bytes.len() as int) =~= bytes@);
    s
}

/// What the checksum transform has seen of one byte stream.
pub struct HashingState {
    /// Every byte that passed through, in stream order.
    pub bytes: Seq<u8>,
    /// Whether the last thing seen of the stream was its end.
    pub drained: bool,
}

/// The state after one read of the underlying source: `buf` is the buffer
/// that was handed to the source and `count` what the source answered, the
/// number of bytes it put at the front of `buf`, or nothing if it failed.
///
/// Only a successful read moves the state. Bytes that were read are
/// appended; a read of nothing into a buffer with room is the end of the
/// stream.
pub open spec fn after_read(state: HashingState, buf: Seq<u8>, count: Option<nat>) -> HashingState {
    match count {
        Some(n) => if n > 0 {
            HashingState { bytes: state.bytes + buf.take(n as int), drained: false }
        } else if buf.len() > 0 {
            HashingState { bytes: state.bytes, drained: true }
        } else {
            state
        },
        None => state,
    }
}

/// The checksum that a stream in `state` is reported with: the SHA-256 of
/// all its bytes in lower-case hexadecimal, and none unless the stream was
/// read to its end.
pub open spec fn checksum_of(state: HashingState) -> Option<Seq<char>> {
    if state.drained {
        Some(hex_lower(sha256(state.bytes)))
    } else {
        None
    }
}

/// What a read answered, as [`after_read`] takes it.
pub open spec fn read_count<E>(outcome: Result<usize, E>) -> Option<nat> {
    match outcome {
        Ok(n) => Some(n as nat),
        Err(_) => None,
    }
}

/// The checksum transform of one byte stream. It stands between a byte
/// source and its reader: the reader hands it the result of each read of
/// the source, and it feeds the bytes that were read to the hash.
pub struct SharedHashingReader {
    hasher: Hasher,
    drained: bool,
}

impl View for SharedHashingReader {
    type V = HashingState;

    closed spec fn view(&self) -> HashingState {
        HashingState { bytes: absorbed(self.hasher), drained: self.drained }
    }
}

impl SharedHashingReader {
    /// A transform that has seen nothing of its stream yet.
    pub fn new() -> (reader: Self)
        ensures
            reader@ == (HashingState { bytes: Seq::empty(), drained: false }),
    {
        SharedHashingReader { hasher: hasher_new(), drained: false }
    }

    /// Takes note of one read of the underlying source and hands its
    /// result on unchanged.
    pub fn read<E>(&mut self, buf: &[u8], outcome: Result<usize, E>) -> (res: Result<usize, E>)
        requires
            outcome matches Ok(n) ==> n <= buf@.len(),
        ensures
            res == outcome,
            final(self)@ == after_read(old(self)@, buf@, read_count(outcome)),
    {
        match &outcome {
            Ok(n) => {
                let n: usize = *n;
                if n > 0 {
                    let chunk = vstd::slice::slice_subrange(buf, 0, n);
                    assert(chunk@ =~= buf@.take(n as int));
                    hasher_update(&mut self.hasher, chunk);
                    self.drained = false;
                } else if buf.len() > 0 {
                    self.drained = true;
                }
            },
            Err(_) => {},
        }
        outcome
    }

    /// Whether the stream has been read to its end.
    pub fn is_drained(&self) -> (drained: bool)
        ensures
            drained == self@.drained,
    {
        self.drained
    }

    /// Ends the hash: the checksum of the stream, if it was read to its end.
    pub fn checksum(self) -> (checksum: Option<String>)
        ensures
            checksum is Some == self@.drained,
            checksum matches Some(text) ==> checksum_of(self@) == Some(text@),
    {
        if self.drained {
            let digest = hasher_finalize(self.hasher);
            Some(to_hex_lower(digest.as_slice()))
        } else {
            None
        }
    }
}

/// The bytes of a stream that was read in `chunks`, one after another.
pub open spec fn concat_bytes(chunks: Seq<Seq<u8>>) -> Seq<u8>
    decreases chunks.len(),
{
    if chunks.len() == 0 {
        Seq::empty()
    } else {
        concat_bytes(chunks.drop_last()) + chunks.last()
    }
}

/// The state after a run of reads that each filled its buffer: the
/// buffer of read `i` held `chunks[i]`.
pub open spec fn after_chunks(state: HashingState, chunks: Seq<Seq<u8>>) -> HashingState
    decreases chunks.len(),
{
    if chunks.len() == 0 {
        state
    } else {
        after_read(
            after_chunks(state, chunks.drop_last()),
            chunks.last(),
            Some(chunks.last().len()),
        )
    }
}

/// The checksum of a stream that was read to its end is the SHA-256 of
/// all its bytes, in the order in which they were read, whatever the
/// chunks were in which they came.
pub proof fn law_checksum_covers_stream(chunks: Seq<Seq<u8>>, buf: Seq<u8>)
    requires
        buf.len() > 0,
    ensures
        after_chunks(
            HashingState { bytes: Seq::empty(), drained: false },
            chunks,
        ).bytes == concat_bytes(chunks),
        checksum_of(
            after_read(
                after_chunks(HashingState { bytes: Seq::empty(), drained: false }, chunks),
                buf,
                Some(0nat),
            ),
        ) == Some(hex_lower(sha256(concat_bytes(chunks)))),
    decreases chunks.len(),
{
    if chunks.len() > 0 {
        law_checksum_covers_stream(chunks.drop_last(), buf);
        assert(chunks.last().take(chunks.last().len() as int) =~= chunks.last());
        let before = after_chunks(
            HashingState { bytes: Seq::empty(), drained: false },
            chunks.drop_last(),
        );
        assert(before.bytes + chunks.last() =~= concat_bytes(chunks));
        if chunks.last().len() == 0 {
            assert(before.bytes =~= concat_bytes(chunks));
        }
    }
}

/// A stream that was not read to its end has no checksum.
pub proof fn law_no_checksum_before_end(state: HashingState, buf: Seq<u8>, n: nat)
    requires
        0 < n <= buf.len(),
    ensures
        checksum_of(after_read(state, buf, Some(n))) is None,
{
}

} // verus!
