//! The byte-level vocabulary of the wire protocol.
//!
//! Every exchange with the controller is a frame: a 16-bit preamble naming the
//! kind of exchange, then 16-bit payload words, all big-endian on the bus.
//! The spec functions here state those layouts exactly, together with how a
//! response stream is consumed; the transport's contracts are written over
//! them.

use vstd::prelude::*;

verus! {

/// Preamble of a command write.
pub const PREAMBLE_WRITE_CMD: u16 = 0x6000;

/// Preamble of a data write.
pub const PREAMBLE_WRITE_DATA: u16 = 0x0000;

/// Preamble of a data read.
pub const PREAMBLE_READ_DATA: u16 = 0x1000;

/// The two bytes of a 16-bit word on the bus: big-endian.
pub open spec fn word_bytes(w: u16) -> Seq<u8> {
    seq![(w / 256) as u8, (w % 256) as u8]
}

/// The bytes of a word sequence, each word big-endian.
pub open spec fn words_bytes(ws: Seq<u16>) -> Seq<u8>
    decreases ws.len(),
{
    if ws.len() == 0 {
        Seq::empty()
    } else {
        word_bytes(ws[0]) + words_bytes(ws.drop_first())
    }
}

/// A sequence of `n` zero bytes.
pub open spec fn zero_bytes(n: int) -> Seq<u8> {
    Seq::new(if n >= 0 {
        n as nat
    } else {
        0
    }, |i: int| 0u8)
}

/// The bytes of a command-write exchange: the command preamble, then the
/// opcode.
pub open spec fn cmd_frame(code: u16) -> Seq<u8> {
    word_bytes(PREAMBLE_WRITE_CMD) + word_bytes(code)
}

/// The bytes of a single-word data-write exchange: the data preamble, then
/// the word.
pub open spec fn data_frame(w: u16) -> Seq<u8> {
    word_bytes(PREAMBLE_WRITE_DATA) + word_bytes(w)
}

/// The bytes of a batched data-write exchange: one data preamble, then every
/// word.
pub open spec fn batch_frame(ws: Seq<u16>) -> Seq<u8> {
    word_bytes(PREAMBLE_WRITE_DATA) + words_bytes(ws)
}

/// The bytes of a sequence of single-word data-write exchanges.
pub open spec fn data_frames(ws: Seq<u16>) -> Seq<u8>
    decreases ws.len(),
{
    if ws.len() == 0 {
        Seq::empty()
    } else {
        data_frame(ws[0]) + data_frames(ws.drop_first())
    }
}

/// The bytes shifted out during a read of `count` words: the read preamble,
/// two dummy bytes for the device's turnaround gap, then two zero bytes
/// clocking out each word.
pub open spec fn read_frame(count: int) -> Seq<u8> {
    word_bytes(PREAMBLE_READ_DATA) + zero_bytes(2 + 2 * count)
}

/// The bytes of a register write: the register-write command, the address,
/// the value.
pub open spec fn reg_write_frames(addr: u16, value: u16) -> Seq<u8> {
    cmd_frame(0x0011) + data_frame(addr) + data_frame(value)
}

/// The bytes shifted out during a register read: the register-read command,
/// the address, a one-word read.
pub open spec fn reg_read_frames(addr: u16) -> Seq<u8> {
    cmd_frame(0x0010) + data_frame(addr) + read_frame(1)
}

/// The byte a device response stream yields at position `i`: the stream's
/// byte while one remains, zero afterwards.
pub open spec fn resp_byte(p: Seq<u8>, i: int) -> u8 {
    if 0 <= i < p.len() {
        p[i]
    } else {
        0
    }
}

/// The response stream after `k` bytes of it were consumed.
pub open spec fn consume(p: Seq<u8>, k: int) -> Seq<u8> {
    if 0 <= k <= p.len() {
        p.skip(k)
    } else {
        Seq::empty()
    }
}

/// The first `n` bytes a response stream yields.
pub open spec fn resp_bytes(p: Seq<u8>, n: int) -> Seq<u8> {
    Seq::new(if n >= 0 {
        n as nat
    } else {
        0
    }, |i: int| resp_byte(p, i))
}

/// The 16-bit word a response stream yields at byte position `i`: high byte
/// first.
pub open spec fn resp_word(p: Seq<u8>, i: int) -> u16 {
    (resp_byte(p, i) as u16 * 256 + resp_byte(p, i + 1) as u16) as u16
}

/// The `n` words a response stream yields starting at byte position `start`.
pub open spec fn resp_words(p: Seq<u8>, start: int, n: int) -> Seq<u16> {
    Seq::new(if n >= 0 {
        n as nat
    } else {
        0
    }, |k: int| resp_word(p, start + 2 * k))
}

/// Consuming `a` bytes and then `b` bytes consumes `a + b` bytes.
pub proof fn lemma_consume_consume(p: Seq<u8>, a: int, b: int)
    requires
        a >= 0,
        b >= 0,
    ensures
        consume(consume(p, a), b) == consume(p, a + b),
{
    if a + b <= p.len() {
        assert(consume(consume(p, a), b) =~= consume(p, a + b));
    } else if a <= p.len() {
        assert(consume(consume(p, a), b) =~= consume(p, a + b));
    } else {
        assert(consume(consume(p, a), b) =~= consume(p, a + b));
    }
}

/// A consumed stream yields at `i` what the original yields at `a + i`.
pub proof fn lemma_resp_byte_consume(p: Seq<u8>, a: int, i: int)
    requires
        a >= 0,
        i >= 0,
    ensures
        resp_byte(consume(p, a), i) == resp_byte(p, a + i),
{
}

/// A consumed stream yields at byte position `i` the word the original yields
/// at `a + i`.
pub proof fn lemma_resp_word_consume(p: Seq<u8>, a: int, i: int)
    requires
        a >= 0,
        i >= 0,
    ensures
        resp_word(consume(p, a), i) == resp_word(p, a + i),
{
    lemma_resp_byte_consume(p, a, i);
    lemma_resp_byte_consume(p, a, i + 1);
}

/// A consumed stream yields words at `start` that the original yields at
/// `a + start`.
pub proof fn lemma_resp_words_consume(p: Seq<u8>, a: int, start: int, n: int)
    requires
        a >= 0,
        start >= 0,
        n >= 0,
    ensures
        resp_words(consume(p, a), start, n) == resp_words(p, a + start, n),
{
    assert forall|k: int| 0 <= k < n implies resp_words(consume(p, a), start, n)[k] == resp_words(
        p,
        a + start,
        n,
    )[k] by {
        lemma_resp_byte_consume(p, a, start + 2 * k);
        lemma_resp_byte_consume(p, a, start + 2 * k + 1);
    }
    assert(resp_words(consume(p, a), start, n) =~= resp_words(p, a + start, n));
}

/// Appending one word to a batch appends its two bytes.
pub proof fn lemma_words_bytes_push(ws: Seq<u16>, w: u16)
    ensures
        words_bytes(ws.push(w)) == words_bytes(ws) + word_bytes(w),
    decreases ws.len(),
{
    if ws.len() == 0 {
        assert(ws.push(w)[0] == w);
        assert(ws.push(w).drop_first() =~= Seq::<u16>::empty());
        assert(words_bytes(ws.push(w)) == word_bytes(w) + words_bytes(Seq::<u16>::empty()));
        assert(words_bytes(ws.push(w)) =~= words_bytes(ws) + word_bytes(w));
    } else {
        assert(ws.push(w)[0] == ws[0]);
        assert(ws.push(w).drop_first() =~= ws.drop_first().push(w));
        lemma_words_bytes_push(ws.drop_first(), w);
        assert(words_bytes(ws.push(w)) == word_bytes(ws[0]) + (words_bytes(ws.drop_first())
            + word_bytes(w)));
        assert(words_bytes(ws.push(w)) =~= words_bytes(ws) + word_bytes(w));
    }
}

/// Appending one word to a run of single-word writes appends its frame.
pub proof fn lemma_data_frames_push(ws: Seq<u16>, w: u16)
    ensures
        data_frames(ws.push(w)) == data_frames(ws) + data_frame(w),
    decreases ws.len(),
{
    if ws.len() == 0 {
        assert(ws.push(w)[0] == w);
        assert(ws.push(w).drop_first() =~= Seq::<u16>::empty());
        assert(data_frames(ws.push(w)) == data_frame(w) + data_frames(Seq::<u16>::empty()));
        assert(data_frames(ws.push(w)) =~= data_frames(ws) + data_frame(w));
    } else {
        assert(ws.push(w)[0] == ws[0]);
        assert(ws.push(w).drop_first() =~= ws.drop_first().push(w));
        lemma_data_frames_push(ws.drop_first(), w);
        assert(data_frames(ws.push(w)) == data_frame(ws[0]) + (data_frames(ws.drop_first())
            + data_frame(w)));
        assert(data_frames(ws.push(w)) =~= data_frames(ws) + data_frame(w));
    }
}

} // verus!
