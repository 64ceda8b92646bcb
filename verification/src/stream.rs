//! Serialising pixel words, one transaction per word or in fixed-size chunks.

use vstd::prelude::*;
use crate::codec::write_word;
use crate::wire::{emit, payload, trace, word_bytes, words_bytes, Step, StepView};

verus! {

/// Words per transaction of the buffered strategy.
pub const CHUNK_WORDS: usize = 64;

/// How a run of pixel words is cut into bus transactions.
#[derive(Clone, Copy, Debug, PartialEq, Eq, Structural)]
pub enum PixelStream {
    /// Every word is a transaction of its own.
    Immediate,
    /// Words are gathered into chunks of `CHUNK_WORDS`; the last chunk may be
    /// shorter.
    Buffered,
}

/// The immediate strategy: one two-byte transaction per word.
pub open spec fn immediate_script(words: Seq<u16>) -> Seq<StepView> {
    Seq::new(words.len(), |i: int| StepView::Data(word_bytes(words[i])))
}

/// Number of chunks that `len` words are cut into.
pub open spec fn chunk_count(len: nat) -> nat {
    ((len + CHUNK_WORDS - 1) / (CHUNK_WORDS as int)) as nat
}

/// The words of chunk `k`.
pub open spec fn chunk(words: Seq<u16>, k: int) -> Seq<u16> {
    words.subrange(
        CHUNK_WORDS * k,
        if CHUNK_WORDS * k + CHUNK_WORDS <= words.len() {
            CHUNK_WORDS * k + CHUNK_WORDS
        } else {
            words.len() as int
        },
    )
}

/// The buffered strategy: one transaction per chunk.
pub open spec fn buffered_script(words: Seq<u16>) -> Seq<StepView> {
    Seq::new(chunk_count(words.len()), |k: int| StepView::Data(words_bytes(chunk(words, k))))
}

/// What a strategy puts on the bus for a run of words.
pub open spec fn stream_script(strategy: PixelStream, words: Seq<u16>) -> Seq<StepView> {
    match strategy {
        PixelStream::Immediate => immediate_script(words),
        PixelStream::Buffered => buffered_script(words),
    }
}

/// Appends `colors` with one transaction per word.
pub fn write_pixels_immediate(out: &mut Vec<Step>, colors: &[u16])
    ensures
        trace(final(out)@) == trace(old(out)@) + immediate_script(colors@),
{
    let ghost before = trace(out@);
    let mut i: usize = 0;
    while i < colors.len()
        invariant
            i <= colors.len(),
            trace(out@) == before + immediate_script(colors@.take(i as int)),
        decreases colors.len() - i,
    {
        write_word(out, colors[i]);
        i += 1;
    }
}

/// Appends `colors` in chunks of `CHUNK_WORDS` words, flushing a shorter last
/// chunk when the words run out.
pub fn write_pixels_buffered(out: &mut Vec<Step>, colors: &[u16])
    ensures
        trace(final(out)@) == trace(old(out)@) + buffered_script(colors@),
{
    let ghost before = trace(out@);
    let mut buf: Vec<u8> = Vec::new();
    let mut i: usize = 0;
    while i < colors.len()
        invariant
            i <= colors.len(),
            buf@.len() < 2 * CHUNK_WORDS,
            buf@ == words_bytes(colors@.subrange(i - i % CHUNK_WORDS, i as int)),
            trace(out@) == before + buffered_script(colors@.take(i - i % CHUNK_WORDS)),
        decreases colors.len() - i,
    {
        let ghost start = i - i % CHUNK_WORDS;
        let word = colors[i];
        buf.push((word / 256) as u8);
        buf.push((word % 256) as u8);
        i += 1;
        assert(buf@ =~= words_bytes(colors@.subrange(start, i as int)));
        if buf.len() == 2 * CHUNK_WORDS {
            assert(chunk(colors@.take(i as int), start / (CHUNK_WORDS as int))
                =~= colors@.subrange(start, i as int));
            emit(out, Step::Data(buf));
            buf = Vec::new();
            assert forall|k: int| 0 <= k < start / (CHUNK_WORDS as int) implies chunk(
                colors@.take(i as int),
                k,
            ) == chunk(colors@.take(start), k) by {
                assert(chunk(colors@.take(i as int), k) =~= chunk(colors@.take(start), k));
            }
        }
    }
    if buf.len() > 0 {
        let ghost start = i - i % CHUNK_WORDS;
        assert forall|k: int| 0 <= k < start / (CHUNK_WORDS as int) implies chunk(colors@, k)
            == chunk(colors@.take(start), k) by {
            assert(chunk(colors@, k) =~= chunk(colors@.take(start), k));
        }
        assert(chunk(colors@, start / (CHUNK_WORDS as int)) =~= colors@.subrange(
            start,
            i as int,
        ));
        emit(out, Step::Data(buf));
    } else {
        assert(colors@.take(i as int) =~= colors@);
    }
}

/// Appends `colors` the way `strategy` cuts them.
pub fn write_pixels(out: &mut Vec<Step>, strategy: PixelStream, colors: &[u16])
    ensures
        trace(final(out)@) == trace(old(out)@) + stream_script(strategy, colors@),
{
    match strategy {
        PixelStream::Immediate => write_pixels_immediate(out, colors),
        PixelStream::Buffered => write_pixels_buffered(out, colors),
    }
}

/// The bytes of two runs of words in a row are their bytes in a row.
pub proof fn lemma_words_bytes_concat(first: Seq<u16>, second: Seq<u16>)
    ensures
        words_bytes(first + second) == words_bytes(first) + words_bytes(second),
{
    assert(words_bytes(first + second) =~= words_bytes(first) + words_bytes(second));
}

/// The immediate strategy delivers exactly the words' bytes, in order.
pub proof fn lemma_immediate_payload(words: Seq<u16>)
    ensures
        payload(immediate_script(words)) == words_bytes(words),
    decreases words.len(),
{
    if words.len() > 0 {
        let front = words.drop_last();
        lemma_immediate_payload(front);
        assert(immediate_script(words).drop_last() =~= immediate_script(front));
        assert(front + seq![words.last()] =~= words);
        lemma_words_bytes_concat(front, seq![words.last()]);
    }
}

/// The buffered strategy delivers exactly the words' bytes, in order.
pub proof fn lemma_buffered_payload(words: Seq<u16>)
    ensures
        payload(buffered_script(words)) == words_bytes(words),
    decreases words.len(),
{
    let count = chunk_count(words.len()) as int;
    if count > 0 {
        let cut = CHUNK_WORDS * (count - 1);
        let front = words.take(cut);
        let rest = words.skip(cut);
        lemma_buffered_payload(front);
        assert forall|k: int| 0 <= k < count - 1 implies chunk(words, k) == chunk(front, k) by {
            assert(chunk(words, k) =~= chunk(front, k));
        }
        assert(buffered_script(words).drop_last() =~= buffered_script(front));
        assert(chunk(words, count - 1) =~= rest);
        assert(front + rest =~= words);
        lemma_words_bytes_concat(front, rest);
    }
}

/// Whatever the strategy, the controller receives the same bytes: the words
/// in order, high byte first. Strategies differ only in where one transaction
/// ends and the next begins.
pub proof fn lemma_strategies_agree(words: Seq<u16>, first: PixelStream, second: PixelStream)
    ensures
        payload(stream_script(first, words)) == words_bytes(words),
        payload(stream_script(first, words)) == payload(stream_script(second, words)),
        words_bytes(words).len() == 2 * words.len(),
{
    lemma_immediate_payload(words);
    lemma_buffered_payload(words);
}

} // verus!
