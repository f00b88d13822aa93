//! What is read from recorded audio without rounding: samples, peaks, clipped samples, sums.

use vstd::prelude::*;
use crate::text::same_text;

verus! {

/// The largest piece in which audio is handed to a recogniser.
pub const EMBEDDED_AUDIO_FEED_CHUNK_BYTES: usize = 3_200;
/// Of a hundred samples, so many of the quietest count for the level of speech.
pub const AGC_SIGNAL_PERCENTILE: usize = 99;

/// The value of two bytes, the lower one first, as a signed number.
pub open spec fn sample_of(low: u8, high: u8) -> int {
    let unsigned = low + 256 * high;
    if unsigned >= 0x8000 {
        unsigned - 0x1_0000
    } else {
        unsigned
    }
}

/// The samples of 16-bit audio; an odd last byte is no sample.
pub open spec fn samples_of(pcm: Seq<u8>) -> Seq<int> {
    Seq::new(pcm.len() / 2, |i: int| sample_of(pcm[2 * i], pcm[2 * i + 1]))
}

/// How far a sample is from zero.
pub open spec fn magnitude(sample: int) -> int {
    if sample < 0 {
        -sample
    } else {
        sample
    }
}

fn sample_at(pcm: &[u8], index: usize) -> (r: i16)
    requires
        index < pcm@.len() / 2,
    ensures
        r == samples_of(pcm@)[index as int],
{
    let length: usize = pcm.len();
    assert(2 * index + 1 < length);
    let low: i32 = pcm[2 * index] as i32;
    let high: i32 = pcm[2 * index + 1] as i32;
    let unsigned: i32 = low + 256 * high;
    if unsigned >= 0x8000 {
        (unsigned - 0x1_0000) as i16
    } else {
        unsigned as i16
    }
}

/// The samples of 16-bit audio, as they are archived.
pub fn embedded_pcm_samples(pcm: &[u8]) -> (r: Vec<i16>)
    ensures
        r@.len() == samples_of(pcm@).len(),
        forall|i: int| 0 <= i < r@.len() ==> #[trigger] r@[i] == samples_of(pcm@)[i],
{
    let count: usize = pcm.len() / 2;
    let mut samples: Vec<i16> = Vec::new();
    let mut i: usize = 0;
    while i < count
        invariant
            i <= count,
            count == pcm@.len() / 2,
            samples@.len() == i,
            forall|j: int| 0 <= j < i ==> #[trigger] samples@[j] == samples_of(pcm@)[j],
        decreases count - i,
    {
        samples.push(sample_at(pcm, i));
        i = i + 1;
    }
    samples
}

fn magnitude_at(pcm: &[u8], index: usize) -> (r: u16)
    requires
        index < pcm@.len() / 2,
    ensures
        r == magnitude(samples_of(pcm@)[index as int]),
        r <= 0x8000,
{
    let sample: i32 = sample_at(pcm, index) as i32;
    if sample < 0 {
        (-sample) as u16
    } else {
        sample as u16
    }
}

/// The largest magnitude of a list, or nothing for silence and for no audio.
pub open spec fn peak_of(samples: Seq<int>) -> int
    decreases samples.len(),
{
    if samples.len() == 0 {
        0
    } else {
        let before = peak_of(samples.drop_last());
        if magnitude(samples.last()) > before {
            magnitude(samples.last())
        } else {
            before
        }
    }
}

/// The sum of the squares of a list.
pub open spec fn square_sum(samples: Seq<int>) -> int
    decreases samples.len(),
{
    if samples.len() == 0 {
        0
    } else {
        square_sum(samples.drop_last()) + samples.last() * samples.last()
    }
}

/// How many samples lie at either end of the range.
pub open spec fn clipped_count(samples: Seq<int>) -> int
    decreases samples.len(),
{
    if samples.len() == 0 {
        0
    } else {
        clipped_count(samples.drop_last()) + (if samples.last() == -0x8000 || samples.last()
            == 0x7fff {
            1int
        } else {
            0
        })
    }
}

/// What is known of a piece of audio: from the sum of squares and the count follows its root
/// mean square.
#[derive(Clone, Copy, Debug, PartialEq, Eq, Structural)]
pub struct PcmMeasure {
    pub samples: usize,
    pub peak: u16,
    pub square_sum: u128,
    pub clipped_samples: usize,
}

proof fn lemma_square_bounded(s: int)
    requires
        -0x8000 <= s <= 0x8000,
    ensures
        0 <= s * s <= 0x4000_0000,
{
    assert(0 <= s * s <= 0x4000_0000) by (nonlinear_arith)
        requires
            -0x8000 <= s <= 0x8000,
    ;
}

/// Measures a piece of audio.
pub fn embedded_pcm_measure(pcm: &[u8]) -> (r: PcmMeasure)
    ensures
        r.samples == samples_of(pcm@).len(),
        r.peak == peak_of(samples_of(pcm@)),
        r.square_sum == square_sum(samples_of(pcm@)),
        r.clipped_samples == clipped_count(samples_of(pcm@)),
{
    let count: usize = pcm.len() / 2;
    let ghost all = samples_of(pcm@);
    let mut peak: u16 = 0;
    let mut sum: u128 = 0;
    let mut clipped: usize = 0;
    let mut i: usize = 0;
    proof {
        assert(all.take(0) =~= Seq::empty());
    }
    while i < count
        invariant
            i <= count,
            count == pcm@.len() / 2,
            all == samples_of(pcm@),
            peak == peak_of(all.take(i as int)),
            sum == square_sum(all.take(i as int)),
            sum <= 0x4000_0000 * i,
            clipped == clipped_count(all.take(i as int)),
            clipped <= i,
        decreases count - i,
    {
        let value: u16 = magnitude_at(pcm, i);
        let sample: i16 = sample_at(pcm, i);
        proof {
            let next = all.take(i + 1);
            assert(next.drop_last() =~= all.take(i as int));
            assert(next.last() == all[i as int]);
            lemma_square_bounded(all[i as int]);
            let s = all[i as int];
            let m = value as int;
            assert(m * m == s * s) by (nonlinear_arith)
                requires
                    m == s || m == -s,
            ;
        }
        if value > peak {
            peak = value;
        }
        sum = sum + (value as u128) * (value as u128);
        if sample == -0x8000 || sample == 0x7fff {
            clipped = clipped + 1;
        }
        i = i + 1;
    }
    proof {
        assert(all.take(i as int) =~= all);
    }
    PcmMeasure { samples: count, peak, square_sum: sum, clipped_samples: clipped }
}

/// Whether a list is in ascending order.
pub open spec fn ascending(list: Seq<u16>) -> bool {
    forall|i: int, j: int| 0 <= i <= j < list.len() ==> list[i] <= list[j]
}

/// Sorts a list of magnitudes with the `sort_unstable` of a slice.  Believed, as documented: the
/// list ends up in ascending order and holds what it held.
#[verifier::external_body]
fn sort_magnitudes(list: &mut Vec<u16>)
    ensures
        final(list)@.to_multiset() == old(list)@.to_multiset(),
        ascending(final(list)@),
{
    list.sort_unstable();
}

/// The magnitudes of a piece of audio.
pub open spec fn magnitudes_of(pcm: Seq<u8>) -> Seq<u16> {
    Seq::new(samples_of(pcm).len(), |i: int| magnitude(samples_of(pcm)[i]) as u16)
}

/// How many of `count` samples stand for speech: all but the loudest hundredth, and at least
/// one.
pub open spec fn retained_of(count: int) -> int {
    let share = (count * 99) / 100;
    if share < 1 {
        1
    } else {
        share
    }
}

/// The sum of the squares of magnitudes.
pub open spec fn magnitude_square_sum(list: Seq<u16>) -> int
    decreases list.len(),
{
    if list.len() == 0 {
        0
    } else {
        magnitude_square_sum(list.drop_last()) + (list.last() as int) * (list.last() as int)
    }
}

/// The level of speech in a piece of audio.
#[derive(Clone, Copy, Debug, PartialEq, Eq, Structural)]
pub struct SignalLevel {
    pub retained: usize,
    pub square_sum: u128,
    pub peak: u16,
}

/// Whether a level is that of the quietest `retained` samples out of all.
pub open spec fn is_level_of(level: SignalLevel, pcm: Seq<u8>) -> bool {
    exists|sorted: Seq<u16>|
        {
            &&& #[trigger] ascending(sorted)
            &&& sorted.to_multiset() == magnitudes_of(pcm).to_multiset()
            &&& level.retained == retained_of(sorted.len() as int)
            &&& level.square_sum == magnitude_square_sum(sorted.take(level.retained as int))
            &&& level.peak == sorted[level.retained - 1]
        }
}

/// Measures the level of speech in a piece of audio: a hundredth of the samples, the loudest,
/// does not count, so that a click is not taken for a voice.
pub fn embedded_pcm_streaming_agc_signal_level(pcm: &[u8]) -> (r: SignalLevel)
    ensures
        pcm@.len() < 2 ==> r == (SignalLevel { retained: 0, square_sum: 0, peak: 0 }),
        pcm@.len() >= 2 ==> is_level_of(r, pcm@),
{
    let count: usize = pcm.len() / 2;
    let mut list: Vec<u16> = Vec::new();
    let mut i: usize = 0;
    while i < count
        invariant
            i <= count,
            count == pcm@.len() / 2,
            list@.len() == i,
            forall|j: int| 0 <= j < i ==> #[trigger] list@[j] == magnitudes_of(pcm@)[j],
            forall|j: int| 0 <= j < i ==> #[trigger] list@[j] <= 0x8000,
        decreases count - i,
    {
        list.push(magnitude_at(pcm, i));
        i = i + 1;
    }
    if count == 0 {
        return SignalLevel { retained: 0, square_sum: 0, peak: 0 };
    }
    proof {
        assert(list@ =~= magnitudes_of(pcm@));
    }
    let ghost unsorted = list@;
    sort_magnitudes(&mut list);
    proof {
        lemma_same_length(list@, unsorted);
        lemma_bound_survives(list@, unsorted);
    }
    let share: u128 = (count as u128) * 99 / 100;
    let retained: usize = if share < 1 {
        1
    } else {
        share as usize
    };
    let mut sum: u128 = 0;
    let mut k: usize = 0;
    proof {
        assert(list@.take(0) =~= Seq::empty());
    }
    while k < retained
        invariant
            k <= retained <= list@.len(),
            sum == magnitude_square_sum(list@.take(k as int)),
            sum <= 0x4000_0000 * k,
            forall|j: int| 0 <= j < list@.len() ==> #[trigger] list@[j] <= 0x8000,
        decreases retained - k,
    {
        let value: u128 = list[k] as u128;
        proof {
            let next = list@.take(k + 1);
            assert(next.drop_last() =~= list@.take(k as int));
            assert(next.last() == list@[k as int]);
            lemma_square_bounded(value as int);
        }
        sum = sum + value * value;
        k = k + 1;
    }
    let level: SignalLevel = SignalLevel { retained, square_sum: sum, peak: list[retained - 1] };
    proof {
        assert(ascending(list@));
        assert(is_level_of(level, pcm@));
    }
    level
}

proof fn lemma_same_length(a: Seq<u16>, b: Seq<u16>)
    requires
        a.to_multiset() == b.to_multiset(),
    ensures
        a.len() == b.len(),
{
    broadcast use vstd::seq_lib::group_to_multiset_ensures;

    assert(a.to_multiset().len() == a.len());
    assert(b.to_multiset().len() == b.len());
}

proof fn lemma_bound_survives(a: Seq<u16>, b: Seq<u16>)
    requires
        a.to_multiset() == b.to_multiset(),
        forall|j: int| 0 <= j < b.len() ==> #[trigger] b[j] <= 0x8000,
    ensures
        forall|j: int| 0 <= j < a.len() ==> #[trigger] a[j] <= 0x8000,
{
    broadcast use vstd::seq_lib::group_to_multiset_ensures;

    assert forall|j: int| 0 <= j < a.len() implies #[trigger] a[j] <= 0x8000 by {
        assert(a.contains(a[j]));
        assert(a.to_multiset().count(a[j]) > 0);
        assert(b.contains(a[j]));
    }
}

/// The mean level at which a block counts as speech.
pub const EMBEDDED_AUDIO_STREAMING_SPEECH_RMS: u128 = 120;
/// The mean level at which a block counts as quiet speech, where its peak is high enough too.
pub const EMBEDDED_AUDIO_STREAMING_QUIET_SPEECH_RMS: u128 = 45;
/// The peak that makes a quiet block speech.
pub const EMBEDDED_AUDIO_STREAMING_QUIET_SPEECH_PEAK: u16 = 256;

impl SignalLevel {
    /// Whether the root of the mean square reaches `rms`: the mean square reaches its square.
    pub open spec fn mean_reaches(self, rms: int) -> bool {
        self.retained > 0 && self.square_sum >= rms * rms * self.retained
    }
}

/// Whether a block holds speech: its mean level is high, or it is fair and a peak stands out.
pub fn embedded_streaming_chunk_has_speech_energy(level: &SignalLevel) -> (r: bool)
    ensures
        r == (level.mean_reaches(120) || (level.mean_reaches(45) && level.peak >= 256)),
{
    if level.retained == 0 {
        return false;
    }
    let retained: u128 = level.retained as u128;
    let loud: u128 = 14_400 * retained;
    let fair: u128 = 2_025 * retained;
    level.square_sum >= loud || (level.square_sum >= fair && level.peak
        >= EMBEDDED_AUDIO_STREAMING_QUIET_SPEECH_PEAK)
}

/// Whether recorded audio is archived for debugging: the user asked for it, or the setting of
/// the process says `1`.
pub fn record_embedded_audio_for_debug_enabled(preference: bool, setting: Option<&str>) -> (r: bool)
    ensures
        r == (preference || crate::delivery::text_of(setting) == Some("1"@)),
{
    if preference {
        return true;
    }
    match setting {
        Some(value) => same_text(value, "1"),
        None => false,
    }
}

/// The pieces in which audio is handed to a recogniser, as start and end.
pub open spec fn feed_chunk(length: int, index: int) -> (int, int) {
    let start = index * EMBEDDED_AUDIO_FEED_CHUNK_BYTES;
    let end = start + EMBEDDED_AUDIO_FEED_CHUNK_BYTES;
    (
        start,
        if end > length {
            length
        } else {
            end
        },
    )
}

/// How many pieces audio makes.
pub open spec fn feed_count(length: int) -> int {
    (length + EMBEDDED_AUDIO_FEED_CHUNK_BYTES - 1) / (EMBEDDED_AUDIO_FEED_CHUNK_BYTES as int)
}

/// Whether a list holds the pieces of audio of this length, all of them and in order.
pub open spec fn in_pieces(list: Seq<(usize, usize)>, length: int) -> bool {
    &&& list.len() == feed_count(length)
    &&& forall|i: int|
        0 <= i < list.len() ==> (#[trigger] list[i]).0 == feed_chunk(length, i).0 && list[i].1
            == feed_chunk(length, i).1
}

/// Divides audio into the pieces in which it is handed to a recogniser: full ones, and the rest.
pub fn embedded_feed_chunks(length: usize) -> (r: Vec<(usize, usize)>)
    ensures
        in_pieces(r@, length as int),
{
    let mut chunks: Vec<(usize, usize)> = Vec::new();
    let mut start: usize = 0;
    while start < length
        invariant
            start == chunks@.len() * EMBEDDED_AUDIO_FEED_CHUNK_BYTES || start == length,
            start <= length,
            start == length ==> chunks@.len() == feed_count(length as int),
            forall|i: int|
                0 <= i < chunks@.len() ==> (#[trigger] chunks@[i]).0 == feed_chunk(
                    length as int,
                    i,
                ).0 && chunks@[i].1 == feed_chunk(length as int, i).1,
        decreases length - start,
    {
        let end: usize = if length - start > EMBEDDED_AUDIO_FEED_CHUNK_BYTES {
            start + EMBEDDED_AUDIO_FEED_CHUNK_BYTES
        } else {
            length
        };
        chunks.push((start, end));
        start = end;
    }
    chunks
}

/// The pieces follow one another without a gap from the first byte to the last, and none is
/// empty or too long.
pub proof fn nothing_is_left_out_of_the_pieces(length: int, count: int, index: int)
    requires
        0 < length,
        count == feed_count(length),
        0 <= index < count,
    ensures
        feed_chunk(length, 0).0 == 0,
        feed_chunk(length, count - 1).1 == length,
        index + 1 < count ==> feed_chunk(length, index).1 == feed_chunk(length, index + 1).0,
        0 < feed_chunk(length, index).1 - feed_chunk(length, index).0 <= 3_200,
        index + 1 < count ==> feed_chunk(length, index).1 - feed_chunk(length, index).0 == 3_200,
{
}

fn copy_range(pcm: &[u8], start: usize, end: usize) -> (r: Vec<u8>)
    requires
        start <= end <= pcm@.len(),
    ensures
        r@ == pcm@.subrange(start as int, end as int),
{
    let mut out: Vec<u8> = Vec::new();
    let mut at: usize = start;
    while at < end
        invariant
            start <= at <= end <= pcm@.len(),
            out@ == pcm@.subrange(start as int, at as int),
        decreases end - at,
    {
        out.push(pcm[at]);
        at = at + 1;
        proof {
            assert(out@ =~= pcm@.subrange(start as int, at as int));
        }
    }
    out
}

/// Whether a list holds the retained audio of a buffer, from `from` on, piece by piece.
pub open spec fn retained_in_pieces(pieces: Seq<Seq<u8>>, pcm: Seq<u8>, from: int) -> bool {
    let length = pcm.len() - from;
    &&& pieces.len() == feed_count(length)
    &&& forall|i: int|
        0 <= i < pieces.len() ==> #[trigger] pieces[i] == pcm.subrange(
            from + feed_chunk(length, i).0,
            from + feed_chunk(length, i).1,
        )
}

/// The pieces in which the audio of a buffer from `from` on is handed to a session.
pub fn embedded_feed_pieces(pcm: &[u8], from: usize) -> (r: Vec<Vec<u8>>)
    requires
        from <= pcm@.len(),
    ensures
        retained_in_pieces(r@.map_values(|piece: Vec<u8>| piece@), pcm@, from as int),
{
    let total: usize = pcm.len();
    let length: usize = total - from;
    let ranges: Vec<(usize, usize)> = embedded_feed_chunks(length);
    let mut pieces: Vec<Vec<u8>> = Vec::new();
    let mut i: usize = 0;
    while i < ranges.len()
        invariant
            i == pieces@.len(),
            i <= ranges@.len(),
            from <= total,
            total == pcm@.len(),
            length == total - from,
            in_pieces(ranges@, length as int),
            forall|j: int|
                0 <= j < i ==> (#[trigger] pieces@[j])@ == pcm@.subrange(
                    from + feed_chunk(length as int, j).0,
                    from + feed_chunk(length as int, j).1,
                ),
        decreases ranges@.len() - i,
    {
        let (start, end) = ranges[i];
        proof {
            assert(ranges@[i as int] == (start, end));
            nothing_is_left_out_of_the_pieces(length as int, ranges@.len() as int, i as int);
            lemma_pieces_fit(length as int, i as int);
        }
        pieces.push(copy_range(pcm, from + start, from + end));
        i = i + 1;
    }
    proof {
        let views = pieces@.map_values(|piece: Vec<u8>| piece@);
        assert forall|j: int| 0 <= j < views.len() implies #[trigger] views[j] == pcm@.subrange(
            from + feed_chunk(length as int, j).0,
            from + feed_chunk(length as int, j).1,
        ) by {
            assert(views[j] == pieces@[j]@);
        }
    }
    pieces
}

proof fn lemma_pieces_fit(length: int, index: int)
    requires
        0 <= length,
        0 <= index < feed_count(length),
    ensures
        0 <= feed_chunk(length, index).0 < feed_chunk(length, index).1 <= length,
{
}

/// Pieces of audio put together again.
pub open spec fn joined(pieces: Seq<Seq<u8>>) -> Seq<u8>
    decreases pieces.len(),
{
    if pieces.len() == 0 {
        Seq::empty()
    } else {
        joined(pieces.drop_last()) + pieces.last()
    }
}

/// The pieces of a retained buffer make it up: put together in their order they are the audio
/// from `from` on, every byte once.
pub proof fn the_pieces_make_the_retained_audio(pieces: Seq<Seq<u8>>, pcm: Seq<u8>, from: int)
    requires
        0 <= from <= pcm.len(),
        retained_in_pieces(pieces, pcm, from),
    ensures
        joined(pieces) == pcm.skip(from),
{
    let length = pcm.len() - from;
    lemma_joined(pieces, pcm, from, pieces.len() as int);
    assert(pieces.take(pieces.len() as int) =~= pieces);
    if pieces.len() > 0 {
        nothing_is_left_out_of_the_pieces(length, pieces.len() as int, 0);
    }
    assert(pcm.subrange(from, pcm.len() as int) =~= pcm.skip(from));
}

proof fn lemma_joined(pieces: Seq<Seq<u8>>, pcm: Seq<u8>, from: int, count: int)
    requires
        0 <= from <= pcm.len(),
        retained_in_pieces(pieces, pcm, from),
        0 <= count <= pieces.len(),
    ensures
        joined(pieces.take(count)) == pcm.subrange(
            from,
            from + if count == 0 {
                0
            } else {
                feed_chunk(pcm.len() - from, count - 1).1
            },
        ),
    decreases count,
{
    let length = pcm.len() - from;
    if count > 0 {
        lemma_joined(pieces, pcm, from, count - 1);
        lemma_pieces_fit(length, count - 1);
        if count > 1 {
            nothing_is_left_out_of_the_pieces(length, pieces.len() as int, count - 2);
            lemma_pieces_fit(length, count - 2);
        }
        assert(pieces.take(count).drop_last() =~= pieces.take(count - 1));
        assert(pieces.take(count).last() == pieces[count - 1]);
        assert(joined(pieces.take(count)) =~= pcm.subrange(
            from,
            from + feed_chunk(length, count - 1).1,
        ));
    } else {
        assert(joined(pieces.take(0)) =~= pcm.subrange(from, from));
    }
}

/// A sample is read from its two bytes, the low one first, as a number of sixteen bits with a sign.
pub proof fn a_sample_is_two_bytes(low: u8, high: u8)
    ensures
        -0x8000 <= sample_of(low, high) <= 0x7fff,
        sample_of(low, high) == low + 256 * high || sample_of(low, high) == low + 256 * high
            - 0x1_0000,
        sample_of(low, high) < 0 <==> high >= 0x80,
{
}

/// Audio is read piece by piece: whole samples that follow each other are read as one, and a byte
/// that is left over is not read.
pub proof fn samples_follow_each_other(first: Seq<u8>, second: Seq<u8>, low: u8, high: u8)
    requires
        first.len() % 2 == 0,
    ensures
        samples_of(first + second) == samples_of(first) + samples_of(second),
        samples_of(seq![low, high]) == seq![sample_of(low, high)],
        samples_of(seq![low]).len() == 0,
        samples_of(Seq::<u8>::empty()).len() == 0,
        samples_of(first.push(low)) == samples_of(first),
{
    assert forall|i: int| 0 <= i < samples_of(first + second).len() implies samples_of(
        first + second,
    )[i] == (samples_of(first) + samples_of(second))[i] by {
        if 2 * i >= first.len() {
            assert((first + second)[2 * i] == second[2 * (i - first.len() / 2)]);
            assert((first + second)[2 * i + 1] == second[2 * (i - first.len() / 2) + 1]);
        }
    }
    assert(samples_of(first + second) =~= samples_of(first) + samples_of(second));
    assert(samples_of(seq![low, high]) =~= seq![sample_of(low, high)]);
    assert(samples_of(first.push(low)) =~= samples_of(first));
}

/// No sample is louder than the peak, and where there are samples one is as loud.
pub proof fn the_peak_is_the_loudest_sample(samples: Seq<int>)
    ensures
        forall|i: int|
            0 <= i < samples.len() ==> -peak_of(samples) <= #[trigger] samples[i] <= peak_of(
                samples,
            ),
        peak_of(samples) >= 0,
        samples.len() == 0 ==> peak_of(samples) == 0,
        samples.len() > 0 ==> exists|i: int|
            0 <= i < samples.len() && (#[trigger] samples[i] == peak_of(samples) || samples[i]
                == -peak_of(samples)),
    decreases samples.len(),
{
    if samples.len() > 0 {
        let fewer = samples.drop_last();
        the_peak_is_the_loudest_sample(fewer);
        assert forall|i: int| 0 <= i < samples.len() implies -peak_of(samples)
            <= #[trigger] samples[i] <= peak_of(samples) by {
            if i < fewer.len() {
                assert(fewer[i] == samples[i]);
            }
        }
        if magnitude(samples.last()) > peak_of(fewer) {
            assert(samples[samples.len() - 1] == samples.last());
        } else if fewer.len() > 0 {
            let i = choose|i: int|
                0 <= i < fewer.len() && (#[trigger] fewer[i] == peak_of(fewer) || fewer[i]
                    == -peak_of(fewer));
            assert(samples[i] == fewer[i]);
        } else {
            assert(samples[0] == samples.last());
        }
    }
}

/// Sums and counts of audio add up over its pieces, and a single sample counts for its square and,
/// at either end of the scale, as clipped.
pub proof fn measures_add_up(first: Seq<int>, second: Seq<int>, sample: int)
    ensures
        square_sum(first + second) == square_sum(first) + square_sum(second),
        clipped_count(first + second) == clipped_count(first) + clipped_count(second),
        square_sum(seq![sample]) == sample * sample,
        clipped_count(seq![sample]) == (if sample == -32_768 || sample == 32_767 {
            1int
        } else {
            0
        }),
        square_sum(Seq::empty()) == 0,
        clipped_count(Seq::empty()) == 0,
    decreases second.len(),
{
    reveal_with_fuel(square_sum, 2);
    reveal_with_fuel(clipped_count, 2);
    assert(seq![sample].drop_last() =~= Seq::<int>::empty());
    if second.len() == 0 {
        assert(first + second =~= first);
    } else {
        measures_add_up(first, second.drop_last(), sample);
        assert((first + second).drop_last() =~= first + second.drop_last());
        assert((first + second).last() == second.last());
    }
}

/// Ninety-nine samples in a hundred are retained, rounded down, and one at least.
pub proof fn one_sample_in_a_hundred_is_left_out(count: int)
    requires
        count >= 1,
    ensures
        1 <= retained_of(count) <= count,
        count >= 2 ==> 100 * retained_of(count) <= 99 * count < 100 * (retained_of(count) + 1),
{
}

/// What is measured of a signal comes from its own samples: as many as are retained, none of them
/// above the peak that is given, and that peak is the magnitude of one.
pub proof fn a_level_comes_from_the_signal(level: SignalLevel, pcm: Seq<u8>)
    requires
        is_level_of(level, pcm),
        pcm.len() >= 2,
    ensures
        level.retained == retained_of(pcm.len() as int / 2),
        level.square_sum <= level.retained * (level.peak * level.peak),
        magnitudes_of(pcm).contains(level.peak),
{
    broadcast use vstd::seq_lib::group_to_multiset_ensures;

    let sorted = choose|sorted: Seq<u16>|
        {
            &&& #[trigger] ascending(sorted)
            &&& sorted.to_multiset() == magnitudes_of(pcm).to_multiset()
            &&& level.retained == retained_of(sorted.len() as int)
            &&& level.square_sum == magnitude_square_sum(sorted.take(level.retained as int))
            &&& level.peak == sorted[level.retained - 1]
        };
    lemma_same_length(sorted, magnitudes_of(pcm));
    one_sample_in_a_hundred_is_left_out(sorted.len() as int);
    assert(sorted.contains(level.peak));
    assert(sorted.to_multiset().count(level.peak) > 0);
    assert(magnitudes_of(pcm).contains(level.peak));
    let kept = sorted.take(level.retained as int);
    assert forall|i: int| 0 <= i < kept.len() implies #[trigger] kept[i] <= level.peak by {
        assert(kept[i] == sorted[i]);
    }
    lemma_square_sum_below(kept, level.peak);
}

proof fn lemma_square_sum_below(list: Seq<u16>, top: u16)
    requires
        forall|i: int| 0 <= i < list.len() ==> #[trigger] list[i] <= top,
    ensures
        magnitude_square_sum(list) <= list.len() * (top * top),
    decreases list.len(),
{
    if list.len() > 0 {
        let fewer = list.drop_last();
        assert forall|i: int| 0 <= i < fewer.len() implies #[trigger] fewer[i] <= top by {
            assert(fewer[i] == list[i]);
        }
        lemma_square_sum_below(fewer, top);
        let last: int = list.last() as int;
        let most: int = top as int;
        let count: int = list.len() as int;
        assert(list[list.len() - 1] <= top);
        assert(last * last <= most * most) by (nonlinear_arith)
            requires
                0 <= last <= most,
        ;
        assert((count - 1) * (most * most) + most * most == count * (most * most))
            by (nonlinear_arith);
    }
}

/// The magnitude of a sample is how far it is from silence, on either side.
pub proof fn magnitudes_ignore_the_sign(pcm: Seq<u8>, i: int)
    requires
        0 <= i < samples_of(pcm).len(),
    ensures
        magnitudes_of(pcm).len() == samples_of(pcm).len(),
        magnitudes_of(pcm)[i] == samples_of(pcm)[i] || magnitudes_of(pcm)[i]
            == -samples_of(pcm)[i],
{
}

/// Squares of magnitudes add up over the pieces of a list.
pub proof fn magnitude_squares_add_up(first: Seq<u16>, second: Seq<u16>, value: u16)
    ensures
        magnitude_square_sum(first + second) == magnitude_square_sum(first) + magnitude_square_sum(
            second,
        ),
        magnitude_square_sum(seq![value]) == value * value,
        magnitude_square_sum(Seq::empty()) == 0,
    decreases second.len(),
{
    reveal_with_fuel(magnitude_square_sum, 2);
    assert(seq![value].drop_last() =~= Seq::<u16>::empty());
    if second.len() == 0 {
        assert(first + second =~= first);
    } else {
        magnitude_squares_add_up(first, second.drop_last(), value);
        assert((first + second).drop_last() =~= first + second.drop_last());
        assert((first + second).last() == second.last());
    }
}

/// A signal of one loudness reaches a mean exactly where it is as loud; silence without samples
/// reaches none, and what is louder reaches no less.
pub proof fn an_even_signal_reaches_its_own_loudness(level: SignalLevel, loudness: int, rms: int)
    requires
        0 <= loudness,
        0 <= rms,
    ensures
        level.retained > 0 && level.square_sum == level.retained * (loudness * loudness)
            ==> level.mean_reaches(rms) == (loudness >= rms),
        level.retained == 0 ==> !level.mean_reaches(rms),
{
    let n: int = level.retained as int;
    if n > 0 && level.square_sum == n * (loudness * loudness) {
        if loudness >= rms {
            assert(n * (loudness * loudness) >= rms * rms * n) by (nonlinear_arith)
                requires
                    n > 0,
                    loudness >= rms >= 0,
            ;
        } else {
            assert(n * (loudness * loudness) < rms * rms * n) by (nonlinear_arith)
                requires
                    n > 0,
                    0 <= loudness < rms,
            ;
        }
    }
}

/// Pieces are as many as are needed, and none where there is nothing.
pub proof fn pieces_are_as_many_as_needed(length: int)
    requires
        0 <= length,
    ensures
        feed_count(length) * 3_200 >= length,
        (feed_count(length) - 1) * 3_200 < length,
        feed_count(0) == 0,
{
}

/// The pieces that audio is divided into begin at its start, follow each other without a gap and end
/// at its end.
pub proof fn pieces_follow_each_other(list: Seq<(usize, usize)>, length: int, i: int)
    requires
        0 < length,
        in_pieces(list, length),
        0 <= i < list.len(),
    ensures
        list[0].0 == 0,
        list[list.len() - 1].1 == length,
        list[i].0 < list[i].1,
        i + 1 < list.len() ==> list[i].1 == list[i + 1].0 && list[i].1 - list[i].0 == 3_200,
{
    nothing_is_left_out_of_the_pieces(length, list.len() as int, i);
    assert(list[0].0 == feed_chunk(length, 0).0);
    assert(list[list.len() - 1].1 == feed_chunk(length, list.len() - 1).1);
}

} // verus!
