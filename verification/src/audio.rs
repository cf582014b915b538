//! Sample-stream shaping for the voice paths: turning captured frames of
//! any channel layout into the interleaved stereo stream that is sent,
//! choosing which decoded samples an output device plays, and filling an
//! output period from what has arrived.
//!
//! A sample travels through this crate as the bit pattern of its 32-bit
//! float (`f32::to_bits`). Silence, `0.0`, is the word `0`.
use vstd::prelude::*;

verus! {

/// Interleaved stereo sent to the server from `channels` captured
/// channels: a mono sample is sent on both channels, stereo goes out as it
/// came, and any other layout yields nothing.
pub open spec fn spec_capture_stereo(data: Seq<u32>, channels: u16) -> Seq<u32> {
    if channels == 1 {
        Seq::new(2 * data.len(), |k: int| data[k / 2])
    } else if channels == 2 {
        data
    } else {
        Seq::<u32>::empty()
    }
}

/// The stereo stream of the microphone test: a mono sample is doubled,
/// any other layout is passed on sample by sample.
pub open spec fn spec_monitor_stereo(data: Seq<u32>, channels: u16) -> Seq<u32> {
    if channels == 1 {
        Seq::new(2 * data.len(), |k: int| data[k / 2])
    } else {
        data
    }
}

/// The decoded stereo samples an output device of `channels` channels is
/// fed: all of them on a stereo device, the left channel (even positions)
/// on a mono device, none on any other.
pub open spec fn spec_output_select(pcm: Seq<u32>, channels: u16) -> Seq<u32> {
    if channels == 2 {
        pcm
    } else if channels == 1 {
        Seq::new((pcm.len() + 1) / 2, |k: int| pcm[2 * k])
    } else {
        Seq::<u32>::empty()
    }
}

/// An output period of `n` samples taken from `buffer`, silent past its end.
pub open spec fn spec_fill(buffer: Seq<u32>, n: nat) -> Seq<u32> {
    Seq::new(n, |k: int| if k < buffer.len() { buffer[k] } else { 0u32 })
}

/// Each sample of a mono stream written twice in a row.
fn duplicate_each(data: &[u32]) -> (out: Vec<u32>)
    ensures
        out@ == Seq::new(2 * data@.len(), |k: int| data@[k / 2]),
{
    let mut out: Vec<u32> = Vec::new();
    let mut i: usize = 0;
    while i < data.len()
        invariant
            i <= data@.len(),
            out@ =~= Seq::new(2 * i as nat, |k: int| data@[k / 2]),
        decreases data@.len() - i,
    {
        out.push(data[i]);
        out.push(data[i]);
        i += 1;
    }
    out
}

/// The samples of `data`, copied in order.
fn copy_all(data: &[u32]) -> (out: Vec<u32>)
    ensures
        out@ == data@,
{
    let mut out: Vec<u32> = Vec::new();
    let mut i: usize = 0;
    while i < data.len()
        invariant
            i <= data@.len(),
            out@ =~= data@.take(i as int),
        decreases data@.len() - i,
    {
        out.push(data[i]);
        i += 1;
    }
    assert(data@.take(data@.len() as int) =~= data@);
    out
}

/// Shapes one captured period into the stereo stream that is sent.
pub fn capture_to_stereo(data: &[u32], channels: u16) -> (out: Vec<u32>)
    ensures
        out@ == spec_capture_stereo(data@, channels),
{
    if channels == 1 {
        duplicate_each(data)
    } else if channels == 2 {
        copy_all(data)
    } else {
        Vec::new()
    }
}

/// Shapes one captured period into the stereo stream of the microphone test.
pub fn monitor_to_stereo(data: &[u32], channels: u16) -> (out: Vec<u32>)
    ensures
        out@ == spec_monitor_stereo(data@, channels),
{
    if channels == 1 {
        duplicate_each(data)
    } else {
        copy_all(data)
    }
}

/// The decoded stereo samples that go to an output device of `channels`
/// channels.
pub fn select_for_output(pcm: &[u32], channels: u16) -> (out: Vec<u32>)
    ensures
        out@ == spec_output_select(pcm@, channels),
{
    if channels == 2 {
        copy_all(pcm)
    } else if channels == 1 {
        let mut out: Vec<u32> = Vec::new();
        let mut i: usize = 0;
        while i < pcm.len()
            invariant
                i <= pcm@.len(),
                out@ =~= Seq::new((i as nat + 1) / 2, |k: int| pcm@[2 * k]),
            decreases pcm@.len() - i,
        {
            if i % 2 == 0 {
                out.push(pcm[i]);
            }
            i += 1;
        }
        out
    } else {
        Vec::new()
    }
}

/// Whether a stream must be resampled before use: only when the two rates
/// differ and there is something to resample.
pub fn needs_resample(from_rate: u32, to_rate: u32, len: usize) -> (r: bool)
    ensures
        r == (from_rate != to_rate && len > 0),
{
    from_rate != to_rate && len > 0
}

/// An output period of `n` samples taken from `buffer`, silent past its end.
pub fn fill_period(buffer: &[u32], n: usize) -> (out: Vec<u32>)
    ensures
        out@ == spec_fill(buffer@, n as nat),
{
    let mut out: Vec<u32> = Vec::new();
    let mut k: usize = 0;
    while k < n
        invariant
            k <= n,
            out@ =~= spec_fill(buffer@, k as nat),
        decreases n - k,
    {
        if k < buffer.len() {
            out.push(buffer[k]);
        } else {
            out.push(0u32);
        }
        k += 1;
    }
    out
}

/// The microphone test passes a capture of any layout but mono on
/// unchanged, sample for sample; a mono capture comes out twice as long,
/// each captured sample on both channels of its frame.
pub proof fn lemma_monitor_layout(data: Seq<u32>, channels: u16)
    ensures
        channels != 1 ==> spec_monitor_stereo(data, channels) == data,
        channels == 1 ==> spec_monitor_stereo(data, channels).len() == 2 * data.len(),
        channels == 1 ==> forall|k: int|
            0 <= k < data.len() ==> spec_monitor_stereo(data, channels)[2 * k] == data[k]
                && #[trigger] spec_monitor_stereo(data, channels)[2 * k + 1] == data[k],
{
    if channels == 1 {
        assert forall|k: int| 0 <= k < data.len() implies spec_monitor_stereo(data, channels)[2
            * k] == data[k] && #[trigger] spec_monitor_stereo(data, channels)[2 * k + 1]
            == data[k] by {
            assert((2 * k) / 2 == k);
            assert((2 * k + 1) / 2 == k);
        }
    }
}

/// The stream sent to the server: a stereo capture goes out unchanged, a
/// mono capture twice as long with each captured sample on both channels
/// of its frame, and a capture of any other layout sends nothing.
pub proof fn lemma_capture_layout(data: Seq<u32>, channels: u16)
    ensures
        channels == 2 ==> spec_capture_stereo(data, channels) == data,
        channels != 1 && channels != 2 ==> spec_capture_stereo(data, channels).len() == 0,
        channels == 1 ==> spec_capture_stereo(data, channels).len() == 2 * data.len(),
        channels == 1 ==> forall|k: int|
            0 <= k < data.len() ==> spec_capture_stereo(data, channels)[2 * k] == data[k]
                && #[trigger] spec_capture_stereo(data, channels)[2 * k + 1] == data[k],
{
    if channels == 1 {
        assert forall|k: int| 0 <= k < data.len() implies spec_capture_stereo(data, channels)[2
            * k] == data[k] && #[trigger] spec_capture_stereo(data, channels)[2 * k + 1]
            == data[k] by {
            assert((2 * k) / 2 == k);
            assert((2 * k + 1) / 2 == k);
        }
    }
}

/// The microphone test and the stream sent to the server shape a mono or
/// a stereo capture alike.
pub proof fn lemma_monitor_matches_capture(data: Seq<u32>, channels: u16)
    requires
        channels == 1 || channels == 2,
    ensures
        spec_monitor_stereo(data, channels) == spec_capture_stereo(data, channels),
{
}

/// A stereo device plays every decoded sample; a mono device plays the
/// samples at even positions (the left channel), in order; a device of any
/// other layout is fed nothing.
pub proof fn lemma_output_layout(pcm: Seq<u32>, channels: u16)
    ensures
        channels == 2 ==> spec_output_select(pcm, channels) == pcm,
        channels == 1 ==> spec_output_select(pcm, channels).len() == (pcm.len() + 1) / 2,
        channels == 1 ==> forall|k: int|
            0 <= k < (pcm.len() + 1) / 2 ==> #[trigger] spec_output_select(pcm, channels)[k]
                == pcm[2 * k],
        channels != 1 && channels != 2 ==> spec_output_select(pcm, channels).len() == 0,
{
}

/// An output period of `n` samples starts with what the buffer holds, in
/// order, and is silent past the buffer's end.
pub proof fn lemma_fill_layout(buffer: Seq<u32>, n: nat)
    ensures
        spec_fill(buffer, n).len() == n,
        forall|k: int|
            0 <= k < n && k < buffer.len() ==> #[trigger] spec_fill(buffer, n)[k] == buffer[k],
        forall|k: int|
            0 <= k < n && buffer.len() <= k ==> #[trigger] spec_fill(buffer, n)[k] == 0u32,
{
}

/// What a mono device captures and a mono device plays back is the same
/// stream: the left channel of the doubled capture is the capture itself.
/// A stereo capture played on a stereo device passes unchanged.
pub proof fn lemma_capture_playback_round_trip(data: Seq<u32>)
    ensures
        spec_output_select(spec_capture_stereo(data, 1), 1) == data,
        spec_output_select(spec_capture_stereo(data, 2), 2) == data,
{
    let up = spec_capture_stereo(data, 1);
    assert((up.len() + 1) / 2 == data.len());
    assert(spec_output_select(up, 1) =~= data);
}

/// The stream sent to the server is always whole stereo frames: doubling
/// a mono capture gives two equal samples per captured sample.
pub proof fn lemma_capture_is_stereo(data: Seq<u32>, channels: u16, k: int)
    requires
        channels == 1,
        0 <= k < data.len(),
    ensures
        spec_capture_stereo(data, channels).len() == 2 * data.len(),
        spec_capture_stereo(data, channels)[2 * k] == data[k],
        spec_capture_stereo(data, channels)[2 * k + 1] == data[k],
{
    assert((2 * k) / 2 == k);
    assert((2 * k + 1) / 2 == k);
}

} // verus!
