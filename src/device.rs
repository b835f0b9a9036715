//! The audio output and the decoder that feeds it, as far as the player
//! core relies on them. Every call that reaches the output is recorded in
//! a ghost log, so that contracts can say what the output was told.
use vstd::prelude::*;

verus! {

#[verifier::external_type_specification]
#[verifier::external_body]
pub struct ExSink(rodio::Sink);

#[verifier::external_type_specification]
#[verifier::external_body]
pub struct ExDecoderError(rodio::decoder::DecoderError);

/// One call made on the output.
pub enum DeviceCall {
    /// Discard every loaded stream.
    Stop,
    /// Queue the stream decoded from these bytes.
    Append(Seq<u8>),
    /// Start or resume.
    Play,
    /// Suspend, keeping the position.
    Pause,
}

/// The output, with the log of the calls made on it since it was handed over.
pub struct Output {
    sink: rodio::Sink,
    calls: Ghost<Seq<DeviceCall>>,
}

/// Whether the output's pause flag is set after the calls in `calls`, given
/// its state when it was handed over. Only pause and play write the flag.
pub open spec fn paused_after(initially: bool, calls: Seq<DeviceCall>) -> bool
    decreases calls.len(),
{
    if calls.len() == 0 {
        initially
    } else {
        match calls.last() {
            DeviceCall::Pause => true,
            DeviceCall::Play => false,
            _ => paused_after(initially, calls.drop_last()),
        }
    }
}

/// The stream appended since the last stop, if any.
pub open spec fn loaded_after(calls: Seq<DeviceCall>) -> Option<Seq<u8>>
    decreases calls.len(),
{
    if calls.len() == 0 {
        None
    } else {
        match calls.last() {
            DeviceCall::Stop => None,
            DeviceCall::Append(b) => Some(b),
            _ => loaded_after(calls.drop_last()),
        }
    }
}

impl Output {
    /// The calls made on the output, oldest first.
    pub closed spec fn calls(&self) -> Seq<DeviceCall> {
        self.calls@
    }

    /// Takes over `sink`, with an empty log.
    pub fn new(sink: rodio::Sink) -> (o: Output)
        ensures
            o.calls() == Seq::<DeviceCall>::empty(),
    {
        Output { sink, calls: Ghost(Seq::empty()) }
    }
}

/// Whether the bytes hold an audio stream that the decoder recognises.
pub uninterp spec fn decodes(bytes: Seq<u8>) -> bool;

/// Relies on rodio::Decoder::new, which probes the bytes for a known format
/// and succeeds exactly when one is recognised (a matter of the bytes alone),
/// and on rodio::Sink::append, which queues the decoded stream on the output.
/// The two stand together because the decoder's type is generic over std's
/// `Read + Seek`, which cannot be named here.
#[verifier::external_body]
pub(crate) fn append_decoded(out: &mut Output, bytes: Vec<u8>) -> (r: Result<(), rodio::decoder::DecoderError>)
    ensures
        r.is_ok() == decodes(bytes@),
        final(out).calls() == if r.is_ok() {
            old(out).calls().push(DeviceCall::Append(bytes@))
        } else {
            old(out).calls()
        },
{
    let source = rodio::Decoder::new(std::io::Cursor::new(bytes))?;
    out.sink.append(source);
    Ok(())
}

/// Relies on rodio::Sink::stop: discards the sounds that are loaded.
#[verifier::external_body]
pub(crate) fn sink_stop(out: &mut Output)
    ensures
        final(out).calls() == old(out).calls().push(DeviceCall::Stop),
{
    out.sink.stop()
}

/// Relies on rodio::Sink::play: clears the pause flag.
#[verifier::external_body]
pub(crate) fn sink_play(out: &mut Output)
    ensures
        final(out).calls() == old(out).calls().push(DeviceCall::Play),
{
    out.sink.play()
}

/// Relies on rodio::Sink::pause: sets the pause flag.
#[verifier::external_body]
pub(crate) fn sink_pause(out: &mut Output)
    ensures
        final(out).calls() == old(out).calls().push(DeviceCall::Pause),
{
    out.sink.pause()
}

/// Relies on rodio::Sink::is_paused: reads the pause flag, which only
/// `pause` and `play` write. The flag of a sink that has been played since
/// it was handed over is therefore fixed by the log.
#[verifier::external_body]
pub(crate) fn sink_is_paused(out: &Output) -> (r: bool)
    ensures
        out.calls().contains(DeviceCall::Play) || out.calls().contains(DeviceCall::Pause)
            ==> r == paused_after(false, out.calls()),
{
    out.sink.is_paused()
}

/// Relies on rodio::Sink::empty: whether nothing is left to play.
#[verifier::external_body]
pub(crate) fn sink_empty(out: &Output) -> bool {
    out.sink.empty()
}

} // verus!
