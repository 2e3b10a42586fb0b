use std::sync::mpsc::Sender;
use vstd::prelude::*;

verus! {

#[verifier::external_type_specification]
#[verifier::external_body]
#[verifier::reject_recursive_types(T)]
pub struct ExSender<T>(Sender<T>);

/// A command from the controller to the decoding thread.
#[derive(Debug)]
pub enum AudioPlaybackMessage {
    Quit,
    SetVolume(u32),
    LoadStream(String),
    StopStream,
}

/// The messages handed to `send` through a sending handle of the playback
/// channel so far, oldest first, whether or not the receiving end was still
/// there to take them.
pub uninterp spec fn handed(tx: Sender<AudioPlaybackMessage>) -> Seq<AudioPlaybackMessage>;

/// Calls `std::sync::mpsc::Sender::send`, which takes the message by value
/// and never blocks. The claim: the message is appended to what this handle
/// has handed to `send`. `send` returns `Ok` when the message was put into
/// the channel, behind those put there before, and an error when the
/// receiving end is gone; which of the two comes back depends on the decoding
/// thread and is left open.
#[verifier::external_body]
fn send_message(tx: &mut Sender<AudioPlaybackMessage>, msg: AudioPlaybackMessage) -> (accepted: bool)
    ensures
        handed(*final(tx)) == handed(*old(tx)).push(msg),
    opens_invariants none
    no_unwind
{
    tx.send(msg).is_ok()
}

/// `after` is `before` with `msg` handed to the channel behind it.
pub open spec fn handed_over(
    before: Seq<AudioPlaybackMessage>,
    after: Seq<AudioPlaybackMessage>,
    msg: AudioPlaybackMessage,
) -> bool {
    after == before.push(msg)
}

/// The handle through which the user interface commands the decoding thread.
pub struct AudioController {
    playback_tx: Sender<AudioPlaybackMessage>,
}

impl AudioController {
    /// The messages this controller has handed to the playback channel.
    pub closed spec fn sent(&self) -> Seq<AudioPlaybackMessage> {
        handed(self.playback_tx)
    }

    /// A controller that commands the decoder through `playback_tx`.
    pub fn new(playback_tx: Sender<AudioPlaybackMessage>) -> (c: Self)
        ensures
            c.sent() == handed(playback_tx),
    {
        Self { playback_tx }
    }

    pub fn set_volume(&mut self, volume: u32)
        ensures
            handed_over(old(self).sent(), final(self).sent(), AudioPlaybackMessage::SetVolume(volume)),
        opens_invariants none
        no_unwind
    {
        let _ = send_message(&mut self.playback_tx, AudioPlaybackMessage::SetVolume(volume));
    }

    pub fn load_stream(&mut self, stream_url: String)
        ensures
            handed_over(old(self).sent(), final(self).sent(), AudioPlaybackMessage::LoadStream(stream_url)),
        opens_invariants none
        no_unwind
    {
        let _ = send_message(&mut self.playback_tx, AudioPlaybackMessage::LoadStream(stream_url));
    }

    pub fn stop_stream(&mut self)
        ensures
            handed_over(old(self).sent(), final(self).sent(), AudioPlaybackMessage::StopStream),
        opens_invariants none
        no_unwind
    {
        let _ = send_message(&mut self.playback_tx, AudioPlaybackMessage::StopStream);
    }
}

impl Drop for AudioController {
    fn drop(&mut self)
        opens_invariants none
        no_unwind
    {
        let _ = send_message(&mut self.playback_tx, AudioPlaybackMessage::Quit);
    }
}

} // verus!
