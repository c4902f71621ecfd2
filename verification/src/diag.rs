//! Panic-safe diagnostic writer: wraps the one serial channel so that the
//! normal path and the abnormal-termination path write to the same sink,
//! with no lock or second exclusive handle that could already be held when
//! the program fails.
use vstd::prelude::*;

use crate::wiring::SerialChannel;

verus! {

/// One diagnostic line on the wire: the message bytes terminated by
/// carriage return and line feed.
pub open spec fn line_of(msg: Seq<u8>) -> Seq<u8> {
    msg.push(13u8).push(10u8)
}

/// Wraps exactly one [`SerialChannel`]. The sink is the channel's sole
/// owner, and both write paths below go through the same plain append with
/// no lock to acquire, so a write stays possible even when the program
/// state that triggered an abnormal termination is inconsistent. Writes
/// are best effort by design: the underlying channel accepts every byte
/// (busy-waiting on transmit capacity), and no write failure is ever
/// surfaced — there is no second channel to report one on.
pub struct DiagnosticSink {
    channel: SerialChannel,
}

impl DiagnosticSink {
    /// Everything the underlying channel has accepted, oldest first.
    pub closed spec fn transcript(self) -> Seq<u8> {
        self.channel.transcript()
    }

    /// Wraps the channel, taking ownership; the channel is never handed
    /// back or reconfigured.
    pub fn wrap(channel: SerialChannel) -> (s: DiagnosticSink)
        ensures
            s.transcript() == channel.transcript(),
    {
        DiagnosticSink { channel }
    }

    /// The bytes accepted so far, for the sink's owner to inspect or
    /// forward.
    pub fn transcript_bytes(&self) -> (r: &Vec<u8>)
        ensures
            r@ == self.transcript(),
    {
        self.channel.written()
    }

    /// Writes one diagnostic line from the normal path: the message bytes
    /// followed by the line terminator, all reaching the one sink.
    pub fn write_line(&mut self, msg: &Vec<u8>)
        ensures
            final(self).transcript() == old(self).transcript() + line_of(msg@),
    {
        let mut i: usize = 0;
        while i < msg.len()
            invariant
                i <= msg.len(),
                self.channel.transcript() =~= old(self).transcript() + msg@.subrange(0, i as int),
            decreases msg.len() - i,
        {
            self.channel.write_byte(msg[i]);
            assert(msg@.subrange(0, i as int).push(msg@[i as int]) =~= msg@.subrange(
                0,
                i as int + 1,
            ));
            i = i + 1;
        }
        assert(msg@.subrange(0, msg@.len() as int) =~= msg@);
        self.channel.write_byte(13);
        self.channel.write_byte(10);
        assert(self.channel.transcript() =~= old(self).transcript() + line_of(msg@));
    }

    /// The abnormal-termination handler's one best-effort report: the
    /// failure description goes through the very same append path to the
    /// very same sink as a normal-path line, with nothing to reconfigure
    /// and nothing to lock; the handler halts afterwards.
    pub fn abnormal_termination_report(&mut self, description: &Vec<u8>)
        ensures
            final(self).transcript() == old(self).transcript() + line_of(description@),
    {
        self.write_line(description);
    }
}

} // verus!
