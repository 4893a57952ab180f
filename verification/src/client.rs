//! The browser client's own rules around the terminal: the queue of frames
//! that wait to be drawn, which key strokes are echoed at once, and the
//! text of a paste.

use std::collections::VecDeque;
use vstd::prelude::*;
use vstd::string::StringExecFns;
use crate::frame::{FrameView, TerminalFrame};
use crate::text::{single_ascii, sole_ascii_char};

verus! {

/// How many frames a new inbox keeps.
pub const DEFAULT_MAX_FRAMES: usize = 8;

/// The frames that wait to be drawn once the oldest are dropped to make
/// room for one more under the limit; a limit of zero drops none.
pub open spec fn room_made(frames: Seq<FrameView>, limit: usize) -> Seq<FrameView> {
    if limit > 0 && frames.len() >= limit {
        frames.subrange(frames.len() - (limit - 1), frames.len() as int)
    } else {
        frames
    }
}

/// The client's inbox as contracts see it.
pub struct InboxView {
    /// The frames that wait to be drawn, oldest first.
    pub frames: Seq<FrameView>,
    /// Most frames kept; zero for no limit.
    pub max_frames: usize,
    pub bytes_received: u64,
    pub messages_received: u64,
}

/// The frames that the transport has received and the terminal has not
/// yet taken, with the transport's counters.
pub struct Inbox {
    frames: VecDeque<TerminalFrame>,
    max_frames: usize,
    bytes_received: u64,
    messages_received: u64,
}

impl View for Inbox {
    type V = InboxView;

    closed spec fn view(&self) -> InboxView {
        InboxView {
            frames: Seq::new(self.frames@.len(), |i: int| self.frames@[i]@),
            max_frames: self.max_frames,
            bytes_received: self.bytes_received,
            messages_received: self.messages_received,
        }
    }
}

/// A counter after `n` more, wrapping at its limit.
pub open spec fn counted(counter: u64, n: int) -> u64 {
    ((counter + n) % 0x1_0000_0000_0000_0000) as u64
}

impl Inbox {
    /// An empty inbox with the default limit.
    pub fn new() -> (inbox: Inbox)
        ensures
            inbox@ == (InboxView {
                frames: Seq::<FrameView>::empty(),
                max_frames: DEFAULT_MAX_FRAMES,
                bytes_received: 0,
                messages_received: 0,
            }),
    {
        let inbox = Inbox {
            frames: VecDeque::new(),
            max_frames: DEFAULT_MAX_FRAMES,
            bytes_received: 0,
            messages_received: 0,
        };
        assert(inbox@.frames =~= Seq::<FrameView>::empty());
        inbox
    }

    /// Sets the most frames kept; zero lifts the limit.
    pub fn set_max_frames(&mut self, max_frames: usize)
        ensures
            final(self)@ == (InboxView { max_frames, ..old(self)@ }),
    {
        self.max_frames = max_frames;
    }

    /// Counts a message that arrived and says whether it is worth
    /// decoding: not while the inbox is full.
    pub fn admit_message(&mut self) -> (decode: bool)
        ensures
            final(self)@ == (InboxView {
                messages_received: counted(old(self)@.messages_received, 1),
                ..old(self)@
            }),
            decode == !(old(self)@.max_frames > 0 && old(self)@.frames.len() >= old(self)@.max_frames),
    {
        self.messages_received = self.messages_received.wrapping_add(1);
        !(self.max_frames > 0 && self.frames.len() >= self.max_frames)
    }

    /// Counts the bytes of a message.
    pub fn count_bytes(&mut self, n: usize)
        ensures
            final(self)@ == (InboxView {
                bytes_received: counted(old(self)@.bytes_received, n as int),
                ..old(self)@
            }),
    {
        self.bytes_received = self.bytes_received.wrapping_add(n as u64);
    }

    /// Queues a frame, dropping the oldest ones where the limit asks for
    /// room.
    pub fn push(&mut self, frame: TerminalFrame)
        ensures
            final(self)@ == (InboxView {
                frames: room_made(old(self)@.frames, old(self)@.max_frames).push(frame@),
                ..old(self)@
            }),
    {
        let limit: usize = self.max_frames;
        let ghost start = self@.frames;
        if limit > 0 {
            while self.frames.len() >= limit
                invariant
                    limit > 0,
                    limit == old(self).max_frames,
                    self.max_frames == old(self).max_frames,
                    self.bytes_received == old(self).bytes_received,
                    self.messages_received == old(self).messages_received,
                    start == old(self)@.frames,
                    self@.frames.len() <= start.len(),
                    self@.frames == start.subrange(
                        start.len() - self@.frames.len(),
                        start.len() as int,
                    ),
                    start.len() < limit ==> self@.frames.len() == start.len(),
                    start.len() >= limit ==> self@.frames.len() >= limit - 1,
                decreases self.frames@.len(),
            {
                let ghost before = self@.frames;
                self.frames.pop_front();
                assert(self@.frames =~= before.drop_first());
                assert(self@.frames =~= start.subrange(
                    start.len() - self@.frames.len(),
                    start.len() as int,
                ));
            }
        }
        let ghost kept = self@.frames;
        assert(kept =~= room_made(start, limit));
        self.frames.push_back(frame);
        assert(self@.frames =~= kept.push(frame@));
    }

    /// Takes the oldest frame that waits, if any.
    pub fn try_recv(&mut self) -> (frame: Option<TerminalFrame>)
        ensures
            match frame {
                Some(f) => old(self)@.frames.len() > 0 && f@ == old(self)@.frames[0] && final(self)@ == (InboxView { frames: old(self)@.frames.drop_first(), ..old(self)@ }),
                None => old(self)@.frames.len() == 0 && final(self)@ == old(self)@,
            },
    {
        let frame = self.frames.pop_front();
        proof {
            if frame is Some {
                assert(self@.frames =~= old(self)@.frames.drop_first());
            }
        }
        frame
    }

    /// The number of frames that wait.
    pub fn queue_len(&self) -> (n: usize)
        ensures
            n == self@.frames.len(),
    {
        self.frames.len()
    }

    /// The bytes received since the counters were last reset.
    pub fn bytes_received(&self) -> (n: u64)
        ensures
            n == self@.bytes_received,
    {
        self.bytes_received
    }

    /// The messages received since the counters were last reset.
    pub fn messages_received(&self) -> (n: u64)
        ensures
            n == self@.messages_received,
    {
        self.messages_received
    }

    /// Sets both counters to zero.
    pub fn reset_counters(&mut self)
        ensures
            final(self)@ == (InboxView { bytes_received: 0, messages_received: 0, ..old(self)@ }),
    {
        self.bytes_received = 0;
        self.messages_received = 0;
    }
}

/// A full inbox never grows: under a limit, a frame that is queued leaves
/// at most `limit` frames waiting, and it is the newest of them.
pub proof fn lemma_inbox_bounded(frames: Seq<FrameView>, limit: usize, frame: FrameView)
    requires
        limit > 0,
    ensures
        frames.len() < limit ==> room_made(frames, limit).push(frame).len() == frames.len() + 1,
        frames.len() >= limit ==> room_made(frames, limit).push(frame).len() == limit,
        room_made(frames, limit).push(frame).last() == frame,
{
}

/// The character that is echoed at once for a key stroke, if any: the
/// stroke sends exactly one byte, and neither Ctrl nor Alt nor Meta is
/// held.
pub fn echo_candidate(data: &str, ctrl: bool, alt: bool, meta: bool) -> (c: Option<char>)
    ensures
        c == (if single_ascii(data@) && !ctrl && !alt && !meta {
            Some(data@[0])
        } else {
            None
        }),
{
    if ctrl || alt || meta {
        None
    } else {
        sole_ascii_char(data)
    }
}

/// The text of a paste, between the marks of bracketed paste mode.
pub fn bracketed_paste(text: &str) -> (out: String)
    ensures
        out@ == "\x1b[200~"@ + text@ + "\x1b[201~"@,
{
    String::from_str("\x1b[200~").concat(text).concat("\x1b[201~")
}

} // verus!
