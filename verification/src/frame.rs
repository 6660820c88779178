//! Render frames: a fixed header and raw pixels, found again in a stream
//! by their magic.
//!
//! A frame is the magic `WPRD`, then width, height, format and the number
//! of pixel bytes as little-endian words, then the pixel bytes.

use crate::le::u32_from_le;
use crate::wayland::wire::word_at;
use vstd::prelude::*;
use vstd::slice::{slice_subrange, slice_to_vec};

verus! {

/// The size of a frame's header, in bytes.
pub const HEADER_SIZE: usize = 20;

/// The four bytes that open a frame: `WPRD`.
pub open spec fn frame_magic() -> Seq<u8> {
    seq![0x57u8, 0x50u8, 0x52u8, 0x44u8]
}

/// A frame of pixels.
#[derive(Debug, PartialEq, Eq)]
pub struct RenderFrame {
    pub width: u32,
    pub height: u32,
    pub format: u32,
    pub data: Vec<u8>,
}

/// A frame as a mathematical value.
pub struct RenderFrameView {
    pub width: u32,
    pub height: u32,
    pub format: u32,
    pub data: Seq<u8>,
}

impl View for RenderFrame {
    type V = RenderFrameView;

    open spec fn view(&self) -> RenderFrameView {
        RenderFrameView {
            width: self.width,
            height: self.height,
            format: self.format,
            data: self.data@,
        }
    }
}

/// Whether the magic stands at `pos`.
pub open spec fn magic_at(bytes: Seq<u8>, pos: int) -> bool {
    0 <= pos && pos + 4 <= bytes.len() && bytes.subrange(pos, pos + 4) == frame_magic()
}

/// The number of bytes of the frame whose header opens `bytes`.
pub open spec fn frame_size(bytes: Seq<u8>) -> int
    recommends
        bytes.len() >= HEADER_SIZE,
{
    HEADER_SIZE + u32_from_le(bytes.skip(16))
}

/// The frame that opens `bytes`: none where the header is not all there,
/// where it does not open with the magic, or where pixel bytes are
/// missing.
pub open spec fn parse_frame(bytes: Seq<u8>) -> Option<RenderFrameView> {
    if bytes.len() < HEADER_SIZE || !magic_at(bytes, 0) || bytes.len() < frame_size(bytes) {
        None
    } else {
        Some(
            RenderFrameView {
                width: u32_from_le(bytes.skip(4)),
                height: u32_from_le(bytes.skip(8)),
                format: u32_from_le(bytes.skip(12)),
                data: bytes.subrange(HEADER_SIZE as int, frame_size(bytes)),
            },
        )
    }
}

/// Whether the magic stands at `pos` in this slice.
fn has_magic_at(bytes: &[u8], pos: usize) -> (found: bool)
    requires
        pos + 4 <= bytes@.len(),
    ensures
        found == magic_at(bytes@, pos as int),
{
    let found = bytes[pos] == 0x57 && bytes[pos + 1] == 0x50 && bytes[pos + 2] == 0x52 && bytes[pos
        + 3] == 0x44;
    proof {
        let window = bytes@.subrange(pos as int, pos + 4);
        assert(window[0] == bytes@[pos as int] && window[1] == bytes@[pos + 1] && window[2]
            == bytes@[pos + 2] && window[3] == bytes@[pos + 3]);
        if found {
            assert(window =~= frame_magic());
        }
    }
    found
}

impl RenderFrame {
    /// Reads the frame that opens `data`. Bytes behind the frame are
    /// ignored.
    pub fn decode(data: &[u8]) -> (frame: Option<RenderFrame>)
        ensures
            match parse_frame(data@) {
                Some(view) => frame is Some && frame->Some_0@ == view,
                None => frame is None,
            },
    {
        if data.len() < HEADER_SIZE {
            return None;
        }
        if !has_magic_at(data, 0) {
            return None;
        }
        let width: u32 = word_at(data, 4);
        let height: u32 = word_at(data, 8);
        let format: u32 = word_at(data, 12);
        let data_size: usize = word_at(data, 16) as usize;
        if data.len() - HEADER_SIZE < data_size {
            return None;
        }
        let pixels = slice_to_vec(slice_subrange(data, HEADER_SIZE, HEADER_SIZE + data_size));
        Some(RenderFrame { width, height, format, data: pixels })
    }
}

/// What one call of the decoder leaves: the frame it hands out, if any,
/// and the bytes it keeps.
pub struct Decoded {
    pub frame: Option<RenderFrameView>,
    pub kept: Seq<u8>,
}

/// Whether `outcome` is what one call of the decoder makes of `buffered`.
///
/// Fewer bytes than a header are kept. Bytes that do not open with the
/// magic are dropped up to the first place where the magic stands, or all
/// of them where it stands nowhere, and no frame is handed out in that
/// call. A frame whose pixels have not all arrived is kept. A whole frame
/// is handed out and taken off.
pub open spec fn decodes_to(buffered: Seq<u8>, outcome: Decoded) -> bool {
    if buffered.len() < HEADER_SIZE {
        outcome.frame is None && outcome.kept == buffered
    } else if !magic_at(buffered, 0) {
        &&& outcome.frame is None
        &&& exists|pos: int|
            {
                &&& 0 <= pos <= buffered.len()
                &&& outcome.kept == #[trigger] buffered.skip(pos)
                &&& forall|earlier: int| 0 <= earlier < pos ==> !magic_at(buffered, earlier)
                &&& magic_at(buffered, pos) || pos == buffered.len()
            }
    } else if buffered.len() < frame_size(buffered) {
        outcome.frame is None && outcome.kept == buffered
    } else {
        outcome.frame == parse_frame(buffered) && outcome.kept == buffered.skip(
            frame_size(buffered),
        )
    }
}

/// A decoder that takes a stream in pieces of any size and hands out whole
/// frames.
pub struct FrameDecoder {
    buffer: Vec<u8>,
}

impl View for FrameDecoder {
    type V = Seq<u8>;

    /// The bytes taken in and not yet handed out or dropped.
    closed spec fn view(&self) -> Seq<u8> {
        self.buffer@
    }
}

impl FrameDecoder {
    /// A decoder that holds no bytes.
    pub fn new() -> (decoder: FrameDecoder)
        ensures
            decoder@ == Seq::<u8>::empty(),
    {
        FrameDecoder { buffer: Vec::with_capacity(1024 * 1024) }
    }

    /// Takes in the next piece of the stream.
    pub fn push(&mut self, data: &[u8])
        ensures
            final(self)@ == old(self)@ + data@,
    {
        self.buffer.extend_from_slice(data);
        assert(self.buffer@ =~= old(self).buffer@ + data@);
    }

    /// Drops the first `count` bytes.
    fn discard(&mut self, count: usize)
        requires
            count <= old(self)@.len(),
        ensures
            final(self)@ == old(self)@.skip(count as int),
    {
        let rest = self.buffer.split_off(count);
        self.buffer = rest;
        assert(self.buffer@ =~= old(self).buffer@.skip(count as int));
    }

    /// Hands out the next frame, if the buffered bytes open with a whole
    /// one. Bytes before the first magic are dropped first; the frame
    /// behind them is for the next call.
    pub fn decode(&mut self) -> (frame: Option<RenderFrame>)
        ensures
            decodes_to(
                old(self)@,
                (Decoded {
                    frame: match frame {
                        Some(f) => Some(f@),
                        None => None,
                    },
                    kept: final(self)@,
                }),
            ),
    {
        if self.buffer.len() < HEADER_SIZE {
            return None;
        }
        if !has_magic_at(self.buffer.as_slice(), 0) {
            match self.find_magic() {
                Some(pos) => {
                    self.discard(pos);
                },
                None => {
                    let ghost all = self.buffer@.len() as int;
                    assert(old(self)@.skip(all) =~= Seq::<u8>::empty());
                    self.buffer.clear();
                },
            }
            return None;
        }
        let data_size: usize = word_at(self.buffer.as_slice(), 16) as usize;
        if self.buffer.len() - HEADER_SIZE < data_size {
            return None;
        }
        let total_size: usize = HEADER_SIZE + data_size;
        let whole = slice_subrange(self.buffer.as_slice(), 0, total_size);
        proof {
            let head = old(self)@.subrange(0, total_size as int);
            assert(head.subrange(0, 4) =~= old(self)@.subrange(0, 4));
            assert(head.skip(4)[0] == old(self)@.skip(4)[0] && head.skip(4)[1] == old(self)@.skip(
                4,
            )[1] && head.skip(4)[2] == old(self)@.skip(4)[2] && head.skip(4)[3] == old(
                self,
            )@.skip(4)[3]);
            assert(head.skip(8)[0] == old(self)@.skip(8)[0] && head.skip(8)[1] == old(self)@.skip(
                8,
            )[1] && head.skip(8)[2] == old(self)@.skip(8)[2] && head.skip(8)[3] == old(
                self,
            )@.skip(8)[3]);
            assert(head.skip(12)[0] == old(self)@.skip(12)[0] && head.skip(12)[1] == old(
                self,
            )@.skip(12)[1] && head.skip(12)[2] == old(self)@.skip(12)[2] && head.skip(12)[3]
                == old(self)@.skip(12)[3]);
            assert(head.skip(16)[0] == old(self)@.skip(16)[0] && head.skip(16)[1] == old(
                self,
            )@.skip(16)[1] && head.skip(16)[2] == old(self)@.skip(16)[2] && head.skip(16)[3]
                == old(self)@.skip(16)[3]);
            assert(head.subrange(HEADER_SIZE as int, total_size as int) =~= old(self)@.subrange(
                HEADER_SIZE as int,
                total_size as int,
            ));
        }
        match RenderFrame::decode(whole) {
            Some(frame) => {
                self.discard(total_size);
                Some(frame)
            },
            // The header was checked above, so this does not happen.
            None => {
                self.discard(4);
                None
            },
        }
    }

    /// The first place in the buffered bytes where the magic stands.
    pub fn find_magic(&self) -> (found: Option<usize>)
        ensures
            match found {
                Some(pos) => magic_at(self@, pos as int) && forall|earlier: int|
                    0 <= earlier < pos ==> !magic_at(self@, earlier),
                None => forall|pos: int| !magic_at(self@, pos),
            },
    {
        let len: usize = self.buffer.len();
        if len < 4 {
            return None;
        }
        let mut pos: usize = 0;
        while pos <= len - 4
            invariant
                len == self.buffer@.len(),
                len >= 4,
                pos <= len - 3,
                forall|earlier: int| 0 <= earlier < pos ==> !magic_at(self@, earlier),
            decreases len - pos,
        {
            if has_magic_at(self.buffer.as_slice(), pos) {
                return Some(pos);
            }
            pos = pos + 1;
        }
        None
    }

    /// Drops every buffered byte.
    pub fn clear(&mut self)
        ensures
            final(self)@ == Seq::<u8>::empty(),
    {
        self.buffer.clear();
    }
}

impl Default for FrameDecoder {
    fn default() -> (decoder: FrameDecoder)
        ensures
            decoder@ == Seq::<u8>::empty(),
    {
        FrameDecoder::new()
    }
}

} // verus!
