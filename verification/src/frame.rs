//! Frame header parsing: overlaying a typed header view onto a buffer.
//!
//! An Ethernet header is 14 bytes: destination address (bytes 0..6), source
//! address (bytes 6..12) and ethertype (bytes 12..14, network byte order).
//! Overlaying requires the buffer to be at least header-sized; address
//! fields are read and written as fixed-width binary fields.

use vstd::prelude::*;

use crate::buffer::BufferHandle;
use crate::errors::ParseError;
use crate::mac::MacAddr;

verus! {

/// Fixed size of an Ethernet header.
pub const ETHERNET_HEADER_SIZE: usize = 14;

/// A buffer can carry an Ethernet header view iff it is at least header-sized.
pub open spec fn is_valid_frame(s: Seq<u8>) -> bool {
    s.len() >= ETHERNET_HEADER_SIZE
}

/// Destination hardware address field of a frame.
pub open spec fn dst_of(s: Seq<u8>) -> Seq<u8> {
    s.subrange(0, 6)
}

/// Source hardware address field of a frame.
pub open spec fn src_of(s: Seq<u8>) -> Seq<u8> {
    s.subrange(6, 12)
}

/// Ethertype field of a frame, read in network byte order.
pub open spec fn ethertype_of(s: Seq<u8>) -> u16 {
    (s[12] * 256 + s[13]) as u16
}

/// The frame with its source and destination address fields exchanged;
/// every byte outside the two address fields is unchanged.
pub open spec fn swapped(s: Seq<u8>) -> Seq<u8> {
    Seq::new(
        s.len(),
        |i: int|
            if i < 6 {
                s[i + 6]
            } else if i < 12 {
                s[i - 6]
            } else {
                s[i]
            },
    )
}

/// Exchanging the address fields twice restores the original frame:
/// the header swap is an involution on valid frames.
pub proof fn lemma_swap_involution(s: Seq<u8>)
    requires
        is_valid_frame(s),
    ensures
        swapped(swapped(s)) == s,
{
    assert(swapped(swapped(s)) =~= s);
}

/// The values of an Ethernet header, copied out of a frame.
#[derive(Clone, Copy, Debug)]
pub struct EthernetHeader {
    pub dst: MacAddr,
    pub src: MacAddr,
    pub ethertype: u16,
}

impl BufferHandle {
    /// Overlay an Ethernet header view onto this buffer.
    ///
    /// Succeeds iff the buffer is at least header-sized; on failure the
    /// caller drops the buffer instead of forwarding it.
    pub fn parse_ethernet(&self) -> (r: Result<EthernetHeader, ParseError>)
        ensures
            r is Ok <==> is_valid_frame(self@),
            r matches Ok(h) ==> {
                &&& h.dst@ == dst_of(self@)
                &&& h.src@ == src_of(self@)
                &&& h.ethertype == ethertype_of(self@)
            },
            r matches Err(e) ==> e == ParseError::TooShort,
    {
        if self.len() < ETHERNET_HEADER_SIZE {
            return Err(ParseError::TooShort);
        }
        let dst = MacAddr::new(
            [
                self.byte_at(0),
                self.byte_at(1),
                self.byte_at(2),
                self.byte_at(3),
                self.byte_at(4),
                self.byte_at(5),
            ],
        );
        let src = MacAddr::new(
            [
                self.byte_at(6),
                self.byte_at(7),
                self.byte_at(8),
                self.byte_at(9),
                self.byte_at(10),
                self.byte_at(11),
            ],
        );
        let ethertype: u16 = (self.byte_at(12) as u16) * 256 + (self.byte_at(13) as u16);
        proof {
            assert(dst@ =~= dst_of(self@));
            assert(src@ =~= src_of(self@));
        }
        Ok(EthernetHeader { dst, src, ethertype })
    }

    /// Exchange the source and destination address fields in place.
    ///
    /// In-place mutation demands exclusive ownership of the buffer.
    pub fn swap_addresses(&mut self)
        requires
            old(self).rc() == 1,
            is_valid_frame(old(self)@),
        ensures
            final(self)@ == swapped(old(self)@),
            final(self).rc() == 1,
    {
        let ghost orig = self@;
        let mut i: usize = 0;
        while i < 6
            invariant
                i <= 6,
                self.rc() == 1,
                self@.len() == orig.len(),
                is_valid_frame(orig),
                forall|j: int| 0 <= j < i ==> #[trigger] self@[j] == orig[j + 6],
                forall|j: int| 6 <= j < i + 6 ==> #[trigger] self@[j] == orig[j - 6],
                forall|j: int| i <= j < 6 ==> #[trigger] self@[j] == orig[j],
                forall|j: int| i + 6 <= j < 12 ==> #[trigger] self@[j] == orig[j],
                forall|j: int| 12 <= j < orig.len() ==> #[trigger] self@[j] == orig[j],
            decreases 6 - i,
        {
            let a = self.byte_at(i);
            let b = self.byte_at(i + 6);
            self.write_byte(i, b);
            self.write_byte(i + 6, a);
            i = i + 1;
        }
        proof {
            assert(self@ =~= swapped(orig));
        }
    }
}

} // verus!
