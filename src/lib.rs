//! A userspace AppleTalk link and network stack: ELAP framing, AARP address
//! acquisition and resolution, and DDP datagrams, as verified state machines.
use vstd::prelude::*;

pub mod aarp;
pub mod addr;
pub mod afpd;
pub mod amt;
pub mod client;
pub mod ddp;
pub mod link;
pub mod wire;

verus! {

/// The errors of the stack.
#[derive(Debug, Clone, Copy, PartialEq, Eq, Structural)]
pub enum CrabbletalkError {
    /// A frame is shorter than its fixed header, or an enumerated field is out of range.
    MalformedFrame,
    /// A counterpart task or channel is gone.
    Hangup,
    /// An attempt could not complete this time; the caller may retry later.
    Transient,
    /// An ELAP frame is larger than the link allows.
    OversizeFrame,
}

/// A fixed-size wire header that can be decoded from the front of a byte
/// slice, handing back the bytes that follow it.
pub trait UnpackSplit: Sized {
    /// The number of bytes the header occupies on the wire.
    spec fn packed_size() -> nat;

    /// Whether decoding succeeds on `data` (which holds at least `packed_size` bytes).
    spec fn accepts(data: Seq<u8>) -> bool;

    /// Whether `self` is the value that decoding the front of `data` yields.
    spec fn decoded_from(self, data: Seq<u8>) -> bool;

    fn unpack_split<'d>(data: &'d [u8]) -> (r: Result<(Self, &'d [u8]), CrabbletalkError>)
        ensures
            r is Ok <==> (data@.len() >= Self::packed_size() && Self::accepts(data@)),
            r matches Ok((v, rest)) ==> v.decoded_from(data@) && rest@ == data@.subrange(
                Self::packed_size() as int,
                data@.len() as int,
            ),
            r matches Err(e) ==> e == CrabbletalkError::MalformedFrame,
    ;
}

} // verus!
pub mod egress;
