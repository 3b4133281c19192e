//! The inbound/outbound frame vocabulary of the persistent socket transport:
//! text and binary payload frames, ping/pong and close control frames, and a
//! catch-all for frame kinds outside this vocabulary.

use vstd::prelude::*;

verus! {

/// The detail of a close control frame: a status code and a reason string.
#[derive(Debug, PartialEq, Eq)]
pub struct CloseInfo {
    pub code: u16,
    pub reason: String,
}

/// One discrete message unit delivered by (or handed to) the transport.
/// `Other` stands for transport frame kinds outside this vocabulary, such as
/// raw protocol frames, which the sink refuses as unsupported.
#[derive(Debug, PartialEq, Eq)]
pub enum Frame {
    Text(String),
    Binary(Vec<u8>),
    Ping(Vec<u8>),
    Pong(Vec<u8>),
    Close(Option<CloseInfo>),
    Other,
}

/// The mathematical model of a close frame's detail.
pub struct CloseInfoV {
    pub code: u16,
    pub reason: Seq<char>,
}

/// The mathematical model of a frame.
pub enum FrameV {
    Text(Seq<char>),
    Binary(Seq<u8>),
    Ping(Seq<u8>),
    Pong(Seq<u8>),
    Close(Option<CloseInfoV>),
    Other,
}

impl View for CloseInfo {
    type V = CloseInfoV;

    open spec fn view(&self) -> CloseInfoV {
        CloseInfoV { code: self.code, reason: self.reason@ }
    }
}

impl DeepView for CloseInfo {
    type V = CloseInfoV;

    open spec fn deep_view(&self) -> CloseInfoV {
        self.view()
    }
}

impl View for Frame {
    type V = FrameV;

    open spec fn view(&self) -> FrameV {
        match self {
            Frame::Text(t) => FrameV::Text(t@),
            Frame::Binary(b) => FrameV::Binary(b@),
            Frame::Ping(b) => FrameV::Ping(b@),
            Frame::Pong(b) => FrameV::Pong(b@),
            Frame::Close(c) => FrameV::Close(
                match c {
                    Some(info) => Some(info@),
                    None => None,
                },
            ),
            Frame::Other => FrameV::Other,
        }
    }
}

impl DeepView for Frame {
    type V = FrameV;

    open spec fn deep_view(&self) -> FrameV {
        self.view()
    }
}

impl Clone for CloseInfo {
    /// Clones the close detail; the copy models the same value.
    fn clone(&self) -> (res: Self)
        ensures
            res@ == self@,
    {
        CloseInfo { code: self.code, reason: self.reason.clone() }
    }
}

impl Clone for Frame {
    /// Clones a frame; the copy models the same value, so replaying a stored
    /// frame transmits exactly what was configured.
    fn clone(&self) -> (res: Self)
        ensures
            res@ == self@,
    {
        match self {
            Frame::Text(t) => Frame::Text(t.clone()),
            Frame::Binary(b) => {
                let copy = b.clone();
                assert(copy@ =~= b@);
                Frame::Binary(copy)
            },
            Frame::Ping(b) => {
                let copy = b.clone();
                assert(copy@ =~= b@);
                Frame::Ping(copy)
            },
            Frame::Pong(b) => {
                let copy = b.clone();
                assert(copy@ =~= b@);
                Frame::Pong(copy)
            },
            Frame::Close(c) => Frame::Close(
                match c {
                    Some(info) => Some(info.clone()),
                    None => None,
                },
            ),
            Frame::Other => Frame::Other,
        }
    }
}

} // verus!
