use vstd::prelude::*;

verus! {

/// A ping carrying an optional value.
#[derive(Debug, Clone, PartialEq, Eq)]
pub struct PingRequest {
    pub value: Option<String>,
}

/// The answer to a ping.
#[derive(Debug, Clone, PartialEq, Eq)]
pub struct PingResponse {
    pub value: Option<String>,
}

/// A converted frame handed to exactly one consumer.
#[derive(Debug, Clone, PartialEq, Eq)]
pub struct FrameEvent {
    /// Sequence id the frame got on arrival; delivered ids may have gaps.
    pub frame_id: u64,
    /// Pixel data in `format`.
    pub data: Vec<u8>,
    pub width: u32,
    pub height: u32,
    /// Wall-clock time of the conversion, in milliseconds.
    pub timestamp_ms: u64,
    /// "RGB8" or "RGBA".
    pub format: String,
}

/// One STUN/TURN server offered to the transport engine.
#[derive(Debug, Clone, PartialEq, Eq)]
pub struct IceServer {
    pub urls: Vec<String>,
    pub username: Option<String>,
    pub credential: Option<String>,
}

/// Parameters of a new transport session.
#[derive(Debug, Clone, PartialEq, Eq)]
pub struct CreatePeerConnectionRequest {
    pub ice_servers: Vec<IceServer>,
}

/// A session description as it crosses the boundary: its declared type and its SDP text.
#[derive(Debug, Clone, PartialEq, Eq)]
pub struct SessionDescriptionData {
    /// "offer" or "answer".
    pub sdp_type: String,
    pub sdp: String,
}

/// A connectivity candidate as it crosses the boundary.
#[derive(Debug, Clone, PartialEq, Eq)]
pub struct IceCandidateData {
    pub candidate: String,
    pub sdp_mid: Option<String>,
    pub sdp_m_line_index: Option<u16>,
}

impl IceServer {
    /// The user name handed to the transport engine: empty when none was given.
    pub fn username_or_default(&self) -> (r: String)
        ensures
            self.username is Some ==> r@ == self.username->Some_0@,
            self.username is None ==> r@ == Seq::<char>::empty(),
    {
        match &self.username {
            Some(u) => u.clone(),
            None => String::new(),
        }
    }

    /// The credential handed to the transport engine: empty when none was given.
    pub fn credential_or_default(&self) -> (r: String)
        ensures
            self.credential is Some ==> r@ == self.credential->Some_0@,
            self.credential is None ==> r@ == Seq::<char>::empty(),
    {
        match &self.credential {
            Some(c) => c.clone(),
            None => String::new(),
        }
    }
}

} // verus!
