use vstd::prelude::*;

use crate::error::{Error, Result};
use crate::ids::new_session_id;
use crate::models::SessionDescriptionData;
use crate::table::{
    keys_unique, lemma_table_index, lemma_table_push, lemma_table_remove, lemma_table_update,
    table_map,
};

verus! {

/// The declared type of a session description.
#[derive(Debug, Clone, Copy, PartialEq, Eq, Structural)]
pub enum SdpType {
    Offer,
    Answer,
}

/// The text form of a description type, as it crosses the boundary.
pub open spec fn sdp_type_tag(t: SdpType) -> Seq<char> {
    match t {
        SdpType::Offer => "offer"@,
        SdpType::Answer => "answer"@,
    }
}

/// The description type named by an already lower-cased tag.
pub open spec fn sdp_type_of(lowered: Seq<char>) -> Option<SdpType> {
    if lowered == "offer"@ {
        Some(SdpType::Offer)
    } else if lowered == "answer"@ {
        Some(SdpType::Answer)
    } else {
        None
    }
}

/// Every character is an ASCII lower-case letter.
pub open spec fn is_lower_ascii(s: Seq<char>) -> bool {
    forall|i: int| 0 <= i < s.len() ==> 'a' <= #[trigger] s[i] <= 'z'
}

/// What `str::to_lowercase` returns for a string.
pub uninterp spec fn lower_of(s: Seq<char>) -> Seq<char>;

/// Relies on `str::to_lowercase`: the lower-case equivalent of the text, which leaves a
/// string of ASCII lower-case letters as it is.
#[verifier::external_body]
fn lowercase(s: &str) -> (r: String)
    ensures
        r@ == lower_of(s@),
        is_lower_ascii(s@) ==> r@ == s@,
{
    s.to_lowercase()
}

impl SdpType {
    /// The text form of the type: "offer" or "answer".
    pub fn tag(&self) -> (r: String)
        ensures
            r@ == sdp_type_tag(*self),
    {
        match self {
            SdpType::Offer => String::from_str("offer"),
            SdpType::Answer => String::from_str("answer"),
        }
    }
}

/// Reads an already lower-cased description type.
pub fn description_type(lowered: &String) -> (r: Option<SdpType>)
    ensures
        r == sdp_type_of(lowered@),
{
    if *lowered == String::from_str("offer") {
        Some(SdpType::Offer)
    } else if *lowered == String::from_str("answer") {
        Some(SdpType::Answer)
    } else {
        None
    }
}

/// Reads a declared description type, ignoring case: "offer" and "answer" select their
/// parse path; anything else is refused with `UnsupportedDescriptionType`.
pub fn parse_description_type(sdp_type: &String) -> (r: Result<SdpType>)
    ensures
        sdp_type_of(lower_of(sdp_type@)) is Some ==> r == Ok::<SdpType, Error>(
            sdp_type_of(lower_of(sdp_type@))->Some_0,
        ),
        sdp_type_of(lower_of(sdp_type@)) is None ==> (r matches Err(
            Error::UnsupportedDescriptionType(t),
        ) && t@ == lower_of(sdp_type@)),
        is_lower_ascii(sdp_type@) && sdp_type_of(sdp_type@) is Some ==> r == Ok::<SdpType, Error>(
            sdp_type_of(sdp_type@)->Some_0,
        ),
        is_lower_ascii(sdp_type@) && sdp_type_of(sdp_type@) is None ==> (r matches Err(
            Error::UnsupportedDescriptionType(t),
        ) && t@ == sdp_type@),
{
    let lowered = lowercase(sdp_type.as_str());
    match description_type(&lowered) {
        Some(t) => Ok(t),
        None => Err(Error::UnsupportedDescriptionType(lowered)),
    }
}

/// A session description with its type read.
#[derive(Debug, Clone, PartialEq, Eq)]
pub struct SessionDescription {
    pub sdp_type: SdpType,
    pub sdp: String,
}

impl SessionDescriptionData {
    /// The boundary form of a description: its type as text and its SDP unchanged.
    pub fn from_description(description: SessionDescription) -> (r: SessionDescriptionData)
        ensures
            r.sdp_type@ == sdp_type_tag(description.sdp_type),
            r.sdp == description.sdp,
    {
        SessionDescriptionData { sdp_type: description.sdp_type.tag(), sdp: description.sdp }
    }

    /// Reads a description from its boundary form; an unknown type is refused.
    pub fn parse(self) -> (r: Result<SessionDescription>)
        ensures
            sdp_type_of(lower_of(self.sdp_type@)) is Some ==> r == Ok::<SessionDescription, Error>(
                SessionDescription {
                    sdp_type: sdp_type_of(lower_of(self.sdp_type@))->Some_0,
                    sdp: self.sdp,
                },
            ),
            sdp_type_of(lower_of(self.sdp_type@)) is None ==> (r matches Err(
                Error::UnsupportedDescriptionType(t),
            ) && t@ == lower_of(self.sdp_type@)),
            is_lower_ascii(self.sdp_type@) && sdp_type_of(self.sdp_type@) is Some ==> r == Ok::<
                SessionDescription,
                Error,
            >(SessionDescription { sdp_type: sdp_type_of(self.sdp_type@)->Some_0, sdp: self.sdp }),
    {
        let sdp_type = parse_description_type(&self.sdp_type)?;
        Ok(SessionDescription { sdp_type, sdp: self.sdp })
    }
}

/// Round trip of a session description through its boundary form: the tag written for
/// a type is lower-case ASCII and reads back as that type, so `parse` after
/// `from_description` yields the same type and the same SDP text.
pub proof fn lemma_description_round_trip(t: SdpType)
    ensures
        is_lower_ascii(sdp_type_tag(t)),
        sdp_type_of(sdp_type_tag(t)) == Some(t),
{
    reveal_strlit("offer");
    reveal_strlit("answer");
    assert("offer"@.len() == 5);
    assert("answer"@.len() == 6);
    assert("offer"@ != "answer"@);
}

/// Connection state of a transport session, as the engine reports it.
#[derive(Debug, Clone, Copy, PartialEq, Eq, Structural)]
pub enum ConnectionState {
    Unspecified,
    New,
    Connecting,
    Connected,
    Disconnected,
    Failed,
    Closed,
}

pub open spec fn connection_state_tag(s: ConnectionState) -> Seq<char> {
    match s {
        ConnectionState::Unspecified => "unspecified"@,
        ConnectionState::New => "new"@,
        ConnectionState::Connecting => "connecting"@,
        ConnectionState::Connected => "connected"@,
        ConnectionState::Disconnected => "disconnected"@,
        ConnectionState::Failed => "failed"@,
        ConnectionState::Closed => "closed"@,
    }
}

impl ConnectionState {
    /// The snapshot string handed to callers.
    pub fn tag(&self) -> (r: String)
        ensures
            r@ == connection_state_tag(*self),
    {
        match self {
            ConnectionState::Unspecified => String::from_str("unspecified"),
            ConnectionState::New => String::from_str("new"),
            ConnectionState::Connecting => String::from_str("connecting"),
            ConnectionState::Connected => String::from_str("connected"),
            ConnectionState::Disconnected => String::from_str("disconnected"),
            ConnectionState::Failed => String::from_str("failed"),
            ConnectionState::Closed => String::from_str("closed"),
        }
    }
}

/// What the library knows of one transport session; the engine's handle to it is
/// kept alongside, under the same id.
#[derive(Debug, Clone, PartialEq, Eq)]
pub struct PeerConnection {
    pub id: String,
    /// Whether the one outbound video track has been created.
    pub has_video_track: bool,
    /// Type of the committed local description, if any.
    pub local_description: Option<SdpType>,
    /// Type of the applied remote description, if any.
    pub remote_description: Option<SdpType>,
    pub state: ConnectionState,
}

impl PeerConnection {
    /// A copy of the record.
    pub fn snapshot(&self) -> (r: PeerConnection)
        ensures
            r == *self,
    {
        PeerConnection {
            id: self.id.clone(),
            has_video_track: self.has_video_track,
            local_description: self.local_description,
            remote_description: self.remote_description,
            state: self.state,
        }
    }
}

/// A video stream registered with the manager, possibly tied to a session.
#[derive(Debug, Clone, PartialEq, Eq)]
pub struct VideoStream {
    pub stream_id: String,
    pub device_id: String,
    pub connection_id: Option<String>,
}

/// Which device feeds which session; used only to order cleanup when it closes.
#[derive(Debug, Clone, PartialEq, Eq)]
pub struct DeviceBinding {
    pub connection_id: String,
    pub device_id: String,
}

/// What `attach_h264_video_track` did.
#[derive(Debug, Clone, Copy, PartialEq, Eq, Structural)]
pub enum TrackAttach {
    /// The session had no track; one is now recorded and must be created by the engine.
    Created,
    /// The session already had its track; nothing changed.
    AlreadyAttached,
}

/// What closing a session left to do.
#[derive(Debug, Clone, PartialEq, Eq)]
pub struct CloseOutcome {
    /// Whether a live connection was removed and must be closed by the engine.
    pub close_connection: bool,
    /// The device that fed the session, whose stream the caller may stop.
    pub device_id: Option<String>,
}

/// An encoded access unit ready for a session's track.
#[derive(Debug, Clone, PartialEq, Eq)]
pub struct Sample {
    pub data: Vec<u8>,
    pub duration_ms: u64,
}

pub open spec fn conn_key() -> spec_fn(PeerConnection) -> Seq<char> {
    |c: PeerConnection| c.id@
}

pub open spec fn binding_key() -> spec_fn(DeviceBinding) -> Seq<char> {
    |b: DeviceBinding| b.connection_id@
}

pub open spec fn stream_key() -> spec_fn(VideoStream) -> Seq<char> {
    |v: VideoStream| v.stream_id@
}

/// Number of video tracks of a session: none or one.
pub open spec fn track_count(c: PeerConnection) -> nat {
    if c.has_video_track {
        1
    } else {
        0
    }
}

/// A fresh session: no track, no description, state new.
pub open spec fn fresh_connection(id: String) -> PeerConnection {
    PeerConnection {
        id,
        has_video_track: false,
        local_description: None,
        remote_description: None,
        state: ConnectionState::New,
    }
}

/// The table of transport sessions, the device bindings and the video streams tied to
/// them, each keyed by a unique id.
#[derive(Debug)]
pub struct WebRTCManager {
    connections: Vec<PeerConnection>,
    streams: Vec<VideoStream>,
    connection_to_device: Vec<DeviceBinding>,
}

impl WebRTCManager {
    /// Sessions by id.
    pub closed spec fn conns(&self) -> Map<Seq<char>, PeerConnection> {
        table_map(self.connections@, conn_key())
    }

    /// Device bindings by session id.
    pub closed spec fn bindings(&self) -> Map<Seq<char>, DeviceBinding> {
        table_map(self.connection_to_device@, binding_key())
    }

    /// Video streams by stream id.
    pub closed spec fn stream_table(&self) -> Map<Seq<char>, VideoStream> {
        table_map(self.streams@, stream_key())
    }

    pub closed spec fn wf(&self) -> bool {
        &&& keys_unique(self.connections@, conn_key())
        &&& keys_unique(self.connection_to_device@, binding_key())
        &&& keys_unique(self.streams@, stream_key())
    }

    /// A manager with no session, binding or stream.
    pub fn new() -> (r: WebRTCManager)
        ensures
            r.wf(),
            r.conns() == Map::<Seq<char>, PeerConnection>::empty(),
            r.bindings() == Map::<Seq<char>, DeviceBinding>::empty(),
            r.stream_table() == Map::<Seq<char>, VideoStream>::empty(),
    {
        let r = WebRTCManager { connections: Vec::new(), streams: Vec::new(), connection_to_device: Vec::new() };
        assert(r.conns() =~= Map::<Seq<char>, PeerConnection>::empty());
        assert(r.bindings() =~= Map::<Seq<char>, DeviceBinding>::empty());
        assert(r.stream_table() =~= Map::<Seq<char>, VideoStream>::empty());
        r
    }

    fn position_of_connection(&self, id: &String) -> (r: Option<usize>)
        requires
            self.wf(),
        ensures
            r is None ==> !self.conns().dom().contains(id@),
            r is Some ==> r->Some_0 < self.connections@.len() && self.connections@[r->Some_0 as int].id@
                == id@ && self.conns().dom().contains(id@) && self.conns()[id@]
                == self.connections@[r->Some_0 as int],
    {
        let mut i: usize = 0;
        while i < self.connections.len()
            invariant
                self.wf(),
                i <= self.connections@.len(),
                forall|k: int| 0 <= k < i ==> (#[trigger] self.connections@[k]).id@ != id@,
            decreases self.connections@.len() - i,
        {
            if self.connections[i].id == *id {
                proof {
                    lemma_table_index(self.connections@, conn_key(), i as int);
                }
                return Some(i);
            }
            i += 1;
        }
        None
    }

    fn position_of_binding(&self, id: &String) -> (r: Option<usize>)
        requires
            self.wf(),
        ensures
            r is None ==> !self.bindings().dom().contains(id@),
            r is Some ==> r->Some_0 < self.connection_to_device@.len()
                && self.connection_to_device@[r->Some_0 as int].connection_id@ == id@
                && self.bindings().dom().contains(id@) && self.bindings()[id@]
                == self.connection_to_device@[r->Some_0 as int],
    {
        let mut i: usize = 0;
        while i < self.connection_to_device.len()
            invariant
                self.wf(),
                i <= self.connection_to_device@.len(),
                forall|k: int|
                    0 <= k < i ==> (#[trigger] self.connection_to_device@[k]).connection_id@ != id@,
            decreases self.connection_to_device@.len() - i,
        {
            if self.connection_to_device[i].connection_id == *id {
                proof {
                    lemma_table_index(self.connection_to_device@, binding_key(), i as int);
                }
                return Some(i);
            }
            i += 1;
        }
        None
    }

    fn position_of_stream(&self, id: &String) -> (r: Option<usize>)
        requires
            self.wf(),
        ensures
            r is None ==> !self.stream_table().dom().contains(id@),
            r is Some ==> r->Some_0 < self.streams@.len() && self.streams@[r->Some_0 as int].stream_id@
                == id@ && self.stream_table().dom().contains(id@) && self.stream_table()[id@]
                == self.streams@[r->Some_0 as int],
    {
        let mut i: usize = 0;
        while i < self.streams.len()
            invariant
                self.wf(),
                i <= self.streams@.len(),
                forall|k: int| 0 <= k < i ==> (#[trigger] self.streams@[k]).stream_id@ != id@,
            decreases self.streams@.len() - i,
        {
            if self.streams[i].stream_id == *id {
                proof {
                    lemma_table_index(self.streams@, stream_key(), i as int);
                }
                return Some(i);
            }
            i += 1;
        }
        None
    }

    /// Records a new session whose connection the engine has just built. An id already
    /// in use is refused and changes nothing.
    pub fn register_connection(&mut self, id: String) -> (r: Result<()>)
        requires
            old(self).wf(),
        ensures
            final(self).wf(),
            final(self).bindings() == old(self).bindings(),
            final(self).stream_table() == old(self).stream_table(),
            old(self).conns().dom().contains(id@) ==> r == Err::<(), Error>(Error::IdInUse(id))
                && final(self).conns() == old(self).conns(),
            !old(self).conns().dom().contains(id@) ==> r is Ok && final(self).conns() == old(self).conns().insert(id@, fresh_connection(id)),
    {
        if self.position_of_connection(&id).is_some() {
            return Err(Error::IdInUse(id));
        }
        let conn = PeerConnection {
            id,
            has_video_track: false,
            local_description: None,
            remote_description: None,
            state: ConnectionState::New,
        };
        proof {
            lemma_table_push(self.connections@, conn_key(), conn);
        }
        self.connections.push(conn);
        Ok(())
    }

    /// Creates a session under a freshly generated id, which is returned.
    pub fn create_peer_connection(&mut self) -> (r: Result<String>)
        requires
            old(self).wf(),
        ensures
            final(self).wf(),
            final(self).bindings() == old(self).bindings(),
            final(self).stream_table() == old(self).stream_table(),
            r is Err ==> final(self).conns() == old(self).conns() && (r matches Err(
                Error::IdInUse(_),
            )),
            r is Ok ==> !old(self).conns().dom().contains(r->Ok_0@) && final(self).conns() == old(self).conns().insert(r->Ok_0@, fresh_connection(r->Ok_0)),
    {
        let id = new_session_id();
        let kept = id.clone();
        match self.register_connection(id) {
            Ok(()) => Ok(kept),
            Err(e) => Err(e),
        }
    }

    /// A snapshot of the session with this id.
    pub fn get_connection(&self, id: &String) -> (r: Result<PeerConnection>)
        requires
            self.wf(),
        ensures
            !self.conns().dom().contains(id@) ==> r == Err::<PeerConnection, Error>(
                Error::SessionNotFound(*id),
            ),
            self.conns().dom().contains(id@) ==> r == Ok::<PeerConnection, Error>(
                self.conns()[id@],
            ),
    {
        match self.position_of_connection(id) {
            None => Err(Error::SessionNotFound(id.clone())),
            Some(i) => Ok(self.connections[i].snapshot()),
        }
    }

    /// The session's connection state, as a snapshot string.
    pub fn get_connection_state(&self, id: &String) -> (r: Result<String>)
        requires
            self.wf(),
        ensures
            !self.conns().dom().contains(id@) ==> r == Err::<String, Error>(
                Error::SessionNotFound(*id),
            ),
            self.conns().dom().contains(id@) ==> r is Ok && r->Ok_0@ == connection_state_tag(
                self.conns()[id@].state,
            ),
    {
        match self.position_of_connection(id) {
            None => Err(Error::SessionNotFound(id.clone())),
            Some(i) => Ok(self.connections[i].state.tag()),
        }
    }

    /// Number of video tracks the session has: never more than one.
    pub fn video_track_count(&self, id: &String) -> (r: Result<usize>)
        requires
            self.wf(),
        ensures
            !self.conns().dom().contains(id@) ==> r == Err::<usize, Error>(
                Error::SessionNotFound(*id),
            ),
            self.conns().dom().contains(id@) ==> r == Ok::<usize, Error>(
                track_count(self.conns()[id@]) as usize,
            ),
            r is Ok ==> r->Ok_0 <= 1,
    {
        match self.position_of_connection(id) {
            None => Err(Error::SessionNotFound(id.clone())),
            Some(i) => if self.connections[i].has_video_track {
                Ok(1)
            } else {
                Ok(0)
            },
        }
    }

    /// Replaces the session at position `i` by a record with the same id.
    fn replace_connection(&mut self, i: usize, c: PeerConnection)
        requires
            old(self).wf(),
            i < old(self).connections@.len(),
            c.id@ == old(self).connections@[i as int].id@,
        ensures
            final(self).wf(),
            final(self).conns() == old(self).conns().insert(c.id@, c),
            final(self).bindings() == old(self).bindings(),
            final(self).stream_table() == old(self).stream_table(),
    {
        proof {
            lemma_table_update(self.connections@, conn_key(), i as int, c);
        }
        self.connections.set(i, c);
    }

    /// Records the session's one outbound video track. A second call finds it there and
    /// changes nothing; an unknown session is refused.
    pub fn attach_h264_video_track(&mut self, id: &String) -> (r: Result<TrackAttach>)
        requires
            old(self).wf(),
        ensures
            final(self).wf(),
            final(self).bindings() == old(self).bindings(),
            final(self).stream_table() == old(self).stream_table(),
            !old(self).conns().dom().contains(id@) ==> r == Err::<TrackAttach, Error>(
                Error::SessionNotFound(*id),
            ) && final(self).conns() == old(self).conns(),
            old(self).conns().dom().contains(id@) && old(self).conns()[id@].has_video_track ==> r
                == Ok::<TrackAttach, Error>(TrackAttach::AlreadyAttached) && final(self).conns()
                == old(self).conns(),
            old(self).conns().dom().contains(id@) && !old(self).conns()[id@].has_video_track ==> r
                == Ok::<TrackAttach, Error>(TrackAttach::Created) && final(self).conns() == old(self).conns().insert(id@, PeerConnection { has_video_track: true, ..old(self).conns()[id@] }),
    {
        match self.position_of_connection(id) {
            None => Err(Error::SessionNotFound(id.clone())),
            Some(i) => {
                if self.connections[i].has_video_track {
                    return Ok(TrackAttach::AlreadyAttached);
                }
                let mut c = self.connections[i].snapshot();
                c.has_video_track = true;
                self.replace_connection(i, c);
                Ok(TrackAttach::Created)
            },
        }
    }

    /// Forgets a session's video track, where the engine failed to create the one just
    /// recorded. An unknown session is refused.
    pub fn detach_video_track(&mut self, id: &String) -> (r: Result<()>)
        requires
            old(self).wf(),
        ensures
            final(self).wf(),
            final(self).bindings() == old(self).bindings(),
            final(self).stream_table() == old(self).stream_table(),
            !old(self).conns().dom().contains(id@) ==> r == Err::<(), Error>(
                Error::SessionNotFound(*id),
            ) && final(self).conns() == old(self).conns(),
            old(self).conns().dom().contains(id@) ==> r is Ok && final(self).conns() == old(self).conns().insert(id@, PeerConnection { has_video_track: false, ..old(self).conns()[id@] }),
    {
        match self.position_of_connection(id) {
            None => Err(Error::SessionNotFound(id.clone())),
            Some(i) => {
                let mut c = self.connections[i].snapshot();
                c.has_video_track = false;
                self.replace_connection(i, c);
                Ok(())
            },
        }
    }

    /// Checks that the session exists and has its track, the way the streaming bridge
    /// needs it; the same as `attach_h264_video_track`.
    pub fn attach_receiver_to_connection(&mut self, id: &String) -> (r: Result<TrackAttach>)
        requires
            old(self).wf(),
        ensures
            final(self).wf(),
            final(self).bindings() == old(self).bindings(),
            final(self).stream_table() == old(self).stream_table(),
            !old(self).conns().dom().contains(id@) ==> r == Err::<TrackAttach, Error>(
                Error::SessionNotFound(*id),
            ) && final(self).conns() == old(self).conns(),
            old(self).conns().dom().contains(id@) ==> r is Ok && final(self).conns() == old(self).conns().insert(id@, PeerConnection { has_video_track: true, ..old(self).conns()[id@] }),
    {
        let r = self.attach_h264_video_track(id);
        proof {
            if old(self).conns().dom().contains(id@) && old(self).conns()[id@].has_video_track {
                assert(old(self).conns().insert(id@, PeerConnection { has_video_track: true, ..old(self).conns()[id@] }) =~= old(self).conns());
            }
        }
        r
    }

    /// Records the type of the local description the engine has just committed.
    pub fn record_local_description(&mut self, id: &String, sdp_type: SdpType) -> (r: Result<()>)
        requires
            old(self).wf(),
        ensures
            final(self).wf(),
            final(self).bindings() == old(self).bindings(),
            final(self).stream_table() == old(self).stream_table(),
            !old(self).conns().dom().contains(id@) ==> r == Err::<(), Error>(
                Error::SessionNotFound(*id),
            ) && final(self).conns() == old(self).conns(),
            old(self).conns().dom().contains(id@) ==> r is Ok && final(self).conns() == old(self).conns().insert(
                id@,
                PeerConnection { local_description: Some(sdp_type), ..old(self).conns()[id@] },
            ),
    {
        match self.position_of_connection(id) {
            None => Err(Error::SessionNotFound(id.clone())),
            Some(i) => {
                let mut c = self.connections[i].snapshot();
                c.local_description = Some(sdp_type);
                self.replace_connection(i, c);
                Ok(())
            },
        }
    }

    /// Records the type of the remote description the engine has just applied.
    pub fn record_remote_description(&mut self, id: &String, sdp_type: SdpType) -> (r: Result<()>)
        requires
            old(self).wf(),
        ensures
            final(self).wf(),
            final(self).bindings() == old(self).bindings(),
            final(self).stream_table() == old(self).stream_table(),
            !old(self).conns().dom().contains(id@) ==> r == Err::<(), Error>(
                Error::SessionNotFound(*id),
            ) && final(self).conns() == old(self).conns(),
            old(self).conns().dom().contains(id@) ==> r is Ok && final(self).conns() == old(self).conns().insert(
                id@,
                PeerConnection { remote_description: Some(sdp_type), ..old(self).conns()[id@] },
            ),
    {
        match self.position_of_connection(id) {
            None => Err(Error::SessionNotFound(id.clone())),
            Some(i) => {
                let mut c = self.connections[i].snapshot();
                c.remote_description = Some(sdp_type);
                self.replace_connection(i, c);
                Ok(())
            },
        }
    }

    /// Records the connection state the engine reported for the session.
    pub fn set_connection_state(&mut self, id: &String, state: ConnectionState) -> (r: Result<()>)
        requires
            old(self).wf(),
        ensures
            final(self).wf(),
            final(self).bindings() == old(self).bindings(),
            final(self).stream_table() == old(self).stream_table(),
            !old(self).conns().dom().contains(id@) ==> r == Err::<(), Error>(
                Error::SessionNotFound(*id),
            ) && final(self).conns() == old(self).conns(),
            old(self).conns().dom().contains(id@) ==> r is Ok && final(self).conns() == old(self).conns().insert(id@, PeerConnection { state, ..old(self).conns()[id@] }),
    {
        match self.position_of_connection(id) {
            None => Err(Error::SessionNotFound(id.clone())),
            Some(i) => {
                let mut c = self.connections[i].snapshot();
                c.state = state;
                self.replace_connection(i, c);
                Ok(())
            },
        }
    }

    /// Reads a remote description for a known session; the engine applies it, and only
    /// then is it recorded. An unknown session or an unsupported type is refused, and
    /// nothing changes either way.
    pub fn prepare_remote_description(
        &self,
        id: &String,
        description: SessionDescriptionData,
    ) -> (r: Result<SessionDescription>)
        requires
            self.wf(),
        ensures
            !self.conns().dom().contains(id@) ==> r == Err::<SessionDescription, Error>(
                Error::SessionNotFound(*id),
            ),
            self.conns().dom().contains(id@) && sdp_type_of(lower_of(description.sdp_type@)) is Some
                ==> r == Ok::<SessionDescription, Error>(
                SessionDescription {
                    sdp_type: sdp_type_of(lower_of(description.sdp_type@))->Some_0,
                    sdp: description.sdp,
                },
            ),
            self.conns().dom().contains(id@) && sdp_type_of(lower_of(description.sdp_type@)) is None
                ==> (r matches Err(Error::UnsupportedDescriptionType(t)) && t@ == lower_of(
                description.sdp_type@,
            )),
            self.conns().dom().contains(id@) && is_lower_ascii(description.sdp_type@)
                && sdp_type_of(description.sdp_type@) is Some ==> r == Ok::<
                SessionDescription,
                Error,
            >(
                SessionDescription {
                    sdp_type: sdp_type_of(description.sdp_type@)->Some_0,
                    sdp: description.sdp,
                },
            ),
    {
        if self.position_of_connection(id).is_none() {
            return Err(Error::SessionNotFound(id.clone()));
        }
        description.parse()
    }

    /// Checks that a session exists before a candidate or an answer is handed to the
    /// engine for it.
    pub fn require_connection(&self, id: &String) -> (r: Result<()>)
        requires
            self.wf(),
        ensures
            !self.conns().dom().contains(id@) ==> r == Err::<(), Error>(Error::SessionNotFound(*id)),
            self.conns().dom().contains(id@) ==> r is Ok,
    {
        match self.position_of_connection(id) {
            None => Err(Error::SessionNotFound(id.clone())),
            Some(_) => Ok(()),
        }
    }

    /// Builds the sample to write on the session's track: the access unit and how long
    /// it lasts. The session must exist and have its track.
    pub fn push_h264_sample(&self, id: &String, data: Vec<u8>, duration_ms: u64) -> (r: Result<
        Sample,
    >)
        requires
            self.wf(),
        ensures
            !self.conns().dom().contains(id@) ==> r == Err::<Sample, Error>(
                Error::SessionNotFound(*id),
            ),
            self.conns().dom().contains(id@) && !self.conns()[id@].has_video_track ==> r == Err::<
                Sample,
                Error,
            >(Error::NoVideoTrack(*id)),
            self.conns().dom().contains(id@) && self.conns()[id@].has_video_track ==> r == Ok::<
                Sample,
                Error,
            >(Sample { data, duration_ms }),
    {
        match self.position_of_connection(id) {
            None => Err(Error::SessionNotFound(id.clone())),
            Some(i) => if self.connections[i].has_video_track {
                Ok(Sample { data, duration_ms })
            } else {
                Err(Error::NoVideoTrack(id.clone()))
            },
        }
    }

    /// Records which device feeds the session, replacing an earlier binding.
    pub fn register_device_for_connection(&mut self, connection_id: String, device_id: String) -> (r:
        Result<()>)
        requires
            old(self).wf(),
        ensures
            final(self).wf(),
            r is Ok,
            final(self).conns() == old(self).conns(),
            final(self).stream_table() == old(self).stream_table(),
            final(self).bindings() == old(self).bindings().insert(
                connection_id@,
                DeviceBinding { connection_id, device_id },
            ),
    {
        let binding = DeviceBinding { connection_id, device_id };
        match self.position_of_binding(&binding.connection_id) {
            Some(i) => {
                proof {
                    lemma_table_update(self.connection_to_device@, binding_key(), i as int, binding);
                }
                self.connection_to_device.set(i, binding);
            },
            None => {
                proof {
                    lemma_table_push(self.connection_to_device@, binding_key(), binding);
                }
                self.connection_to_device.push(binding);
            },
        }
        Ok(())
    }

    /// The device bound to the session, if any.
    pub fn get_device_for_connection(&self, connection_id: &String) -> (r: Option<String>)
        requires
            self.wf(),
        ensures
            !self.bindings().dom().contains(connection_id@) ==> r is None,
            self.bindings().dom().contains(connection_id@) ==> r == Some(
                self.bindings()[connection_id@].device_id,
            ),
    {
        match self.position_of_binding(connection_id) {
            None => None,
            Some(i) => Some(self.connection_to_device[i].device_id.clone()),
        }
    }

    /// Closes a session: removes it and its device binding. A session id with a binding
    /// but no live connection is accepted; only an id unknown to both is refused. The
    /// outcome says whether the engine must close a connection, and which device fed it.
    pub fn remove_connection(&mut self, id: &String) -> (r: Result<CloseOutcome>)
        requires
            old(self).wf(),
        ensures
            final(self).wf(),
            final(self).stream_table() == old(self).stream_table(),
            !old(self).conns().dom().contains(id@) && !old(self).bindings().dom().contains(id@)
                ==> r == Err::<CloseOutcome, Error>(Error::SessionNotFound(*id)) && final(self).conns() == old(self).conns() && final(self).bindings() == old(self).bindings(),
            old(self).conns().dom().contains(id@) || old(self).bindings().dom().contains(id@)
                ==> r is Ok,
            r is Ok ==> {
                &&& final(self).conns() == old(self).conns().remove(id@)
                &&& final(self).bindings() == old(self).bindings().remove(id@)
                &&& r->Ok_0.close_connection == old(self).conns().dom().contains(id@)
                &&& old(self).bindings().dom().contains(id@) ==> r->Ok_0.device_id == Some(
                    old(self).bindings()[id@].device_id,
                )
                &&& !old(self).bindings().dom().contains(id@) ==> r->Ok_0.device_id is None
            },
    {
        let device_id = self.get_device_for_connection(id);
        let conn_pos = self.position_of_connection(id);
        let binding_pos = self.position_of_binding(id);
        if conn_pos.is_none() && binding_pos.is_none() {
            return Err(Error::SessionNotFound(id.clone()));
        }
        let close_connection = match conn_pos {
            Some(i) => {
                proof {
                    lemma_table_remove(self.connections@, conn_key(), i as int);
                }
                self.connections.remove(i);
                true
            },
            None => {
                assert(self.conns().remove(id@) =~= self.conns());
                false
            },
        };
        match binding_pos {
            Some(i) => {
                proof {
                    lemma_table_remove(self.connection_to_device@, binding_key(), i as int);
                }
                self.connection_to_device.remove(i);
            },
            None => {
                assert(self.bindings().remove(id@) =~= self.bindings());
            },
        }
        Ok(CloseOutcome { close_connection, device_id })
    }

    /// Registers a video stream, replacing one with the same id.
    pub fn start_streaming(
        &mut self,
        stream_id: String,
        device_id: String,
        connection_id: Option<String>,
    ) -> (r: Result<()>)
        requires
            old(self).wf(),
        ensures
            final(self).wf(),
            r is Ok,
            final(self).conns() == old(self).conns(),
            final(self).bindings() == old(self).bindings(),
            final(self).stream_table() == old(self).stream_table().insert(
                stream_id@,
                VideoStream { stream_id, device_id, connection_id },
            ),
    {
        let stream = VideoStream { stream_id, device_id, connection_id };
        match self.position_of_stream(&stream.stream_id) {
            Some(i) => {
                proof {
                    lemma_table_update(self.streams@, stream_key(), i as int, stream);
                }
                self.streams.set(i, stream);
            },
            None => {
                proof {
                    lemma_table_push(self.streams@, stream_key(), stream);
                }
                self.streams.push(stream);
            },
        }
        Ok(())
    }

    /// Forgets a video stream; an unknown id is not an error.
    pub fn stop_streaming(&mut self, stream_id: &String) -> (r: Result<()>)
        requires
            old(self).wf(),
        ensures
            final(self).wf(),
            r is Ok,
            final(self).conns() == old(self).conns(),
            final(self).bindings() == old(self).bindings(),
            final(self).stream_table() == old(self).stream_table().remove(stream_id@),
    {
        match self.position_of_stream(stream_id) {
            Some(i) => {
                proof {
                    lemma_table_remove(self.streams@, stream_key(), i as int);
                }
                self.streams.remove(i);
            },
            None => {
                assert(self.stream_table().remove(stream_id@) =~= self.stream_table());
            },
        }
        Ok(())
    }

    /// The video stream with this id.
    pub fn get_stream(&self, stream_id: &String) -> (r: Result<VideoStream>)
        requires
            self.wf(),
        ensures
            !self.stream_table().dom().contains(stream_id@) ==> r == Err::<VideoStream, Error>(
                Error::NoActiveStream(*stream_id),
            ),
            self.stream_table().dom().contains(stream_id@) ==> r == Ok::<VideoStream, Error>(
                self.stream_table()[stream_id@],
            ),
    {
        match self.position_of_stream(stream_id) {
            None => Err(Error::NoActiveStream(stream_id.clone())),
            Some(i) => {
                let v = &self.streams[i];
                let connection_id = match &v.connection_id {
                    Some(c) => Some(c.clone()),
                    None => None,
                };
                Ok(VideoStream { stream_id: v.stream_id.clone(), device_id: v.device_id.clone(), connection_id })
            },
        }
    }
}

} // verus!
