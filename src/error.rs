use vstd::prelude::*;

verus! {

/// The broad class an [`Error`] belongs to.
#[derive(Debug, Clone, Copy, PartialEq, Eq, Structural)]
pub enum ErrorKind {
    /// A device, stream or session is unknown, or is already active.
    Resource,
    /// A session description could not be negotiated.
    Negotiation,
    /// A raw frame could not be converted.
    Conversion,
    /// A frame could not be encoded.
    Encoding,
    /// A frame could not be handed to its consumer.
    ChannelDelivery,
    /// The capture provider reported a failure.
    Camera,
}

/// Every failure the library reports.
#[derive(Debug, Clone, PartialEq, Eq)]
pub enum Error {
    /// The capture provider failed; the text says how.
    CameraError(String),
    /// No capture device has this id.
    DeviceNotFound(String),
    /// A stream is already running on this device.
    StreamingAlreadyActive(String),
    /// No stream has this session id.
    NoActiveStream(String),
    /// A freshly generated id is already taken by a live entry.
    IdInUse(String),
    /// No transport session has this id.
    SessionNotFound(String),
    /// The transport session has no video track to write to.
    NoVideoTrack(String),
    /// A session description declared a type other than offer or answer.
    UnsupportedDescriptionType(String),
    /// The transport engine refused a negotiation step.
    NegotiationFailed(String),
    /// The raw frame carries a pixel format tag the converter does not know.
    UnsupportedPixelFormat(String),
    /// The raw buffer is smaller than its dimensions require.
    InvalidBufferSize { expected: u128, received: u128 },
    /// The pixel converter rejected the frame.
    ConversionFailed,
    /// The encoder rejected the frame.
    EncodingFailed,
    /// The capture system could not be brought up.
    InitializationFailed(String),
    /// The consumer of a frame channel has gone away.
    ChannelSendError,
}

impl Error {
    pub open spec fn spec_kind(&self) -> ErrorKind {
        match self {
            Error::CameraError(_) => ErrorKind::Camera,
            Error::InitializationFailed(_) => ErrorKind::Camera,
            Error::DeviceNotFound(_) => ErrorKind::Resource,
            Error::StreamingAlreadyActive(_) => ErrorKind::Resource,
            Error::NoActiveStream(_) => ErrorKind::Resource,
            Error::IdInUse(_) => ErrorKind::Resource,
            Error::SessionNotFound(_) => ErrorKind::Resource,
            Error::NoVideoTrack(_) => ErrorKind::Resource,
            Error::UnsupportedDescriptionType(_) => ErrorKind::Negotiation,
            Error::NegotiationFailed(_) => ErrorKind::Negotiation,
            Error::UnsupportedPixelFormat(_) => ErrorKind::Conversion,
            Error::InvalidBufferSize { .. } => ErrorKind::Conversion,
            Error::ConversionFailed => ErrorKind::Conversion,
            Error::EncodingFailed => ErrorKind::Encoding,
            Error::ChannelSendError => ErrorKind::ChannelDelivery,
        }
    }

    /// The class of this error.
    #[verifier::when_used_as_spec(spec_kind)]
    pub fn kind(&self) -> (r: ErrorKind)
        ensures
            r == self.spec_kind(),
    {
        match self {
            Error::CameraError(_) => ErrorKind::Camera,
            Error::InitializationFailed(_) => ErrorKind::Camera,
            Error::DeviceNotFound(_) => ErrorKind::Resource,
            Error::StreamingAlreadyActive(_) => ErrorKind::Resource,
            Error::NoActiveStream(_) => ErrorKind::Resource,
            Error::IdInUse(_) => ErrorKind::Resource,
            Error::SessionNotFound(_) => ErrorKind::Resource,
            Error::NoVideoTrack(_) => ErrorKind::Resource,
            Error::UnsupportedDescriptionType(_) => ErrorKind::Negotiation,
            Error::NegotiationFailed(_) => ErrorKind::Negotiation,
            Error::UnsupportedPixelFormat(_) => ErrorKind::Conversion,
            Error::InvalidBufferSize { .. } => ErrorKind::Conversion,
            Error::ConversionFailed => ErrorKind::Conversion,
            Error::EncodingFailed => ErrorKind::Encoding,
            Error::ChannelSendError => ErrorKind::ChannelDelivery,
        }
    }
}

/// Result type of the library.
pub type Result<T> = core::result::Result<T, Error>;

} // verus!
