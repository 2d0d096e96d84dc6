//! Status codes returned by the encoder interface and their ergonomic
//! error-handling wrappers.

use vstd::prelude::*;

verus! {

/// A raw status code returned by an encoder interface call.
#[allow(non_camel_case_types)]
#[derive(Clone, Copy, Debug, Hash, PartialEq, Eq, Structural)]
pub enum NVENCSTATUS {
    /// The call completed successfully.
    NV_ENC_SUCCESS,
    /// No encode capable devices were detected.
    NV_ENC_ERR_NO_ENCODE_DEVICE,
    /// The device passed by the client is not supported.
    NV_ENC_ERR_UNSUPPORTED_DEVICE,
    /// The encoder device supplied by the client is not valid.
    NV_ENC_ERR_INVALID_ENCODERDEVICE,
    /// The device passed to the call is invalid.
    NV_ENC_ERR_INVALID_DEVICE,
    /// The device passed to the call is no longer available and needs to be
    /// reinitialized.
    NV_ENC_ERR_DEVICE_NOT_EXIST,
    /// One or more of the pointers passed to the call is invalid.
    NV_ENC_ERR_INVALID_PTR,
    /// The completion event passed in the encode call is invalid.
    NV_ENC_ERR_INVALID_EVENT,
    /// One or more of the parameters passed to the call is invalid.
    NV_ENC_ERR_INVALID_PARAM,
    /// A call was made in the wrong sequence or order.
    NV_ENC_ERR_INVALID_CALL,
    /// The call failed because it was unable to allocate enough memory.
    NV_ENC_ERR_OUT_OF_MEMORY,
    /// The encoder has not been initialized, or initialization has failed.
    NV_ENC_ERR_ENCODER_NOT_INITIALIZED,
    /// An unsupported parameter was passed by the client.
    NV_ENC_ERR_UNSUPPORTED_PARAM,
    /// A non-blocking lock call found the buffer still in use; the client
    /// should retry after a few milliseconds.
    NV_ENC_ERR_LOCK_BUSY,
    /// The size of the user buffer passed by the client is insufficient.
    NV_ENC_ERR_NOT_ENOUGH_BUFFER,
    /// An invalid structure version was used by the client.
    NV_ENC_ERR_INVALID_VERSION,
    /// Mapping of the client-provided input resource failed.
    NV_ENC_ERR_MAP_FAILED,
    /// The encode driver requires more input buffers before it can produce an
    /// output bitstream; not a fatal condition.
    NV_ENC_ERR_NEED_MORE_INPUT,
    /// The hardware encoder is busy; the client should retry after a few
    /// milliseconds.
    NV_ENC_ERR_ENCODER_BUSY,
    /// The completion event has not been registered with the encoder driver.
    NV_ENC_ERR_EVENT_NOT_REGISTERD,
    /// An unknown internal error has occurred.
    NV_ENC_ERR_GENERIC,
    /// The client is attempting to use a feature that is not available for
    /// the license type of the current system.
    NV_ENC_ERR_INCOMPATIBLE_CLIENT_KEY,
    /// The client is attempting to use a feature that is not implemented for
    /// the current version.
    NV_ENC_ERR_UNIMPLEMENTED,
    /// Registering the resource failed.
    NV_ENC_ERR_RESOURCE_REGISTER_FAILED,
    /// The client is attempting to unregister a resource that has not been
    /// successfully registered.
    NV_ENC_ERR_RESOURCE_NOT_REGISTERED,
    /// The client is attempting to unmap a resource that has not been
    /// successfully mapped.
    NV_ENC_ERR_RESOURCE_NOT_MAPPED,
    /// The encode driver requires more output buffers to write an output
    /// bitstream; not a fatal condition.
    NV_ENC_ERR_NEED_MORE_OUTPUT,
}

/// The kind of an encoder error, mirroring every non-success status code.
#[derive(Clone, Copy, Debug, Hash, PartialEq, Eq, PartialOrd, Ord, Structural)]
pub enum ErrorKind {
    /// No encode capable devices were detected.
    NoEncodeDevice,
    /// The device passed by the client is not supported.
    UnsupportedDevice,
    /// The encoder device supplied by the client is not valid.
    InvalidEncoderDevice,
    /// The device passed to the call is invalid.
    InvalidDevice,
    /// The device passed to the call is no longer available; the session and
    /// encoder must be discarded and recreated from scratch.
    DeviceNotExist,
    /// One or more of the pointers passed to the call is invalid.
    InvalidPtr,
    /// The completion event passed in the encode call is invalid.
    InvalidEvent,
    /// One or more of the parameters passed to the call is invalid.
    InvalidParam,
    /// A call was made in the wrong sequence or order.
    InvalidCall,
    /// The call was unable to allocate enough memory.
    OutOfMemory,
    /// The encoder has not been initialized, or initialization has failed.
    EncoderNotInitialized,
    /// An unsupported parameter was passed by the client.
    UnsupportedParam,
    /// A non-blocking lock found the buffer still in use; recoverable, the
    /// client should retry after a few milliseconds.
    LockBusy,
    /// The size of the user buffer passed by the client is insufficient.
    NotEnoughBuffer,
    /// An invalid structure version was used by the client.
    InvalidVersion,
    /// Mapping of the client-provided input resource failed.
    MapFailed,
    /// The encode driver requires more input buffers before it can produce
    /// output. Not truly an error: the client must keep submitting frames and
    /// drain output bitstreams in submission order once a submission is
    /// accepted.
    NeedMoreInput,
    /// The hardware encoder is busy; recoverable, the client should retry the
    /// identical call after a few milliseconds.
    EncoderBusy,
    /// The completion event has not been registered with the encoder driver.
    EventNotRegistered,
    /// An unknown internal error has occurred.
    Generic,
    /// The client is attempting to use a feature that is not available for
    /// the license type of the current system.
    IncompatibleClientKey,
    /// The client is attempting to use a feature that is not implemented for
    /// the current version.
    Unimplemented,
    /// Registering the resource failed.
    ResourceRegisterFailed,
    /// The client is attempting to unregister a resource that has not been
    /// successfully registered.
    ResourceNotRegistered,
    /// The client is attempting to unmap a resource that has not been
    /// successfully mapped.
    ResourceNotMapped,
    /// The encode driver requires more output buffers to write an output
    /// bitstream; not a fatal condition.
    NeedMoreOutput,
}

/// The error kind corresponding to a non-success status code.
pub open spec fn spec_kind_of_status(status: NVENCSTATUS) -> ErrorKind
    recommends
        status != NVENCSTATUS::NV_ENC_SUCCESS,
{
    match status {
        NVENCSTATUS::NV_ENC_SUCCESS => ErrorKind::Generic,
        NVENCSTATUS::NV_ENC_ERR_NO_ENCODE_DEVICE => ErrorKind::NoEncodeDevice,
        NVENCSTATUS::NV_ENC_ERR_UNSUPPORTED_DEVICE => ErrorKind::UnsupportedDevice,
        NVENCSTATUS::NV_ENC_ERR_INVALID_ENCODERDEVICE => ErrorKind::InvalidEncoderDevice,
        NVENCSTATUS::NV_ENC_ERR_INVALID_DEVICE => ErrorKind::InvalidDevice,
        NVENCSTATUS::NV_ENC_ERR_DEVICE_NOT_EXIST => ErrorKind::DeviceNotExist,
        NVENCSTATUS::NV_ENC_ERR_INVALID_PTR => ErrorKind::InvalidPtr,
        NVENCSTATUS::NV_ENC_ERR_INVALID_EVENT => ErrorKind::InvalidEvent,
        NVENCSTATUS::NV_ENC_ERR_INVALID_PARAM => ErrorKind::InvalidParam,
        NVENCSTATUS::NV_ENC_ERR_INVALID_CALL => ErrorKind::InvalidCall,
        NVENCSTATUS::NV_ENC_ERR_OUT_OF_MEMORY => ErrorKind::OutOfMemory,
        NVENCSTATUS::NV_ENC_ERR_ENCODER_NOT_INITIALIZED => ErrorKind::EncoderNotInitialized,
        NVENCSTATUS::NV_ENC_ERR_UNSUPPORTED_PARAM => ErrorKind::UnsupportedParam,
        NVENCSTATUS::NV_ENC_ERR_LOCK_BUSY => ErrorKind::LockBusy,
        NVENCSTATUS::NV_ENC_ERR_NOT_ENOUGH_BUFFER => ErrorKind::NotEnoughBuffer,
        NVENCSTATUS::NV_ENC_ERR_INVALID_VERSION => ErrorKind::InvalidVersion,
        NVENCSTATUS::NV_ENC_ERR_MAP_FAILED => ErrorKind::MapFailed,
        NVENCSTATUS::NV_ENC_ERR_NEED_MORE_INPUT => ErrorKind::NeedMoreInput,
        NVENCSTATUS::NV_ENC_ERR_ENCODER_BUSY => ErrorKind::EncoderBusy,
        NVENCSTATUS::NV_ENC_ERR_EVENT_NOT_REGISTERD => ErrorKind::EventNotRegistered,
        NVENCSTATUS::NV_ENC_ERR_GENERIC => ErrorKind::Generic,
        NVENCSTATUS::NV_ENC_ERR_INCOMPATIBLE_CLIENT_KEY => ErrorKind::IncompatibleClientKey,
        NVENCSTATUS::NV_ENC_ERR_UNIMPLEMENTED => ErrorKind::Unimplemented,
        NVENCSTATUS::NV_ENC_ERR_RESOURCE_REGISTER_FAILED => ErrorKind::ResourceRegisterFailed,
        NVENCSTATUS::NV_ENC_ERR_RESOURCE_NOT_REGISTERED => ErrorKind::ResourceNotRegistered,
        NVENCSTATUS::NV_ENC_ERR_RESOURCE_NOT_MAPPED => ErrorKind::ResourceNotMapped,
        NVENCSTATUS::NV_ENC_ERR_NEED_MORE_OUTPUT => ErrorKind::NeedMoreOutput,
    }
}

impl ErrorKind {
    /// Converts a non-success status code into the corresponding error kind.
    /// Success has no error kind, so callers must rule it out first.
    pub fn from_status(status: NVENCSTATUS) -> (k: ErrorKind)
        requires
            status != NVENCSTATUS::NV_ENC_SUCCESS,
        ensures
            k == spec_kind_of_status(status),
    {
        match status {
            NVENCSTATUS::NV_ENC_SUCCESS => ErrorKind::Generic,
            NVENCSTATUS::NV_ENC_ERR_NO_ENCODE_DEVICE => ErrorKind::NoEncodeDevice,
            NVENCSTATUS::NV_ENC_ERR_UNSUPPORTED_DEVICE => ErrorKind::UnsupportedDevice,
            NVENCSTATUS::NV_ENC_ERR_INVALID_ENCODERDEVICE => ErrorKind::InvalidEncoderDevice,
            NVENCSTATUS::NV_ENC_ERR_INVALID_DEVICE => ErrorKind::InvalidDevice,
            NVENCSTATUS::NV_ENC_ERR_DEVICE_NOT_EXIST => ErrorKind::DeviceNotExist,
            NVENCSTATUS::NV_ENC_ERR_INVALID_PTR => ErrorKind::InvalidPtr,
            NVENCSTATUS::NV_ENC_ERR_INVALID_EVENT => ErrorKind::InvalidEvent,
            NVENCSTATUS::NV_ENC_ERR_INVALID_PARAM => ErrorKind::InvalidParam,
            NVENCSTATUS::NV_ENC_ERR_INVALID_CALL => ErrorKind::InvalidCall,
            NVENCSTATUS::NV_ENC_ERR_OUT_OF_MEMORY => ErrorKind::OutOfMemory,
            NVENCSTATUS::NV_ENC_ERR_ENCODER_NOT_INITIALIZED => ErrorKind::EncoderNotInitialized,
            NVENCSTATUS::NV_ENC_ERR_UNSUPPORTED_PARAM => ErrorKind::UnsupportedParam,
            NVENCSTATUS::NV_ENC_ERR_LOCK_BUSY => ErrorKind::LockBusy,
            NVENCSTATUS::NV_ENC_ERR_NOT_ENOUGH_BUFFER => ErrorKind::NotEnoughBuffer,
            NVENCSTATUS::NV_ENC_ERR_INVALID_VERSION => ErrorKind::InvalidVersion,
            NVENCSTATUS::NV_ENC_ERR_MAP_FAILED => ErrorKind::MapFailed,
            NVENCSTATUS::NV_ENC_ERR_NEED_MORE_INPUT => ErrorKind::NeedMoreInput,
            NVENCSTATUS::NV_ENC_ERR_ENCODER_BUSY => ErrorKind::EncoderBusy,
            NVENCSTATUS::NV_ENC_ERR_EVENT_NOT_REGISTERD => ErrorKind::EventNotRegistered,
            NVENCSTATUS::NV_ENC_ERR_GENERIC => ErrorKind::Generic,
            NVENCSTATUS::NV_ENC_ERR_INCOMPATIBLE_CLIENT_KEY => ErrorKind::IncompatibleClientKey,
            NVENCSTATUS::NV_ENC_ERR_UNIMPLEMENTED => ErrorKind::Unimplemented,
            NVENCSTATUS::NV_ENC_ERR_RESOURCE_REGISTER_FAILED => ErrorKind::ResourceRegisterFailed,
            NVENCSTATUS::NV_ENC_ERR_RESOURCE_NOT_REGISTERED => ErrorKind::ResourceNotRegistered,
            NVENCSTATUS::NV_ENC_ERR_RESOURCE_NOT_MAPPED => ErrorKind::ResourceNotMapped,
            NVENCSTATUS::NV_ENC_ERR_NEED_MORE_OUTPUT => ErrorKind::NeedMoreOutput,
        }
    }

    /// Holds for the recoverable, high-frequency kinds on whose hot retry
    /// path fetching a diagnostic string is skipped.
    pub open spec fn spec_skips_string(self) -> bool {
        self == ErrorKind::LockBusy || self == ErrorKind::EncoderBusy
            || self == ErrorKind::NeedMoreInput || self == ErrorKind::OutOfMemory
    }
}

/// A structured encoder error: a kind plus an optional diagnostic string.
///
/// The diagnostic string is omitted for the recoverable high-frequency kinds
/// (lock busy, encoder busy, need-more-input, out of memory) to keep the hot
/// retry path cheap, and also whenever the encoder has no diagnostic text.
#[derive(Clone, Debug, Hash, PartialEq, Eq)]
pub struct EncodeError {
    pub(crate) kind: ErrorKind,
    pub(crate) string: Option<String>,
}

impl EncodeError {
    /// The kind of this error.
    pub closed spec fn spec_kind(self) -> ErrorKind {
        self.kind
    }

    /// The optional diagnostic string of this error.
    pub closed spec fn spec_string(self) -> Option<Seq<char>> {
        match self.string {
            Some(s) => Some(s@),
            None => None,
        }
    }

    /// Builds an error of the given kind with no diagnostic string.
    pub(crate) fn bare(kind: ErrorKind) -> (e: EncodeError)
        ensures
            e.spec_kind() == kind,
            e.spec_string() is None,
    {
        EncodeError { kind, string: None }
    }

    /// Builds an error of the given kind carrying the given diagnostic text.
    pub(crate) fn with_text(kind: ErrorKind, text: String) -> (e: EncodeError)
        ensures
            e.spec_kind() == kind,
            e.spec_string() == Some(text@),
    {
        EncodeError { kind, string: Some(text) }
    }

    /// Getter for the error kind.
    pub fn kind(&self) -> (k: ErrorKind)
        ensures
            k == self.spec_kind(),
    {
        self.kind
    }

    /// Getter for the diagnostic string.
    pub fn string(&self) -> (r: Option<&str>)
        ensures
            match r {
                Some(s) => self.spec_string() == Some(s@),
                None => self.spec_string() is None,
            },
    {
        match &self.string {
            Some(s) => Some(s.as_str()),
            None => None,
        }
    }
}

impl NVENCSTATUS {
    /// Converts a status code to a `Result` without fetching a diagnostic
    /// string. Success becomes `Ok(())`; every other status becomes an error
    /// of the corresponding kind with no string attached. This is useful when
    /// no encoder is available yet, for example while the interface itself is
    /// being initialized.
    pub fn result_without_string(self) -> (r: Result<(), EncodeError>)
        ensures
            self == NVENCSTATUS::NV_ENC_SUCCESS <==> r is Ok,
            match r {
                Ok(()) => true,
                Err(e) => e.spec_kind() == spec_kind_of_status(self) && e.spec_string() is None,
            },
    {
        match self {
            NVENCSTATUS::NV_ENC_SUCCESS => Ok(()),
            err => Err(EncodeError { kind: ErrorKind::from_status(err), string: None }),
        }
    }
}

} // verus!
