//! The encoder handle: capability queries and the model hardware state.

use vstd::prelude::*;

use crate::guid::Guid;
use crate::params::{BufferFormat, EncodeConfig, PresetConfig, TuningInfo};
use crate::result::{EncodeError, ErrorKind, NVENCSTATUS, spec_kind_of_status};

verus! {

/// One call into the resource registration machinery, recorded in the order
/// the calls were made. The payload is the input slot the call concerned.
///
/// The log makes the mandated teardown order (unmap before unregister, and
/// unregister even when mapping fails) observable.
#[derive(Clone, Copy, Debug, Hash, PartialEq, Eq, Structural)]
pub enum ResourceEvent {
    /// The resource was registered with the encoder.
    Registered(usize),
    /// The registered resource was mapped into the encoder's input address
    /// space.
    Mapped(usize),
    /// The mapped resource was unmapped.
    Unmapped(usize),
    /// The registration was released.
    Unregistered(usize),
}

/// The capability table an [`Encoder`] is built from: which codecs, presets,
/// profiles and input formats the device supports, and what the capacity
/// queries report.
///
/// Each `*_capacity` field is the upper bound the corresponding counting
/// query reports; the hardware may then fill in fewer entries than that
/// bound, namely the entries of the accompanying list.
#[derive(Clone, Debug)]
pub struct Capabilities {
    /// The maximum interface version the driver supports, with the major
    /// version in bits 4 and up and the minor version in the low four bits.
    pub max_supported_version: u32,
    /// The upper bound reported for the number of supported codecs.
    pub encode_guid_capacity: u32,
    /// The codecs the device supports.
    pub encode_guids: Vec<Guid>,
    /// The upper bound reported for the number of supported presets.
    pub preset_guid_capacity: u32,
    /// The presets the device supports.
    pub preset_guids: Vec<Guid>,
    /// The upper bound reported for the number of supported profiles.
    pub profile_guid_capacity: u32,
    /// The profiles the device supports.
    pub profile_guids: Vec<Guid>,
    /// The upper bound reported for the number of supported input formats.
    pub input_format_capacity: u32,
    /// The input buffer formats the device supports.
    pub input_formats: Vec<BufferFormat>,
    /// The configuration template preset configuration queries return.
    pub preset_template: EncodeConfig,
}

/// The mathematical state of an [`Encoder`].
#[verifier::ext_equal]
pub ghost struct EncoderView {
    /// The driver's maximum supported interface version word.
    pub max_supported_version: u32,
    /// The upper bound reported for the number of supported codecs.
    pub encode_guid_capacity: u32,
    /// The codecs the device supports.
    pub encode_guids: Seq<Guid>,
    /// The upper bound reported for the number of supported presets.
    pub preset_guid_capacity: u32,
    /// The presets the device supports.
    pub preset_guids: Seq<Guid>,
    /// The upper bound reported for the number of supported profiles.
    pub profile_guid_capacity: u32,
    /// The profiles the device supports.
    pub profile_guids: Seq<Guid>,
    /// The upper bound reported for the number of supported input formats.
    pub input_format_capacity: u32,
    /// The input buffer formats the device supports.
    pub input_formats: Seq<BufferFormat>,
    /// The configuration template preset configuration queries return.
    pub preset_template: EncodeConfig,
    /// The diagnostic text the device would attach to the next fatal error.
    pub last_error: Seq<char>,
    /// How many of the next submissions the device answers with a transient
    /// busy status before accepting work again.
    pub busy_responses: int,
    /// How many of the next mapping attempts the device fails.
    pub map_failures: int,
    /// Every resource registration call made so far, oldest first.
    pub resource_log: Seq<ResourceEvent>,
}

/// A handle to a hardware encoder context.
///
/// The handle owns the model device state: the capability table it was built
/// from, the diagnostic text of the device, the injected transient faults,
/// and the log of resource registration calls. Start a session with
/// `Encoder::start_session` to encode frames.
#[derive(Debug)]
pub struct Encoder {
    pub(crate) caps: Capabilities,
    pub(crate) last_error: String,
    pub(crate) busy_responses: u32,
    pub(crate) map_failures: u32,
    pub(crate) resource_log: Vec<ResourceEvent>,
}

impl View for Encoder {
    type V = EncoderView;

    closed spec fn view(&self) -> EncoderView {
        EncoderView {
            max_supported_version: self.caps.max_supported_version,
            encode_guid_capacity: self.caps.encode_guid_capacity,
            encode_guids: self.caps.encode_guids@,
            preset_guid_capacity: self.caps.preset_guid_capacity,
            preset_guids: self.caps.preset_guids@,
            profile_guid_capacity: self.caps.profile_guid_capacity,
            profile_guids: self.caps.profile_guids@,
            input_format_capacity: self.caps.input_format_capacity,
            input_formats: self.caps.input_formats@,
            preset_template: self.caps.preset_template,
            last_error: self.last_error@,
            busy_responses: self.busy_responses as int,
            map_failures: self.map_failures as int,
            resource_log: self.resource_log@,
        }
    }
}

/// Holds when `e` is the error an encoder with diagnostic text `last_error`
/// reports for `kind`: the diagnostic string is attached exactly when the
/// kind is not on the hot retry path and the text is nonempty.
pub open spec fn spec_error_with(e: EncodeError, kind: ErrorKind, last_error: Seq<char>) -> bool {
    &&& e.spec_kind() == kind
    &&& e.spec_string() == if kind.spec_skips_string() || last_error.len() == 0 {
        None::<Seq<char>>
    } else {
        Some(last_error)
    }
}

/// Returns whether the guid list contains the given identifier.
fn contains_guid(list: &Vec<Guid>, g: Guid) -> (b: bool)
    ensures
        b == list@.contains(g),
{
    let mut i: usize = 0;
    while i < list.len()
        invariant
            i <= list@.len(),
            forall|j: int| 0 <= j < i ==> list@[j] != g,
        decreases list@.len() - i,
    {
        if list[i] == g {
            return true;
        }
        i += 1;
    }
    false
}

/// Returns whether the format list contains the given format.
fn contains_format(list: &Vec<BufferFormat>, f: BufferFormat) -> (b: bool)
    ensures
        b == list@.contains(f),
{
    let mut i: usize = 0;
    while i < list.len()
        invariant
            i <= list@.len(),
            forall|j: int| 0 <= j < i ==> list@[j] != f,
        decreases list@.len() - i,
    {
        if list[i] == f {
            return true;
        }
        i += 1;
    }
    false
}

/// Copies a guid list through the two-call counting idiom: allocate as many
/// entries as the capacity query reports (never fewer than the actual count),
/// fill in the actual entries, and truncate to the actual count.
fn query_guid_list(capacity: u32, list: &Vec<Guid>) -> (r: Vec<Guid>)
    ensures
        r@ == list@,
{
    let actual: usize = list.len();
    let reported: usize = if (capacity as usize) > actual {
        capacity as usize
    } else {
        actual
    };
    let filler = Guid { data1: 0, data2: 0, data3: 0, data4: 0 };
    let mut out: Vec<Guid> = vec![filler; reported];
    let mut i: usize = 0;
    while i < actual
        invariant
            actual == list@.len(),
            actual <= reported,
            out@.len() == reported,
            forall|j: int| 0 <= j < i ==> out@[j] == list@[j],
        decreases actual - i,
    {
        out.set(i, list[i]);
        i += 1;
    }
    out.truncate(actual);
    proof {
        assert(out@ =~= list@);
    }
    out
}

impl Encoder {
    /// Builds an encoder handle over a device with the given capability
    /// table. The fresh device carries no diagnostic text, no injected
    /// faults, and an empty resource log.
    pub fn new(caps: Capabilities) -> (e: Encoder)
        ensures
            e@ == (EncoderView {
                max_supported_version: caps.max_supported_version,
                encode_guid_capacity: caps.encode_guid_capacity,
                encode_guids: caps.encode_guids@,
                preset_guid_capacity: caps.preset_guid_capacity,
                preset_guids: caps.preset_guids@,
                profile_guid_capacity: caps.profile_guid_capacity,
                profile_guids: caps.profile_guids@,
                input_format_capacity: caps.input_format_capacity,
                input_formats: caps.input_formats@,
                preset_template: caps.preset_template,
                last_error: Seq::<char>::empty(),
                busy_responses: 0int,
                map_failures: 0int,
                resource_log: Seq::<ResourceEvent>::empty(),
            }),
    {
        let e = Encoder {
            caps,
            last_error: String::new(),
            busy_responses: 0,
            map_failures: 0,
            resource_log: Vec::new(),
        };
        e
    }

    /// Sets the diagnostic text the device attaches to subsequent fatal
    /// errors. This is a model device knob: on real hardware the driver
    /// writes this text.
    pub fn set_last_error(&mut self, text: String)
        ensures
            final(self)@ == (EncoderView { last_error: text@, ..old(self)@ }),
    {
        self.last_error = text;
    }

    /// Makes the device answer the next `count` submissions (encode calls,
    /// end-of-stream submissions) with a transient busy status. This is a
    /// model device knob for exercising the caller-driven retry protocol.
    pub fn inject_busy_responses(&mut self, count: u32)
        ensures
            final(self)@ == (EncoderView { busy_responses: count as int, ..old(self)@ }),
    {
        self.busy_responses = count;
    }

    /// Makes the device fail the next `count` attempts to map a registered
    /// resource. This is a model device knob for exercising the mandated
    /// cleanup of a half-registered resource.
    pub fn inject_map_failures(&mut self, count: u32)
        ensures
            final(self)@ == (EncoderView { map_failures: count as int, ..old(self)@ }),
    {
        self.map_failures = count;
    }

    /// The log of resource registration calls made through this encoder,
    /// oldest first.
    pub fn resource_log(&self) -> (log: &Vec<ResourceEvent>)
        ensures
            log@ == self@.resource_log,
    {
        &self.resource_log
    }

    /// Asks the device whether it is busy: consumes one budgeted busy answer
    /// if any is left and says so.
    pub(crate) fn consume_busy_response(&mut self) -> (busy: bool)
        ensures
            busy == (old(self)@.busy_responses > 0),
            final(self)@ == if old(self)@.busy_responses > 0 {
                EncoderView { busy_responses: old(self)@.busy_responses - 1, ..old(self)@ }
            } else {
                old(self)@
            },
    {
        if self.busy_responses > 0 {
            self.busy_responses = self.busy_responses - 1;
            true
        } else {
            false
        }
    }

    /// Asks the device to map a resource: consumes one budgeted mapping
    /// failure if any is left and says so.
    pub(crate) fn consume_map_failure(&mut self) -> (failed: bool)
        ensures
            failed == (old(self)@.map_failures > 0),
            final(self)@ == if old(self)@.map_failures > 0 {
                EncoderView { map_failures: old(self)@.map_failures - 1, ..old(self)@ }
            } else {
                old(self)@
            },
    {
        if self.map_failures > 0 {
            self.map_failures = self.map_failures - 1;
            true
        } else {
            false
        }
    }

    /// Appends one call to the resource registration log.
    pub(crate) fn log_resource_event(&mut self, event: ResourceEvent)
        ensures
            final(self)@ == (EncoderView {
                resource_log: old(self)@.resource_log.push(event),
                ..old(self)@
            }),
    {
        self.resource_log.push(event);
    }

    /// The device's budget counters are counts, hence never negative.
    pub proof fn lemma_device_counters_nonneg(&self)
        ensures
            self@.busy_responses >= 0,
            self@.map_failures >= 0,
    {
    }

    /// Returns whether the encoder supports the given codec.
    pub fn supports_codec(&self, encode_guid: Guid) -> (b: bool)
        ensures
            b == self@.encode_guids.contains(encode_guid),
    {
        contains_guid(&self.caps.encode_guids, encode_guid)
    }

    /// Builds the error this encoder reports for the given kind, attaching
    /// the device's diagnostic text unless the kind sits on the hot retry
    /// path or the text is empty.
    pub(crate) fn make_error(&self, kind: ErrorKind) -> (e: EncodeError)
        ensures
            spec_error_with(e, kind, self@.last_error),
    {
        let skip = kind == ErrorKind::LockBusy || kind == ErrorKind::EncoderBusy
            || kind == ErrorKind::NeedMoreInput || kind == ErrorKind::OutOfMemory;
        if skip || self.last_error.as_str().is_empty() {
            EncodeError::bare(kind)
        } else {
            EncodeError::with_text(kind, self.last_error.clone())
        }
    }

    /// Queries the codecs the encoder supports, following the two-call
    /// counting idiom: an upper bound is queried first, a list of that size
    /// is allocated and filled, and the list is truncated to the count the
    /// second call actually delivered.
    pub fn get_encode_guids(&self) -> (r: Result<Vec<Guid>, EncodeError>)
        ensures
            r matches Ok(v) && v@ == self@.encode_guids,
    {
        Ok(query_guid_list(self.caps.encode_guid_capacity, &self.caps.encode_guids))
    }

    /// Queries the presets the encoder supports for the given codec. Fails
    /// with an invalid-parameter error exactly when the codec itself is not
    /// supported.
    pub fn get_preset_guids(&self, encode_guid: Guid) -> (r: Result<Vec<Guid>, EncodeError>)
        ensures
            match r {
                Ok(v) => self@.encode_guids.contains(encode_guid) && v@ == self@.preset_guids,
                Err(e) => !self@.encode_guids.contains(encode_guid) && spec_error_with(
                    e,
                    ErrorKind::InvalidParam,
                    self@.last_error,
                ),
            },
    {
        if !contains_guid(&self.caps.encode_guids, encode_guid) {
            return Err(self.make_error(ErrorKind::InvalidParam));
        }
        Ok(query_guid_list(self.caps.preset_guid_capacity, &self.caps.preset_guids))
    }

    /// Queries the profiles the encoder supports for the given codec. Fails
    /// with an invalid-parameter error exactly when the codec itself is not
    /// supported.
    pub fn get_profile_guids(&self, encode_guid: Guid) -> (r: Result<Vec<Guid>, EncodeError>)
        ensures
            match r {
                Ok(v) => self@.encode_guids.contains(encode_guid) && v@ == self@.profile_guids,
                Err(e) => !self@.encode_guids.contains(encode_guid) && spec_error_with(
                    e,
                    ErrorKind::InvalidParam,
                    self@.last_error,
                ),
            },
    {
        if !contains_guid(&self.caps.encode_guids, encode_guid) {
            return Err(self.make_error(ErrorKind::InvalidParam));
        }
        Ok(query_guid_list(self.caps.profile_guid_capacity, &self.caps.profile_guids))
    }

    /// Queries the input buffer formats the encoder supports for the given
    /// codec. Fails with an invalid-parameter error exactly when the codec
    /// itself is not supported.
    pub fn get_supported_input_formats(&self, encode_guid: Guid) -> (r: Result<
        Vec<BufferFormat>,
        EncodeError,
    >)
        ensures
            match r {
                Ok(v) => self@.encode_guids.contains(encode_guid) && v@ == self@.input_formats,
                Err(e) => !self@.encode_guids.contains(encode_guid) && spec_error_with(
                    e,
                    ErrorKind::InvalidParam,
                    self@.last_error,
                ),
            },
    {
        if !contains_guid(&self.caps.encode_guids, encode_guid) {
            return Err(self.make_error(ErrorKind::InvalidParam));
        }
        let list = &self.caps.input_formats;
        let actual: usize = list.len();
        let reported: usize = if (self.caps.input_format_capacity as usize) > actual {
            self.caps.input_format_capacity as usize
        } else {
            actual
        };
        let mut out: Vec<BufferFormat> = vec![BufferFormat::Undefined; reported];
        let mut i: usize = 0;
        while i < actual
            invariant
                actual == list@.len(),
                actual <= reported,
                out@.len() == reported,
                forall|j: int| 0 <= j < i ==> out@[j] == list@[j],
            decreases actual - i,
        {
            out.set(i, list[i]);
            i += 1;
        }
        out.truncate(actual);
        proof {
            assert(out@ =~= list@);
        }
        Ok(out)
    }

    /// Queries the configuration template for the given codec, preset, and
    /// tuning goal. Fails with an invalid-parameter error exactly when the
    /// codec or preset is not supported, or the tuning goal is one of the two
    /// placeholder values.
    pub fn get_preset_config(&self, encode_guid: Guid, preset_guid: Guid, tuning_info: TuningInfo)
        -> (r: Result<PresetConfig, EncodeError>)
        ensures
            ({
                let valid = self@.encode_guids.contains(encode_guid)
                    && self@.preset_guids.contains(preset_guid)
                    && tuning_info != TuningInfo::Undefined && tuning_info != TuningInfo::Count;
                match r {
                    Ok(c) => valid && c.preset_cfg == self@.preset_template,
                    Err(e) => !valid && spec_error_with(
                        e,
                        ErrorKind::InvalidParam,
                        self@.last_error,
                    ),
                }
            }),
    {
        if !contains_guid(&self.caps.encode_guids, encode_guid)
            || !contains_guid(&self.caps.preset_guids, preset_guid)
            || tuning_info == TuningInfo::Undefined || tuning_info == TuningInfo::Count {
            return Err(self.make_error(ErrorKind::InvalidParam));
        }
        Ok(PresetConfig { preset_cfg: self.caps.preset_template })
    }
}

impl NVENCSTATUS {
    /// Converts a status code to a `Result`, attaching the encoder's
    /// diagnostic text to fatal errors. Success becomes `Ok(())`; every other
    /// status becomes an error of the corresponding kind, with the diagnostic
    /// string attached unless the kind sits on the hot retry path or the text
    /// is empty.
    pub fn result(self, encoder: &Encoder) -> (r: Result<(), EncodeError>)
        ensures
            self == NVENCSTATUS::NV_ENC_SUCCESS <==> r is Ok,
            match r {
                Ok(()) => true,
                Err(e) => spec_error_with(e, spec_kind_of_status(self), encoder@.last_error),
            },
    {
        match self {
            NVENCSTATUS::NV_ENC_SUCCESS => Ok(()),
            err => Err(encoder.make_error(ErrorKind::from_status(err))),
        }
    }
}

} // verus!
