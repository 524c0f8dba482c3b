use vstd::prelude::*;

use crate::config::ChannelConfig;
use crate::records::DLT_NULL;

verus! {

/// Size of the fixed interface-name field of the bind request handed to
/// the device, terminating NUL included.
pub const INTERFACE_NAME_SIZE: usize = 16;

/// Configuration of a channel over the BPF-style packet filter device.
#[derive(Clone, Copy, Debug, PartialEq, Eq)]
pub struct Config {
    /// Size in bytes of the buffer used when writing frames.
    pub write_buffer_size: usize,
    /// Size in bytes of the buffer used when reading capture records.
    pub read_buffer_size: usize,
    /// Maximum wait per receive, in microseconds; `None` blocks.
    pub read_timeout_micros: Option<u64>,
    /// Maximum wait per send-readiness check, in microseconds; `None`
    /// blocks.
    pub write_timeout_micros: Option<u64>,
    /// Number of numbered device nodes to attempt before failing, on
    /// systems where each open claims a fresh node.
    pub bpf_fd_attempts: usize,
}

impl From<&ChannelConfig> for Config {
    fn from(config: &ChannelConfig) -> Config {
        Config {
            write_buffer_size: config.write_buffer_size,
            read_buffer_size: config.read_buffer_size,
            bpf_fd_attempts: config.device_open_attempts,
            read_timeout_micros: config.read_timeout_micros,
            write_timeout_micros: config.write_timeout_micros,
        }
    }
}

impl vstd::std_specs::convert::FromSpecImpl<&ChannelConfig> for Config {
    open spec fn obeys_from_spec() -> bool {
        true
    }

    open spec fn from_spec(config: &ChannelConfig) -> Config {
        Config {
            write_buffer_size: config.write_buffer_size,
            read_buffer_size: config.read_buffer_size,
            bpf_fd_attempts: config.device_open_attempts,
            read_timeout_micros: config.read_timeout_micros,
            write_timeout_micros: config.write_timeout_micros,
        }
    }
}

impl Default for Config {
    fn default() -> (c: Config)
        ensures
            c.write_buffer_size == crate::config::DEFAULT_BUFFER_SIZE,
            c.read_buffer_size == crate::config::DEFAULT_BUFFER_SIZE,
            c.read_timeout_micros is None,
            c.write_timeout_micros is None,
            c.bpf_fd_attempts == crate::config::DEFAULT_DEVICE_OPEN_ATTEMPTS,
    {
        Config {
            write_buffer_size: crate::config::DEFAULT_BUFFER_SIZE,
            read_buffer_size: crate::config::DEFAULT_BUFFER_SIZE,
            bpf_fd_attempts: crate::config::DEFAULT_DEVICE_OPEN_ATTEMPTS,
            read_timeout_micros: None,
            write_timeout_micros: None,
        }
    }
}

/// The interface-name field of the bind request: the name bytes padded
/// with NULs to the fixed field size, refused when the name (with its
/// terminating NUL) does not fit the field.
pub fn interface_name_field(name: &Vec<u8>) -> (r: Option<Vec<u8>>)
    ensures
        r is Some <==> name@.len() < INTERFACE_NAME_SIZE,
        r matches Some(f) ==> {
            &&& f@.len() == INTERFACE_NAME_SIZE
            &&& forall|i: int| 0 <= i < name@.len() ==> f@[i] == name@[i]
            &&& forall|i: int| name@.len() <= i < INTERFACE_NAME_SIZE ==> f@[i] == 0
        },
{
    let n = name.len();
    if n >= INTERFACE_NAME_SIZE {
        return None;
    }
    let mut field: Vec<u8> = Vec::new();
    let mut i: usize = 0;
    while i < n
        invariant
            i <= n,
            n == name@.len(),
            field@.len() == i,
            forall|k: int| 0 <= k < i ==> field@[k] == name@[k],
        decreases n - i,
    {
        field.push(name[i]);
        i += 1;
    }
    while i < INTERFACE_NAME_SIZE
        invariant
            n <= i <= INTERFACE_NAME_SIZE,
            n == name@.len(),
            field@.len() == i,
            forall|k: int| 0 <= k < n ==> field@[k] == name@[k],
            forall|k: int| n <= k < i ==> field@[k] == 0,
        decreases INTERFACE_NAME_SIZE - i,
    {
        field.push(0);
        i += 1;
    }
    Some(field)
}

/// Where channel setup stands: which device-control step is in flight.
#[derive(Clone, Copy, Debug, PartialEq, Eq, Structural)]
pub enum SetupPhase {
    /// Opening the capture device node.
    Opening,
    /// Setting the kernel receive-buffer length; must precede binding,
    /// which the OS rejects after a later buffer-length change.
    SettingBufferLength,
    /// Binding the device to the target interface by name.
    Binding,
    /// Enabling return-as-soon-as-data-is-available mode.
    SettingImmediate,
    /// Querying the link-layer type to detect the loopback device.
    QueryingLinkType,
    /// Enabling feedback mode so self-transmitted loopback frames are
    /// visible on read.
    SettingFeedback,
    /// Telling the device the caller supplies complete link-layer
    /// headers (no source-address auto-fill).
    SettingHeaderComplete,
    /// Applying the configured read timeout.
    SettingReadTimeout,
    /// Setup finished; the channel can be assembled.
    Ready,
    /// Setup failed; the error has been surfaced.
    Failed,
}

/// What the shell driving setup reports back about the step it ran.
#[derive(Clone, Copy, Debug, PartialEq, Eq, Structural)]
pub enum SetupEvent {
    /// The device node opened.
    Opened,
    /// No device node could be opened.
    OpenFailed,
    /// The device-control call succeeded.
    ControlOk,
    /// The device-control call failed.
    ControlFailed,
    /// The queried link-layer type.
    LinkType { dlt: u32 },
}

/// The next OS step the shell must run, or how to wind setup down.
#[derive(Clone, Copy, Debug, PartialEq, Eq, Structural)]
pub enum SetupAction {
    /// Open a device node, probing up to `attempts` numbered nodes on
    /// systems that need it.
    OpenDevice { attempts: usize },
    /// Set the kernel receive-buffer length to `bytes`.
    SetBufferLength { bytes: usize },
    /// Bind the device to the target interface.
    BindInterface,
    /// Enable immediate-return mode.
    EnableImmediate,
    /// Query the link-layer type.
    QueryLinkType,
    /// Enable feedback mode (loopback only).
    EnableFeedback,
    /// Require caller-supplied link-layer headers (non-loopback only).
    SetHeaderComplete,
    /// Apply the configured read timeout, split into whole seconds and
    /// leftover microseconds.
    SetReadTimeout { seconds: u64, microseconds: u64 },
    /// Assemble the sender and receiver; `loopback` tells them whether
    /// to strip and synthesize link-layer headers.
    Finish { loopback: bool },
    /// Close the opened device, then surface the OS error.
    CloseAndFail,
    /// Surface the OS error; no device was opened.
    FailWithoutClose,
}

/// Channel setup as a state machine: the decisions between OS calls.
#[derive(Clone, Copy, Debug, PartialEq, Eq)]
pub struct SetupState {
    /// The step in flight.
    pub phase: SetupPhase,
    /// Whether the link-layer type identified the loopback device;
    /// meaningful once the query step has answered.
    pub loopback: bool,
    /// The configuration the channel was requested with.
    pub config: Config,
}

/// Which events can answer which phase.
pub open spec fn event_fits(phase: SetupPhase, event: SetupEvent) -> bool {
    match phase {
        SetupPhase::Opening => event is Opened || event is OpenFailed,
        SetupPhase::QueryingLinkType => event is LinkType || event is ControlFailed,
        SetupPhase::SettingBufferLength => event is ControlOk || event is ControlFailed,
        SetupPhase::Binding => event is ControlOk || event is ControlFailed,
        SetupPhase::SettingImmediate => event is ControlOk || event is ControlFailed,
        SetupPhase::SettingFeedback => event is ControlOk || event is ControlFailed,
        SetupPhase::SettingHeaderComplete => event is ControlOk || event is ControlFailed,
        SetupPhase::SettingReadTimeout => event is ControlOk || event is ControlFailed,
        SetupPhase::Ready => false,
        SetupPhase::Failed => false,
    }
}

/// The step both device-mode phases hand over to: apply the read timeout
/// if one is configured, else finish.
pub open spec fn spec_after_device_mode(s: SetupState) -> (SetupState, SetupAction) {
    match s.config.read_timeout_micros {
        Some(micros) => (
            SetupState { phase: SetupPhase::SettingReadTimeout, ..s },
            SetupAction::SetReadTimeout {
                seconds: (micros / 1_000_000) as u64,
                microseconds: (micros % 1_000_000) as u64,
            },
        ),
        None => (
            SetupState { phase: SetupPhase::Ready, ..s },
            SetupAction::Finish { loopback: s.loopback },
        ),
    }
}

/// Begin channel setup: the first step opens the device.
pub fn setup_start(config: &Config) -> (r: (SetupState, SetupAction))
    ensures
        r.0.phase is Opening,
        r.0.loopback == false,
        r.0.config == *config,
        r.1 == (SetupAction::OpenDevice { attempts: config.bpf_fd_attempts }),
{
    (
        SetupState { phase: SetupPhase::Opening, loopback: false, config: *config },
        SetupAction::OpenDevice { attempts: config.bpf_fd_attempts },
    )
}

/// Advance channel setup by one answered OS step.
///
/// Every failure winds setup down: an open failure surfaces the error
/// with nothing to close, and any later failure closes the opened device
/// before surfacing the error, so no device handle outlives a failed
/// setup. The kernel buffer length is set before binding, loopback is
/// decided exactly by the queried link-layer type, and the read timeout
/// is applied only when one is configured.
pub fn setup_step(state: &SetupState, event: &SetupEvent) -> (r: (SetupState, SetupAction))
    requires
        event_fits(state.phase, *event),
    ensures
        r.0.config == state.config,
        !(*event is LinkType) ==> r.0.loopback == state.loopback,
        *event is OpenFailed ==> r.0.phase is Failed && r.1 is FailWithoutClose,
        *event is ControlFailed ==> r.0.phase is Failed && r.1 is CloseAndFail,
        state.phase is Opening && *event is Opened ==> r.0.phase is SettingBufferLength && r.1
            == (SetupAction::SetBufferLength { bytes: state.config.read_buffer_size }),
        state.phase is SettingBufferLength && *event is ControlOk ==> r.0.phase is Binding
            && r.1 is BindInterface,
        state.phase is Binding && *event is ControlOk ==> r.0.phase is SettingImmediate
            && r.1 is EnableImmediate,
        state.phase is SettingImmediate && *event is ControlOk ==> r.0.phase is QueryingLinkType
            && r.1 is QueryLinkType,
        *event matches SetupEvent::LinkType { dlt } ==> {
            &&& r.0.loopback == (dlt == DLT_NULL)
            &&& dlt == DLT_NULL ==> r.0.phase is SettingFeedback && r.1 is EnableFeedback
            &&& dlt != DLT_NULL ==> r.0.phase is SettingHeaderComplete && r.1 is SetHeaderComplete
        },
        (state.phase is SettingFeedback || state.phase is SettingHeaderComplete) && *event
            is ControlOk ==> r == spec_after_device_mode(*state),
        state.phase is SettingReadTimeout && *event is ControlOk ==> r.0.phase is Ready && r.1
            == (SetupAction::Finish { loopback: state.loopback }),
{
    match event {
        SetupEvent::OpenFailed => (
            SetupState { phase: SetupPhase::Failed, ..*state },
            SetupAction::FailWithoutClose,
        ),
        SetupEvent::ControlFailed => (
            SetupState { phase: SetupPhase::Failed, ..*state },
            SetupAction::CloseAndFail,
        ),
        SetupEvent::Opened => (
            SetupState { phase: SetupPhase::SettingBufferLength, ..*state },
            SetupAction::SetBufferLength { bytes: state.config.read_buffer_size },
        ),
        SetupEvent::LinkType { dlt } => {
            let loopback = *dlt == DLT_NULL;
            let next = SetupState {
                phase: if loopback {
                    SetupPhase::SettingFeedback
                } else {
                    SetupPhase::SettingHeaderComplete
                },
                loopback,
                config: state.config,
            };
            let action = if loopback {
                SetupAction::EnableFeedback
            } else {
                SetupAction::SetHeaderComplete
            };
            (next, action)
        },
        SetupEvent::ControlOk => match state.phase {
            SetupPhase::SettingBufferLength => (
                SetupState { phase: SetupPhase::Binding, ..*state },
                SetupAction::BindInterface,
            ),
            SetupPhase::Binding => (
                SetupState { phase: SetupPhase::SettingImmediate, ..*state },
                SetupAction::EnableImmediate,
            ),
            SetupPhase::SettingImmediate => (
                SetupState { phase: SetupPhase::QueryingLinkType, ..*state },
                SetupAction::QueryLinkType,
            ),
            SetupPhase::SettingFeedback => after_device_mode(state),
            SetupPhase::SettingHeaderComplete => after_device_mode(state),
            _ => (
                SetupState { phase: SetupPhase::Ready, ..*state },
                SetupAction::Finish { loopback: state.loopback },
            ),
        },
    }
}

/// Apply the configured read timeout if there is one, else finish.
fn after_device_mode(state: &SetupState) -> (r: (SetupState, SetupAction))
    ensures
        r == spec_after_device_mode(*state),
{
    match state.config.read_timeout_micros {
        Some(micros) => (
            SetupState { phase: SetupPhase::SettingReadTimeout, ..*state },
            SetupAction::SetReadTimeout {
                seconds: micros / 1_000_000,
                microseconds: micros % 1_000_000,
            },
        ),
        None => (
            SetupState { phase: SetupPhase::Ready, ..*state },
            SetupAction::Finish { loopback: state.loopback },
        ),
    }
}

} // verus!
