use vstd::prelude::*;

use crate::config::ChannelConfig;

verus! {

/// Configuration of a channel over the vendor packet-capture driver.
#[derive(Clone, Copy, Debug, PartialEq, Eq)]
pub struct Config {
    /// Size in bytes of the buffer used when writing frames.
    pub write_buffer_size: usize,
    /// Size in bytes of the buffer used when reading capture records.
    pub read_buffer_size: usize,
    /// Maximum wait per receive, in microseconds; `None` blocks.
    pub read_timeout_micros: Option<u64>,
}

impl From<&ChannelConfig> for Config {
    fn from(config: &ChannelConfig) -> Config {
        Config {
            write_buffer_size: config.write_buffer_size,
            read_buffer_size: config.read_buffer_size,
            read_timeout_micros: config.read_timeout_micros,
        }
    }
}

impl vstd::std_specs::convert::FromSpecImpl<&ChannelConfig> for Config {
    open spec fn obeys_from_spec() -> bool {
        true
    }

    open spec fn from_spec(config: &ChannelConfig) -> Config {
        Config {
            write_buffer_size: config.write_buffer_size,
            read_buffer_size: config.read_buffer_size,
            read_timeout_micros: config.read_timeout_micros,
        }
    }
}

impl Default for Config {
    fn default() -> (c: Config)
        ensures
            c.write_buffer_size == crate::config::DEFAULT_BUFFER_SIZE,
            c.read_buffer_size == crate::config::DEFAULT_BUFFER_SIZE,
            c.read_timeout_micros is None,
    {
        Config {
            write_buffer_size: crate::config::DEFAULT_BUFFER_SIZE,
            read_buffer_size: crate::config::DEFAULT_BUFFER_SIZE,
            read_timeout_micros: None,
        }
    }
}

/// Where channel setup over the driver stands.
#[derive(Clone, Copy, Debug, PartialEq, Eq, Structural)]
pub enum SetupPhase {
    /// Opening the adapter by interface name.
    OpeningAdapter,
    /// Putting the adapter's hardware filter into promiscuous mode.
    SettingHwFilter,
    /// Setting the kernel-side receive buffer size.
    SettingKernelBuffer,
    /// Applying the configured read timeout.
    SettingReadTimeout,
    /// Enabling immediate return: deliver as soon as any byte arrived.
    SettingMinToCopy,
    /// Allocating and initializing the driver's receive packet object.
    AllocatingReadPacket,
    /// Allocating and initializing the driver's send packet object.
    AllocatingWritePacket,
    /// Setup finished; the channel can be assembled.
    Ready,
    /// Setup failed; the error has been surfaced.
    Failed,
}

/// What the shell driving setup reports back about the step it ran.
#[derive(Clone, Copy, Debug, PartialEq, Eq, Structural)]
pub enum SetupEvent {
    /// The adapter opened.
    Opened,
    /// The adapter could not be opened.
    OpenFailed,
    /// The driver call succeeded.
    ControlOk,
    /// The driver call failed.
    ControlFailed,
    /// The packet object was allocated and initialized.
    AllocOk,
    /// The packet object could not be allocated.
    AllocFailed,
}

/// The next driver step the shell must run, or how to wind setup down.
#[derive(Clone, Copy, Debug, PartialEq, Eq, Structural)]
pub enum SetupAction {
    /// Open the adapter named by the target interface.
    OpenAdapter,
    /// Put the hardware filter into promiscuous mode.
    SetHwFilter,
    /// Set the kernel receive buffer to `bytes`.
    SetKernelBufferSize { bytes: usize },
    /// Apply the read timeout; zero means block indefinitely.
    SetReadTimeout { milliseconds: u64 },
    /// Ask for delivery as soon as one byte is available.
    SetMinToCopy { bytes: usize },
    /// Allocate the receive packet object around a buffer of `bytes`.
    AllocateReadPacket { bytes: usize },
    /// Allocate the send packet object around a buffer of `bytes`.
    AllocateWritePacket { bytes: usize },
    /// Assemble the sender and receiver; the driver's captures always
    /// carry real link-layer headers, so the channel is not a loopback
    /// one.
    Finish,
    /// Release whatever was acquired, then surface the OS error: the
    /// adapter if it opened, and the receive packet object if it was
    /// already allocated.
    Fail { close_adapter: bool, free_read_packet: bool },
}

/// Channel setup over the driver as a state machine: the decisions
/// between driver calls.
#[derive(Clone, Copy, Debug, PartialEq, Eq)]
pub struct SetupState {
    /// The step in flight.
    pub phase: SetupPhase,
    /// The configuration the channel was requested with.
    pub config: Config,
}

/// Which events can answer which phase.
pub open spec fn event_fits(phase: SetupPhase, event: SetupEvent) -> bool {
    match phase {
        SetupPhase::OpeningAdapter => event is Opened || event is OpenFailed,
        SetupPhase::SettingHwFilter => event is ControlOk || event is ControlFailed,
        SetupPhase::SettingKernelBuffer => event is ControlOk || event is ControlFailed,
        SetupPhase::SettingReadTimeout => event is ControlOk || event is ControlFailed,
        SetupPhase::SettingMinToCopy => event is ControlOk || event is ControlFailed,
        SetupPhase::AllocatingReadPacket => event is AllocOk || event is AllocFailed,
        SetupPhase::AllocatingWritePacket => event is AllocOk || event is AllocFailed,
        SetupPhase::Ready => false,
        SetupPhase::Failed => false,
    }
}

/// The read timeout handed to the driver, in milliseconds; an unset
/// timeout becomes zero, which the driver reads as blocking.
pub open spec fn spec_timeout_millis(timeout_micros: Option<u64>) -> int {
    match timeout_micros {
        Some(micros) => (micros / 1000) as int,
        None => 0,
    }
}

/// Begin channel setup: the first step opens the adapter.
pub fn setup_start(config: &Config) -> (r: (SetupState, SetupAction))
    ensures
        r.0.phase is OpeningAdapter,
        r.0.config == *config,
        r.1 is OpenAdapter,
{
    (
        SetupState { phase: SetupPhase::OpeningAdapter, config: *config },
        SetupAction::OpenAdapter,
    )
}

/// Advance channel setup by one answered driver step.
///
/// Every failure winds setup down and releases exactly what had been
/// acquired: nothing for an open failure, the adapter for any later
/// failure, and additionally the receive packet object once it exists.
/// The configured sizes reach the driver unchanged, and the timeout in
/// milliseconds (zero for unset, meaning block).
pub fn setup_step(state: &SetupState, event: &SetupEvent) -> (r: (SetupState, SetupAction))
    requires
        event_fits(state.phase, *event),
    ensures
        r.0.config == state.config,
        *event is OpenFailed ==> r.0.phase is Failed && r.1 == (SetupAction::Fail {
            close_adapter: false,
            free_read_packet: false,
        }),
        *event is ControlFailed ==> r.0.phase is Failed && r.1 == (SetupAction::Fail {
            close_adapter: true,
            free_read_packet: false,
        }),
        *event is AllocFailed ==> r.0.phase is Failed && r.1 == (SetupAction::Fail {
            close_adapter: true,
            free_read_packet: state.phase is AllocatingWritePacket,
        }),
        state.phase is OpeningAdapter && *event is Opened ==> r.0.phase is SettingHwFilter
            && r.1 is SetHwFilter,
        state.phase is SettingHwFilter && *event is ControlOk ==> r.0.phase is SettingKernelBuffer
            && r.1 == (SetupAction::SetKernelBufferSize { bytes: state.config.read_buffer_size }),
        state.phase is SettingKernelBuffer && *event is ControlOk ==> r.0.phase
            is SettingReadTimeout && r.1 == (SetupAction::SetReadTimeout {
            milliseconds: spec_timeout_millis(state.config.read_timeout_micros) as u64,
        }),
        state.phase is SettingReadTimeout && *event is ControlOk ==> r.0.phase is SettingMinToCopy
            && r.1 == (SetupAction::SetMinToCopy { bytes: 1 }),
        state.phase is SettingMinToCopy && *event is ControlOk ==> r.0.phase
            is AllocatingReadPacket && r.1 == (SetupAction::AllocateReadPacket {
            bytes: state.config.read_buffer_size,
        }),
        state.phase is AllocatingReadPacket && *event is AllocOk ==> r.0.phase
            is AllocatingWritePacket && r.1 == (SetupAction::AllocateWritePacket {
            bytes: state.config.write_buffer_size,
        }),
        state.phase is AllocatingWritePacket && *event is AllocOk ==> r.0.phase is Ready
            && r.1 is Finish,
{
    match event {
        SetupEvent::OpenFailed => (
            SetupState { phase: SetupPhase::Failed, ..*state },
            SetupAction::Fail { close_adapter: false, free_read_packet: false },
        ),
        SetupEvent::ControlFailed => (
            SetupState { phase: SetupPhase::Failed, ..*state },
            SetupAction::Fail { close_adapter: true, free_read_packet: false },
        ),
        SetupEvent::AllocFailed => {
            let had_read_packet = match state.phase {
                SetupPhase::AllocatingWritePacket => true,
                _ => false,
            };
            (
                SetupState { phase: SetupPhase::Failed, ..*state },
                SetupAction::Fail { close_adapter: true, free_read_packet: had_read_packet },
            )
        },
        SetupEvent::Opened => (
            SetupState { phase: SetupPhase::SettingHwFilter, ..*state },
            SetupAction::SetHwFilter,
        ),
        SetupEvent::ControlOk => match state.phase {
            SetupPhase::SettingHwFilter => (
                SetupState { phase: SetupPhase::SettingKernelBuffer, ..*state },
                SetupAction::SetKernelBufferSize { bytes: state.config.read_buffer_size },
            ),
            SetupPhase::SettingKernelBuffer => {
                let millis = match state.config.read_timeout_micros {
                    Some(micros) => micros / 1000,
                    None => 0,
                };
                (
                    SetupState { phase: SetupPhase::SettingReadTimeout, ..*state },
                    SetupAction::SetReadTimeout { milliseconds: millis },
                )
            },
            SetupPhase::SettingReadTimeout => (
                SetupState { phase: SetupPhase::SettingMinToCopy, ..*state },
                SetupAction::SetMinToCopy { bytes: 1 },
            ),
            _ => (
                SetupState { phase: SetupPhase::AllocatingReadPacket, ..*state },
                SetupAction::AllocateReadPacket { bytes: state.config.read_buffer_size },
            ),
        },
        SetupEvent::AllocOk => match state.phase {
            SetupPhase::AllocatingReadPacket => (
                SetupState { phase: SetupPhase::AllocatingWritePacket, ..*state },
                SetupAction::AllocateWritePacket { bytes: state.config.write_buffer_size },
            ),
            _ => (SetupState { phase: SetupPhase::Ready, ..*state }, SetupAction::Finish),
        },
    }
}

} // verus!
