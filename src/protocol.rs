//! The wire vocabularies: status codes, session states and command codes.
use vstd::prelude::*;

verus! {

/// A failure status, as reported on the wire by a provisioning device.
#[derive(Clone, Copy, Debug, PartialEq, Eq, Structural)]
pub enum Error {
    /// No error: the status byte of a success.
    NoError,
    InvalidRpc,
    UnknownRpc,
    UnableToConnect,
    NotAuthorized,
    Unknown,
}

/// The wire code of each status.
pub open spec fn error_code(e: Error) -> u8 {
    match e {
        Error::NoError => 0x00,
        Error::InvalidRpc => 0x01,
        Error::UnknownRpc => 0x02,
        Error::UnableToConnect => 0x03,
        Error::NotAuthorized => 0x04,
        Error::Unknown => 0xff,
    }
}

impl Error {
    /// The byte that stands for this status on the wire.
    pub fn code(&self) -> (r: u8)
        ensures
            r == error_code(*self),
    {
        match self {
            Error::NoError => 0x00,
            Error::InvalidRpc => 0x01,
            Error::UnknownRpc => 0x02,
            Error::UnableToConnect => 0x03,
            Error::NotAuthorized => 0x04,
            Error::Unknown => 0xff,
        }
    }
}

/// How far a provisioning session has come, in order of progress.
#[derive(Clone, Copy, Debug, PartialEq, Eq, Structural)]
pub enum State {
    Stopped,
    AwaitingAuthorization,
    Authorized,
    Provisioning,
    Provisioned,
}

/// The wire code of each session state.
pub open spec fn state_code(s: State) -> u8 {
    match s {
        State::Stopped => 0x00,
        State::AwaitingAuthorization => 0x01,
        State::Authorized => 0x02,
        State::Provisioning => 0x03,
        State::Provisioned => 0x04,
    }
}

impl State {
    /// The byte that stands for this state on the wire.
    pub fn code(&self) -> (r: u8)
        ensures
            r == state_code(*self),
    {
        match self {
            State::Stopped => 0x00,
            State::AwaitingAuthorization => 0x01,
            State::Authorized => 0x02,
            State::Provisioning => 0x03,
            State::Provisioned => 0x04,
        }
    }
}

/// The commands that a host can send.
#[derive(Clone, Copy, Debug, PartialEq, Eq, Structural)]
pub enum CommandIdentifier {
    WifiSettings,
    GetCurrentState,
    GetDeviceInfo,
    GetWifiNetworks,
}

/// The command that a code byte names, if any.
pub open spec fn identifier_of(b: u8) -> Option<CommandIdentifier> {
    if b == 0x01 {
        Some(CommandIdentifier::WifiSettings)
    } else if b == 0x02 {
        Some(CommandIdentifier::GetCurrentState)
    } else if b == 0x03 {
        Some(CommandIdentifier::GetDeviceInfo)
    } else if b == 0x04 {
        Some(CommandIdentifier::GetWifiNetworks)
    } else {
        None
    }
}

impl CommandIdentifier {
    /// Resolves a command code byte; any byte outside the four codes is an
    /// unknown command.
    pub fn try_from(value: u8) -> (r: Result<CommandIdentifier, Error>)
        ensures
            r == (match identifier_of(value) {
                Some(c) => Ok::<CommandIdentifier, Error>(c),
                None => Err(Error::UnknownRpc),
            }),
    {
        match value {
            0x01 => Ok(CommandIdentifier::WifiSettings),
            0x02 => Ok(CommandIdentifier::GetCurrentState),
            0x03 => Ok(CommandIdentifier::GetDeviceInfo),
            0x04 => Ok(CommandIdentifier::GetWifiNetworks),
            _ => Err(Error::UnknownRpc),
        }
    }
}

} // verus!
