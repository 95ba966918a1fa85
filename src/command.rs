//! Command frames and their decoding.
use vstd::prelude::*;
use vstd::slice::slice_subrange;
use vstd::utf8::{
    decode_utf8, encode_utf8, encode_utf8_decode_utf8, encode_utf8_valid_utf8, is_ascii_chars,
    is_ascii_chars_encode_utf8, valid_utf8,
};

use crate::protocol::{identifier_of, CommandIdentifier, Error};
use crate::text::{text_field, text_of};

verus! {

/// A command sent by the host, with its payload.
#[derive(Debug, PartialEq)]
pub enum ImprovCommand {
    WifiSettings { ssid: heapless::String<255>, password: heapless::String<255> },
    GetCurrentState,
    GetDeviceInfo,
    GetWifiNetworks,
}

/// A command as the characters it carries.
pub enum ImprovCommandView {
    WifiSettings { ssid: Seq<char>, password: Seq<char> },
    GetCurrentState,
    GetDeviceInfo,
    GetWifiNetworks,
}

impl View for ImprovCommand {
    type V = ImprovCommandView;

    open spec fn view(&self) -> ImprovCommandView {
        match self {
            ImprovCommand::WifiSettings { ssid, password } => ImprovCommandView::WifiSettings {
                ssid: text_of(*ssid),
                password: text_of(*password),
            },
            ImprovCommand::GetCurrentState => ImprovCommandView::GetCurrentState,
            ImprovCommand::GetDeviceInfo => ImprovCommandView::GetDeviceInfo,
            ImprovCommand::GetWifiNetworks => ImprovCommandView::GetWifiNetworks,
        }
    }
}

/// A decoding outcome, with the command seen through its view.
pub open spec fn outcome_view(r: Result<ImprovCommand, Error>) -> Result<ImprovCommandView, Error> {
    match r {
        Ok(c) => Ok(c@),
        Err(e) => Err(e),
    }
}

/// Where the network name ends (exclusive): it starts at byte 3 and byte 2
/// gives its length.
pub open spec fn ssid_end(b: Seq<u8>) -> int {
    3 + b[2] as int
}

/// Where the password starts: just after its length byte, which follows the
/// network name.
pub open spec fn password_start(b: Seq<u8>) -> int {
    ssid_end(b) + 1
}

/// Where the password ends (exclusive).
pub open spec fn password_end(b: Seq<u8>) -> int {
    password_start(b) + b[ssid_end(b)] as int
}

/// The frame holds both length bytes and all the bytes that they declare.
pub open spec fn wifi_fields_fit(b: Seq<u8>) -> bool {
    &&& 3 <= b.len()
    &&& ssid_end(b) < b.len()
    &&& password_end(b) <= b.len()
}

pub open spec fn ssid_bytes(b: Seq<u8>) -> Seq<u8> {
    b.subrange(3, ssid_end(b))
}

pub open spec fn password_bytes(b: Seq<u8>) -> Seq<u8> {
    b.subrange(password_start(b), password_end(b))
}

/// The payload of a Wi-Fi settings frame: a frame too short for its declared
/// fields, or a field that is not UTF-8, is an unknown error.
pub open spec fn decode_wifi_settings(b: Seq<u8>) -> Result<ImprovCommandView, Error> {
    if !wifi_fields_fit(b) || !valid_utf8(ssid_bytes(b)) || !valid_utf8(password_bytes(b)) {
        Err(Error::Unknown)
    } else {
        Ok(
            ImprovCommandView::WifiSettings {
                ssid: decode_utf8(ssid_bytes(b)),
                password: decode_utf8(password_bytes(b)),
            },
        )
    }
}

/// What a frame decodes to. An empty frame has no command code and is an
/// unknown error; an unrecognised code is an unknown command; commands
/// without a payload ignore the bytes after the code.
pub open spec fn decode(b: Seq<u8>) -> Result<ImprovCommandView, Error> {
    if b.len() == 0 {
        Err(Error::Unknown)
    } else {
        match identifier_of(b[0]) {
            None => Err(Error::UnknownRpc),
            Some(CommandIdentifier::WifiSettings) => decode_wifi_settings(b),
            Some(CommandIdentifier::GetCurrentState) => Ok(ImprovCommandView::GetCurrentState),
            Some(CommandIdentifier::GetDeviceInfo) => Ok(ImprovCommandView::GetDeviceInfo),
            Some(CommandIdentifier::GetWifiNetworks) => Ok(ImprovCommandView::GetWifiNetworks),
        }
    }
}

/// The Wi-Fi settings frame that carries `ssid` and `password` as UTF-8,
/// each after a one-byte length, with `reserved` in the byte after the code.
pub open spec fn wifi_settings_frame(reserved: u8, ssid: Seq<char>, password: Seq<char>) -> Seq<u8> {
    seq![0x01u8, reserved, encode_utf8(ssid).len() as u8] + encode_utf8(ssid) + seq![
        encode_utf8(password).len() as u8,
    ] + encode_utf8(password)
}

/// Framing a network name and a password whose UTF-8 forms fit in 255 bytes
/// each and decoding the frame gives back exactly that name and password.
pub proof fn lemma_wifi_settings_round_trip(reserved: u8, ssid: Seq<char>, password: Seq<char>)
    requires
        encode_utf8(ssid).len() <= 255,
        encode_utf8(password).len() <= 255,
    ensures
        decode(wifi_settings_frame(reserved, ssid, password)) == Ok::<ImprovCommandView, Error>(
            ImprovCommandView::WifiSettings { ssid, password },
        ),
{
    broadcast use encode_utf8_valid_utf8, encode_utf8_decode_utf8;

    let b = wifi_settings_frame(reserved, ssid, password);
    assert(ssid_bytes(b) =~= encode_utf8(ssid));
    assert(password_bytes(b) =~= encode_utf8(password));
}

/// The same for ASCII text: a name and a password of at most 255 ASCII
/// characters each come back exactly from their frame.
pub proof fn lemma_ascii_wifi_settings_round_trip(
    reserved: u8,
    ssid: Seq<char>,
    password: Seq<char>,
)
    requires
        is_ascii_chars(ssid),
        is_ascii_chars(password),
        ssid.len() <= 255,
        password.len() <= 255,
    ensures
        decode(wifi_settings_frame(reserved, ssid, password)) == Ok::<ImprovCommandView, Error>(
            ImprovCommandView::WifiSettings { ssid, password },
        ),
{
    is_ascii_chars_encode_utf8(ssid);
    is_ascii_chars_encode_utf8(password);
    lemma_wifi_settings_round_trip(reserved, ssid, password);
}

impl ImprovCommand {
    /// Decodes one command frame. Never reads past the end of `data`.
    pub fn from_bytes(data: &[u8]) -> (r: Result<ImprovCommand, Error>)
        ensures
            outcome_view(r) == decode(data@),
            data@.len() > 0 && identifier_of(data@[0]) is None ==> r == Err::<ImprovCommand, Error>(
                Error::UnknownRpc,
            ),
            data@.len() > 0 && data@[0] == 0x02 ==> r == Ok::<ImprovCommand, Error>(
                ImprovCommand::GetCurrentState,
            ),
            data@.len() > 0 && data@[0] == 0x03 ==> r == Ok::<ImprovCommand, Error>(
                ImprovCommand::GetDeviceInfo,
            ),
            data@.len() > 0 && data@[0] == 0x04 ==> r == Ok::<ImprovCommand, Error>(
                ImprovCommand::GetWifiNetworks,
            ),
            data@.len() == 0 ==> r == Err::<ImprovCommand, Error>(Error::Unknown),
            data@.len() > 0 && data@[0] == 0x01 && !wifi_fields_fit(data@) ==> r == Err::<
                ImprovCommand,
                Error,
            >(Error::Unknown),
            data@.len() > 0 && data@[0] == 0x01 && wifi_fields_fit(data@) && (!valid_utf8(
                ssid_bytes(data@),
            ) || !valid_utf8(password_bytes(data@))) ==> r == Err::<ImprovCommand, Error>(
                Error::Unknown,
            ),
            data@.len() > 0 && data@[0] == 0x01 && wifi_fields_fit(data@) && data@[2] == 0 && valid_utf8(
                password_bytes(data@),
            ) ==> (r matches Ok(ImprovCommand::WifiSettings { ssid, .. }) && text_of(ssid).len() == 0),
    {
        if data.len() == 0 {
            return Err(Error::Unknown);
        }
        let cmd = match CommandIdentifier::try_from(data[0]) {
            Ok(c) => c,
            Err(e) => return Err(e),
        };
        match cmd {
            CommandIdentifier::WifiSettings => {
                if data.len() < 3 {
                    return Err(Error::Unknown);
                }
                let ssid_length = data[2] as usize;
                let ssid_start: usize = 3;
                let ssid_end: usize = ssid_start + ssid_length;
                if data.len() <= ssid_end {
                    return Err(Error::Unknown);
                }
                let pass_length = data[ssid_end] as usize;
                let pass_start: usize = ssid_end + 1;
                let pass_end: usize = pass_start + pass_length;
                if data.len() < pass_end {
                    return Err(Error::Unknown);
                }
                let ssid = text_field(slice_subrange(data, ssid_start, ssid_end))?;
                let password = text_field(slice_subrange(data, pass_start, pass_end))?;
                Ok(ImprovCommand::WifiSettings { ssid, password })
            },
            CommandIdentifier::GetDeviceInfo => Ok(ImprovCommand::GetDeviceInfo),
            CommandIdentifier::GetCurrentState => Ok(ImprovCommand::GetCurrentState),
            CommandIdentifier::GetWifiNetworks => Ok(ImprovCommand::GetWifiNetworks),
        }
    }
}

} // verus!
