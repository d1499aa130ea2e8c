//! AAC playback behind one type with two interchangeable backends: `ffmpeg`
//! where it is on the path, and the decoder that comes with Windows.

use vstd::prelude::*;

verus! {

/// Why there is no audio.
#[derive(Clone, Copy, Debug, PartialEq, Eq, Structural)]
pub enum AudioError {
    /// There is neither ffmpeg nor a decoder of the system.
    NoBackend,
    /// There is no output device at all.
    NoOutputDevice,
}

/// One unit of the audio stream: an access unit, or the codec configuration.
#[derive(Debug)]
pub struct AacUnit {
    pub data: Vec<u8>,
    pub is_config: bool,
}

/// A backend: the output device it plays through, and what it has been fed and
/// has not taken yet, oldest first.
#[derive(Debug)]
pub struct Playback {
    pub device: Option<String>,
    pub pending: Vec<AacUnit>,
}

/// A player.
#[derive(Debug)]
pub enum AacPlayer {
    Ffmpeg(Playback),
    Mf(Playback),
}

/// What a unit holds.
pub open spec fn unit_view(u: AacUnit) -> (Seq<u8>, bool) {
    (u.data@, u.is_config)
}

/// What the units hold.
pub open spec fn units_view(units: Seq<AacUnit>) -> Seq<(Seq<u8>, bool)> {
    units.map_values(|u: AacUnit| unit_view(u))
}

/// Whether the device is the one that was asked for.
pub open spec fn same_device(device: Option<String>, asked: Option<&str>) -> bool {
    match (device, asked) {
        (Some(d), Some(a)) => d@ == a@,
        (None, None) => true,
        _ => false,
    }
}

impl AacPlayer {
    /// The backend.
    pub open spec fn playback(self) -> Playback {
        match self {
            AacPlayer::Ffmpeg(p) => p,
            AacPlayer::Mf(p) => p,
        }
    }

    /// A player on the backend that is at hand: ffmpeg where it can be used, else
    /// that of Windows. `device` names the output device to play through.
    pub fn new(device: Option<&str>, use_ffmpeg: bool, on_windows: bool) -> (player: Result<
        AacPlayer,
        AudioError,
    >)
        ensures
            !use_ffmpeg && !on_windows ==> player == Err::<AacPlayer, _>(AudioError::NoBackend),
            use_ffmpeg || on_windows ==> {
                &&& player matches Ok(p)
                &&& p is Ffmpeg <==> use_ffmpeg
                &&& same_device(p.playback().device, device)
                &&& p.playback().pending@.len() == 0
            },
    {
        let playback = Playback {
            device: match device {
                Some(name) => Some(name.to_owned()),
                None => None,
            },
            pending: Vec::new(),
        };
        if use_ffmpeg {
            return Ok(AacPlayer::Ffmpeg(playback));
        }
        if on_windows {
            return Ok(AacPlayer::Mf(playback));
        }
        Err(AudioError::NoBackend)
    }

    /// Feeds an access unit, or the codec configuration where `is_config`, to the
    /// backend.
    pub fn feed(&mut self, data: &[u8], is_config: bool)
        ensures
            *final(self) is Ffmpeg <==> *old(self) is Ffmpeg,
            final(self).playback().device == old(self).playback().device,
            units_view(final(self).playback().pending@) == units_view(
                old(self).playback().pending@,
            ).push((data@, is_config)),
    {
        let mut bytes: Vec<u8> = Vec::new();
        bytes.extend_from_slice(data);
        assert(bytes@ =~= data@);
        let unit = AacUnit { data: bytes, is_config };
        match self {
            AacPlayer::Ffmpeg(p) => p.pending.push(unit),
            AacPlayer::Mf(p) => p.pending.push(unit),
        }
        assert(units_view(self.playback().pending@) =~= units_view(
            old(self).playback().pending@,
        ).push((data@, is_config)));
    }

    /// Hands what has been fed to the backend, oldest first.
    pub fn take_pending(&mut self) -> (units: Vec<AacUnit>)
        ensures
            units@ == old(self).playback().pending@,
            *final(self) is Ffmpeg <==> *old(self) is Ffmpeg,
            final(self).playback().device == old(self).playback().device,
            final(self).playback().pending@.len() == 0,
    {
        let mut units: Vec<AacUnit> = Vec::new();
        match self {
            AacPlayer::Ffmpeg(p) => std::mem::swap(&mut units, &mut p.pending),
            AacPlayer::Mf(p) => std::mem::swap(&mut units, &mut p.pending),
        }
        units
    }
}

/// The names of the output devices; none where they cannot be listed.
pub fn output_device_names(listed: Option<Vec<String>>) -> (names: Vec<String>)
    ensures
        match listed {
            Some(l) => names == l,
            None => names@.len() == 0,
        },
{
    match listed {
        Some(names) => names,
        None => Vec::new(),
    }
}

/// The device to play through.
#[derive(Clone, Copy, Debug, PartialEq, Eq, Structural)]
pub enum DeviceChoice {
    /// The listed device of that number.
    Listed(usize),
    /// The system default.
    Default,
}

/// Whether a name asks for a listed device.
pub open spec fn asks_for(name: Option<&str>, listed: Option<Vec<String>>, i: int) -> bool {
    &&& name matches Some(n)
    &&& n@.len() > 0
    &&& listed matches Some(l)
    &&& 0 <= i < l@.len()
    &&& l@[i]@ == n@
}

/// Resolves a name to an output device. A name that is missing, empty or no
/// longer listed falls back to the system default: it never fails just because a
/// saved device is gone.
pub fn resolve_output_device(
    name: Option<&str>,
    listed: &Option<Vec<String>>,
    has_default: bool,
) -> (choice: Result<DeviceChoice, AudioError>)
    ensures
        match choice {
            Ok(DeviceChoice::Listed(i)) => {
                &&& asks_for(name, *listed, i as int)
                &&& forall|k: int| 0 <= k < i ==> !#[trigger] asks_for(name, *listed, k)
            },
            Ok(DeviceChoice::Default) => {
                &&& has_default
                &&& forall|k: int| !#[trigger] asks_for(name, *listed, k)
            },
            Err(e) => {
                &&& e == AudioError::NoOutputDevice
                &&& !has_default
                &&& forall|k: int| !#[trigger] asks_for(name, *listed, k)
            },
        },
{
    if let Some(n) = name {
        if !n.is_empty() {
            if let Some(list) = listed {
                let wanted = n.to_owned();
                let mut i: usize = 0;
                while i < list.len()
                    invariant
                        i <= list@.len(),
                        wanted@ == n@,
                        name == Some(n),
                        *listed == Some(*list),
                        n@.len() > 0,
                        forall|k: int| 0 <= k < i ==> !#[trigger] asks_for(name, *listed, k),
                    decreases list@.len() - i,
                {
                    if list[i] == wanted {
                        return Ok(DeviceChoice::Listed(i));
                    }
                    i = i + 1;
                }
            }
        }
    }
    if has_default {
        Ok(DeviceChoice::Default)
    } else {
        Err(AudioError::NoOutputDevice)
    }
}

} // verus!
