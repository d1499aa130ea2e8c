//! Playing audio.

use crate::audioplay::{
    asks_for, output_device_names, resolve_output_device, units_view, AacPlayer, AacUnit,
    AudioError, DeviceChoice,
};
use vstd::prelude::*;

verus! {

/// The player is on ffmpeg where that can be used, else on the decoder of Windows,
/// and there is none without either. It plays through the device that was asked
/// for and has nothing to play yet.
pub proof fn law_players_use_what_is_at_hand(
    device: Option<&str>,
    use_ffmpeg: bool,
    on_windows: bool,
    player: Result<AacPlayer, AudioError>,
)
    requires
        call_ensures(AacPlayer::new, (device, use_ffmpeg, on_windows), player),
    ensures
        use_ffmpeg ==> (player matches Ok(p) && p is Ffmpeg),
        !use_ffmpeg && on_windows ==> (player matches Ok(p) && p is Mf),
        !use_ffmpeg && !on_windows ==> player == Err::<AacPlayer, _>(AudioError::NoBackend),
        player matches Ok(AacPlayer::Ffmpeg(b)) ==> {
            &&& b.pending@.len() == 0
            &&& b.device is Some <==> device is Some
            &&& device matches Some(d) ==> b.device.unwrap()@ == d@
        },
        player matches Ok(AacPlayer::Mf(b)) ==> {
            &&& b.pending@.len() == 0
            &&& b.device is Some <==> device is Some
            &&& device matches Some(d) ==> b.device.unwrap()@ == d@
        },
{
}

/// What has been fed and not taken.
pub open spec fn waiting(player: AacPlayer) -> Seq<AacUnit> {
    match player {
        AacPlayer::Ffmpeg(b) => b.pending@,
        AacPlayer::Mf(b) => b.pending@,
    }
}

/// The device that is played through.
pub open spec fn device_of(player: AacPlayer) -> Option<String> {
    match player {
        AacPlayer::Ffmpeg(b) => b.device,
        AacPlayer::Mf(b) => b.device,
    }
}

/// A unit that is fed comes after all that wait, which stay as they are.
pub proof fn law_fed_units_wait_in_order(player: &mut AacPlayer, data: &[u8], is_config: bool)
    requires
        call_ensures(AacPlayer::feed, (player, data, is_config), ()),
    ensures
        waiting(*final(player)).len() == waiting(*old(player)).len() + 1,
        forall|i: int|
            #![trigger waiting(*old(player))[i]]
            0 <= i < waiting(*old(player)).len() ==> {
                &&& waiting(*final(player))[i].data@ == waiting(*old(player))[i].data@
                &&& waiting(*final(player))[i].is_config == waiting(*old(player))[i].is_config
            },
        waiting(*final(player)).last().data@ == data@,
        waiting(*final(player)).last().is_config == is_config,
        device_of(*final(player)) == device_of(*old(player)),
        *final(player) is Ffmpeg <==> *old(player) is Ffmpeg,
{
    let was = waiting(*old(player));
    let now = waiting(*final(player));
    assert(units_view(was).len() == was.len());
    assert(units_view(now).len() == now.len());
    let n = was.len() as int;
    assert(units_view(now)[n] == (now[n].data@, now[n].is_config));
    assert forall|i: int| 0 <= i < was.len() implies {
        &&& now[i].data@ == (#[trigger] was[i]).data@
        &&& now[i].is_config == was[i].is_config
    } by {
        assert(units_view(now)[i] == (now[i].data@, now[i].is_config));
        assert(units_view(was)[i] == (was[i].data@, was[i].is_config));
    }
}

/// All that waits is taken at once, in order, and nothing is left.
pub proof fn law_waiting_units_are_taken_once(player: &mut AacPlayer, units: Vec<AacUnit>)
    requires
        call_ensures(AacPlayer::take_pending, (player,), units),
    ensures
        units@ == waiting(*old(player)),
        waiting(*final(player)).len() == 0,
        device_of(*final(player)) == device_of(*old(player)),
        *final(player) is Ffmpeg <==> *old(player) is Ffmpeg,
{
}

/// The devices are named as they are listed.
pub proof fn law_listed_devices_are_named(listed: Option<Vec<String>>, names: Vec<String>)
    requires
        call_ensures(output_device_names, (listed,), names),
    ensures
        listed is None ==> names@.len() == 0,
        listed matches Some(l) ==> names@ == l@,
{
}

/// A device that is asked for and listed is played through, the first of its name;
/// else the system default, and there is no audio only where there is none.
pub proof fn law_missing_devices_fall_back(
    name: Option<&str>,
    listed: &Option<Vec<String>>,
    has_default: bool,
    choice: Result<DeviceChoice, AudioError>,
)
    requires
        call_ensures(resolve_output_device, (name, listed, has_default), choice),
    ensures
        ({
            let found = name matches Some(n) && n@.len() > 0 && (listed matches Some(l) && exists|
                i: int,
            | 0 <= i < l@.len() && (#[trigger] l@[i])@ == n@);
            &&& found ==> (choice matches Ok(DeviceChoice::Listed(i)) && (listed matches Some(l)
                && i < l@.len() && l@[i as int]@ == name.unwrap()@ && forall|k: int|
                0 <= k < i ==> (#[trigger] l@[k])@ != name.unwrap()@))
            &&& !found && has_default ==> choice == Ok::<_, AudioError>(DeviceChoice::Default)
            &&& !found && !has_default ==> choice == Err::<DeviceChoice, _>(
                AudioError::NoOutputDevice,
            )
        }),
{
    if let Some(n) = name {
        if let Some(l) = listed {
            assert forall|k: int|
                0 <= k < l@.len() && n@.len() > 0 && (#[trigger] l@[k])@ == n@ implies asks_for(
                name,
                *listed,
                k,
            ) by {}
        }
    }
}

} // verus!
