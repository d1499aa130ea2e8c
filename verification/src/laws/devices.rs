//! Headsets and their displays.

use crate::devices::{
    areas_computable, choose_display, find_serial, has_display, has_online, is_preferred,
    law_shown_displays_are_the_usable_ones, lower_names_quest, lowercase, model_is_quest, of_area,
    order_displays, preferred, usable, usable_only, Device, DisplayInfo,
};
use crate::text::{occurs_at, occurs_in};
use vstd::prelude::*;

verus! {

/// Whether a device can be used: adb calls its state `device`.
pub open spec fn usable_device(d: Device) -> bool {
    d.state@ == "device"@
}

/// Whether a device of a serial is listed and can be used.
pub open spec fn lists_usable(devices: Seq<Device>, serial: Seq<char>) -> bool {
    exists|i: int|
        0 <= i < devices.len() && usable_device(#[trigger] devices[i]) && devices[i].serial@
            == serial
}

/// Whether any device that is listed can be used.
pub open spec fn any_usable(devices: Seq<Device>) -> bool {
    exists|i: int| 0 <= i < devices.len() && usable_device(#[trigger] devices[i])
}

/// Whether a device is the one to fall back to: it can be used; it is on USB where
/// any that can be used is; and none before it is as good.
pub open spec fn is_best(devices: Seq<Device>, i: int) -> bool {
    &&& 0 <= i < devices.len()
    &&& usable_device(devices[i])
    &&& forall|k: int|
        0 <= k < devices.len() && usable_device(#[trigger] devices[k]) && devices[k].usb
            ==> devices[i].usb
    &&& forall|k: int|
        0 <= k < i && usable_device(#[trigger] devices[k]) ==> devices[i].usb && !devices[k].usb
}

/// A device can be used exactly where adb calls its state `device`.
pub proof fn law_usable_devices_are_in_state_device(d: &Device, yes: bool)
    requires
        call_ensures(Device::online, (d,), yes),
    ensures
        yes <==> usable_device(*d),
{
}

/// A usable device of a serial is found exactly where one is listed.
pub proof fn law_usable_serials_are_found(devices: &Vec<Device>, serial: &String, found: bool)
    requires
        call_ensures(has_online, (devices, serial), found),
    ensures
        found <==> lists_usable(devices@, serial@),
{
}

pub proof fn lemma_best(devices: Seq<Device>, i: int)
    ensures
        is_preferred(devices, i) <==> is_best(devices, i),
{
}

/// The device to fall back to is the best, and there is one exactly where any can
/// be used.
pub proof fn law_fallback_is_the_best_device(devices: &Vec<Device>, chosen: Option<usize>)
    requires
        call_ensures(preferred, (devices,), chosen),
    ensures
        chosen is Some <==> any_usable(devices@),
        chosen matches Some(i) ==> is_best(devices@, i as int),
{
    if let Some(i) = chosen {
        lemma_best(devices@, i as int);
        assert(usable_device(devices@[i as int]));
    }
}

/// The first device of a serial is found.
pub proof fn law_first_of_a_serial_is_found(
    devices: &Vec<Device>,
    serial: &String,
    found: Option<usize>,
    k: int,
)
    requires
        call_ensures(find_serial, (devices, serial), found),
        0 <= k < devices@.len(),
        devices@[k].serial@ == serial@,
    ensures
        found matches Some(i) && i <= k && devices@[i as int].serial@ == serial@,
{
}

/// A model is a Quest exactly where its name in small letters holds one of the
/// names of the family.
pub proof fn law_quests_are_known_by_name(
    lower: &str,
    quest: bool,
    model: &String,
    model_quest: bool,
    before: Seq<char>,
    after: Seq<char>,
)
    requires
        call_ensures(lower_names_quest, (lower,), quest),
        call_ensures(model_is_quest, (model,), model_quest),
    ensures
        lower@ == before + "quest"@ + after ==> quest,
        lower@ == before + "oculus"@ + after ==> quest,
        lower@ == before + "eureka"@ + after ==> quest,
        lower@ == before + "meta"@ + after ==> quest,
        quest ==> occurs_in(lower@, "quest"@) || occurs_in(lower@, "oculus"@) || occurs_in(
            lower@,
            "eureka"@,
        ) || occurs_in(lower@, "meta"@),
        lower@ == lowercase(model@) ==> model_quest == quest,
{
    let at = before.len() as int;
    if lower@ == before + "quest"@ + after {
        assert(lower@.subrange(at, at + "quest"@.len()) =~= "quest"@);
        assert(occurs_at(lower@, "quest"@, at));
    }
    if lower@ == before + "oculus"@ + after {
        assert(lower@.subrange(at, at + "oculus"@.len()) =~= "oculus"@);
        assert(occurs_at(lower@, "oculus"@, at));
    }
    if lower@ == before + "eureka"@ + after {
        assert(lower@.subrange(at, at + "eureka"@.len()) =~= "eureka"@);
        assert(occurs_at(lower@, "eureka"@, at));
    }
    if lower@ == before + "meta"@ + after {
        assert(lower@.subrange(at, at + "meta"@.len()) =~= "meta"@);
        assert(occurs_at(lower@, "meta"@, at));
    }
}

/// Tells the displays of an area.
pub open spec fn with_area(a: int) -> spec_fn(DisplayInfo) -> bool {
    |d: DisplayInfo| d.width * d.height == a
}

/// Tells the displays of an area that are two pixels or more each way.
pub open spec fn shown_with_area(a: int) -> spec_fn(DisplayInfo) -> bool {
    |d: DisplayInfo| d.width >= 2 && d.height >= 2 && d.width * d.height == a
}

/// Whether `list` shows the displays of `all`: those of two pixels or more each
/// way, the larger before the smaller, and those of one area as they were listed.
pub open spec fn shows_displays(all: Seq<DisplayInfo>, list: Seq<DisplayInfo>) -> bool {
    &&& forall|d: DisplayInfo| #[trigger]
        list.contains(d) <==> all.contains(d) && d.width >= 2 && d.height >= 2
    &&& forall|i: int, j: int|
        0 <= i < j < list.len() ==> (#[trigger] list[i]).width * list[i].height >= (
        #[trigger] list[j]).width * list[j].height
    &&& forall|a: int| #[trigger] list.filter(with_area(a)) == all.filter(shown_with_area(a))
}

proof fn lemma_filters(all: Seq<DisplayInfo>, a: int)
    ensures
        usable_only(all).filter(with_area(a)) == all.filter(shown_with_area(a)),
    decreases all.len(),
{
    reveal(Seq::filter);
    if all.len() > 0 {
        lemma_filters(all.drop_last(), a);
        let rest = usable_only(all.drop_last());
        if usable(all.last()) {
            assert(usable_only(all) == rest.push(all.last()));
            rest.lemma_filter_push(all.last(), with_area(a));
        } else {
            assert(usable_only(all) == rest);
        }
    } else {
        assert(usable_only(all) =~= Seq::<DisplayInfo>::empty());
    }
}

pub proof fn lemma_display_order(all: Seq<DisplayInfo>, list: Seq<DisplayInfo>)
    requires
        crate::devices::is_display_order(all, list),
    ensures
        shows_displays(all, list),
{
    assert forall|d: DisplayInfo| #[trigger] list.contains(d) <==> all.contains(d) && d.width >= 2
        && d.height >= 2 by {
        law_shown_displays_are_the_usable_ones(all, list, d);
    }
    assert forall|i: int, j: int| 0 <= i < j < list.len() implies (#[trigger] list[i]).width
        * list[i].height >= (#[trigger] list[j]).width * list[j].height by {
        assert(crate::devices::area(list[i]) >= crate::devices::area(list[j]));
    }
    assert forall|a: int| #[trigger]
        list.filter(with_area(a)) == all.filter(shown_with_area(a)) by {
        let p = |d: DisplayInfo| crate::devices::area(d) == a;
        assert(p =~= with_area(a));
        assert(of_area(list, a) == of_area(usable_only(all), a));
        lemma_filters(all, a);
    }
}

/// The displays that are shown are those worth showing, the largest first.
pub proof fn law_displays_are_shown_in_order(all: &Vec<DisplayInfo>, list: Vec<DisplayInfo>)
    requires
        call_ensures(order_displays, (all,), list),
    ensures
        shows_displays(all@, list@),
{
    lemma_display_order(all@, list@);
}

/// Whether a display of an id is listed.
pub open spec fn lists_id(list: Seq<DisplayInfo>, id: u32) -> bool {
    exists|i: int| 0 <= i < list.len() && (#[trigger] list[i]).id == id
}

/// The display that was chosen stays where it is listed or none is; else it is
/// display zero where that is listed, and the first where it is not.
pub open spec fn choice_of(list: Seq<DisplayInfo>, chosen: u32, id: u32) -> bool {
    &&& lists_id(list, chosen) || list.len() == 0 ==> id == chosen
    &&& list.len() > 0 && !lists_id(list, chosen) && lists_id(list, 0) ==> id == 0
    &&& list.len() > 0 && !lists_id(list, chosen) && !lists_id(list, 0) ==> id == list[0].id
}

/// A display that is listed is shown, the chosen one first of all.
pub proof fn law_listed_displays_are_chosen(
    list: &Vec<DisplayInfo>,
    chosen: u32,
    id: u32,
    found: bool,
)
    requires
        call_ensures(choose_display, (list, chosen), id),
        call_ensures(has_display, (list, chosen), found),
    ensures
        found <==> lists_id(list@, chosen),
        choice_of(list@, chosen, id),
        list@.len() > 0 ==> lists_id(list@, id),
{
    if list@.len() > 0 {
        assert(list@[0].id == list@[0].id);
    }
}

/// Displays of ordinary size can always be ordered.
pub proof fn law_ordinary_displays_can_be_ordered(all: &Vec<DisplayInfo>, fit: bool)
    requires
        call_ensures(areas_computable, (all,), fit),
        forall|i: int|
            0 <= i < all@.len() ==> (#[trigger] all@[i]).width <= 65535 && all@[i].height <= 65535,
    ensures
        fit,
        call_requires(order_displays, (all,)),
{
    assert forall|i: int| 0 <= i < all@.len() && usable(#[trigger] all@[i]) implies
        crate::devices::area(all@[i]) <= u32::MAX by {
        let d = all@[i];
        assert(d.width * d.height <= 65535 * 65535) by (nonlinear_arith)
            requires
                0 <= d.width <= 65535,
                0 <= d.height <= 65535,
        ;
    }
}

} // verus!
