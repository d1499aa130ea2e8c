//! Headsets that adb reports and the displays that a headset exposes.

use crate::text::{contains_text, occurs_in, text_is};
use vstd::prelude::*;

verus! {

/// A device as adb lists it.
#[derive(Debug)]
pub struct Device {
    pub serial: String,
    pub state: String,
    pub usb: bool,
    pub model: String,
}

/// A display of a device.
#[derive(Clone, Copy, Debug, PartialEq, Eq, Structural)]
pub struct DisplayInfo {
    pub id: u32,
    pub width: u32,
    pub height: u32,
}

/// Whether a device can be used.
pub open spec fn is_online(d: Device) -> bool {
    d.state@ == "device"@
}

/// Whether a device can be used and has the given serial.
pub open spec fn online_as(d: Device, serial: Seq<char>) -> bool {
    is_online(d) && d.serial@ == serial
}

/// Whether a device of that serial can be used.
pub open spec fn any_online_as(devices: Seq<Device>, serial: Seq<char>) -> bool {
    exists|i: int| 0 <= i < devices.len() && online_as(#[trigger] devices[i], serial)
}

/// Whether no device can be used.
pub open spec fn none_online(devices: Seq<Device>) -> bool {
    forall|i: int| 0 <= i < devices.len() ==> !is_online(#[trigger] devices[i])
}

/// Whether no device that can be used is on USB.
pub open spec fn none_on_usb(devices: Seq<Device>) -> bool {
    forall|i: int| 0 <= i < devices.len() ==> !(is_online(#[trigger] devices[i]) && devices[i].usb)
}

/// Whether `i` is the device to fall back to: the first on USB that can be used,
/// or, where none is on USB, the first that can be used.
pub open spec fn is_preferred(devices: Seq<Device>, i: int) -> bool {
    &&& 0 <= i < devices.len()
    &&& is_online(devices[i])
    &&& if none_on_usb(devices) {
        forall|k: int| 0 <= k < i ==> !is_online(#[trigger] devices[k])
    } else {
        devices[i].usb && forall|k: int|
            0 <= k < i ==> !(is_online(#[trigger] devices[k]) && devices[k].usb)
    }
}

/// Whether `i` is the first device of that serial.
pub open spec fn is_first_as(devices: Seq<Device>, serial: Seq<char>, i: int) -> bool {
    &&& 0 <= i < devices.len()
    &&& devices[i].serial@ == serial
    &&& forall|k: int| 0 <= k < i ==> (#[trigger] devices[k]).serial@ != serial
}

/// Whether no device has that serial.
pub open spec fn none_as(devices: Seq<Device>, serial: Seq<char>) -> bool {
    forall|k: int| 0 <= k < devices.len() ==> (#[trigger] devices[k]).serial@ != serial
}

impl Device {
    /// Tells whether the device can be used.
    pub fn online(&self) -> (yes: bool)
        ensures
            yes == is_online(*self),
    {
        text_is(&self.state, "device")
    }
}

/// Tells whether a device of that serial can be used.
pub fn has_online(devices: &Vec<Device>, serial: &String) -> (found: bool)
    ensures
        found == any_online_as(devices@, serial@),
{
    let mut i: usize = 0;
    while i < devices.len()
        invariant
            i <= devices@.len(),
            forall|k: int| 0 <= k < i ==> !online_as(#[trigger] devices@[k], serial@),
        decreases devices@.len() - i,
    {
        if devices[i].online() && devices[i].serial == *serial {
            assert(online_as(devices@[i as int], serial@));
            return true;
        }
        i = i + 1;
    }
    false
}

/// The device to fall back to.
pub fn preferred(devices: &Vec<Device>) -> (chosen: Option<usize>)
    ensures
        match chosen {
            Some(i) => is_preferred(devices@, i as int),
            None => none_online(devices@),
        },
{
    let mut first: Option<usize> = None;
    let mut i: usize = 0;
    while i < devices.len()
        invariant
            i <= devices@.len(),
            forall|k: int|
                0 <= k < i ==> !(is_online(#[trigger] devices@[k]) && devices@[k].usb),
            match first {
                Some(f) => {
                    &&& f < i
                    &&& is_online(devices@[f as int])
                    &&& forall|k: int| 0 <= k < f ==> !is_online(#[trigger] devices@[k])
                },
                None => forall|k: int| 0 <= k < i ==> !is_online(#[trigger] devices@[k]),
            },
        decreases devices@.len() - i,
    {
        if devices[i].online() {
            if devices[i].usb {
                assert(!none_on_usb(devices@));
                return Some(i);
            }
            if first.is_none() {
                first = Some(i);
            }
        }
        i = i + 1;
    }
    first
}

/// The first device of that serial.
pub fn find_serial(devices: &Vec<Device>, serial: &String) -> (found: Option<usize>)
    ensures
        match found {
            Some(i) => is_first_as(devices@, serial@, i as int),
            None => none_as(devices@, serial@),
        },
{
    let mut i: usize = 0;
    while i < devices.len()
        invariant
            i <= devices@.len(),
            forall|k: int| 0 <= k < i ==> (#[trigger] devices@[k]).serial@ != serial@,
        decreases devices@.len() - i,
    {
        if devices[i].serial == *serial {
            return Some(i);
        }
        i = i + 1;
    }
    None
}

/// What `str::to_lowercase` makes of a text.
pub uninterp spec fn lowercase(text: Seq<char>) -> Seq<char>;

/// Calls `str::to_lowercase`, whose result depends on the text alone; what it
/// is, is left to the Unicode tables.
#[verifier::external_body]
fn to_lowercase(text: &str) -> (lower: String)
    ensures
        lower@ == lowercase(text@),
{
    text.to_lowercase()
}

/// Whether a model name in lower case is that of a Quest.
pub open spec fn names_quest(lower: Seq<char>) -> bool {
    ||| occurs_in(lower, "quest"@)
    ||| occurs_in(lower, "oculus"@)
    ||| occurs_in(lower, "eureka"@)
    ||| occurs_in(lower, "meta"@)
}

/// Tells whether a model name in lower case is that of a Quest.
pub fn lower_names_quest(lower: &str) -> (quest: bool)
    ensures
        quest == names_quest(lower@),
{
    contains_text(lower, "quest") || contains_text(lower, "oculus") || contains_text(
        lower,
        "eureka",
    ) || contains_text(lower, "meta")
}

/// Tells whether a model name is that of a Quest, in whatever case it is written.
pub fn model_is_quest(model: &String) -> (quest: bool)
    ensures
        quest == names_quest(lowercase(model@)),
{
    let lower = to_lowercase(model.as_str());
    lower_names_quest(lower.as_str())
}

/// The area of a display.
pub open spec fn area(d: DisplayInfo) -> int {
    d.width * d.height
}

/// Whether a display is more than a placeholder.
pub open spec fn usable(d: DisplayInfo) -> bool {
    d.width >= 2 && d.height >= 2
}

/// The displays worth showing.
pub open spec fn usable_only(list: Seq<DisplayInfo>) -> Seq<DisplayInfo> {
    list.filter(|d: DisplayInfo| usable(d))
}

/// The displays of one area, in their order.
pub open spec fn of_area(list: Seq<DisplayInfo>, a: int) -> Seq<DisplayInfo> {
    list.filter(|d: DisplayInfo| area(d) == a)
}

/// Whether no display comes after a smaller one.
pub open spec fn largest_first(list: Seq<DisplayInfo>) -> bool {
    forall|i: int, j: int|
        0 <= i < j < list.len() ==> area(#[trigger] list[i]) >= area(#[trigger] list[j])
}

/// Whether `list` is the usable displays of `all`, largest first, those of one
/// area in the order in which they were listed.
pub open spec fn is_display_order(all: Seq<DisplayInfo>, list: Seq<DisplayInfo>) -> bool {
    &&& largest_first(list)
    &&& forall|a: int| #[trigger] of_area(list, a) == of_area(usable_only(all), a)
}

/// Puts a display into its place in an ordered list.
proof fn lemma_insert_keeps_order(list: Seq<DisplayInfo>, at: int, d: DisplayInfo)
    requires
        0 <= at <= list.len(),
        largest_first(list),
        forall|k: int| 0 <= k < at ==> area(#[trigger] list[k]) >= area(d),
        forall|k: int| at <= k < list.len() ==> area(#[trigger] list[k]) < area(d),
    ensures
        largest_first(list.insert(at, d)),
        forall|a: int| #[trigger] of_area(list.insert(at, d), a) == of_area(list.push(d), a),
{
    let new = list.insert(at, d);
    assert forall|i: int, j: int| 0 <= i < j < new.len() implies area(#[trigger] new[i]) >= area(
        #[trigger] new[j],
    ) by {
        let x = if i < at {
            i
        } else {
            i - 1
        };
        let y = if j < at {
            j
        } else {
            j - 1
        };
        if i != at {
            assert(new[i] == list[x]);
        }
        if j != at {
            assert(new[j] == list[y]);
        }
    }
    assert forall|a: int| #[trigger] of_area(new, a) == of_area(list.push(d), a) by {
        let pred = |e: DisplayInfo| area(e) == a;
        let head = list.take(at);
        let tail = list.skip(at);
        assert(new =~= head + seq![d] + tail);
        assert(list.push(d) =~= head + tail + seq![d]);
        Seq::filter_distributes_over_add(head + seq![d], tail, pred);
        Seq::filter_distributes_over_add(head, seq![d], pred);
        Seq::filter_distributes_over_add(head + tail, seq![d], pred);
        Seq::filter_distributes_over_add(head, tail, pred);
        let one = seq![d].filter(pred);
        if a == area(d) {
            assert forall|k: int| 0 <= k < tail.len() implies !pred(#[trigger] tail[k]) by {
                assert(tail[k] == list[at + k]);
            }
            tail.lemma_all_neg_filter_empty(pred);
            assert(tail.filter(pred).len() == 0);
            assert(head.filter(pred) + one + tail.filter(pred) =~= head.filter(pred)
                + tail.filter(pred) + one);
        } else {
            assert(seq![d].filter(pred).len() == 0) by {
                seq![d].lemma_all_neg_filter_empty(pred);
            }
            assert(head.filter(pred) + one + tail.filter(pred) =~= head.filter(pred)
                + tail.filter(pred) + one);
        }
    }
}

/// Whether the areas of the displays that have to be compared can be computed.
pub open spec fn areas_fit(all: Seq<DisplayInfo>) -> bool {
    usable_only(all).len() > 1 ==> forall|i: int|
        0 <= i < all.len() && usable(#[trigger] all[i]) ==> area(all[i]) <= u32::MAX
}

/// Tells whether the areas that have to be compared can be computed.
pub fn areas_computable(all: &Vec<DisplayInfo>) -> (fit: bool)
    ensures
        fit == areas_fit(all@),
{
    let mut count: usize = 0;
    let mut fit = true;
    let mut i: usize = 0;
    proof {
        reveal(Seq::filter);
        assert(all@.take(0) =~= Seq::<DisplayInfo>::empty());
    }
    while i < all.len()
        invariant
            i <= all@.len(),
            count == usable_only(all@.take(i as int)).len(),
            count <= i,
            fit <==> forall|k: int|
                0 <= k < i && usable(#[trigger] all@[k]) ==> area(all@[k]) <= u32::MAX,
        decreases all@.len() - i,
    {
        let d = all[i];
        proof {
            let seen = all@.take(i as int);
            assert(all@.take(i + 1) =~= seen.push(d));
            seen.lemma_filter_push(d, |d: DisplayInfo| usable(d));
        }
        if d.width >= 2 && d.height >= 2 {
            count = count + 1;
            if area_of(&d) > u32::MAX as u64 {
                assert(usable(all@[i as int]));
                fit = false;
            }
        }
        i = i + 1;
    }
    assert(all@.take(all@.len() as int) =~= all@);
    count < 2 || fit
}

fn area_of(d: &DisplayInfo) -> (a: u64)
    ensures
        a == area(*d),
{
    assert(d.width * d.height <= 0xffff_ffff * 0xffff_ffff) by (nonlinear_arith)
        requires
            0 <= d.width <= 0xffff_ffff,
            0 <= d.height <= 0xffff_ffff,
    ;
    assert(d.width * d.height >= 0) by (nonlinear_arith);
    d.width as u64 * d.height as u64
}

/// Keeps the displays worth showing and puts the largest first.
pub fn order_displays(all: &Vec<DisplayInfo>) -> (list: Vec<DisplayInfo>)
    requires
        areas_fit(all@),
    ensures
        is_display_order(all@, list@),
{
    let mut list: Vec<DisplayInfo> = Vec::new();
    let mut i: usize = 0;
    proof {
        reveal(Seq::filter);
        assert(all@.take(0) =~= Seq::<DisplayInfo>::empty());
        assert(list@ =~= usable_only(all@.take(0)));
    }
    while i < all.len()
        invariant
            i <= all@.len(),
            is_display_order(all@.take(i as int), list@),
        decreases all@.len() - i,
    {
        let d = all[i];
        let ghost before = list@;
        let ghost seen = all@.take(i as int);
        let ghost now = all@.take(i + 1);
        proof {
            assert(now =~= seen.push(d));
            seen.lemma_filter_push(d, |d: DisplayInfo| usable(d));
        }
        if d.width >= 2 && d.height >= 2 {
            let size: u64 = area_of(&d);
            let mut at: usize = 0;
            while at < list.len() && area_of(&list[at]) >= size
                invariant
                    size == area(d),
                    at <= list@.len(),
                    forall|k: int| 0 <= k < at ==> area(#[trigger] list@[k]) >= size,
                decreases list@.len() - at,
            {
                at = at + 1;
            }
            list.insert(at, d);
            proof {
                lemma_insert_keeps_order(before, at as int, d);
                assert forall|a: int| #[trigger] of_area(list@, a) == of_area(
                    usable_only(now),
                    a,
                ) by {
                    let pred = |e: DisplayInfo| area(e) == a;
                    assert(of_area(list@, a) == of_area(before.push(d), a));
                    assert(of_area(before, a) == of_area(usable_only(seen), a));
                    before.lemma_filter_push(d, pred);
                    usable_only(seen).lemma_filter_push(d, pred);
                }
            }
        }
        i = i + 1;
    }
    assert(all@.take(all@.len() as int) =~= all@);
    list
}

/// Whether a display of that id is listed.
pub open spec fn lists_display(list: Seq<DisplayInfo>, id: u32) -> bool {
    exists|i: int| 0 <= i < list.len() && (#[trigger] list[i]).id == id
}

/// The display to show: the one that was chosen where it is listed, else display
/// zero, else the first; where none is listed, the choice stays.
pub open spec fn display_choice(list: Seq<DisplayInfo>, chosen: u32) -> u32 {
    if list.len() == 0 || lists_display(list, chosen) {
        chosen
    } else if lists_display(list, 0) {
        0
    } else {
        list[0].id
    }
}

/// Tells whether a display of that id is listed.
pub fn has_display(list: &Vec<DisplayInfo>, id: u32) -> (found: bool)
    ensures
        found == lists_display(list@, id),
{
    let mut i: usize = 0;
    while i < list.len()
        invariant
            i <= list@.len(),
            forall|k: int| 0 <= k < i ==> (#[trigger] list@[k]).id != id,
        decreases list@.len() - i,
    {
        if list[i].id == id {
            return true;
        }
        i = i + 1;
    }
    false
}

/// The display to show of those that are listed.
pub fn choose_display(list: &Vec<DisplayInfo>, chosen: u32) -> (id: u32)
    ensures
        id == display_choice(list@, chosen),
{
    if has_display(list, chosen) {
        chosen
    } else if has_display(list, 0) {
        0
    } else if list.len() > 0 {
        list[0].id
    } else {
        chosen
    }
}

/// Where displays are listed, one of them is shown.
pub proof fn law_shown_display_is_listed(list: Seq<DisplayInfo>, chosen: u32)
    requires
        list.len() > 0,
    ensures
        lists_display(list, display_choice(list, chosen)),
{
    assert(list[0].id == list[0].id);
}

/// The last of the elements that pass is the last element, where that passes.
proof fn lemma_filter_last(list: Seq<DisplayInfo>, a: int)
    requires
        list.len() > 0,
    ensures
        area(list.last()) == a ==> of_area(list, a) == of_area(list.drop_last(), a).push(
            list.last(),
        ),
        area(list.last()) != a ==> of_area(list, a) == of_area(list.drop_last(), a),
{
    reveal(Seq::filter);
}

/// A display of area `a` is listed exactly where the displays of area `a` are
/// not empty.
proof fn lemma_of_area_member(list: Seq<DisplayInfo>, a: int)
    ensures
        of_area(list, a).len() > 0 <==> exists|i: int|
            0 <= i < list.len() && area(#[trigger] list[i]) == a,
    decreases list.len(),
{
    if list.len() == 0 {
        reveal(Seq::filter);
    } else {
        let rest = list.drop_last();
        lemma_filter_last(list, a);
        lemma_of_area_member(rest, a);
        if area(list.last()) == a {
            assert(area(list[list.len() - 1]) == a);
        } else {
            if exists|i: int| 0 <= i < list.len() && area(#[trigger] list[i]) == a {
                let i = choose|i: int| 0 <= i < list.len() && area(#[trigger] list[i]) == a;
                assert(rest[i] == list[i]);
            }
            if exists|i: int| 0 <= i < rest.len() && area(#[trigger] rest[i]) == a {
                let i = choose|i: int| 0 <= i < rest.len() && area(#[trigger] rest[i]) == a;
                assert(list[i] == rest[i]);
            }
        }
    }
}

/// Two lists that are largest first and hold the same displays of each area are
/// the same list.
proof fn lemma_order_unique(x: Seq<DisplayInfo>, y: Seq<DisplayInfo>)
    requires
        largest_first(x),
        largest_first(y),
        forall|a: int| #[trigger] of_area(x, a) == of_area(y, a),
    ensures
        x == y,
    decreases x.len(),
{
    if x.len() == 0 {
        if y.len() > 0 {
            let a = area(y.last());
            lemma_of_area_member(x, a);
            lemma_of_area_member(y, a);
            assert(area(y[y.len() - 1]) == a);
            assert(of_area(x, a) == of_area(y, a));
        }
        assert(x =~= y);
    } else {
        let a = area(x.last());
        lemma_of_area_member(x, a);
        lemma_of_area_member(y, a);
        assert(area(x[x.len() - 1]) == a);
        assert(of_area(x, a) == of_area(y, a));
        let b = area(y.last());
        lemma_of_area_member(x, b);
        lemma_of_area_member(y, b);
        assert(area(y[y.len() - 1]) == b);
        assert(of_area(x, b) == of_area(y, b));
        let i = choose|i: int| 0 <= i < x.len() && area(#[trigger] x[i]) == b;
        let j = choose|j: int| 0 <= j < y.len() && area(#[trigger] y[j]) == a;
        assert(area(x[i]) >= area(x[x.len() - 1]));
        assert(area(y[j]) >= area(y[y.len() - 1]));
        assert(a == b);
        lemma_filter_last(x, a);
        lemma_filter_last(y, a);
        assert(of_area(x, a).last() == x.last());
        assert(of_area(y, a).last() == y.last());
        let dx = x.drop_last();
        let dy = y.drop_last();
        assert forall|c: int| #[trigger] of_area(dx, c) == of_area(dy, c) by {
            lemma_filter_last(x, c);
            lemma_filter_last(y, c);
            assert(of_area(x, c) == of_area(y, c));
            if c == a {
                assert(of_area(dx, c) =~= of_area(x, c).drop_last());
                assert(of_area(dy, c) =~= of_area(y, c).drop_last());
            }
        }
        lemma_order_unique(dx, dy);
        assert(x =~= dx.push(x.last()));
        assert(y =~= dy.push(y.last()));
    }
}

/// What a device lists decides the order in which its displays are shown.
pub proof fn law_display_order_is_unique(
    all: Seq<DisplayInfo>,
    x: Seq<DisplayInfo>,
    y: Seq<DisplayInfo>,
)
    requires
        is_display_order(all, x),
        is_display_order(all, y),
    ensures
        x == y,
{
    assert forall|a: int| #[trigger] of_area(x, a) == of_area(y, a) by {
        assert(of_area(x, a) == of_area(usable_only(all), a));
        assert(of_area(y, a) == of_area(usable_only(all), a));
    }
    lemma_order_unique(x, y);
}

/// No display is lost or made up: those shown are the usable ones of those that
/// the device lists.
pub proof fn law_shown_displays_are_the_usable_ones(
    all: Seq<DisplayInfo>,
    list: Seq<DisplayInfo>,
    d: DisplayInfo,
)
    requires
        is_display_order(all, list),
    ensures
        list.contains(d) <==> all.contains(d) && usable(d),
{
    let pred = |e: DisplayInfo| area(e) == area(d);
    let keep = |e: DisplayInfo| usable(e);
    assert(of_area(list, area(d)) == of_area(usable_only(all), area(d)));
    broadcast use {
        Seq::lemma_filter_contains_rev,
        Seq::lemma_filter_contains,
        Seq::lemma_filter_pred,
    };
    if list.contains(d) {
        let i = choose|i: int| 0 <= i < list.len() && list[i] == d;
        list.lemma_filter_contains(pred, i);
        assert(list.filter(pred).contains(d));
        assert(usable_only(all).filter(pred).contains(d));
        usable_only(all).lemma_filter_contains_rev(pred, d);
        assert(usable_only(all).contains(d));
        all.lemma_filter_contains_rev(keep, d);
        let k = choose|k: int| 0 <= k < usable_only(all).len() && usable_only(all)[k] == d;
        all.lemma_filter_pred(keep, k);
    }
    if all.contains(d) && usable(d) {
        let i = choose|i: int| 0 <= i < all.len() && all[i] == d;
        all.lemma_filter_contains(keep, i);
        let k = choose|k: int| 0 <= k < usable_only(all).len() && usable_only(all)[k] == d;
        usable_only(all).lemma_filter_contains(pred, k);
        list.lemma_filter_contains_rev(pred, d);
    }
}

} // verus!
