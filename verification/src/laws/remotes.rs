//! Headsets that are reached over Wi-Fi.

use crate::app::App;
use crate::devices::{any_online_as, online_as, Device};
use crate::laws::app::{falls_back, lemma_fallback};
use crate::laws::devices::{lists_usable, usable_device};
use crate::laws::text::{all_white, is_white};
use crate::remotes::{connect_all_summary, law_forgotten_address_is_gone, lists_text, other_than};
use crate::settings::texts;
use crate::text::{decimal_text, is_blank, law_trimmed_form_is_unique, trimmed_at};
use vstd::prelude::*;

verus! {

/// Whether a text is listed.
pub open spec fn lists(list: Seq<String>, text: Seq<char>) -> bool {
    exists|i: int| 0 <= i < list.len() && (#[trigger] list[i])@ == text
}

pub proof fn lemma_lists(list: Seq<String>, text: Seq<char>)
    ensures
        texts(list).contains(text) == lists(list, text),
{
    if lists(list, text) {
        let i = choose|i: int| 0 <= i < list.len() && (#[trigger] list[i])@ == text;
        assert(texts(list)[i] == text);
    }
    if texts(list).contains(text) {
        let i = choose|i: int| 0 <= i < texts(list).len() && texts(list)[i] == text;
        assert(list[i]@ == text);
    }
}

/// A text is found in a list exactly where it is one of its texts.
pub proof fn law_listed_texts_are_found(list: &Vec<String>, text: &String, found: bool)
    requires
        call_ensures(lists_text, (list, text), found),
    ensures
        found <==> lists(list@, text@),
{
    lemma_lists(list@, text@);
}

/// The summary gives both counts in decimal.
pub proof fn law_summary_tells_both_counts(
    ok: usize,
    total: usize,
    msg: String,
    done: String,
    all: String,
)
    requires
        call_ensures(connect_all_summary, (ok, total), msg),
        call_ensures(decimal_text, (ok as u64,), done),
        call_ensures(decimal_text, (total as u64,), all),
    ensures
        msg@ == "connected "@ + done@ + "/"@ + all@,
{
}

/// What was entered is taken without the white space around it and the line is
/// cleared; nothing is taken of a line of white space, which stays.
pub proof fn law_entered_addresses_are_trimmed(
    app: &mut App,
    addr: Option<String>,
    before: Seq<char>,
    core: Seq<char>,
    after: Seq<char>,
)
    requires
        call_ensures(App::submit_remote, (app,), addr),
        old(app).remote_input@ == before + core + after,
        all_white(before),
        all_white(after),
        core.len() > 0 ==> !is_white(core[0]) && !is_white(core.last()),
    ensures
        core.len() == 0 ==> addr is None && *final(app) == *old(app),
        core.len() > 0 ==> {
            &&& addr matches Some(a)
            &&& a@ == core
            &&& final(app).remote_input@.len() == 0
            &&& *old(app) == (App { remote_input: old(app).remote_input, ..*final(app) })
        },
{
    let t = old(app).remote_input@;
    let a = before.len() as int;
    let b = a + core.len();
    assert forall|i: int| 0 <= i < a implies is_blank(#[trigger] t[i]) by {
        assert(is_white(before[i]));
    }
    assert forall|i: int| b <= i < t.len() implies is_blank(#[trigger] t[i]) by {
        assert(is_white(after[i - b]));
    }
    assert(core =~= t.subrange(a, b));
    assert(trimmed_at(t, core, a, b));
    match addr {
        Some(x) => {
            law_trimmed_form_is_unique(t, x@, core);
        },
        None => {
            law_trimmed_form_is_unique(t, Seq::empty(), core);
        },
    }
}

/// Whether addresses are hidden: as the user has set it, or else while OBS runs.
pub open spec fn is_hiding(app: App) -> bool {
    app.streamer_forced == Some(true) || (app.streamer_forced is None && app.obs_detected)
}

/// Connecting begins with an address and while nothing else is being connected.
/// The message names the address, unless it is remembered and addresses are
/// hidden.
pub proof fn law_one_attempt_at_a_time(app: &mut App, addr: &String, start: bool)
    requires
        call_ensures(App::start_remote_connect, (app, addr), start),
    ensures
        start <==> addr@.len() > 0 && !old(app).connecting,
        !start ==> *final(app) == *old(app),
        start ==> {
            &&& final(app).connecting
            &&& final(app).capture_msg matches Some(m)
            &&& is_hiding(*old(app)) && lists(old(app).remotes@, addr@) ==> m@
                == "🔗 Connecting to "@ + "•••"@ + "…"@
            &&& !is_hiding(*old(app)) || !lists(old(app).remotes@, addr@) ==> m@
                == "🔗 Connecting to "@ + addr@ + "…"@
            &&& *old(app) == (App {
                connecting: false,
                capture_msg: old(app).capture_msg,
                ..*final(app)
            })
        },
{
    lemma_lists(old(app).remotes@, addr@);
}

/// Connecting to all begins where any address is remembered and nothing else is
/// being connected.
pub proof fn law_all_are_connected_at_once(app: &mut App, start: bool)
    requires
        call_ensures(App::start_connect_all, (app,), start),
    ensures
        start <==> old(app).remotes@.len() > 0 && !old(app).connecting,
        !start ==> *final(app) == *old(app),
        start ==> {
            &&& final(app).connecting
            &&& final(app).capture_msg matches Some(m)
            &&& m@ == "🔗 Connecting saved devices…"@
            &&& *old(app) == (App {
                connecting: false,
                capture_msg: old(app).capture_msg,
                ..*final(app)
            })
        },
{
}

/// An address that was reached is remembered, at the end where it is new; no other
/// comes or goes; and a failure changes nothing that is remembered.
pub proof fn law_only_reached_addresses_are_remembered(
    app: &mut App,
    taken: Option<(String, Result<String, String>)>,
    reached: Option<String>,
)
    requires
        call_ensures(App::poll_connect, (app, taken), reached),
    ensures
        taken is None ==> reached is None && *final(app) == *old(app),
        taken matches Some((addr, Ok(msg))) ==> {
            &&& reached == Some(addr)
            &&& final(app).capture_msg matches Some(m)
            &&& m@ == "🔗 "@ + msg@
            &&& addr@ != "*"@ ==> lists(final(app).remotes@, addr@)
            &&& addr@ == "*"@ || lists(old(app).remotes@, addr@) ==> final(app).remotes@.len()
                == old(app).remotes@.len()
            &&& addr@ != "*"@ && !lists(old(app).remotes@, addr@) ==> final(app).remotes@.len()
                == old(app).remotes@.len() + 1 && final(app).remotes@.last()@ == addr@
            &&& forall|i: int|
                0 <= i < old(app).remotes@.len() ==> (#[trigger] old(app).remotes@[i])@
                    == final(app).remotes@[i]@
            &&& *old(app) == (App {
                connecting: old(app).connecting,
                capture_msg: old(app).capture_msg,
                remotes: old(app).remotes,
                ..*final(app)
            })
        },
        taken matches Some((_, Err(e))) ==> {
            &&& reached is None
            &&& final(app).capture_msg matches Some(m)
            &&& m@ == "Connect failed: "@ + e@
            &&& *old(app) == (App {
                connecting: old(app).connecting,
                capture_msg: old(app).capture_msg,
                ..*final(app)
            })
        },
        taken is Some ==> !final(app).connecting,
{
    match taken {
        Some((addr, Ok(msg))) => {
            let was = old(app).remotes@;
            let now = final(app).remotes@;
            lemma_lists(was, addr@);
            assert(texts(was).len() == was.len() && texts(now).len() == now.len());
            assert forall|i: int| 0 <= i < was.len() implies (#[trigger] was[i])@ == now[i]@ by {
                assert(texts(was)[i] == was[i]@);
                assert(texts(now)[i] == now[i]@);
            }
            if addr@ != "*"@ {
                if lists(was, addr@) {
                    let i = choose|i: int| 0 <= i < was.len() && (#[trigger] was[i])@ == addr@;
                    assert(now[i]@ == addr@);
                } else {
                    let n = was.len() as int;
                    assert(texts(now)[n] == addr@);
                    assert(now[n]@ == addr@);
                }
            }
        },
        _ => {},
    }
}

/// The device of an address that was reached is selected where it can be used;
/// else the selection goes by the devices as ever.
pub proof fn law_reached_devices_are_selected(app: &mut App, addr: String, devices: Vec<Device>)
    requires
        call_ensures(App::finish_connect, (app, addr, devices), ()),
    ensures
        final(app).devices == devices,
        ({
            let reached = lists_usable(devices@, addr@);
            let keeps = old(app).selected_serial matches Some(s) && lists_usable(devices@, s@);
            &&& reached ==> final(app).selected_serial == Some(addr)
            &&& !reached && keeps ==> *old(app) == (App {
                devices: old(app).devices,
                ..*final(app)
            })
            &&& !reached && !keeps ==> falls_back(devices@, final(app).selected_serial)
            &&& reached || !keeps ==> final(app).displays@.len() == 0 && final(
                app).need_display_fetch
        }),
        *old(app) == (App {
            devices: old(app).devices,
            selected_serial: old(app).selected_serial,
            displays: old(app).displays,
            need_display_fetch: old(app).need_display_fetch,
            ..*final(app)
        }),
{
    lemma_fallback(devices@, final(app).selected_serial);
    lemma_usable(devices@, addr@);
    if let Some(s) = old(app).selected_serial {
        lemma_usable(devices@, s@);
    }
}

proof fn lemma_usable(devices: Seq<Device>, serial: Seq<char>)
    ensures
        any_online_as(devices, serial) == lists_usable(devices, serial),
{
    if lists_usable(devices, serial) {
        let i = choose|i: int|
            0 <= i < devices.len() && usable_device(#[trigger] devices[i]) && devices[i].serial@
                == serial;
        assert(online_as(devices[i], serial));
    }
    if any_online_as(devices, serial) {
        let i = choose|i: int| 0 <= i < devices.len() && online_as(#[trigger] devices[i], serial);
        assert(usable_device(devices[i]));
    }
}

/// Forgetting takes away an address and no other, and the others keep their
/// order.
pub proof fn law_forgetting_takes_one_address(app: &mut App, addr: &String, other: Seq<char>)
    requires
        call_ensures(App::forget_remote, (app, addr), ()),
    ensures
        !lists(final(app).remotes@, addr@),
        other != addr@ ==> (lists(final(app).remotes@, other) <==> lists(
            old(app).remotes@,
            other,
        )),
        final(app).remotes@.map_values(|s: String| s@) == old(app).remotes@.map_values(
            |s: String| s@,
        ).filter(|t: Seq<char>| t != addr@),
        *old(app) == (App { remotes: old(app).remotes, ..*final(app) }),
{
    let was = old(app).remotes@;
    let now = final(app).remotes@;
    lemma_lists(now, addr@);
    lemma_lists(now, other);
    lemma_lists(was, other);
    law_forgotten_address_is_gone(texts(was), addr@, addr@);
    law_forgotten_address_is_gone(texts(was), addr@, other);
    let differs = |t: Seq<char>| t != addr@;
    assert(other_than(addr@) =~= differs);
    assert(texts(now) =~= now.map_values(|s: String| s@));
    assert(texts(was) =~= was.map_values(|s: String| s@));
}

} // verus!
