//! What is hidden while OBS may be capturing the window, and how OBS is found.

use crate::app::App;
use crate::laws::remotes::is_hiding;
use crate::obsdetect::{is_obs, is_obs_name, is_running, obs_units, until_zero};
use crate::settings::texts;
use crate::streamer::{
    is_plain, law_hidden_texts_do_not_show, serials, shown, shown_texts, without, without_all,
};
use crate::text::{occurs_at, occurs_in};
use vstd::prelude::*;

verus! {

/// A text is shown as it is, or as three dots where it is hidden.
pub proof fn law_hidden_texts_are_three_dots(text: &String, masked: bool, s: String)
    requires
        call_ensures(shown, (text, masked), s),
    ensures
        masked ==> s@ == "•••"@,
        !masked ==> s@ == text@,
{
}

/// The user's setting decides what is hidden; the automatic one hides while OBS
/// runs.
pub proof fn law_setting_decides_what_is_hidden(app: &App, active: bool)
    requires
        call_ensures(App::streamer_active, (app,), active),
    ensures
        active <==> is_hiding(*app),
        app.streamer_forced == Some(false) ==> !active,
{
}

/// OBS is looked for every two seconds, and not before.
pub proof fn law_obs_is_looked_for_every_two_seconds(
    app: &mut App,
    now: u64,
    running: bool,
    due: bool,
)
    requires
        call_ensures(App::poll_obs_detection, (app, now, running), ()),
        call_ensures(App::obs_check_due, (&*old(app), now), due),
    ensures
        due <==> now - old(app).last_obs_check >= 2_000_000_000,
        !due ==> *final(app) == *old(app),
        due ==> final(app).obs_detected == running && final(app).last_obs_check == now,
        *old(app) == (App {
            obs_detected: old(app).obs_detected,
            last_obs_check: old(app).last_obs_check,
            ..*final(app)
        }),
{
}

/// The button goes from automatic to always on, to always off, and back.
pub proof fn law_streamer_button_goes_round(app: &mut App)
    requires
        call_ensures(App::cycle_streamer, (app,), ()),
    ensures
        old(app).streamer_forced is None ==> final(app).streamer_forced == Some(true),
        old(app).streamer_forced == Some(true) ==> final(app).streamer_forced == Some(false),
        old(app).streamer_forced == Some(false) ==> final(app).streamer_forced is None,
        *old(app) == (App { streamer_forced: old(app).streamer_forced, ..*final(app) }),
{
}

/// Each remembered address is shown in its place, as it is or as three dots.
pub proof fn law_addresses_are_shown_in_order(app: &App, list: Vec<String>)
    requires
        call_ensures(App::shown_remotes, (app,), list),
    ensures
        list@.len() == app.remotes@.len(),
        forall|i: int|
            0 <= i < list@.len() ==> (#[trigger] list@[i])@ == (if is_hiding(*app) {
                "•••"@
            } else {
                app.remotes@[i]@
            }),
{
    lemma_shown(list@, texts(app.remotes@), app.hides());
    assert forall|i: int| 0 <= i < list@.len() implies (#[trigger] list@[i])@ == (if is_hiding(
        *app,
    ) {
        "•••"@
    } else {
        app.remotes@[i]@
    }) by {
        assert(texts(app.remotes@)[i] == app.remotes@[i]@);
    }
}

pub proof fn lemma_shown(list: Seq<String>, all: Seq<Seq<char>>, masked: bool)
    requires
        texts(list) == shown_texts(all, masked),
    ensures
        list.len() == all.len(),
        forall|i: int|
            0 <= i < list.len() ==> (#[trigger] list[i])@ == (if masked {
                "•••"@
            } else {
                all[i]
            }),
{
    assert(texts(list).len() == list.len());
    assert(shown_texts(all, masked).len() == all.len());
    assert forall|i: int| 0 <= i < list.len() implies (#[trigger] list[i])@ == (if masked {
        "•••"@
    } else {
        all[i]
    }) by {
        assert(texts(list)[i] == list[i]@);
    }
}

/// Whether a text is hidden: a remembered address, or the serial of a device that
/// is listed, selected or streamed.
pub open spec fn is_secret(app: App, text: Seq<char>) -> bool {
    ||| exists|i: int| 0 <= i < app.remotes@.len() && (#[trigger] app.remotes@[i])@ == text
    ||| exists|i: int| 0 <= i < app.devices@.len() && (#[trigger] app.devices@[i]).serial@ == text
    ||| (app.selected_serial matches Some(s) && s@ == text)
    ||| (app.stream matches Some(s) && s.serial@ == text)
}

proof fn lemma_secret(app: App, text: Seq<char>)
    ensures
        app.secrets().contains(text) == is_secret(app, text),
{
    let a = texts(app.remotes@);
    let b = serials(app.devices@);
    let c = match app.selected_serial {
        Some(s) => seq![s@],
        None => Seq::empty(),
    };
    let d = match app.stream {
        Some(s) => seq![s.serial@],
        None => Seq::empty(),
    };
    let all = app.secrets();
    assert(all == a + b + c + d);
    if is_secret(app, text) {
        if exists|i: int| 0 <= i < app.remotes@.len() && (#[trigger] app.remotes@[i])@ == text {
            let i = choose|i: int|
                0 <= i < app.remotes@.len() && (#[trigger] app.remotes@[i])@ == text;
            assert(all[i] == a[i] && a[i] == text);
        } else if exists|i: int|
            0 <= i < app.devices@.len() && (#[trigger] app.devices@[i]).serial@ == text {
            let i = choose|i: int|
                0 <= i < app.devices@.len() && (#[trigger] app.devices@[i]).serial@ == text;
            assert(all[a.len() + i] == b[i] && b[i] == text);
        } else if app.selected_serial matches Some(s) && s@ == text {
            assert(all[(a.len() + b.len()) as int] == text);
        } else {
            assert(all[(a.len() + b.len() + c.len()) as int] == text);
        }
    }
    if all.contains(text) {
        let i = choose|i: int| 0 <= i < all.len() && all[i] == text;
        if i < a.len() {
            assert(all[i] == a[i] && a[i] == app.remotes@[i]@);
        } else if i < a.len() + b.len() {
            let k = i - a.len();
            assert(all[i] == b[k] && b[k] == app.devices@[k].serial@);
        } else if i < a.len() + b.len() + c.len() {
            assert(all[i] == c[i - a.len() - b.len()]);
        } else {
            assert(all[i] == d[i - a.len() - b.len() - c.len()]);
        }
    }
}

/// Where a part does not stand in a text, covering it changes nothing.
proof fn lemma_nothing_covered(text: Seq<char>, part: Seq<char>)
    requires
        part.len() == 0 || !occurs_in(text, part),
    ensures
        without(text, part) == text,
    decreases text.len(),
{
    if part.len() > 0 && text.len() >= part.len() {
        assert(!occurs_at(text, part, 0));
        assert(text.subrange(0, part.len() as int) =~= text.take(part.len() as int));
        let rest = text.skip(1);
        if occurs_in(rest, part) {
            let at = choose|at: int| #[trigger] occurs_at(rest, part, at);
            assert(text.subrange(at + 1, at + 1 + part.len()) =~= rest.subrange(
                at,
                at + part.len(),
            ));
            assert(occurs_at(text, part, at + 1));
        }
        lemma_nothing_covered(rest, part);
        assert(seq![text[0]] + rest =~= text);
    }
}

proof fn lemma_none_covered(text: Seq<char>, parts: Seq<Seq<char>>)
    requires
        forall|i: int|
            0 <= i < parts.len() ==> (#[trigger] parts[i]).len() == 0 || !occurs_in(text, parts[i]),
    ensures
        without_all(text, parts) == text,
    decreases parts.len(),
{
    if parts.len() > 0 {
        lemma_none_covered(text, parts.drop_last());
        assert(parts.last() == parts[parts.len() - 1]);
        lemma_nothing_covered(text, parts.last());
    }
}

/// Up to the first occurrence a covered text is as it was.
proof fn lemma_first_covered(text: Seq<char>, part: Seq<char>, at: int)
    requires
        part.len() > 0,
        occurs_at(text, part, at),
        forall|k: int| 0 <= k < at ==> !#[trigger] occurs_at(text, part, k),
    ensures
        without(text, part) == text.take(at) + "•••"@ + without(
            text.skip(at + part.len()),
            part,
        ),
    decreases at,
{
    let m = part.len() as int;
    if at == 0 {
        assert(text.take(m) =~= text.subrange(0, m));
        assert(text.skip(0 + m) =~= text.skip(m));
        assert(text.take(0) + "•••"@ =~= "•••"@);
    } else {
        assert(!occurs_at(text, part, 0));
        assert(text.subrange(0, m) =~= text.take(m));
        let rest = text.skip(1);
        assert(rest.subrange(at - 1, at - 1 + m) =~= text.subrange(at, at + m));
        assert(occurs_at(rest, part, at - 1));
        assert forall|k: int| 0 <= k < at - 1 implies !#[trigger] occurs_at(rest, part, k) by {
            assert(rest.subrange(k, k + m) =~= text.subrange(k + 1, k + 1 + m));
            assert(!occurs_at(text, part, k + 1));
        }
        lemma_first_covered(rest, part, at - 1);
        assert(rest.skip(at - 1 + m) =~= text.skip(at + m));
        let tail = without(text.skip(at + m), part);
        assert(seq![text[0]] + (rest.take(at - 1) + "•••"@ + tail) =~= text.take(at) + "•••"@
            + tail);
    }
}

/// While nothing is hidden, a text is shown as it is. While serials and addresses
/// are, none of them stands in what is shown, and a text that names none of them
/// is shown as it is.
pub proof fn law_no_secret_is_shown(app: &App, text: &String, s: String, secret: Seq<char>)
    requires
        call_ensures(App::screen, (app, text), s),
    ensures
        !is_hiding(*app) ==> s@ == text@,
        is_hiding(*app) && is_secret(*app, secret) && secret.len() > 0 && is_plain(secret)
            ==> !occurs_in(s@, secret),
        (forall|t: Seq<char>|
            #![trigger is_secret(*app, t)]
            is_secret(*app, t) && t.len() > 0 ==> !occurs_in(text@, t)) ==> s@ == text@,
{
    lemma_secret(*app, secret);
    if is_hiding(*app) && is_secret(*app, secret) && secret.len() > 0 && is_plain(secret) {
        law_hidden_texts_do_not_show(*app, text@, secret);
    }
    if is_hiding(*app) && forall|t: Seq<char>|
        #![trigger is_secret(*app, t)]
        is_secret(*app, t) && t.len() > 0 ==> !occurs_in(text@, t) {
        let parts = app.secrets();
        assert forall|i: int| 0 <= i < parts.len() implies (#[trigger] parts[i]).len() == 0
            || !occurs_in(text@, parts[i]) by {
            assert(parts.contains(parts[i]));
            lemma_secret(*app, parts[i]);
        }
        lemma_none_covered(text@, parts);
    }
}

/// Only the secret itself is covered: up to its first occurrence the text is shown
/// as it is, three dots stand in its place, and what comes after is shown as it
/// would be alone.
pub proof fn law_only_the_secret_is_covered(
    app: &App,
    text: &String,
    s: String,
    rest: &String,
    r: String,
    at: int,
)
    requires
        call_ensures(App::screen, (app, text), s),
        call_ensures(App::screen, (app, rest), r),
        is_hiding(*app),
        app.remotes@.len() == 1,
        app.devices@.len() == 0,
        app.selected_serial is None,
        app.stream is None,
        app.remotes@[0]@.len() > 0,
        occurs_at(text@, app.remotes@[0]@, at),
        forall|k: int| 0 <= k < at ==> !#[trigger] occurs_at(text@, app.remotes@[0]@, k),
        rest@ == text@.skip(at + app.remotes@[0]@.len()),
    ensures
        s@ == text@.take(at) + "•••"@ + r@,
{
    let part = app.remotes@[0]@;
    assert(app.secrets() =~= seq![part]);
    assert(app.secrets().drop_last() =~= Seq::<Seq<char>>::empty());
    reveal_with_fuel(without_all, 2);
    lemma_first_covered(text@, part, at);
}

/// Whether one address is all that there is to hide.
pub open spec fn hides_only(app: App, text: Seq<char>) -> bool {
    &&& app.remotes@.len() == 1
    &&& app.remotes@[0]@ == text
    &&& app.devices@.len() == 0
    &&& app.selected_serial is None
    &&& app.stream is None
}

/// Whether the last thing that `b` hides is `text`, and `a` hides all the others:
/// first the addresses, then the serials that are listed, the one that is selected
/// and the one that is streamed.
pub open spec fn hides_one_more(a: App, b: App, text: Seq<char>) -> bool {
    ||| {
        &&& b.stream matches Some(s)
        &&& s.serial@ == text
        &&& a.stream is None
        &&& a.selected_serial == b.selected_serial
        &&& a.devices@ == b.devices@
        &&& a.remotes@ == b.remotes@
    }
    ||| {
        &&& a.stream is None && b.stream is None
        &&& b.selected_serial matches Some(s)
        &&& s@ == text
        &&& a.selected_serial is None
        &&& a.devices@ == b.devices@
        &&& a.remotes@ == b.remotes@
    }
    ||| {
        &&& a.stream is None && b.stream is None
        &&& a.selected_serial is None && b.selected_serial is None
        &&& b.devices@.len() > 0
        &&& b.devices@.last().serial@ == text
        &&& a.devices@ == b.devices@.drop_last()
        &&& a.remotes@ == b.remotes@
    }
    ||| {
        &&& a.stream is None && b.stream is None
        &&& a.selected_serial is None && b.selected_serial is None
        &&& a.devices@.len() == 0 && b.devices@.len() == 0
        &&& b.remotes@.len() > 0
        &&& b.remotes@.last()@ == text
        &&& a.remotes@ == b.remotes@.drop_last()
    }
}

/// Secrets are covered one after the other: hiding one more is to cover that one in
/// what the others left.
pub proof fn law_secrets_are_covered_one_by_one(
    others: &App,
    all: &App,
    one: &App,
    text: &String,
    secret: Seq<char>,
    t: String,
    s: String,
    r: String,
)
    requires
        is_hiding(*others) && is_hiding(*all) && is_hiding(*one),
        hides_one_more(*others, *all, secret),
        hides_only(*one, secret),
        call_ensures(App::screen, (others, text), t),
        call_ensures(App::screen, (all, text), s),
        call_ensures(App::screen, (one, &t), r),
    ensures
        s@ == r@,
{
    let a = others.secrets();
    let b = all.secrets();
    assert(one.secrets() =~= seq![secret]);
    assert(one.secrets().drop_last() =~= Seq::<Seq<char>>::empty());
    assert(b =~= a.push(secret));
    assert(b.drop_last() =~= a);
    reveal_with_fuel(without_all, 2);
}

/// The message that is shown is the last one, as any text is shown.
pub proof fn law_messages_are_screened(app: &App, msg: Option<String>, s: String)
    requires
        call_ensures(App::shown_message, (app,), msg),
        app.capture_msg matches Some(m) ==> call_ensures(App::screen, (app, &m), s),
    ensures
        app.capture_msg is None ==> msg is None,
        app.capture_msg is Some ==> (msg matches Some(x) && x@ == s@),
{
}

/// Whether a unit is a given small letter, or its capital.
pub open spec fn is_letter(unit: u16, small: u16) -> bool {
    unit == small || unit + 32 == small
}

/// Whether a process name is `obs64.exe` or `obs32.exe` in capitals or small
/// letters, up to a zero or the end.
pub open spec fn names_obs(name: Seq<u16>) -> bool {
    &&& name.len() >= 9
    &&& is_letter(name[0], 111)
    &&& is_letter(name[1], 98)
    &&& is_letter(name[2], 115)
    &&& (name[3] == 54 && name[4] == 52) || (name[3] == 51 && name[4] == 50)
    &&& name[5] == 46
    &&& is_letter(name[6], 101)
    &&& is_letter(name[7], 120)
    &&& is_letter(name[8], 101)
    &&& name.len() > 9 ==> name[9] == 0
}

proof fn lemma_zero_end(name: Seq<u16>, i: int)
    requires
        0 <= i < until_zero(name).len(),
    ensures
        i < name.len(),
        until_zero(name)[i] == name[i],
        name[i] != 0,
    decreases name.len(),
{
    if i > 0 {
        lemma_zero_end(name.skip(1), i - 1);
    }
}

proof fn lemma_zero_len(name: Seq<u16>)
    ensures
        until_zero(name).len() <= name.len(),
        until_zero(name).len() < name.len() ==> name[until_zero(name).len() as int] == 0,
    decreases name.len(),
{
    if name.len() > 0 && name[0] != 0 {
        lemma_zero_len(name.skip(1));
    }
}

/// The first zero ends a name.
proof fn lemma_nine_units(name: Seq<u16>)
    requires
        name.len() >= 9,
        forall|i: int| 0 <= i < 9 ==> #[trigger] name[i] != 0,
        name.len() > 9 ==> name[9] == 0,
    ensures
        until_zero(name) == name.take(9),
{
    let u = until_zero(name);
    lemma_zero_len(name);
    if u.len() < 9 {
        assert(name[u.len() as int] != 0);
    }
    if u.len() > 9 {
        lemma_zero_end(name, 9);
    }
    assert forall|i: int| 0 <= i < 9 implies u[i] == name[i] by {
        lemma_zero_end(name, i);
    }
    assert(u =~= name.take(9));
}

proof fn lemma_names_obs(name: Seq<u16>)
    ensures
        is_obs(name) == names_obs(name),
{
    let u = until_zero(name);
    let lower = u.map_values(|x: u16| crate::obsdetect::ascii_lower(x));
    if is_obs(name) {
        let tens: u16 = lower[3];
        let ones: u16 = lower[4];
        assert(lower == obs_units(54, 52) || lower == obs_units(51, 50));
        assert(lower.len() == 9 && u.len() == 9);
        lemma_zero_len(name);
        assert forall|i: int| 0 <= i < 9 implies #[trigger] lower[i]
            == crate::obsdetect::ascii_lower(name[i]) by {
            lemma_zero_end(name, i);
        }
        assert(lower[0] == 111 && lower[1] == 98 && lower[2] == 115 && lower[5] == 46 && lower[6]
            == 101 && lower[7] == 120 && lower[8] == 101);
        assert((tens == 54 && ones == 52) || (tens == 51 && ones == 50));
    }
    if names_obs(name) {
        assert forall|i: int| 0 <= i < 9 implies #[trigger] name[i] != 0 by {
            assert(i == 0 || i == 1 || i == 2 || i == 3 || i == 4 || i == 5 || i == 6 || i == 7
                || i == 8);
        }
        lemma_nine_units(name);
        assert(lower =~= obs_units(name[3], name[4]));
    }
}

/// OBS is known by the name of its process, whatever the case.
pub proof fn law_obs_is_known_by_name(name: &[u16], obs: bool)
    requires
        call_ensures(is_obs_name, (name,), obs),
    ensures
        obs <==> names_obs(name@),
{
    lemma_names_obs(name@);
}

/// OBS runs where any process is of that name.
pub proof fn law_obs_is_found_among_processes(processes: &Vec<Vec<u16>>, running: bool)
    requires
        call_ensures(is_running, (processes,), running),
    ensures
        running ==> exists|i: int|
            0 <= i < processes@.len() && names_obs((#[trigger] processes@[i])@),
        forall|i: int|
            0 <= i < processes@.len() && names_obs((#[trigger] processes@[i])@) ==> running,
{
    assert forall|i: int| 0 <= i < processes@.len() implies is_obs((#[trigger] processes@[i])@)
        == names_obs(processes@[i]@) by {
        lemma_names_obs(processes@[i]@);
    }
    if running {
        let i = choose|i: int| 0 <= i < processes@.len() && is_obs((#[trigger] processes@[i])@);
        assert(names_obs(processes@[i]@));
    }
}

} // verus!
