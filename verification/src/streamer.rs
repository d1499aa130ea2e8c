//! Streamer mode: serials and saved addresses are hidden while OBS may be
//! capturing the window.

use crate::app::App;
use crate::devices::Device;
use crate::settings::texts;
use crate::stream::{elapsed, elapsed_ns};
use crate::text::{occurs_at, occurs_in};
use vstd::prelude::*;
use vstd::string::*;

verus! {

/// How long a look for OBS holds good.
pub const OBS_CHECK_NS: u64 = 2_000_000_000;

/// What is shown in the place of a serial or an address.
pub open spec fn masked_text() -> Seq<char> {
    "•••"@
}

/// What is shown of a serial or an address.
pub open spec fn shown_text(text: Seq<char>, masked: bool) -> Seq<char> {
    if masked {
        masked_text()
    } else {
        text
    }
}

/// What is shown of a list of addresses.
pub open spec fn shown_texts(list: Seq<Seq<char>>, masked: bool) -> Seq<Seq<char>> {
    list.map_values(|t: Seq<char>| shown_text(t, masked))
}

/// What is shown of a serial or an address.
pub fn shown(text: &String, masked: bool) -> (s: String)
    ensures
        s@ == shown_text(text@, masked),
{
    if masked {
        "•••".to_owned()
    } else {
        text.clone()
    }
}

/// A text with every occurrence of `part`, from the left, replaced by what is
/// shown in its place.
pub open spec fn without(text: Seq<char>, part: Seq<char>) -> Seq<char>
    decreases text.len(),
{
    if part.len() == 0 || text.len() < part.len() {
        text
    } else if text.take(part.len() as int) == part {
        masked_text() + without(text.skip(part.len() as int), part)
    } else {
        seq![text[0]] + without(text.skip(1), part)
    }
}

/// A text with every occurrence of any of the parts replaced.
pub open spec fn without_all(text: Seq<char>, parts: Seq<Seq<char>>) -> Seq<char>
    decreases parts.len(),
{
    if parts.len() == 0 {
        text
    } else {
        without(without_all(text, parts.drop_last()), parts.last())
    }
}

/// Replaces every occurrence of `part`.
fn cover(text: &String, part: &String) -> (covered: String)
    ensures
        covered@ == without(text@, part@),
{
    let s: &str = text.as_str();
    let n: usize = s.unicode_len();
    let m: usize = part.as_str().unicode_len();
    let mut out = String::new();
    let mut at: usize = 0;
    assert(text@.skip(0) =~= text@);
    assert(out@ + without(text@, part@) =~= without(text@, part@));
    if m == 0 {
        return text.clone();
    }
    while at <= n && m <= n - at
        invariant
            s@ == text@,
            n == s@.len(),
            m == part@.len(),
            m > 0,
            at <= n,
            out@ + without(text@.skip(at as int), part@) == without(text@, part@),
        decreases n - at,
    {
        let ghost rest = text@.skip(at as int);
        let ghost before = out@;
        let here = s.substring_char(at, at + m).to_owned();
        assert(here@ =~= rest.take(m as int));
        if here == *part {
            out.append("•••");
            assert(rest.skip(m as int) =~= text@.skip(at + m));
            assert(before + (masked_text() + without(rest.skip(m as int), part@)) =~= out@
                + without(rest.skip(m as int), part@));
            at = at + m;
        } else {
            let ghost c = seq![rest[0]];
            out.append(s.substring_char(at, at + 1));
            assert(rest.skip(1) =~= text@.skip(at + 1));
            assert(out@ =~= before + c);
            assert(before + (c + without(rest.skip(1), part@)) =~= out@ + without(
                rest.skip(1),
                part@,
            ));
            at = at + 1;
        }
    }
    let ghost before = out@;
    out.append(s.substring_char(at, n));
    assert(out@ =~= before + text@.skip(at as int));
    out
}

/// The serials of some devices.
pub open spec fn serials(devices: Seq<Device>) -> Seq<Seq<char>> {
    devices.map_values(|d: Device| d.serial@)
}

/// The setting of streamer mode after the next press of its button: automatic,
/// always on, always off, and automatic again.
pub open spec fn cycled(forced: Option<bool>) -> Option<bool> {
    match forced {
        None => Some(true),
        Some(true) => Some(false),
        Some(false) => None,
    }
}

impl App {
    /// Whether it is time to look for OBS again.
    pub open spec fn obs_due(&self, now: u64) -> bool {
        elapsed(now, self.last_obs_check) >= OBS_CHECK_NS
    }

    /// Whether serials and addresses are hidden: as the user has set it, or else
    /// while OBS runs.
    pub open spec fn hides(&self) -> bool {
        match self.streamer_forced {
            Some(on) => on,
            None => self.obs_detected,
        }
    }

    /// What is hidden: the remembered addresses, the serials of the listed devices,
    /// and those of the device that is selected and of the one that is streamed.
    pub open spec fn secrets(&self) -> Seq<Seq<char>> {
        texts(self.remotes@) + serials(self.devices@) + (match self.selected_serial {
            Some(s) => seq![s@],
            None => Seq::empty(),
        }) + (match self.stream {
            Some(s) => seq![s.serial@],
            None => Seq::empty(),
        })
    }

    /// What is shown of a text that may name an address or a serial.
    pub open spec fn screened(&self, text: Seq<char>) -> Seq<char> {
        if self.hides() {
            without_all(text, self.secrets())
        } else {
            text
        }
    }

    fn secret_texts(&self) -> (list: Vec<String>)
        ensures
            texts(list@) == self.secrets(),
    {
        let mut list: Vec<String> = Vec::new();
        let mut i: usize = 0;
        while i < self.remotes.len()
            invariant
                i <= self.remotes@.len(),
                texts(list@) =~= texts(self.remotes@).take(i as int),
            decreases self.remotes@.len() - i,
        {
            let ghost before = texts(list@);
            list.push(self.remotes[i].clone());
            assert(texts(list@) =~= before.push(self.remotes@[i as int]@));
            i = i + 1;
        }
        let ghost addresses = texts(self.remotes@);
        assert(texts(list@) =~= addresses);
        let mut i: usize = 0;
        while i < self.devices.len()
            invariant
                i <= self.devices@.len(),
                texts(list@) =~= addresses + serials(self.devices@).take(i as int),
            decreases self.devices@.len() - i,
        {
            let ghost before = texts(list@);
            list.push(self.devices[i].serial.clone());
            assert(texts(list@) =~= before.push(self.devices@[i as int].serial@));
            i = i + 1;
        }
        let ghost listed = addresses + serials(self.devices@);
        assert(texts(list@) =~= listed);
        if let Some(s) = &self.selected_serial {
            list.push(s.clone());
            assert(texts(list@) =~= listed + seq![s@]);
        }
        let ghost selected = texts(list@);
        if let Some(s) = &self.stream {
            list.push(s.serial.clone());
            assert(texts(list@) =~= selected + seq![s.serial@]);
        }
        assert(texts(list@) =~= self.secrets());
        list
    }

    /// What is shown of a text that may name an address or a serial.
    pub fn screen(&self, text: &String) -> (s: String)
        ensures
            s@ == self.screened(text@),
    {
        if !self.streamer_active() {
            return text.clone();
        }
        let list = self.secret_texts();
        let ghost parts = texts(list@);
        let mut s = text.clone();
        let mut i: usize = 0;
        assert(parts.take(0) =~= Seq::<Seq<char>>::empty());
        while i < list.len()
            invariant
                i <= list@.len(),
                parts == texts(list@),
                s@ == without_all(text@, parts.take(i as int)),
            decreases list@.len() - i,
        {
            s = cover(&s, &list[i]);
            assert(parts.take(i + 1).drop_last() =~= parts.take(i as int));
            assert(parts.take(i + 1).last() == list@[i as int]@);
            i = i + 1;
        }
        assert(parts.take(parts.len() as int) =~= parts);
        s
    }

    /// What is shown of the last message.
    pub fn shown_message(&self) -> (msg: Option<String>)
        ensures
            match (self.capture_msg, msg) {
                (Some(m), Some(s)) => s@ == self.screened(m@),
                (None, None) => true,
                _ => false,
            },
    {
        match &self.capture_msg {
            Some(m) => Some(self.screen(m)),
            None => None,
        }
    }

    /// Tells whether it is time to look for OBS again.
    pub fn obs_check_due(&self, now: u64) -> (due: bool)
        ensures
            due == self.obs_due(now),
    {
        elapsed_ns(now, self.last_obs_check) >= OBS_CHECK_NS
    }

    /// Takes whether OBS was found running, where it is time to look again.
    pub fn poll_obs_detection(&mut self, now: u64, running: bool)
        ensures
            *final(self) == (if old(self).obs_due(now) {
                App { last_obs_check: now, obs_detected: running, ..*old(self) }
            } else {
                *old(self)
            }),
    {
        if !self.obs_check_due(now) {
            return ;
        }
        self.last_obs_check = now;
        self.obs_detected = running;
    }

    /// Tells whether serials and addresses are hidden.
    pub fn streamer_active(&self) -> (active: bool)
        ensures
            active == self.hides(),
    {
        match self.streamer_forced {
            Some(on) => on,
            None => self.obs_detected,
        }
    }

    /// Takes a press of the streamer mode button.
    pub fn cycle_streamer(&mut self)
        ensures
            *final(self) == (App {
                streamer_forced: cycled(old(self).streamer_forced),
                ..*old(self)
            }),
    {
        self.streamer_forced = match self.streamer_forced {
            None => Some(true),
            Some(true) => Some(false),
            Some(false) => None,
        };
    }

    /// The remembered addresses as they are shown.
    pub fn shown_remotes(&self) -> (list: Vec<String>)
        ensures
            texts(list@) == shown_texts(texts(self.remotes@), self.hides()),
    {
        let masked = self.streamer_active();
        let mut list: Vec<String> = Vec::new();
        let mut i: usize = 0;
        while i < self.remotes.len()
            invariant
                masked == self.hides(),
                i <= self.remotes@.len(),
                list@.len() == i,
                forall|k: int|
                    0 <= k < i ==> (#[trigger] list@[k])@ == shown_text(
                        self.remotes@[k]@,
                        masked,
                    ),
            decreases self.remotes@.len() - i,
        {
            list.push(shown(&self.remotes[i], masked));
            i = i + 1;
        }
        assert(texts(list@) =~= shown_texts(texts(self.remotes@), self.hides()));
        list
    }
}

/// While serials and addresses are hidden, what is shown of them is the same
/// whatever they are.
pub proof fn law_hidden_texts_tell_nothing(x: Seq<Seq<char>>, y: Seq<Seq<char>>)
    requires
        x.len() == y.len(),
    ensures
        shown_texts(x, true) == shown_texts(y, true),
        forall|i: int| 0 <= i < x.len() ==> #[trigger] shown_texts(x, true)[i] == masked_text(),
{
    assert(shown_texts(x, true) =~= shown_texts(y, true));
}

/// Whether a text is free of the character that hides others.
pub open spec fn is_plain(text: Seq<char>) -> bool {
    forall|i: int| 0 <= i < text.len() ==> #[trigger] text[i] != '•'
}

/// Where a covered text begins plainly, it begins as the text did.
proof fn lemma_plain_start(text: Seq<char>, part: Seq<char>, start: Seq<char>)
    requires
        is_plain(start),
        occurs_at(without(text, part), start, 0),
    ensures
        occurs_at(text, start, 0),
    decreases text.len(),
{
    reveal_strlit("•••");
    let covered = without(text, part);
    assert(start =~= covered.take(start.len() as int));
    if start.len() == 0 {
        assert(text.subrange(0, 0) =~= start);
    } else if part.len() == 0 || text.len() < part.len() {
    } else if text.take(part.len() as int) == part {
        assert(start[0] == covered[0]);
        assert(covered[0] == masked_text()[0]);
    } else {
        let rest = text.skip(1);
        let tail = start.skip(1);
        assert(covered.skip(1) =~= without(rest, part));
        assert(without(rest, part).subrange(0, tail.len() as int) =~= tail);
        assert forall|i: int| 0 <= i < tail.len() implies #[trigger] tail[i] != '•' by {
            assert(tail[i] == start[i + 1]);
        }
        lemma_plain_start(rest, part, tail);
        assert(rest.subrange(0, tail.len() as int) == tail);
        assert(start[0] == covered[0] && covered[0] == text[0]);
        assert forall|i: int| 0 <= i < start.len() implies #[trigger] text[i] == start[i] by {
            if i > 0 {
                assert(rest.subrange(0, tail.len() as int)[i - 1] == tail[i - 1]);
            }
        }
        assert(text.subrange(0, start.len() as int) =~= start);
    }
}

/// A plain text that stands in a covered text stood in the text, and is not the
/// one that was covered.
proof fn lemma_covered_adds_nothing(text: Seq<char>, part: Seq<char>, plain: Seq<char>, at: int)
    requires
        is_plain(plain),
        plain.len() > 0,
        occurs_at(without(text, part), plain, at),
    ensures
        occurs_in(text, plain),
        plain != part,
    decreases text.len(),
{
    reveal_strlit("•••");
    let covered = without(text, part);
    let m = part.len() as int;
    let n = plain.len() as int;
    assert(plain =~= covered.subrange(at, at + n));
    if m == 0 || text.len() < m {
        assert(occurs_at(text, plain, at));
    } else if text.take(m) == part {
        let rest = text.skip(m);
        assert(plain[0] == covered[at]);
        if at < 3 {
            assert(covered[at] == masked_text()[at]);
        }
        assert(without(rest, part).subrange(at - 3, at - 3 + n) =~= plain);
        lemma_covered_adds_nothing(rest, part, plain, at - 3);
        let i = choose|i: int| #[trigger] occurs_at(rest, plain, i);
        assert(text.subrange(i + m, i + m + n) =~= rest.subrange(i, i + n));
        assert(occurs_at(text, plain, i + m));
    } else if at == 0 {
        lemma_plain_start(text, part, plain);
        assert(text.subrange(0, n) =~= text.take(n));
    } else {
        let rest = text.skip(1);
        assert(without(rest, part).subrange(at - 1, at - 1 + n) =~= plain);
        lemma_covered_adds_nothing(rest, part, plain, at - 1);
        let i = choose|i: int| #[trigger] occurs_at(rest, plain, i);
        assert(text.subrange(i + 1, i + 1 + n) =~= rest.subrange(i, i + n));
        assert(occurs_at(text, plain, i + 1));
    }
}

/// While serials and addresses are hidden, none of them stands in what is shown
/// of any text.
pub proof fn law_hidden_texts_do_not_show(app: App, text: Seq<char>, secret: Seq<char>)
    requires
        app.hides(),
        app.secrets().contains(secret),
        secret.len() > 0,
        is_plain(secret),
    ensures
        !occurs_in(app.screened(text), secret),
{
    lemma_all_covered(text, app.secrets(), secret);
}

/// None of the parts stands in a text in which all were covered.
proof fn lemma_all_covered(text: Seq<char>, parts: Seq<Seq<char>>, part: Seq<char>)
    requires
        parts.contains(part),
        part.len() > 0,
        is_plain(part),
    ensures
        !occurs_in(without_all(text, parts), part),
    decreases parts.len(),
{
    let shown = without_all(text, parts);
    if occurs_in(shown, part) {
        let at = choose|at: int| #[trigger] occurs_at(shown, part, at);
        let rest = parts.drop_last();
        lemma_covered_adds_nothing(without_all(text, rest), parts.last(), part, at);
        let i = choose|i: int| 0 <= i < parts.len() && parts[i] == part;
        assert(rest[i] == part);
        lemma_all_covered(text, rest, part);
    }
}

/// What the user sets overrides what is found: only the automatic setting goes
/// by whether OBS runs.
pub proof fn law_forced_mode_overrides_detection(app: App, now: u64, running: bool)
    requires
        app.obs_due(now),
    ensures
        ({
            let later = App { last_obs_check: now, obs_detected: running, ..app };
            later.hides() == (match app.streamer_forced {
                Some(on) => on,
                None => running,
            })
        }),
{
}

/// The button goes through all three settings and comes back to the first.
pub proof fn law_streamer_button_cycles(forced: Option<bool>)
    ensures
        cycled(cycled(cycled(forced))) == forced,
        cycled(forced) != forced,
        cycled(cycled(forced)) != forced,
{
}

} // verus!
