//! Headsets that are reached over Wi-Fi: connecting, and the addresses that are
//! remembered.

use crate::app::{is_fallback, App};
use crate::devices::{any_online_as, has_online, Device};
use crate::settings::texts;
use crate::streamer::{shown, shown_text};
use crate::text::{decimal, decimal_text, is_trimmed, joined, text_is, trimmed};
use vstd::prelude::*;
use vstd::string::*;

verus! {

/// Tells whether a text is in a list.
pub fn lists_text(list: &Vec<String>, text: &String) -> (found: bool)
    ensures
        found == texts(list@).contains(text@),
{
    let mut i: usize = 0;
    while i < list.len()
        invariant
            i <= list@.len(),
            forall|k: int| 0 <= k < i ==> texts(list@)[k] != text@,
        decreases list@.len() - i,
    {
        assert(texts(list@)[i as int] == list@[i as int]@);
        if list[i] == *text {
            return true;
        }
        i = i + 1;
    }
    assert(!texts(list@).contains(text@));
    false
}

/// The addresses with one more at the end, where it is not among them.
pub open spec fn remembered(remotes: Seq<Seq<char>>, addr: Seq<char>) -> Seq<Seq<char>> {
    if remotes.contains(addr) {
        remotes
    } else {
        remotes.push(addr)
    }
}

/// What stands in the place of an address once all remembered ones were dialled.
pub open spec fn all_marker() -> Seq<char> {
    "*"@
}

/// The addresses after an attempt to connect has succeeded: one that was reached
/// is among them, and connecting to all adds none.
pub open spec fn after_reaching(remotes: Seq<Seq<char>>, addr: Seq<char>) -> Seq<Seq<char>> {
    if addr == all_marker() {
        remotes
    } else {
        remembered(remotes, addr)
    }
}

/// Remembers an address that was reached.
fn note_reached(remotes: &mut Vec<String>, addr: &String)
    ensures
        texts(final(remotes)@) == after_reaching(texts(old(remotes)@), addr@),
{
    if !text_is(addr, "*") && !lists_text(remotes, addr) {
        remotes.push(addr.clone());
        assert(texts(remotes@) =~= texts(old(remotes)@).push(addr@));
    }
}

/// Tells whether an address is another one than `addr`.
pub open spec fn other_than(addr: Seq<char>) -> spec_fn(Seq<char>) -> bool {
    |r: Seq<char>| r != addr
}

/// The addresses without one of them.
pub open spec fn forgotten(remotes: Seq<Seq<char>>, addr: Seq<char>) -> Seq<Seq<char>> {
    remotes.filter(other_than(addr))
}

/// What is reported of connecting to all remembered addresses.
pub fn connect_all_summary(ok: usize, total: usize) -> (msg: String)
    ensures
        msg@ == "connected "@ + decimal(ok as nat) + "/"@ + decimal(total as nat),
{
    let mut msg = "connected ".to_owned();
    msg.append(decimal_text(ok as u64).as_str());
    msg.append("/");
    msg.append(decimal_text(total as u64).as_str());
    msg
}

impl App {
    /// Takes the address from the input line, where one has been entered.
    pub fn submit_remote(&mut self) -> (addr: Option<String>)
        ensures
            match addr {
                Some(a) => {
                    &&& a@.len() > 0
                    &&& is_trimmed(old(self).remote_input@, a@)
                    &&& *final(self) == (App {
                        remote_input: final(self).remote_input,
                        ..*old(self)
                    })
                    &&& final(self).remote_input@.len() == 0
                },
                None => {
                    &&& is_trimmed(old(self).remote_input@, Seq::empty())
                    &&& *final(self) == *old(self)
                },
            },
    {
        let addr = trimmed(&self.remote_input);
        if addr.as_str().is_empty() {
            assert(addr@ =~= Seq::<char>::empty());
            return None;
        }
        self.remote_input = String::new();
        Some(addr)
    }

    /// Begins to connect to an address. One that is remembered is not named while
    /// addresses are hidden. The result tells whether to: not without
    /// an address, and not while another attempt is under way.
    pub fn start_remote_connect(&mut self, addr: &String) -> (start: bool)
        ensures
            start == (addr@.len() > 0 && !old(self).connecting),
            if start {
                &&& *final(self) == (App {
                    connecting: true,
                    capture_msg: final(self).capture_msg,
                    ..*old(self)
                })
                &&& final(self).capture_msg matches Some(m)
                &&& m@ == "🔗 Connecting to "@ + shown_text(
                    addr@,
                    old(self).hides() && texts(old(self).remotes@).contains(addr@),
                ) + "…"@
            } else {
                *final(self) == *old(self)
            },
    {
        if addr.as_str().is_empty() || self.connecting {
            return false;
        }
        self.connecting = true;
        let text = shown(addr, self.streamer_active() && lists_text(&self.remotes, addr));
        let mut msg = joined("🔗 Connecting to ", text.as_str());
        msg.append("…");
        self.capture_msg = Some(msg);
        true
    }

    /// Begins to connect to all remembered addresses. The result tells whether
    /// to: not without any, and not while another attempt is under way.
    pub fn start_connect_all(&mut self) -> (start: bool)
        ensures
            start == (!old(self).connecting && old(self).remotes@.len() > 0),
            if start {
                &&& *final(self) == (App {
                    connecting: true,
                    capture_msg: final(self).capture_msg,
                    ..*old(self)
                })
                &&& final(self).capture_msg matches Some(m)
                &&& m@ == "🔗 Connecting saved devices…"@
            } else {
                *final(self) == *old(self)
            },
    {
        if self.connecting || self.remotes.len() == 0 {
            return false;
        }
        self.connecting = true;
        self.capture_msg = Some("🔗 Connecting saved devices…".to_owned());
        true
    }

    /// Takes the end of an attempt to connect, where one has ended; where all
    /// remembered addresses were dialled, `*` stands in the place of the address.
    /// An address that was reached is remembered; the result is that address, and
    /// the devices are to be listed for [`App::finish_connect`]. What is hidden of
    /// the message is covered where it is shown, in [`App::shown_message`].
    pub fn poll_connect(&mut self, taken: Option<(String, Result<String, String>)>) -> (reached:
        Option<String>)
        ensures
            match taken {
                None => reached is None && *final(self) == *old(self),
                Some((addr, Ok(msg))) => {
                    &&& reached == Some(addr)
                    &&& *final(self) == (App {
                        connecting: false,
                        capture_msg: final(self).capture_msg,
                        remotes: final(self).remotes,
                        ..*old(self)
                    })
                    &&& texts(final(self).remotes@) == after_reaching(
                        texts(old(self).remotes@),
                        addr@,
                    )
                    &&& final(self).capture_msg matches Some(m)
                    &&& m@ == "🔗 "@ + msg@
                },
                Some((_, Err(e))) => {
                    &&& reached is None
                    &&& *final(self) == (App {
                        connecting: false,
                        capture_msg: final(self).capture_msg,
                        ..*old(self)
                    })
                    &&& final(self).capture_msg matches Some(m)
                    &&& m@ == "Connect failed: "@ + e@
                },
            },
    {
        match taken {
            None => None,
            Some((addr, Ok(msg))) => {
                self.connecting = false;
                self.capture_msg = Some(joined("🔗 ", msg.as_str()));
                note_reached(&mut self.remotes, &addr);
                Some(addr)
            },
            Some((_, Err(e))) => {
                self.connecting = false;
                self.capture_msg = Some(joined("Connect failed: ", e.as_str()));
                None
            },
        }
    }

    /// Takes the devices that were listed after an address was reached, and
    /// selects the device of that address where it can be used.
    pub fn finish_connect(&mut self, addr: String, devices: Vec<Device>)
        ensures
            ({
                let reached = any_online_as(devices@, addr@);
                let keeps = old(self).selected_serial matches Some(s) && any_online_as(
                    devices@,
                    s@,
                );
                &&& reached ==> {
                    &&& *final(self) == (App {
                        devices,
                        selected_serial: Some(addr),
                        displays: final(self).displays,
                        need_display_fetch: true,
                        ..*old(self)
                    })
                    &&& final(self).displays@.len() == 0
                }
                &&& !reached && keeps ==> *final(self) == (App { devices, ..*old(self) })
                &&& !reached && !keeps ==> {
                    &&& *final(self) == (App {
                        devices,
                        selected_serial: final(self).selected_serial,
                        displays: final(self).displays,
                        need_display_fetch: true,
                        ..*old(self)
                    })
                    &&& is_fallback(devices@, final(self).selected_serial)
                    &&& final(self).displays@.len() == 0
                }
            }),
    {
        self.refresh_devices(devices);
        if has_online(&self.devices, &addr) {
            self.selected_serial = Some(addr);
            self.request_display_fetch();
        }
    }

    /// Forgets an address.
    pub fn forget_remote(&mut self, addr: &String)
        ensures
            *final(self) == (App { remotes: final(self).remotes, ..*old(self) }),
            texts(final(self).remotes@) == forgotten(texts(old(self).remotes@), addr@),
    {
        let ghost all = texts(self.remotes@);
        let ghost pred = other_than(addr@);
        let mut kept: Vec<String> = Vec::new();
        let mut i: usize = 0;
        proof {
            reveal(Seq::filter);
            assert(all.take(0) =~= Seq::<Seq<char>>::empty());
            assert(texts(kept@) =~= all.take(0).filter(pred));
        }
        while i < self.remotes.len()
            invariant
                *self == *old(self),
                i <= self.remotes@.len(),
                all == texts(self.remotes@),
                pred == other_than(addr@),
                texts(kept@) == all.take(i as int).filter(pred),
            decreases self.remotes@.len() - i,
        {
            let ghost before = kept@;
            let ghost r = self.remotes@[i as int]@;
            proof {
                assert(all.take(i + 1) =~= all.take(i as int).push(r));
                all.take(i as int).lemma_filter_push(r, pred);
            }
            if self.remotes[i] != *addr {
                kept.push(self.remotes[i].clone());
                assert(texts(kept@) =~= texts(before).push(r));
            }
            i = i + 1;
        }
        assert(all.take(all.len() as int) =~= all);
        self.remotes = kept;
    }
}

/// An address that was reached is remembered, none is lost, and no address comes
/// to be remembered twice.
pub proof fn law_reached_address_is_remembered(remotes: Seq<Seq<char>>, addr: Seq<char>)
    ensures
        remembered(remotes, addr).contains(addr),
        forall|r: Seq<char>|
            remotes.contains(r) ==> #[trigger] remembered(remotes, addr).contains(r),
        remotes.no_duplicates() ==> remembered(remotes, addr).no_duplicates(),
{
    let new = remembered(remotes, addr);
    if !remotes.contains(addr) {
        assert(new[new.len() - 1] == addr);
        assert forall|r: Seq<char>| remotes.contains(r) implies #[trigger] new.contains(r) by {
            let i = choose|i: int| 0 <= i < remotes.len() && remotes[i] == r;
            assert(new[i] == r);
        }
    }
}

/// Only addresses are remembered: connecting to all of them leaves them as they
/// are, and its marker never comes to be among them.
pub proof fn law_only_addresses_are_remembered(remotes: Seq<Seq<char>>, addr: Seq<char>)
    ensures
        after_reaching(remotes, all_marker()) == remotes,
        addr != all_marker() ==> after_reaching(remotes, addr).contains(addr),
        !remotes.contains(all_marker()) ==> !after_reaching(remotes, addr).contains(all_marker()),
{
    law_reached_address_is_remembered(remotes, addr);
}

/// An address that was forgotten is remembered no more, and every other still is.
pub proof fn law_forgotten_address_is_gone(remotes: Seq<Seq<char>>, addr: Seq<char>, r: Seq<char>)
    ensures
        forgotten(remotes, addr).contains(r) <==> remotes.contains(r) && r != addr,
{
    let pred = other_than(addr);
    if forgotten(remotes, addr).contains(r) {
        let i = choose|i: int|
            0 <= i < forgotten(remotes, addr).len() && forgotten(remotes, addr)[i] == r;
        remotes.lemma_filter_pred(pred, i);
        remotes.lemma_filter_contains_rev(pred, r);
    }
    if remotes.contains(r) && r != addr {
        let i = choose|i: int| 0 <= i < remotes.len() && remotes[i] == r;
        remotes.lemma_filter_contains(pred, i);
    }
}

} // verus!
