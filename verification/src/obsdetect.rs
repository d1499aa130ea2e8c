//! Detects whether OBS Studio is running, so that serials and saved addresses
//! can be hidden while it may be capturing the window.

use vstd::prelude::*;

verus! {

/// A UTF-16 unit with the ASCII capitals made small.
pub open spec fn ascii_lower(unit: u16) -> u16 {
    if 65 <= unit <= 90 {
        (unit + 32) as u16
    } else {
        unit
    }
}

/// A name up to the zero that ends it, if one does.
pub open spec fn until_zero(name: Seq<u16>) -> Seq<u16>
    decreases name.len(),
{
    if name.len() == 0 || name[0] == 0 {
        Seq::empty()
    } else {
        seq![name[0]] + until_zero(name.skip(1))
    }
}

/// The UTF-16 units of `obs64.exe` or `obs32.exe`: the two digits are given.
pub open spec fn obs_units(tens: u16, ones: u16) -> Seq<u16> {
    seq![111u16, 98u16, 115u16, tens, ones, 46u16, 101u16, 120u16, 101u16]
}

/// Whether a process name, of any case, is one of OBS Studio: `obs64.exe` or
/// `obs32.exe`.
pub open spec fn is_obs(name: Seq<u16>) -> bool {
    let lower = until_zero(name).map_values(|u: u16| ascii_lower(u));
    lower == obs_units(54, 52) || lower == obs_units(51, 50)
}

fn lower_unit(unit: u16) -> (l: u16)
    ensures
        l == ascii_lower(unit),
{
    if 65 <= unit && unit <= 90 {
        unit + 32
    } else {
        unit
    }
}

/// A name ends where its first zero stands.
proof fn lemma_until_zero(name: Seq<u16>, len: int)
    requires
        0 <= len <= name.len(),
        forall|i: int| 0 <= i < len ==> #[trigger] name[i] != 0,
        len < name.len() ==> name[len] == 0,
    ensures
        until_zero(name) == name.take(len),
    decreases name.len(),
{
    if name.len() == 0 || name[0] == 0 {
        assert(until_zero(name) =~= name.take(len));
    } else {
        let rest = name.skip(1);
        assert forall|i: int| 0 <= i < len - 1 implies #[trigger] rest[i] != 0 by {
            assert(rest[i] == name[i + 1]);
        }
        lemma_until_zero(rest, len - 1);
        assert(seq![name[0]] + rest.take(len - 1) =~= name.take(len));
    }
}

/// Tells whether a process name is one of OBS Studio.
pub fn is_obs_name(name: &[u16]) -> (obs: bool)
    ensures
        obs == is_obs(name@),
{
    let total: usize = name.len();
    let mut len: usize = 0;
    while len < total && name[len] != 0
        invariant
            total == name@.len(),
            len <= total,
            forall|i: int| 0 <= i < len ==> #[trigger] name@[i] != 0,
        decreases total - len,
    {
        len = len + 1;
    }
    let ghost lower = until_zero(name@).map_values(|u: u16| ascii_lower(u));
    proof {
        lemma_until_zero(name@, len as int);
        assert(lower.len() == len);
        assert(forall|i: int| 0 <= i < len ==> #[trigger] lower[i] == ascii_lower(name@[i]));
    }
    if len != 9 {
        return false;
    }
    let tens: u16 = lower_unit(name[3]);
    let ones: u16 = lower_unit(name[4]);
    let obs = lower_unit(name[0]) == 111 && lower_unit(name[1]) == 98 && lower_unit(name[2]) == 115
        && ((tens == 54 && ones == 52) || (tens == 51 && ones == 50)) && lower_unit(name[5]) == 46
        && lower_unit(name[6]) == 101 && lower_unit(name[7]) == 120 && lower_unit(name[8]) == 101;
    proof {
        if obs {
            assert(lower =~= obs_units(tens, ones));
        } else {
            let a = obs_units(54, 52);
            let b = obs_units(51, 50);
            assert(a[0] == 111 && a[1] == 98 && a[2] == 115 && a[3] == 54 && a[4] == 52 && a[5]
                == 46 && a[6] == 101 && a[7] == 120 && a[8] == 101);
            assert(b[0] == 111 && b[1] == 98 && b[2] == 115 && b[3] == 51 && b[4] == 50 && b[5]
                == 46 && b[6] == 101 && b[7] == 120 && b[8] == 101);
            assert(forall|i: int| 0 <= i < 9 ==> #[trigger] lower[i] == ascii_lower(name@[i]));
            assert(lower[0] == ascii_lower(name@[0]) && lower[1] == ascii_lower(name@[1])
                && lower[2] == ascii_lower(name@[2]) && lower[3] == ascii_lower(name@[3])
                && lower[4] == ascii_lower(name@[4]) && lower[5] == ascii_lower(name@[5])
                && lower[6] == ascii_lower(name@[6]) && lower[7] == ascii_lower(name@[7])
                && lower[8] == ascii_lower(name@[8]));
        }
    }
    obs
}

/// Whether one of the processes is OBS Studio.
pub open spec fn any_obs(processes: Seq<Vec<u16>>) -> bool {
    exists|i: int| 0 <= i < processes.len() && is_obs((#[trigger] processes[i])@)
}

/// Tells whether one of the processes is OBS Studio.
pub fn is_running(processes: &Vec<Vec<u16>>) -> (running: bool)
    ensures
        running == exists|i: int| 0 <= i < processes@.len() && is_obs(#[trigger] processes@[i]@),
        running == any_obs(processes@),
{
    let mut i: usize = 0;
    while i < processes.len()
        invariant
            i <= processes@.len(),
            forall|k: int| 0 <= k < i ==> !is_obs(#[trigger] processes@[k]@),
        decreases processes@.len() - i,
    {
        if is_obs_name(processes[i].as_slice()) {
            assert(is_obs(processes@[i as int]@));
            return true;
        }
        i = i + 1;
    }
    false
}

} // verus!
