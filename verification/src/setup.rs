//! Decisions of the setup commands: which capture device and address the
//! configuration wizard offers first, and where the server streams to.

use crate::cli::same_text;
use crate::discovery::{is_whitespace, whitespace};
use vstd::prelude::*;
use vstd::string::StringExecFns;

verus! {

/// The first position at or after `i` of `s` that is not whitespace, or the
/// end of `s`.
pub open spec fn trim_start_at(s: Seq<char>, i: int) -> int
    decreases s.len() - i,
{
    if i >= s.len() || !is_whitespace(s[i]) {
        i
    } else {
        trim_start_at(s, i + 1)
    }
}

/// Just past the last position before `j` of `s`, down to `lo`, that is not
/// whitespace; `lo` when there is none.
pub open spec fn trim_end_at(s: Seq<char>, lo: int, j: int) -> int
    decreases j - lo,
{
    if j <= lo || !is_whitespace(s[j - 1]) {
        j
    } else {
        trim_end_at(s, lo, j - 1)
    }
}

/// `s` without leading and trailing whitespace (`str::trim`).
pub open spec fn trimmed(s: Seq<char>) -> Seq<char> {
    let a = trim_start_at(s, 0);
    s.subrange(a, trim_end_at(s, a, s.len() as int))
}

/// The position of the first `:` of `s` at or after `i`, or the end of `s`.
pub open spec fn colon_at(s: Seq<char>, i: int) -> int
    decreases s.len() - i,
{
    if i >= s.len() || s[i] == ':' {
        i
    } else {
        colon_at(s, i + 1)
    }
}

/// The host of an address written `host` or `host:port`, trimmed.
pub open spec fn host_of(address: Seq<char>) -> Seq<char> {
    trimmed(address.take(colon_at(address, 0)))
}

/// Whether `pat` occurs in `s`.
pub open spec fn contains_text(s: Seq<char>, pat: Seq<char>) -> bool {
    exists|j: int| 0 <= j && j + pat.len() <= s.len() && #[trigger] s.subrange(j, j + pat.len()) == pat
}

/// Whether the wizard prefers a device: it mentions `BlackHole 16ch` or is
/// the configured one.
pub open spec fn is_preferred(device: Seq<char>, current: Seq<char>) -> bool {
    contains_text(device, "BlackHole 16ch"@) || device == current
}

/// The position of the first preferred device at or after `i`, or `0` when
/// there is none.
pub open spec fn preferred_from(devices: Seq<Seq<char>>, current: Seq<char>, i: int) -> int
    decreases devices.len() - i,
{
    if i < 0 || i >= devices.len() {
        0
    } else if is_preferred(devices[i], current) {
        i
    } else {
        preferred_from(devices, current, i + 1)
    }
}

/// The device the wizard selects first: the first preferred one, or the
/// first device when none is.
pub open spec fn preferred_device(devices: Seq<Seq<char>>, current: Seq<char>) -> int {
    preferred_from(devices, current, 0)
}

/// The address found on the device, trimmed, if it looks like one (holds a
/// `.`).
pub open spec fn detected_address(output: Seq<char>) -> Option<Seq<char>> {
    let t = trimmed(output);
    if t.len() > 0 && contains_text(t, "."@) {
        Some(t)
    } else {
        None
    }
}

/// The connection mode and the address the wizard offers: over Wi-Fi the
/// detected address, else the configured one unless it is empty or
/// loopback, else `192.168.15.5`; over USB loopback.
pub open spec fn offered_connection(
    wifi: bool,
    detected: Option<Seq<char>>,
    configured: Seq<char>,
) -> (Seq<char>, Seq<char>) {
    if wifi {
        let address = match detected {
            Some(d) => d,
            None => if configured.len() > 0 && configured != "127.0.0.1"@ {
                configured
            } else {
                "192.168.15.5"@
            },
        };
        ("wifi"@, address)
    } else {
        ("usb"@, "127.0.0.1"@)
    }
}

/// The bounds of `s[lo..hi]` trimmed.
pub(crate) fn trim_bounds(s: &str, hi: usize) -> (r: (usize, usize))
    requires
        hi <= s@.len(),
    ensures
        r.0 == trim_start_at(s@.take(hi as int), 0),
        r.1 == trim_end_at(s@.take(hi as int), r.0 as int, hi as int),
        r.0 <= r.1 <= hi,
{
    let ghost t = s@.take(hi as int);
    let mut a: usize = 0;
    while a < hi && whitespace(s.get_char(a))
        invariant
            a <= hi <= s@.len(),
            t == s@.take(hi as int),
            trim_start_at(t, 0) == trim_start_at(t, a as int),
        decreases hi - a,
    {
        a = a + 1;
    }
    let mut b: usize = hi;
    while b > a && whitespace(s.get_char(b - 1))
        invariant
            a <= b <= hi <= s@.len(),
            t == s@.take(hi as int),
            trim_end_at(t, a as int, hi as int) == trim_end_at(t, a as int, b as int),
        decreases b - a,
    {
        b = b - 1;
    }
    (a, b)
}

pub(crate) fn has_text(s: &str, pat: &str) -> (r: bool)
    ensures
        r == contains_text(s@, pat@),
{
    let n = s.unicode_len();
    let m = pat.unicode_len();
    if m > n {
        return false;
    }
    let mut j: usize = 0;
    while j <= n - m
        invariant
            n == s@.len(),
            m == pat@.len(),
            m <= n,
            j <= n - m + 1,
            forall|k: int| 0 <= k < j ==> #[trigger] s@.subrange(k, k + m) != pat@,
        decreases n - m + 1 - j,
    {
        let mut i: usize = 0;
        let mut same = true;
        while i < m
            invariant
                n == s@.len(),
                m == pat@.len(),
                j + m <= n,
                i <= m,
                same == forall|q: int| 0 <= q < i ==> s@[j + q] == pat@[q],
            decreases m - i,
        {
            if s.get_char(j + i) != pat.get_char(i) {
                same = false;
            }
            i = i + 1;
        }
        if same {
            assert(s@.subrange(j as int, j + m) =~= pat@);
            return true;
        }
        assert(s@.subrange(j as int, j + m) != pat@) by {
            if s@.subrange(j as int, j + m) == pat@ {
                assert forall|q: int| 0 <= q < m implies s@[j + q] == pat@[q] by {
                    assert(s@.subrange(j as int, j + m)[q] == s@[j + q]);
                }
            }
        }
        j = j + 1;
    }
    false
}

/// The host of an address written `host` or `host:port`: the text before
/// the first `:`, trimmed.
pub fn endpoint_host(address: &str) -> (r: String)
    ensures
        r@ == host_of(address@),
{
    let n = address.unicode_len();
    let mut c: usize = 0;
    while c < n && address.get_char(c) != ':'
        invariant
            n == address@.len(),
            c <= n,
            colon_at(address@, 0) == colon_at(address@, c as int),
        decreases n - c,
    {
        c = c + 1;
    }
    let (a, b) = trim_bounds(address, c);
    let r = address.substring_char(a, b).to_owned();
    assert(r@ =~= host_of(address@));
    r
}

/// The position of the device the wizard selects first (see
/// [`preferred_device`]).
pub fn preferred_device_index(devices: &Vec<String>, current: &str) -> (r: usize)
    ensures
        r == preferred_device(devices@.map_values(|d: String| d@), current@),
{
    let ghost ds = devices@.map_values(|d: String| d@);
    let mut i: usize = 0;
    while i < devices.len()
        invariant
            ds == devices@.map_values(|d: String| d@),
            i <= devices.len(),
            preferred_from(ds, current@, 0) == preferred_from(ds, current@, i as int),
        decreases devices.len() - i,
    {
        let d = devices[i].as_str();
        let preferred = has_text(d, "BlackHole 16ch") || same_text(d, current);
        assert(d@ == ds[i as int]);
        if preferred {
            return i;
        }
        i = i + 1;
    }
    0
}

/// The address that the device reported, if it looks like one: the output
/// trimmed, when it is not empty and holds a `.`.
pub fn detected_ip(output: &str) -> (r: Option<String>)
    ensures
        match r {
            Some(a) => detected_address(output@) == Some(a@),
            None => detected_address(output@) == None::<Seq<char>>,
        },
{
    let n = output.unicode_len();
    assert(output@.take(n as int) =~= output@);
    let (a, b) = trim_bounds(output, n);
    let t = output.substring_char(a, b);
    assert(t@ =~= trimmed(output@));
    if b > a && has_text(t, ".") {
        Some(t.to_owned())
    } else {
        None
    }
}

/// The connection mode and the address the wizard offers (see
/// [`offered_connection`]).
pub fn connection_offer(wifi: bool, detected: Option<String>, configured: &str) -> (r: (String, String))
    ensures
        (r.0@, r.1@) == offered_connection(
            wifi,
            match detected {
                Some(d) => Some(d@),
                None => None,
            },
            configured@,
        ),
{
    if wifi {
        let address = match detected {
            Some(d) => d,
            None => {
                if configured.unicode_len() > 0 && !same_text(configured, "127.0.0.1") {
                    configured.to_owned()
                } else {
                    String::from_str("192.168.15.5")
                }
            },
        };
        (String::from_str("wifi"), address)
    } else {
        (String::from_str("usb"), String::from_str("127.0.0.1"))
    }
}

} // verus!
