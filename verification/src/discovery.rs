//! Reading the device list that `adb devices` prints.
//!
//! The first line is a title (`List of devices attached`); every further line
//! names a device and its state, separated by whitespace. Lines end at `\n`,
//! a `\r` before the `\n` included, as `str::lines` splits them; words are
//! separated by Unicode whitespace, as `str::split_whitespace` splits them.

use vstd::prelude::*;

verus! {

/// Unicode whitespace (the `White_Space` property, as `char::is_whitespace`).
pub open spec fn is_whitespace(c: char) -> bool {
    let u = c as u32;
    ||| 0x09 <= u <= 0x0d
    ||| u == 0x20
    ||| u == 0x85
    ||| u == 0xa0
    ||| u == 0x1680
    ||| 0x2000 <= u <= 0x200a
    ||| u == 0x2028
    ||| u == 0x2029
    ||| u == 0x202f
    ||| u == 0x205f
    ||| u == 0x3000
}

/// The end of the word of `s` that starts at `i`, within `hi`.
pub open spec fn word_end(s: Seq<char>, i: int, hi: int) -> int
    decreases hi - i,
{
    if i >= hi || is_whitespace(s[i]) {
        i
    } else {
        word_end(s, i + 1, hi)
    }
}

pub proof fn lemma_word_end_bounds(s: Seq<char>, i: int, hi: int)
    requires
        i <= hi,
    ensures
        i <= word_end(s, i, hi) <= hi,
        i < hi && !is_whitespace(s[i]) ==> word_end(s, i, hi) > i,
    decreases hi - i,
{
    if i < hi && !is_whitespace(s[i]) {
        lemma_word_end_bounds(s, i + 1, hi);
    }
}

/// The whitespace-separated words of `s` between `i` and `hi`.
pub open spec fn words_in(s: Seq<char>, i: int, hi: int) -> Seq<Seq<char>>
    decreases hi - i,
{
    if i >= hi {
        Seq::empty()
    } else if is_whitespace(s[i]) {
        words_in(s, i + 1, hi)
    } else {
        let e = word_end(s, i, hi);
        proof {
            lemma_word_end_bounds(s, i, hi);
        }
        seq![s.subrange(i, e)] + words_in(s, e, hi)
    }
}

/// Where the line of `s` that starts at `i` ends: at the next `\n`, or at
/// the end of `s`.
pub open spec fn line_end(s: Seq<char>, i: int) -> int
    decreases s.len() - i,
{
    if i >= s.len() || s[i] == '\n' {
        i
    } else {
        line_end(s, i + 1)
    }
}

pub proof fn lemma_line_end_bounds(s: Seq<char>, i: int)
    requires
        0 <= i <= s.len(),
    ensures
        i <= line_end(s, i) <= s.len(),
        line_end(s, i) < s.len() ==> s[line_end(s, i)] == '\n',
    decreases s.len() - i,
{
    if i < s.len() && s[i] != '\n' {
        lemma_line_end_bounds(s, i + 1);
    }
}

/// Where the text of the line from `start` to `end` ends: a line ended by
/// `\r\n` loses its `\r`.
pub open spec fn text_end(s: Seq<char>, start: int, end: int) -> int {
    if end < s.len() && end > start && s[end - 1] == '\r' {
        end - 1
    } else {
        end
    }
}

/// The device that the line between `a` and `b` lists as ready: its first
/// word, where its second word is `device`.
pub open spec fn device_of(s: Seq<char>, a: int, b: int) -> Option<Seq<char>> {
    let w = words_in(s, a, b);
    if w.len() >= 2 && w[1] == "device"@ {
        Some(w[0])
    } else {
        None
    }
}

/// The devices listed as ready by the lines of `s` from `start` on, the
/// title line (when `title` holds) left out.
pub open spec fn devices_from(s: Seq<char>, start: int, title: bool) -> Seq<Seq<char>>
    decreases s.len() + 1 - start,
{
    if start < 0 || start >= s.len() {
        Seq::empty()
    } else {
        let e = line_end(s, start);
        proof {
            lemma_line_end_bounds(s, start);
        }
        let here = if title {
            Seq::empty()
        } else {
            match device_of(s, start, text_end(s, start, e)) {
                Some(d) => seq![d],
                None => Seq::empty(),
            }
        };
        here + devices_from(s, e + 1, false)
    }
}

/// Whether `pat` occurs in `s` between `a` and `b`.
pub open spec fn occurs_in(s: Seq<char>, a: int, b: int, pat: Seq<char>) -> bool {
    exists|j: int| a <= j && j + pat.len() <= b && #[trigger] s.subrange(j, j + pat.len()) == pat
}

/// Whether a line of `s` from `start` on, the title line (when `title`
/// holds) left out, contains `device`.
pub open spec fn mentions_device_from(s: Seq<char>, start: int, title: bool) -> bool
    decreases s.len() + 1 - start,
{
    if start < 0 || start >= s.len() {
        false
    } else {
        let e = line_end(s, start);
        proof {
            lemma_line_end_bounds(s, start);
        }
        (!title && occurs_in(s, start, text_end(s, start, e), "device"@)) || mentions_device_from(
            s,
            e + 1,
            false,
        )
    }
}

/// Every word of `s` between `i` and `hi` is a stretch of `s` there.
proof fn lemma_word_is_slice(s: Seq<char>, i: int, hi: int, k: int)
    requires
        0 <= i <= hi <= s.len(),
        0 <= k < words_in(s, i, hi).len(),
    ensures
        exists|p: int|
            i <= p && p + words_in(s, i, hi)[k].len() <= hi && #[trigger] s.subrange(
                p,
                p + words_in(s, i, hi)[k].len(),
            ) == words_in(s, i, hi)[k],
    decreases hi - i,
{
    let w = words_in(s, i, hi);
    if is_whitespace(s[i]) {
        lemma_word_is_slice(s, i + 1, hi, k);
    } else {
        let e = word_end(s, i, hi);
        lemma_word_end_bounds(s, i, hi);
        if k == 0 {
            assert(w[0] == s.subrange(i, e));
            assert(s.subrange(i, i + w[0].len()) == w[0]);
        } else {
            assert(w[k] == words_in(s, e, hi)[k - 1]);
            lemma_word_is_slice(s, e, hi, k - 1);
        }
    }
}

/// A line that lists a ready device contains `device`.
proof fn lemma_device_line_mentions_device(s: Seq<char>, a: int, b: int)
    requires
        0 <= a <= b <= s.len(),
        device_of(s, a, b) is Some,
    ensures
        occurs_in(s, a, b, "device"@),
{
    lemma_word_is_slice(s, a, b, 1);
    let p = choose|p: int|
        a <= p && p + words_in(s, a, b)[1].len() <= b && #[trigger] s.subrange(
            p,
            p + words_in(s, a, b)[1].len(),
        ) == words_in(s, a, b)[1];
    assert(s.subrange(p, p + "device"@.len()) == "device"@);
}

/// What `status` shows, `start` sees: when `adb devices` lists a ready
/// device (a line after the title whose second word is `device`), it also
/// has a line after the title that contains `device`.
pub proof fn lemma_listed_device_is_mentioned(s: Seq<char>, start: int, title: bool)
    requires
        devices_from(s, start, title).len() > 0,
    ensures
        mentions_device_from(s, start, title),
    decreases s.len() + 1 - start,
{
    if 0 <= start < s.len() {
        let e = line_end(s, start);
        lemma_line_end_bounds(s, start);
        let t = text_end(s, start, e);
        if !title && device_of(s, start, t) is Some {
            lemma_device_line_mentions_device(s, start, t);
        } else {
            lemma_listed_device_is_mentioned(s, e + 1, false);
        }
    }
}

/// Whether `c` is Unicode whitespace.
pub(crate) fn whitespace(c: char) -> (r: bool)
    ensures
        r == is_whitespace(c),
{
    let u = c as u32;
    (0x09 <= u && u <= 0x0d) || u == 0x20 || u == 0x85 || u == 0xa0 || u == 0x1680 || (0x2000 <= u
        && u <= 0x200a) || u == 0x2028 || u == 0x2029 || u == 0x202f || u == 0x205f || u == 0x3000
}

fn find_line_end(s: &str, n: usize, start: usize) -> (e: usize)
    requires
        n == s@.len(),
        start <= n,
    ensures
        e == line_end(s@, start as int),
{
    let mut i = start;
    while i < n && s.get_char(i) != '\n'
        invariant
            n == s@.len(),
            start <= i <= n,
            line_end(s@, start as int) == line_end(s@, i as int),
        decreases n - i,
    {
        i = i + 1;
    }
    i
}

fn skip_whitespace(s: &str, i: usize, hi: usize) -> (j: usize)
    requires
        i <= hi <= s@.len(),
    ensures
        i <= j <= hi,
        words_in(s@, i as int, hi as int) == words_in(s@, j as int, hi as int),
        j < hi ==> !is_whitespace(s@[j as int]),
{
    let mut j = i;
    while j < hi && whitespace(s.get_char(j))
        invariant
            i <= j <= hi <= s@.len(),
            words_in(s@, i as int, hi as int) == words_in(s@, j as int, hi as int),
        decreases hi - j,
    {
        j = j + 1;
    }
    j
}

fn find_word_end(s: &str, i: usize, hi: usize) -> (e: usize)
    requires
        i < hi <= s@.len(),
        !is_whitespace(s@[i as int]),
    ensures
        e == word_end(s@, i as int, hi as int),
        i < e <= hi,
        words_in(s@, i as int, hi as int) == seq![s@.subrange(i as int, e as int)] + words_in(
            s@,
            e as int,
            hi as int,
        ),
{
    let mut e = i + 1;
    while e < hi && !whitespace(s.get_char(e))
        invariant
            i < e <= hi <= s@.len(),
            word_end(s@, i as int, hi as int) == word_end(s@, e as int, hi as int),
        decreases hi - e,
    {
        e = e + 1;
    }
    e
}

fn is_device_word(s: &str, a: usize, b: usize) -> (r: bool)
    requires
        a <= b <= s@.len(),
    ensures
        r == (s@.subrange(a as int, b as int) == "device"@),
{
    proof {
        reveal_strlit("device");
    }
    assert("device"@.len() == 6);
    if b - a != 6 {
        assert(s@.subrange(a as int, b as int).len() != "device"@.len());
        return false;
    }
    let r = s.get_char(a) == 'd' && s.get_char(a + 1) == 'e' && s.get_char(a + 2) == 'v'
        && s.get_char(a + 3) == 'i' && s.get_char(a + 4) == 'c' && s.get_char(a + 5) == 'e';
    if r {
        assert(s@.subrange(a as int, b as int) =~= "device"@);
    } else {
        assert(s@.subrange(a as int, b as int) != "device"@) by {
            if s@.subrange(a as int, b as int) == "device"@ {
                assert(s@.subrange(a as int, b as int)[0] == 'd');
                assert(s@.subrange(a as int, b as int)[1] == 'e');
                assert(s@.subrange(a as int, b as int)[2] == 'v');
                assert(s@.subrange(a as int, b as int)[3] == 'i');
                assert(s@.subrange(a as int, b as int)[4] == 'c');
                assert(s@.subrange(a as int, b as int)[5] == 'e');
            }
        }
    }
    r
}

fn device_in_line(s: &str, a: usize, b: usize) -> (r: Option<String>)
    requires
        a <= b <= s@.len(),
    ensures
        match r {
            Some(d) => device_of(s@, a as int, b as int) == Some(d@),
            None => device_of(s@, a as int, b as int) == None::<Seq<char>>,
        },
{
    let w0 = skip_whitespace(s, a, b);
    if w0 >= b {
        return None;
    }
    let e0 = find_word_end(s, w0, b);
    let w1 = skip_whitespace(s, e0, b);
    if w1 >= b {
        return None;
    }
    let e1 = find_word_end(s, w1, b);
    let ghost w = words_in(s@, a as int, b as int);
    assert(w[0] == s@.subrange(w0 as int, e0 as int));
    assert(w[1] == s@.subrange(w1 as int, e1 as int));
    if is_device_word(s, w1, e1) {
        Some(s.substring_char(w0, e0).to_owned())
    } else {
        None
    }
}

/// The devices that `adb devices` lists as ready, in order: for every line
/// after the title, its first word where its second word is `device`.
pub fn attached_devices(adb_output: &str) -> (r: Vec<String>)
    ensures
        r@.map_values(|d: String| d@) == devices_from(adb_output@, 0, true),
{
    let n = adb_output.unicode_len();
    let mut devices: Vec<String> = Vec::new();
    let mut start: usize = 0;
    let mut title = true;
    while start < n
        invariant
            n == adb_output@.len(),
            start <= n,
            devices_from(adb_output@, 0, true) == devices@.map_values(|d: String| d@)
                + devices_from(adb_output@, start as int, title),
        decreases n - start,
    {
        let end = find_line_end(adb_output, n, start);
        proof {
            lemma_line_end_bounds(adb_output@, start as int);
        }
        let text = if end < n && end > start && adb_output.get_char(end - 1) == '\r' {
            end - 1
        } else {
            end
        };
        let ghost before = devices@.map_values(|d: String| d@);
        if !title {
            match device_in_line(adb_output, start, text) {
                Some(d) => {
                    devices.push(d);
                },
                None => {},
            }
        }
        assert(devices@.map_values(|d: String| d@) =~= before + (if title {
            Seq::<Seq<char>>::empty()
        } else {
            match device_of(adb_output@, start as int, text as int) {
                Some(d) => seq![d],
                None => Seq::<Seq<char>>::empty(),
            }
        }));
        proof {
            let s = adb_output@;
            assert(text == text_end(s, start as int, end as int));
            assert(devices_from(s, start as int, title) == (if title {
                Seq::<Seq<char>>::empty()
            } else {
                match device_of(s, start as int, text as int) {
                    Some(d) => seq![d],
                    None => Seq::<Seq<char>>::empty(),
                }
            }) + devices_from(s, end + 1, false));
            assert(devices_from(s, n as int, false) =~= Seq::<Seq<char>>::empty());
            assert(devices_from(s, n + 1, false) =~= Seq::<Seq<char>>::empty());
        }
        title = false;
        if end >= n {
            start = n;
        } else {
            start = end + 1;
        }
    }
    assert(devices@.map_values(|d: String| d@) + devices_from(adb_output@, start as int, title)
        =~= devices@.map_values(|d: String| d@));
    devices
}

fn occurs_device(s: &str, a: usize, b: usize) -> (r: bool)
    requires
        a <= b <= s@.len(),
    ensures
        r == occurs_in(s@, a as int, b as int, "device"@),
{
    proof {
        reveal_strlit("device");
    }
    assert("device"@.len() == 6);
    if b - a < 6 {
        return false;
    }
    let mut j = a;
    while j <= b - 6
        invariant
            a <= j <= b - 6 + 1,
            a + 6 <= b <= s@.len(),
            "device"@.len() == 6,
            forall|k: int| a <= k < j ==> #[trigger] s@.subrange(k, k + 6) != "device"@,
        decreases b - j,
    {
        if is_device_word(s, j, j + 6) {
            assert(s@.subrange(j as int, j + "device"@.len()) == "device"@);
            return true;
        }
        j = j + 1;
    }
    assert forall|k: int| a <= k && k + 6 <= b implies #[trigger] s@.subrange(k, k + 6) != "device"@ by {}
    false
}

/// Whether `adb devices` lists any device: a line after the title that
/// contains `device`.
pub fn lists_device(adb_output: &str) -> (r: bool)
    ensures
        r == mentions_device_from(adb_output@, 0, true),
{
    let n = adb_output.unicode_len();
    let mut start: usize = 0;
    let mut title = true;
    while start < n
        invariant
            n == adb_output@.len(),
            start <= n,
            mentions_device_from(adb_output@, 0, true) == mentions_device_from(
                adb_output@,
                start as int,
                title,
            ),
        decreases n - start,
    {
        let end = find_line_end(adb_output, n, start);
        proof {
            lemma_line_end_bounds(adb_output@, start as int);
        }
        let text = if end < n && end > start && adb_output.get_char(end - 1) == '\r' {
            end - 1
        } else {
            end
        };
        if !title && occurs_device(adb_output, start, text) {
            return true;
        }
        proof {
            let s = adb_output@;
            assert(text == text_end(s, start as int, end as int));
            assert(mentions_device_from(s, start as int, title) == ((!title && occurs_in(
                s,
                start as int,
                text as int,
                "device"@,
            )) || mentions_device_from(s, end + 1, false)));
            assert(!mentions_device_from(s, n as int, false));
            assert(!mentions_device_from(s, n + 1, false));
        }
        title = false;
        if end >= n {
            start = n;
        } else {
            start = end + 1;
        }
    }
    false
}

} // verus!
