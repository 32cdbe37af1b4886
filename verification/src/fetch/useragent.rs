//! User-Agent strings and browser fingerprints for realistic request headers.

use vstd::prelude::*;
use rand::Rng;
use crate::text::{occurs_at, seq_contains, seq_find, contains_str, find_str, chars_of, string_of, str_eq};
use crate::types::prefixed;

verus! {

/// The realistic, up-to-date User-Agent strings, in rotation order.
pub open spec fn user_agent_list() -> Seq<Seq<char>> {
    seq![
        "Mozilla/5.0 (Windows NT 10.0; Win64; x64) AppleWebKit/537.36 (KHTML, like Gecko) Chrome/131.0.0.0 Safari/537.36"@,
        "Mozilla/5.0 (Windows NT 10.0; Win64; x64) AppleWebKit/537.36 (KHTML, like Gecko) Chrome/130.0.0.0 Safari/537.36"@,
        "Mozilla/5.0 (Macintosh; Intel Mac OS X 10_15_7) AppleWebKit/537.36 (KHTML, like Gecko) Chrome/131.0.0.0 Safari/537.36"@,
        "Mozilla/5.0 (Macintosh; Intel Mac OS X 10_15_7) AppleWebKit/537.36 (KHTML, like Gecko) Chrome/130.0.0.0 Safari/537.36"@,
        "Mozilla/5.0 (Windows NT 10.0; Win64; x64; rv:132.0) Gecko/20100101 Firefox/132.0"@,
        "Mozilla/5.0 (Windows NT 10.0; Win64; x64; rv:131.0) Gecko/20100101 Firefox/131.0"@,
        "Mozilla/5.0 (Macintosh; Intel Mac OS X 10.15; rv:132.0) Gecko/20100101 Firefox/132.0"@,
        "Mozilla/5.0 (Macintosh; Intel Mac OS X 10.15; rv:131.0) Gecko/20100101 Firefox/131.0"@,
        "Mozilla/5.0 (Windows NT 10.0; Win64; x64) AppleWebKit/537.36 (KHTML, like Gecko) Chrome/131.0.0.0 Safari/537.36 Edg/131.0.0.0"@,
        "Mozilla/5.0 (Windows NT 10.0; Win64; x64) AppleWebKit/537.36 (KHTML, like Gecko) Chrome/130.0.0.0 Safari/537.36 Edg/130.0.0.0"@,
        "Mozilla/5.0 (Macintosh; Intel Mac OS X 10_15_7) AppleWebKit/605.1.15 (KHTML, like Gecko) Version/18.1 Safari/605.1.15"@,
        "Mozilla/5.0 (Macintosh; Intel Mac OS X 10_15_7) AppleWebKit/605.1.15 (KHTML, like Gecko) Version/18.0 Safari/605.1.15"@,
        "Mozilla/5.0 (X11; Linux x86_64) AppleWebKit/537.36 (KHTML, like Gecko) Chrome/131.0.0.0 Safari/537.36"@,
        "Mozilla/5.0 (X11; Linux x86_64) AppleWebKit/537.36 (KHTML, like Gecko) Chrome/130.0.0.0 Safari/537.36"@,
        "Mozilla/5.0 (X11; Linux x86_64; rv:132.0) Gecko/20100101 Firefox/132.0"@,
        "Mozilla/5.0 (X11; Linux x86_64; rv:131.0) Gecko/20100101 Firefox/131.0"@,
    ]
}

/// The User-Agent at position `i` of the list.
fn user_agent_at(i: usize) -> (res: &'static str)
    requires
        i < 16,
    ensures
        res@ == user_agent_list()[i as int],
{
    if i == 0 {
        "Mozilla/5.0 (Windows NT 10.0; Win64; x64) AppleWebKit/537.36 (KHTML, like Gecko) Chrome/131.0.0.0 Safari/537.36"
    } else if i == 1 {
        "Mozilla/5.0 (Windows NT 10.0; Win64; x64) AppleWebKit/537.36 (KHTML, like Gecko) Chrome/130.0.0.0 Safari/537.36"
    } else if i == 2 {
        "Mozilla/5.0 (Macintosh; Intel Mac OS X 10_15_7) AppleWebKit/537.36 (KHTML, like Gecko) Chrome/131.0.0.0 Safari/537.36"
    } else if i == 3 {
        "Mozilla/5.0 (Macintosh; Intel Mac OS X 10_15_7) AppleWebKit/537.36 (KHTML, like Gecko) Chrome/130.0.0.0 Safari/537.36"
    } else if i == 4 {
        "Mozilla/5.0 (Windows NT 10.0; Win64; x64; rv:132.0) Gecko/20100101 Firefox/132.0"
    } else if i == 5 {
        "Mozilla/5.0 (Windows NT 10.0; Win64; x64; rv:131.0) Gecko/20100101 Firefox/131.0"
    } else if i == 6 {
        "Mozilla/5.0 (Macintosh; Intel Mac OS X 10.15; rv:132.0) Gecko/20100101 Firefox/132.0"
    } else if i == 7 {
        "Mozilla/5.0 (Macintosh; Intel Mac OS X 10.15; rv:131.0) Gecko/20100101 Firefox/131.0"
    } else if i == 8 {
        "Mozilla/5.0 (Windows NT 10.0; Win64; x64) AppleWebKit/537.36 (KHTML, like Gecko) Chrome/131.0.0.0 Safari/537.36 Edg/131.0.0.0"
    } else if i == 9 {
        "Mozilla/5.0 (Windows NT 10.0; Win64; x64) AppleWebKit/537.36 (KHTML, like Gecko) Chrome/130.0.0.0 Safari/537.36 Edg/130.0.0.0"
    } else if i == 10 {
        "Mozilla/5.0 (Macintosh; Intel Mac OS X 10_15_7) AppleWebKit/605.1.15 (KHTML, like Gecko) Version/18.1 Safari/605.1.15"
    } else if i == 11 {
        "Mozilla/5.0 (Macintosh; Intel Mac OS X 10_15_7) AppleWebKit/605.1.15 (KHTML, like Gecko) Version/18.0 Safari/605.1.15"
    } else if i == 12 {
        "Mozilla/5.0 (X11; Linux x86_64) AppleWebKit/537.36 (KHTML, like Gecko) Chrome/131.0.0.0 Safari/537.36"
    } else if i == 13 {
        "Mozilla/5.0 (X11; Linux x86_64) AppleWebKit/537.36 (KHTML, like Gecko) Chrome/130.0.0.0 Safari/537.36"
    } else if i == 14 {
        "Mozilla/5.0 (X11; Linux x86_64; rv:132.0) Gecko/20100101 Firefox/132.0"
    } else {
        "Mozilla/5.0 (X11; Linux x86_64; rv:131.0) Gecko/20100101 Firefox/131.0"
    }
}

/// Get the total number of available User-Agents.
pub fn get_user_agent_count() -> (res: usize)
    ensures
        res == user_agent_list().len(),
{
    16
}

/// Get a specific User-Agent by index.
pub fn get_user_agent(index: usize) -> (res: Option<&'static str>)
    ensures
        match res {
            Some(s) => index < user_agent_list().len() && s@ == user_agent_list()[index as int],
            None => index >= user_agent_list().len(),
        },
{
    if index < 16 {
        Some(user_agent_at(index))
    } else {
        None
    }
}

/// Get the latest Chrome User-Agent (most compatible).
pub fn get_latest_chrome_user_agent() -> (res: &'static str)
    ensures
        res@ == user_agent_list()[0],
{
    user_agent_at(0)
}

/// The User-Agent for the `rotation`-th request: the list is walked in order
/// and starts over at its end.
pub fn get_rotating_user_agent(rotation: usize) -> (res: &'static str)
    ensures
        res@ == user_agent_list()[(rotation % 16) as int],
{
    user_agent_at(rotation % 16)
}

/// The rotation counter after `k` more rotations from `start`, the counter
/// wrapping around at the end of `usize` as it is increased.
pub open spec fn rotation_after(start: usize, k: nat) -> int {
    (start as int + k) % (usize::MAX as int + 1)
}

proof fn lemma_wrap_keeps_list_position(x: int)
    requires
        0 <= x,
    ensures
        (x % (usize::MAX as int + 1)) % 16 == x % 16,
{
    let m = usize::MAX as int + 1;
    assert(m == 0x1_0000_0000 || m == 0x1_0000_0000_0000_0000);
    assert(m == 16 * (m / 16));
    vstd::arithmetic::div_mod::lemma_mod_mod(x, 16, m / 16);
}

/// Law: the 16 rotations that follow one another from any counter value give
/// every User-Agent of the list exactly once, in list order from where the
/// counter stands, also where the counter wraps around.
pub proof fn law_rotations_visit_every_agent(start: usize)
    ensures
        forall|k: nat| k < 16 ==> #[trigger] (rotation_after(start, k) % 16) == (start % 16 + k) % 16,
        forall|k1: nat, k2: nat|
            k1 < 16 && k2 < 16 && k1 != k2 ==> #[trigger] (rotation_after(start, k1) % 16) != #[trigger] (rotation_after(start, k2) % 16),
        forall|j: int|
            0 <= j < 16 ==> #[trigger] (rotation_after(start, ((j - start % 16 + 16) % 16) as nat) % 16) == j,
{
    assert forall|k: nat| k < 16 implies #[trigger] (rotation_after(start, k) % 16) == (start % 16 + k) % 16 by {
        lemma_wrap_keeps_list_position(start as int + k);
    }
    assert forall|j: int| 0 <= j < 16 implies #[trigger] (rotation_after(start, ((j - start % 16 + 16) % 16) as nat) % 16) == j by {
        let k = ((j - start % 16 + 16) % 16) as nat;
        lemma_wrap_keeps_list_position(start as int + k);
    }
}

/// A number drawn uniformly from `0..bound` by `rand::thread_rng().gen_range`.
#[verifier::external_body]
fn random_below(bound: usize) -> (res: usize)
    requires
        bound > 0,
    ensures
        res < bound,
{
    rand::thread_rng().gen_range(0..bound)
}

/// Get a random User-Agent string.
pub fn get_random_user_agent() -> (res: &'static str)
    ensures
        exists|i: int| 0 <= i < user_agent_list().len() && res@ == user_agent_list()[i],
{
    let i = random_below(16);
    user_agent_at(i)
}

/// A User-Agent is current when it names Chrome 13x, Firefox 13x, Safari 605
/// or Edge 13x.
pub open spec fn spec_is_user_agent_current(ua: Seq<char>) -> bool {
    seq_contains(ua, "Chrome/13"@) || seq_contains(ua, "Firefox/13"@) || seq_contains(ua, "Safari/605"@)
        || seq_contains(ua, "Edg/13"@)
}

/// Check if a User-Agent string is up-to-date.
pub fn is_user_agent_current(user_agent: &str) -> (res: bool)
    ensures
        res == spec_is_user_agent_current(user_agent@),
{
    contains_str(user_agent, "Chrome/13") || contains_str(user_agent, "Firefox/13") || contains_str(
        user_agent,
        "Safari/605",
    ) || contains_str(user_agent, "Edg/13")
}

/// Law: every User-Agent of the list is current, so the rotating and the
/// random User-Agent always are.
pub proof fn law_listed_user_agents_are_current(i: int)
    requires
        0 <= i < user_agent_list().len(),
    ensures
        spec_is_user_agent_current(user_agent_list()[i]),
{
    if i == 0 {
        reveal_strlit("Mozilla/5.0 (Windows NT 10.0; Win64; x64) AppleWebKit/537.36 (KHTML, like Gecko) Chrome/131.0.0.0 Safari/537.36");
        reveal_strlit("Chrome/13");
        assert(occurs_at(user_agent_list()[i], "Chrome/13"@, 81)) by {
            assert(user_agent_list()[i].subrange(81, 90) =~= "Chrome/13"@);
        }
    } else if i == 1 {
        reveal_strlit("Mozilla/5.0 (Windows NT 10.0; Win64; x64) AppleWebKit/537.36 (KHTML, like Gecko) Chrome/130.0.0.0 Safari/537.36");
        reveal_strlit("Chrome/13");
        assert(occurs_at(user_agent_list()[i], "Chrome/13"@, 81)) by {
            assert(user_agent_list()[i].subrange(81, 90) =~= "Chrome/13"@);
        }
    } else if i == 2 {
        reveal_strlit("Mozilla/5.0 (Macintosh; Intel Mac OS X 10_15_7) AppleWebKit/537.36 (KHTML, like Gecko) Chrome/131.0.0.0 Safari/537.36");
        reveal_strlit("Chrome/13");
        assert(occurs_at(user_agent_list()[i], "Chrome/13"@, 87)) by {
            assert(user_agent_list()[i].subrange(87, 96) =~= "Chrome/13"@);
        }
    } else if i == 3 {
        reveal_strlit("Mozilla/5.0 (Macintosh; Intel Mac OS X 10_15_7) AppleWebKit/537.36 (KHTML, like Gecko) Chrome/130.0.0.0 Safari/537.36");
        reveal_strlit("Chrome/13");
        assert(occurs_at(user_agent_list()[i], "Chrome/13"@, 87)) by {
            assert(user_agent_list()[i].subrange(87, 96) =~= "Chrome/13"@);
        }
    } else if i == 4 {
        reveal_strlit("Mozilla/5.0 (Windows NT 10.0; Win64; x64; rv:132.0) Gecko/20100101 Firefox/132.0");
        reveal_strlit("Firefox/13");
        assert(occurs_at(user_agent_list()[i], "Firefox/13"@, 67)) by {
            assert(user_agent_list()[i].subrange(67, 77) =~= "Firefox/13"@);
        }
    } else if i == 5 {
        reveal_strlit("Mozilla/5.0 (Windows NT 10.0; Win64; x64; rv:131.0) Gecko/20100101 Firefox/131.0");
        reveal_strlit("Firefox/13");
        assert(occurs_at(user_agent_list()[i], "Firefox/13"@, 67)) by {
            assert(user_agent_list()[i].subrange(67, 77) =~= "Firefox/13"@);
        }
    } else if i == 6 {
        reveal_strlit("Mozilla/5.0 (Macintosh; Intel Mac OS X 10.15; rv:132.0) Gecko/20100101 Firefox/132.0");
        reveal_strlit("Firefox/13");
        assert(occurs_at(user_agent_list()[i], "Firefox/13"@, 71)) by {
            assert(user_agent_list()[i].subrange(71, 81) =~= "Firefox/13"@);
        }
    } else if i == 7 {
        reveal_strlit("Mozilla/5.0 (Macintosh; Intel Mac OS X 10.15; rv:131.0) Gecko/20100101 Firefox/131.0");
        reveal_strlit("Firefox/13");
        assert(occurs_at(user_agent_list()[i], "Firefox/13"@, 71)) by {
            assert(user_agent_list()[i].subrange(71, 81) =~= "Firefox/13"@);
        }
    } else if i == 8 {
        reveal_strlit("Mozilla/5.0 (Windows NT 10.0; Win64; x64) AppleWebKit/537.36 (KHTML, like Gecko) Chrome/131.0.0.0 Safari/537.36 Edg/131.0.0.0");
        reveal_strlit("Chrome/13");
        assert(occurs_at(user_agent_list()[i], "Chrome/13"@, 81)) by {
            assert(user_agent_list()[i].subrange(81, 90) =~= "Chrome/13"@);
        }
    } else if i == 9 {
        reveal_strlit("Mozilla/5.0 (Windows NT 10.0; Win64; x64) AppleWebKit/537.36 (KHTML, like Gecko) Chrome/130.0.0.0 Safari/537.36 Edg/130.0.0.0");
        reveal_strlit("Chrome/13");
        assert(occurs_at(user_agent_list()[i], "Chrome/13"@, 81)) by {
            assert(user_agent_list()[i].subrange(81, 90) =~= "Chrome/13"@);
        }
    } else if i == 10 {
        reveal_strlit("Mozilla/5.0 (Macintosh; Intel Mac OS X 10_15_7) AppleWebKit/605.1.15 (KHTML, like Gecko) Version/18.1 Safari/605.1.15");
        reveal_strlit("Safari/605");
        assert(occurs_at(user_agent_list()[i], "Safari/605"@, 102)) by {
            assert(user_agent_list()[i].subrange(102, 112) =~= "Safari/605"@);
        }
    } else if i == 11 {
        reveal_strlit("Mozilla/5.0 (Macintosh; Intel Mac OS X 10_15_7) AppleWebKit/605.1.15 (KHTML, like Gecko) Version/18.0 Safari/605.1.15");
        reveal_strlit("Safari/605");
        assert(occurs_at(user_agent_list()[i], "Safari/605"@, 102)) by {
            assert(user_agent_list()[i].subrange(102, 112) =~= "Safari/605"@);
        }
    } else if i == 12 {
        reveal_strlit("Mozilla/5.0 (X11; Linux x86_64) AppleWebKit/537.36 (KHTML, like Gecko) Chrome/131.0.0.0 Safari/537.36");
        reveal_strlit("Chrome/13");
        assert(occurs_at(user_agent_list()[i], "Chrome/13"@, 71)) by {
            assert(user_agent_list()[i].subrange(71, 80) =~= "Chrome/13"@);
        }
    } else if i == 13 {
        reveal_strlit("Mozilla/5.0 (X11; Linux x86_64) AppleWebKit/537.36 (KHTML, like Gecko) Chrome/130.0.0.0 Safari/537.36");
        reveal_strlit("Chrome/13");
        assert(occurs_at(user_agent_list()[i], "Chrome/13"@, 71)) by {
            assert(user_agent_list()[i].subrange(71, 80) =~= "Chrome/13"@);
        }
    } else if i == 14 {
        reveal_strlit("Mozilla/5.0 (X11; Linux x86_64; rv:132.0) Gecko/20100101 Firefox/132.0");
        reveal_strlit("Firefox/13");
        assert(occurs_at(user_agent_list()[i], "Firefox/13"@, 57)) by {
            assert(user_agent_list()[i].subrange(57, 67) =~= "Firefox/13"@);
        }
    } else {
        reveal_strlit("Mozilla/5.0 (X11; Linux x86_64; rv:131.0) Gecko/20100101 Firefox/131.0");
        reveal_strlit("Firefox/13");
        assert(occurs_at(user_agent_list()[i], "Firefox/13"@, 57)) by {
            assert(user_agent_list()[i].subrange(57, 67) =~= "Firefox/13"@);
        }
    }
}

/// A version ends at a space or a semicolon.
pub open spec fn is_version_end(c: char) -> bool {
    c == ' ' || c == ';'
}

/// The index of the first space or semicolon in `s`.
#[verifier::opaque]
pub open spec fn first_version_end(s: Seq<char>) -> Option<int> {
    if exists|i: int| 0 <= i < s.len() && is_version_end(s[i]) {
        Some(
            choose|i: int|
                0 <= i < s.len() && is_version_end(s[i]) && forall|j: int| 0 <= j < i ==> !is_version_end(s[j]),
        )
    } else {
        None
    }
}

/// The short version reported for a full version string.
pub open spec fn version_label(v: Seq<char>) -> Seq<char> {
    if v == "131.0.0.0"@ {
        "131"@
    } else if v == "130.0.0.0"@ {
        "130"@
    } else if v == "129.0.0.0"@ {
        "129"@
    } else if v == "132.0"@ {
        "132"@
    } else if v == "131.0"@ {
        "131"@
    } else if v == "130.0"@ {
        "130"@
    } else {
        "131"@
    }
}

/// The version that follows `prefix` in `ua` (up to a space, a semicolon or
/// the end of `ua`), shortened; `131` when `prefix` does not occur.
pub open spec fn spec_extract_version(ua: Seq<char>, prefix: Seq<char>) -> Seq<char> {
    match seq_find(ua, prefix) {
        Some(p) => {
            let rest = ua.subrange(p + prefix.len(), ua.len() as int);
            match first_version_end(rest) {
                Some(end) => version_label(rest.subrange(0, end)),
                None => version_label(rest),
            }
        },
        None => "131"@,
    }
}

/// The short version label of `v`.
fn version_label_of(v: &str) -> (res: &'static str)
    ensures
        res@ == version_label(v@),
{
    if str_eq(v, "131.0.0.0") {
        "131"
    } else if str_eq(v, "130.0.0.0") {
        "130"
    } else if str_eq(v, "129.0.0.0") {
        "129"
    } else if str_eq(v, "132.0") {
        "132"
    } else if str_eq(v, "131.0") {
        "131"
    } else if str_eq(v, "130.0") {
        "130"
    } else {
        "131"
    }
}

/// The index of the first space or semicolon in `rest`.
fn version_end(rest: &[char]) -> (res: Option<usize>)
    ensures
        match res {
            Some(e) => first_version_end(rest@) == Some(e as int) && e < rest@.len(),
            None => first_version_end(rest@) is None,
        },
{
    reveal(first_version_end);
    let mut i: usize = 0;
    while i < rest.len()
        invariant
            i <= rest@.len(),
            forall|j: int| 0 <= j < i ==> !is_version_end(#[trigger] rest@[j]),
        decreases rest.len() - i,
    {
        reveal(first_version_end);
        if rest[i] == ' ' || rest[i] == ';' {
            assert(is_version_end(rest@[i as int]));
            let ghost w = choose|k: int|
                0 <= k < rest@.len() && is_version_end(rest@[k]) && forall|j: int| 0 <= j < k ==> !is_version_end(rest@[j]);
            assert(w == i) by {
                if w < i {
                    assert(!is_version_end(rest@[w]));
                } else if w > i {
                }
            }
            return Some(i);
        }
        i = i + 1;
    }
    None
}

/// Extract the version number that follows `prefix` in a User-Agent string.
pub fn extract_version(user_agent: &str, prefix: &str) -> (res: Option<&'static str>)
    ensures
        res matches Some(v) && v@ == spec_extract_version(user_agent@, prefix@),
{
    let found = find_str(user_agent, prefix);
    let p = match found {
        Some(p) => p,
        None => return Some("131"),
    };
    assert(crate::text::occurs_at(user_agent@, prefix@, p as int));
    let cs = chars_of(user_agent);
    let cp = chars_of(prefix);
    let total = cs.len();
    let start = p + cp.len();
    let rest = &cs.as_slice()[start..total];
    let ghost r = user_agent@.subrange(p + prefix@.len(), user_agent@.len() as int);
    assert(rest@ == r);
    let end = match version_end(rest) {
        Some(end) => end,
        None => rest.len(),
    };
    let version = string_of(&rest[0..end]);
    assert(version@ == r.subrange(0, end as int));
    proof {
        if first_version_end(r) is None {
            assert(r.subrange(0, end as int) =~= r);
        }
    }
    Some(version_label_of(version.as_str()))
}

/// The `Sec-CH-UA` value that goes with a User-Agent.
pub open spec fn spec_sec_ch_ua(ua: Seq<char>) -> Seq<char> {
    if seq_contains(ua, "Chrome"@) {
        if seq_contains(ua, "Edg"@) {
            "\"Microsoft Edge\";v=\""@ + spec_extract_version(ua, "Edg/"@) + "\", \"Chromium\";v=\""@
                + spec_extract_version(ua, "Chrome/"@) + "\", \"Not_A Brand\";v=\"99\""@
        } else {
            "\"Google Chrome\";v=\""@ + spec_extract_version(ua, "Chrome/"@) + "\", \"Chromium\";v=\""@
                + spec_extract_version(ua, "Chrome/"@) + "\", \"Not_A Brand\";v=\"99\""@
        }
    } else if seq_contains(ua, "Firefox"@) {
        "\"Firefox\";v=\"132\""@
    } else if seq_contains(ua, "Safari"@) {
        "\"Safari\";v=\"18\""@
    } else {
        "\"Not_A Brand\";v=\"99\""@
    }
}

/// Extract Sec-CH-UA from a User-Agent.
pub fn extract_sec_ch_ua(user_agent: &str) -> (res: String)
    ensures
        res@ == spec_sec_ch_ua(user_agent@),
{
    if contains_str(user_agent, "Chrome") {
        if contains_str(user_agent, "Edg") {
            let edge = match extract_version(user_agent, "Edg/") {
                Some(v) => v,
                None => "131",
            };
            let chrome = match extract_version(user_agent, "Chrome/") {
                Some(v) => v,
                None => "131",
            };
            String::from_str("\"Microsoft Edge\";v=\"").concat(edge).concat("\", \"Chromium\";v=\"").concat(
                chrome,
            ).concat("\", \"Not_A Brand\";v=\"99\"")
        } else {
            let version = match extract_version(user_agent, "Chrome/") {
                Some(v) => v,
                None => "131",
            };
            String::from_str("\"Google Chrome\";v=\"").concat(version).concat("\", \"Chromium\";v=\"").concat(
                version,
            ).concat("\", \"Not_A Brand\";v=\"99\"")
        }
    } else if contains_str(user_agent, "Firefox") {
        String::from_str("\"Firefox\";v=\"132\"")
    } else if contains_str(user_agent, "Safari") {
        String::from_str("\"Safari\";v=\"18\"")
    } else {
        String::from_str("\"Not_A Brand\";v=\"99\"")
    }
}

/// Law: the platform of a User-Agent is Windows when it names Windows;
/// otherwise macOS when it names a Macintosh; otherwise Linux when it names
/// Linux; and `Unknown` only when it names none of them.
pub proof fn law_platform_named_by_user_agent(ua: Seq<char>)
    ensures
        seq_contains(ua, "Windows"@) ==> spec_platform(ua) == "\"Windows\""@,
        (!seq_contains(ua, "Windows"@) && seq_contains(ua, "Macintosh"@)) ==> spec_platform(ua) == "\"macOS\""@,
        (!seq_contains(ua, "Windows"@) && !seq_contains(ua, "Macintosh"@) && seq_contains(ua, "Linux"@))
            ==> spec_platform(ua) == "\"Linux\""@,
        (!seq_contains(ua, "Windows"@) && !seq_contains(ua, "Macintosh"@) && !seq_contains(ua, "Linux"@))
            ==> spec_platform(ua) == "\"Unknown\""@,
{
}

/// The `Sec-CH-UA-Platform` value that goes with a User-Agent.
pub open spec fn spec_platform(ua: Seq<char>) -> Seq<char> {
    if seq_contains(ua, "Windows"@) {
        "\"Windows\""@
    } else if seq_contains(ua, "Macintosh"@) {
        "\"macOS\""@
    } else if seq_contains(ua, "Linux"@) {
        "\"Linux\""@
    } else {
        "\"Unknown\""@
    }
}

/// Extract the platform from a User-Agent.
pub fn extract_platform(user_agent: &str) -> (res: String)
    ensures
        res@ == spec_platform(user_agent@),
{
    if contains_str(user_agent, "Windows") {
        String::from_str("\"Windows\"")
    } else if contains_str(user_agent, "Macintosh") {
        String::from_str("\"macOS\"")
    } else if contains_str(user_agent, "Linux") {
        String::from_str("\"Linux\"")
    } else {
        String::from_str("\"Unknown\"")
    }
}

/// Browser fingerprint for realistic request headers.
#[derive(Debug, Clone)]
pub struct BrowserFingerprint {
    pub user_agent: String,
    pub sec_ch_ua: String,
    pub sec_ch_ua_mobile: String,
    pub sec_ch_ua_platform: String,
    pub accept_language: String,
    pub accept_encoding: String,
}

/// The fingerprint of the browser that sends `ua`.
pub open spec fn fingerprint_of(ua: Seq<char>, f: BrowserFingerprint) -> bool {
    &&& f.user_agent@ == ua
    &&& f.sec_ch_ua@ == spec_sec_ch_ua(ua)
    &&& f.sec_ch_ua_mobile@ == "false"@
    &&& f.sec_ch_ua_platform@ == spec_platform(ua)
    &&& f.accept_language@ == "en-US,en;q=0.9"@
    &&& f.accept_encoding@ == "gzip, deflate, br"@
}

/// Generate a realistic browser fingerprint around the `rotation`-th
/// User-Agent of the rotation.
pub fn generate_browser_fingerprint(rotation: usize) -> (res: BrowserFingerprint)
    ensures
        fingerprint_of(user_agent_list()[(rotation % 16) as int], res),
{
    let user_agent = get_rotating_user_agent(rotation);
    BrowserFingerprint {
        user_agent: String::from_str(user_agent),
        sec_ch_ua: extract_sec_ch_ua(user_agent),
        sec_ch_ua_mobile: String::from_str("false"),
        sec_ch_ua_platform: extract_platform(user_agent),
        accept_language: String::from_str("en-US,en;q=0.9"),
        accept_encoding: String::from_str("gzip, deflate, br"),
    }
}

impl BrowserFingerprint {
    /// The header lines of the fingerprint, as curl takes them.
    pub open spec fn spec_curl_headers(&self) -> Seq<Seq<char>> {
        seq![
            "Accept: application/json, text/plain, */*"@,
            "Accept-Language: "@ + self.accept_language@,
            "Cache-Control: no-cache"@,
            "Pragma: no-cache"@,
            "Sec-Ch-Ua: "@ + self.sec_ch_ua@,
            "Sec-Ch-Ua-Mobile: "@ + self.sec_ch_ua_mobile@,
            "Sec-Ch-Ua-Platform: "@ + self.sec_ch_ua_platform@,
            "Sec-Fetch-Dest: empty"@,
            "Sec-Fetch-Mode: cors"@,
            "Sec-Fetch-Site: same-origin"@,
            "Referer: https://kick.com/"@,
            "Origin: https://kick.com"@,
            "User-Agent: "@ + self.user_agent@,
        ]
    }

    /// Get headers for curl requests.
    pub fn get_curl_headers(&self) -> (res: Vec<String>)
        ensures
            crate::text::string_views(res@) == self.spec_curl_headers(),
    {
        let mut headers: Vec<String> = Vec::new();
        headers.push(String::from_str("Accept: application/json, text/plain, */*"));
        headers.push(prefixed("Accept-Language: ", self.accept_language.as_str()));
        headers.push(String::from_str("Cache-Control: no-cache"));
        headers.push(String::from_str("Pragma: no-cache"));
        headers.push(prefixed("Sec-Ch-Ua: ", self.sec_ch_ua.as_str()));
        headers.push(prefixed("Sec-Ch-Ua-Mobile: ", self.sec_ch_ua_mobile.as_str()));
        headers.push(prefixed("Sec-Ch-Ua-Platform: ", self.sec_ch_ua_platform.as_str()));
        headers.push(String::from_str("Sec-Fetch-Dest: empty"));
        headers.push(String::from_str("Sec-Fetch-Mode: cors"));
        headers.push(String::from_str("Sec-Fetch-Site: same-origin"));
        headers.push(String::from_str("Referer: https://kick.com/"));
        headers.push(String::from_str("Origin: https://kick.com"));
        headers.push(prefixed("User-Agent: ", self.user_agent.as_str()));
        assert(crate::text::string_views(headers@) =~= self.spec_curl_headers());
        headers
    }
}

} // verus!
