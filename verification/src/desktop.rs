//! Desktop-environment detection: a pure map from the value of the
//! `XDG_CURRENT_DESKTOP` environment variable (read by the caller and
//! handed in as a plain value) to the closed set of known desktops.

use vstd::prelude::*;

verus! {

/// The closed set of known desktop environments / window managers.
#[derive(Clone, Copy, Debug, PartialEq, Eq, Structural)]
pub enum DE {
    /// KDE Plasma.
    Kde,
    /// Hyprland.
    Hyprland,
    /// Sway.
    Sway,
    /// GNOME.
    Gnome,
    /// Xfce.
    Xfce,
    /// A desktop that announced itself but is not officially supported.
    Other,
    /// The desktop could not be detected at all.
    Unknown,
}

/// `needle` occurs as a contiguous run of characters inside `hay`.
pub open spec fn seq_contains(hay: Seq<char>, needle: Seq<char>) -> bool {
    exists|i: int|
        0 <= i && i + needle.len() <= hay.len() && #[trigger] hay.subrange(i, i + needle.len())
            == needle
}

/// The view of an optional string slice.
pub open spec fn opt_str_view(v: Option<&str>) -> Option<Seq<char>> {
    match v {
        Option::Some(s) => Option::Some(s@),
        Option::None => Option::None,
    }
}

/// Which desktop environment a (possibly absent) `XDG_CURRENT_DESKTOP`
/// value names: an absent or empty value cannot be detected; known names
/// are matched by substring containment; any other non-empty value is a
/// desktop this crate is not ported to.
pub open spec fn de_of(desktop: Option<Seq<char>>) -> DE {
    match desktop {
        Option::None => DE::Unknown,
        Option::Some(s) => if s.len() == 0 {
            DE::Unknown
        } else if seq_contains(s, "KDE"@) {
            DE::Kde
        } else if seq_contains(s, "GNOME"@) {
            DE::Gnome
        } else if seq_contains(s, "Hyprland"@) {
            DE::Hyprland
        } else {
            DE::Other
        },
    }
}

/// Whether `needle` matches `hay` exactly at character offset `at`.
fn match_at(hay: &str, needle: &str, at: usize, hay_len: usize, needle_len: usize) -> (b: bool)
    requires
        hay_len == hay@.len(),
        needle_len == needle@.len(),
        at + needle_len <= hay_len,
    ensures
        b == (hay@.subrange(at as int, at + needle@.len()) == needle@),
{
    let mut j: usize = 0;
    while j < needle_len
        invariant
            hay_len == hay@.len(),
            needle_len == needle@.len(),
            at + needle_len <= hay_len,
            j <= needle_len,
            forall|t: int| 0 <= t < j ==> hay@[at + t] == needle@[t],
        decreases needle_len - j,
    {
        if hay.get_char(at + j) != needle.get_char(j) {
            assert(hay@.subrange(at as int, at + needle@.len())[j as int] == hay@[at + j]);
            return false;
        }
        j = j + 1;
    }
    assert(hay@.subrange(at as int, at + needle@.len()) =~= needle@);
    true
}

/// Substring containment on character sequences, the matching rule the
/// desktop names are looked up with.
pub fn contains_substr(hay: &str, needle: &str) -> (b: bool)
    ensures
        b == seq_contains(hay@, needle@),
{
    let hay_len = hay.unicode_len();
    let needle_len = needle.unicode_len();
    if needle_len > hay_len {
        return false;
    }
    if needle_len == 0 {
        assert(seq_contains(hay@, needle@)) by {
            assert(hay@.subrange(0, 0 + needle@.len() as int) =~= needle@);
        }
        return true;
    }
    let mut i: usize = 0;
    while i <= hay_len - needle_len
        invariant
            hay_len == hay@.len(),
            needle_len == needle@.len(),
            1 <= needle_len <= hay_len,
            i <= hay_len - needle_len + 1,
            forall|k: int|
                0 <= k < i ==> #[trigger] hay@.subrange(k, k + needle@.len()) != needle@,
        decreases hay_len - needle_len - i + 1,
    {
        if match_at(hay, needle, i, hay_len, needle_len) {
            return true;
        }
        i = i + 1;
    }
    false
}

/// Detect the desktop environment from the value of `XDG_CURRENT_DESKTOP`.
///
/// Pure and free of side effects: the result is a function of the given
/// value alone, so identical inputs always yield identical outputs.
pub fn get_de(desktop: Option<&str>) -> (de: DE)
    ensures
        de == de_of(opt_str_view(desktop)),
{
    match desktop {
        Option::None => DE::Unknown,
        Option::Some(s) => {
            if s.unicode_len() == 0 {
                DE::Unknown
            } else if contains_substr(s, "KDE") {
                DE::Kde
            } else if contains_substr(s, "GNOME") {
                DE::Gnome
            } else if contains_substr(s, "Hyprland") {
                DE::Hyprland
            } else {
                DE::Other
            }
        },
    }
}

/// Detection is deterministic and repeatable: equal inputs are mapped to
/// equal desktops, however often the map is applied.
pub proof fn lemma_get_de_deterministic(a: Option<Seq<char>>, b: Option<Seq<char>>)
    requires
        a == b,
    ensures
        de_of(a) == de_of(b),
{
}

} // verus!
