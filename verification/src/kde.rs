use vstd::prelude::*;
use vstd::string::*;

verus! {

/// The id of the KWin script that keeps the timer windows above others.
pub const PLUGIN_ID: &'static str = "kairo-keep-above";

/// `needle` occurs in `haystack` at position `i`.
pub open spec fn occurs_at(haystack: Seq<char>, needle: Seq<char>, i: int) -> bool {
    &&& 0 <= i
    &&& i + needle.len() <= haystack.len()
    &&& haystack.subrange(i, i + needle.len()) == needle
}

/// `needle` occurs somewhere in `haystack`.
pub open spec fn contains_text(haystack: Seq<char>, needle: Seq<char>) -> bool {
    exists|i: int| occurs_at(haystack, needle, i)
}

/// Whether `needle` occurs in `haystack`.
pub fn text_contains(haystack: &str, needle: &str) -> (r: bool)
    ensures
        r == contains_text(haystack@, needle@),
{
    let h = haystack.unicode_len();
    let n = needle.unicode_len();
    if n > h {
        proof {
            assert forall|i: int| !occurs_at(haystack@, needle@, i) by {}
        }
        return false;
    }
    let mut i: usize = 0;
    while i <= h - n
        invariant
            h == haystack@.len(),
            n == needle@.len(),
            n <= h,
            i <= h - n + 1,
            forall|k: int| 0 <= k < i ==> !occurs_at(haystack@, needle@, k),
        decreases h - n + 1 - i,
    {
        let mut j: usize = 0;
        let mut same = true;
        while j < n
            invariant
                h == haystack@.len(),
                n == needle@.len(),
                i + n <= h,
                j <= n,
                same == (forall|m: int| 0 <= m < j ==> haystack@[i + m] == needle@[m]),
            decreases n - j,
        {
            if haystack.get_char(i + j) != needle.get_char(j) {
                same = false;
            }
            j = j + 1;
        }
        if same {
            proof {
                assert(haystack@.subrange(i as int, i + n) =~= needle@);
                assert(occurs_at(haystack@, needle@, i as int));
            }
            return true;
        }
        proof {
            if haystack@.subrange(i as int, i + n) == needle@ {
                assert forall|m: int| 0 <= m < n implies haystack@[i + m] == needle@[m] by {
                    assert(haystack@.subrange(i as int, i + n)[m] == haystack@[i + m]);
                }
            }
        }
        i = i + 1;
    }
    proof {
        assert forall|k: int| !occurs_at(haystack@, needle@, k) by {
            if 0 <= k < i {
            }
        }
    }
    false
}

/// The desktop (from `XDG_CURRENT_DESKTOP` or `DESKTOP_SESSION`, lower case)
/// names KDE or Plasma.
pub fn is_kde_session(current_desktop: &str, desktop_session: &str) -> (r: bool)
    ensures
        r == (contains_text(current_desktop@, "kde"@) || contains_text(current_desktop@, "plasma"@)
            || contains_text(desktop_session@, "kde"@) || contains_text(desktop_session@, "plasma"@)),
{
    text_contains(current_desktop, "kde") || text_contains(current_desktop, "plasma")
        || text_contains(desktop_session, "kde") || text_contains(desktop_session, "plasma")
}

/// The session type (from `XDG_SESSION_TYPE`, lower case) is Wayland, or a
/// Wayland display is set.
pub fn is_wayland_session(session_type: &str, has_wayland_display: bool) -> (r: bool)
    ensures
        r == (session_type@ == "wayland"@ || has_wayland_display),
{
    let wayland = String::from_str("wayland");
    session_type.to_owned() == wayland || has_wayland_display
}

/// A KDE Plasma session on Wayland, where the keep-above script is needed.
pub fn is_kde_wayland_session(
    session_type: &str,
    has_wayland_display: bool,
    current_desktop: &str,
    desktop_session: &str,
) -> (r: bool)
    ensures
        r == ((session_type@ == "wayland"@ || has_wayland_display) && (contains_text(current_desktop@, "kde"@)
            || contains_text(current_desktop@, "plasma"@) || contains_text(desktop_session@, "kde"@)
            || contains_text(desktop_session@, "plasma"@))),
{
    is_wayland_session(session_type, has_wayland_display) && is_kde_session(current_desktop, desktop_session)
}

/// The `kpackagetool6` action for the keep-above script: upgrade it when the
/// list of installed scripts names it, install it otherwise.
pub fn package_action(installed_scripts: &str) -> (r: &'static str)
    ensures
        r@ == (if contains_text(installed_scripts@, PLUGIN_ID@) { "--upgrade"@ } else { "--install"@ }),
{
    if text_contains(installed_scripts, PLUGIN_ID) {
        "--upgrade"
    } else {
        "--install"
    }
}

} // verus!
