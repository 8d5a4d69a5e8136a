//! Classification of a window as the window switcher by its class name.

use vstd::prelude::*;
use vstd::string::*;

verus! {

/// `pattern` stands in `text` at index `at`.
pub open spec fn occurs_at(text: Seq<char>, pattern: Seq<char>, at: int) -> bool {
    &&& 0 <= at
    &&& at + pattern.len() <= text.len()
    &&& text.subrange(at, at + pattern.len()) == pattern
}

/// `pattern` stands somewhere in `text`.
pub open spec fn contains(text: Seq<char>, pattern: Seq<char>) -> bool {
    exists|at: int| occurs_at(text, pattern, at)
}

/// The class names of the window switcher: the task view frames of current
/// systems, the switcher window of older ones, the island host of the newest
/// variant, and the staging window that takes the focus in between.
pub open spec fn is_switcher_class_name(name: Seq<char>) -> bool {
    ||| contains(name, "MultitaskingView"@)
    ||| contains(name, "TaskSwitcher"@)
    ||| contains(name, "XamlExplorerHostIslandWindow"@)
    ||| name == "ForegroundStaging"@
}

/// The text that `String::from_utf16_lossy` decodes from UTF-16 code units,
/// unpaired surrogates replaced by U+FFFD.
pub uninterp spec fn utf16_lossy(units: Seq<u16>) -> Seq<char>;

/// Calls `String::from_utf16_lossy`. The contract names the decoded text and
/// says nothing of what it holds; the call never fails.
#[verifier::external_body]
fn decode_utf16_lossy(units: &[u16]) -> (text: String)
    ensures
        text@ == utf16_lossy(units@),
{
    String::from_utf16_lossy(units)
}

/// The characters of `text`, one by one.
fn chars_of(text: &str) -> (chars: Vec<char>)
    ensures
        chars@ == text@,
{
    let n: usize = text.unicode_len();
    let mut chars: Vec<char> = Vec::new();
    let mut i: usize = 0;
    while i < n
        invariant
            i <= n,
            n == text@.len(),
            chars@ == text@.subrange(0, i as int),
        decreases n - i,
    {
        chars.push(text.get_char(i));
        i += 1;
    }
    chars
}

/// Whether `pattern` stands in `text` at index `at`.
fn matches_at(text: &Vec<char>, pattern: &Vec<char>, at: usize) -> (found: bool)
    requires
        at + pattern@.len() <= text@.len(),
    ensures
        found == occurs_at(text@, pattern@, at as int),
{
    let n: usize = text.len();
    let m: usize = pattern.len();
    let mut k: usize = 0;
    while k < m
        invariant
            k <= m,
            m == pattern@.len(),
            n == text@.len(),
            at + m <= n,
            forall|j: int| 0 <= j < k ==> text@[at + j] == pattern@[j],
        decreases m - k,
    {
        if text[at + k] != pattern[k] {
            assert(text@.subrange(at as int, at + m)[k as int] != pattern@[k as int]);
            return false;
        }
        k += 1;
    }
    assert(text@.subrange(at as int, at + m) =~= pattern@);
    true
}

/// Whether `pattern` stands somewhere in `text`, by trying every index in
/// turn.
fn contains_chars(text: &Vec<char>, pattern: &Vec<char>) -> (found: bool)
    ensures
        found == contains(text@, pattern@),
{
    let n: usize = text.len();
    let m: usize = pattern.len();
    if m > n {
        return false;
    }
    let last: usize = n - m;
    let mut at: usize = 0;
    loop
        invariant
            at <= last,
            last == n - m,
            n == text@.len(),
            m == pattern@.len(),
            forall|j: int| 0 <= j < at ==> !occurs_at(text@, pattern@, j),
        decreases last - at,
    {
        if matches_at(text, pattern, at) {
            return true;
        }
        if at == last {
            return false;
        }
        at += 1;
    }
}

/// Whether the two texts are the same.
fn same_chars(a: &Vec<char>, b: &Vec<char>) -> (same: bool)
    ensures
        same == (a@ == b@),
{
    if a.len() != b.len() {
        return false;
    }
    assert(a@.subrange(0, a@.len() as int) =~= a@);
    matches_at(a, b, 0)
}

/// Whether a window of class `name` is the window switcher.
pub fn is_switcher_class(name: &str) -> (verdict: bool)
    ensures
        verdict == is_switcher_class_name(name@),
{
    let chars = chars_of(name);
    contains_chars(&chars, &chars_of("MultitaskingView"))
        || contains_chars(&chars, &chars_of("TaskSwitcher"))
        || contains_chars(&chars, &chars_of("XamlExplorerHostIslandWindow"))
        || same_chars(&chars, &chars_of("ForegroundStaging"))
}

/// The class name, given as UTF-16 code units, is a window switcher's: it
/// is not empty and decodes to one of the switcher's class names.
pub open spec fn is_task_switcher_name(units: Seq<u16>) -> bool {
    units.len() > 0 && is_switcher_class_name(utf16_lossy(units))
}

/// Whether a window is the window switcher, from its class name as UTF-16
/// code units. An empty class name is no switcher's.
pub fn is_task_switcher(class_name: &[u16]) -> (verdict: bool)
    ensures
        verdict == is_task_switcher_name(class_name@),
{
    if class_name.len() == 0 {
        return false;
    }
    let name = decode_utf16_lossy(class_name);
    is_switcher_class(name.as_str())
}

} // verus!
