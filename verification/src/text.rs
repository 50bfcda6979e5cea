//! Searching model output for stop markers.

use vstd::prelude::*;
use vstd::std_specs::iter::IteratorSpec;
use vstd::string::StrSliceExecFns;

verus! {

/// The views of a sequence of strings.
pub open spec fn texts(strings: Seq<String>) -> Seq<Seq<char>> {
    Seq::new(strings.len(), |i: int| strings[i]@)
}

/// `marker` occurs in `text` starting at position `at`.
pub open spec fn occurs_at(text: Seq<char>, marker: Seq<char>, at: int) -> bool {
    &&& 0 <= at
    &&& at + marker.len() <= text.len()
    &&& text.subrange(at, at + marker.len()) == marker
}

/// Some marker of `markers` occurs in `text` starting at position `at`.
pub open spec fn any_occurs_at(text: Seq<char>, markers: Seq<Seq<char>>, at: int) -> bool {
    exists|k: int| 0 <= k < markers.len() && occurs_at(text, #[trigger] markers[k], at)
}

/// `at` is the first position of `text` at which any marker occurs.
pub open spec fn is_stop_position(text: Seq<char>, markers: Seq<Seq<char>>, at: int) -> bool {
    &&& any_occurs_at(text, markers, at)
    &&& forall|j: int| 0 <= j < at ==> !any_occurs_at(text, markers, j)
}

/// The first position of `text` at which any marker occurs, if there is one.
pub open spec fn stop_position(text: Seq<char>, markers: Seq<Seq<char>>) -> Option<int> {
    if exists|at: int| is_stop_position(text, markers, at) {
        Some(choose|at: int| is_stop_position(text, markers, at))
    } else {
        None
    }
}

/// `text` cut off immediately before the earliest marker, if any marker occurs.
pub open spec fn truncate_at_stop(text: Seq<char>, markers: Seq<Seq<char>>) -> Option<Seq<char>> {
    match stop_position(text, markers) {
        Some(at) => Some(text.subrange(0, at)),
        None => None,
    }
}

/// There is at most one stop position, and `stop_position` names it.
pub proof fn lemma_stop_position_unique(text: Seq<char>, markers: Seq<Seq<char>>, at: int)
    requires
        is_stop_position(text, markers, at),
    ensures
        stop_position(text, markers) == Some(at),
{
    let other = choose|p: int| is_stop_position(text, markers, p);
    assert(is_stop_position(text, markers, other));
    if other < at {
        assert(!any_occurs_at(text, markers, other));
    } else if at < other {
        assert(!any_occurs_at(text, markers, at));
    }
}

/// Where no marker occurs at any position, there is no stop position.
pub proof fn lemma_no_stop_position(text: Seq<char>, markers: Seq<Seq<char>>)
    requires
        forall|j: int| 0 <= j <= text.len() ==> !any_occurs_at(text, markers, j),
    ensures
        stop_position(text, markers) is None,
{
    if exists|at: int| is_stop_position(text, markers, at) {
        let at = choose|at: int| is_stop_position(text, markers, at);
        assert(any_occurs_at(text, markers, at));
        let k = choose|k: int| 0 <= k < markers.len() && occurs_at(text, #[trigger] markers[k], at);
        assert(0 <= at <= text.len());
    }
}

/// The truncated text is the part of the text before a marker: the text is
/// the output, then that marker, then the rest.
pub proof fn law_truncation_cuts_before_marker(text: Seq<char>, markers: Seq<Seq<char>>)
    requires
        truncate_at_stop(text, markers) is Some,
    ensures
        ({
            let output = truncate_at_stop(text, markers)->0;
            exists|k: int|
                0 <= k < markers.len() && output.len() + (#[trigger] markers[k]).len() <= text.len()
                    && text == output + markers[k] + text.skip(
                    (output.len() + markers[k].len()) as int,
                )
        }),
{
    let at = stop_position(text, markers)->0;
    assert(is_stop_position(text, markers, at));
    let k = choose|k: int| 0 <= k < markers.len() && occurs_at(text, #[trigger] markers[k], at);
    let output = text.subrange(0, at);
    assert(text =~= output + markers[k] + text.skip(
        (output.len() + markers[k].len()) as int,
    ));
}

/// The truncated text holds no stop marker: a marker that occurs in it is
/// the empty one.
pub proof fn law_output_holds_no_marker(text: Seq<char>, markers: Seq<Seq<char>>, k: int, at: int)
    requires
        truncate_at_stop(text, markers) is Some,
        0 <= k < markers.len(),
        occurs_at(truncate_at_stop(text, markers)->0, markers[k], at),
    ensures
        markers[k].len() == 0,
{
    let stop = stop_position(text, markers)->0;
    assert(is_stop_position(text, markers, stop));
    let j = choose|j: int| 0 <= j < markers.len() && occurs_at(text, #[trigger] markers[j], stop);
    let output = text.subrange(0, stop);
    if markers[k].len() > 0 {
        assert(at < stop);
        assert(text.subrange(at, at + markers[k].len()) =~= output.subrange(
            at,
            at + markers[k].len(),
        ));
        assert(occurs_at(text, markers[k], at));
        assert(any_occurs_at(text, markers, at));
    }
}

/// A text in which no marker occurs is not truncated.
pub proof fn law_no_marker_no_truncation(text: Seq<char>, markers: Seq<Seq<char>>)
    requires
        forall|at: int| !any_occurs_at(text, markers, at),
    ensures
        truncate_at_stop(text, markers) is None,
{
    lemma_no_stop_position(text, markers);
}

/// The characters of `s`, in order.
pub fn chars_of(s: &str) -> (out: Vec<char>)
    ensures
        out@ == s@,
{
    let mut out: Vec<char> = Vec::new();
    for c in it: s.chars()
        invariant
            out@ == it.seq().take(it.index() as int),
    {
        out.push(c);
    }
    out
}

/// The characters of each string of `strings`, in order.
pub fn chars_of_each(strings: &Vec<String>) -> (out: Vec<Vec<char>>)
    ensures
        out.len() == strings.len(),
        forall|i: int| 0 <= i < out.len() ==> (#[trigger] out[i])@ == strings[i]@,
{
    let mut out: Vec<Vec<char>> = Vec::new();
    let mut i: usize = 0;
    while i < strings.len()
        invariant
            i <= strings.len(),
            out.len() == i,
            forall|j: int| 0 <= j < i ==> (#[trigger] out[j])@ == strings[j]@,
        decreases strings.len() - i,
    {
        out.push(chars_of(strings[i].as_str()));
        i += 1;
    }
    out
}

/// Whether `marker` occurs in `text` at position `at`.
fn matches_at(text: &Vec<char>, marker: &Vec<char>, at: usize) -> (found: bool)
    requires
        at <= text.len(),
    ensures
        found == occurs_at(text@, marker@, at as int),
{
    if marker.len() > text.len() - at {
        return false;
    }
    let mut k: usize = 0;
    while k < marker.len()
        invariant
            k <= marker.len(),
            at + marker.len() <= text.len(),
            forall|j: int| 0 <= j < k ==> text[at + j] == marker[j],
        decreases marker.len() - k,
    {
        if text[at + k] != marker[k] {
            proof {
                let window = text@.subrange(at as int, at + marker.len());
                assert(window[k as int] == text[at + k]);
            }
            return false;
        }
        k += 1;
    }
    proof {
        assert(text@.subrange(at as int, at + marker.len()) =~= marker@);
    }
    true
}

/// Whether any marker of `markers` occurs in `text` at position `at`.
fn any_matches_at(text: &Vec<char>, markers: &Vec<Vec<char>>, Ghost(views): Ghost<Seq<Seq<char>>>, at: usize) -> (found: bool)
    requires
        at <= text.len(),
        views.len() == markers.len(),
        forall|i: int| 0 <= i < markers.len() ==> (#[trigger] markers[i])@ == views[i],
    ensures
        found == any_occurs_at(text@, views, at as int),
{
    let mut k: usize = 0;
    while k < markers.len()
        invariant
            k <= markers.len(),
            at <= text.len(),
            views.len() == markers.len(),
            forall|i: int| 0 <= i < markers.len() ==> (#[trigger] markers[i])@ == views[i],
            forall|j: int| 0 <= j < k ==> !occurs_at(text@, #[trigger] views[j], at as int),
        decreases markers.len() - k,
    {
        if matches_at(text, &markers[k], at) {
            assert(occurs_at(text@, views[k as int], at as int));
            return true;
        }
        k += 1;
    }
    false
}

/// The first position of `text` at which a marker of `markers` occurs.
pub fn find_stop(text: &str, markers: &Vec<String>) -> (at: Option<usize>)
    ensures
        at is Some <==> stop_position(text@, texts(markers@)) is Some,
        at matches Some(p) ==> stop_position(text@, texts(markers@)) == Some(p as int),
{
    let chars = chars_of(text);
    let marker_chars = chars_of_each(markers);
    let ghost views = texts(markers@);
    let mut at: usize = 0;
    while at <= chars.len()
        invariant
            at <= chars.len() + 1,
            chars@ == text@,
            views == texts(markers@),
            views.len() == marker_chars.len(),
            forall|i: int| 0 <= i < marker_chars.len() ==> (#[trigger] marker_chars[i])@ == views[i],
            forall|j: int| 0 <= j < at ==> !any_occurs_at(text@, views, j),
        decreases chars.len() + 1 - at,
    {
        if any_matches_at(&chars, &marker_chars, Ghost(views), at) {
            proof {
                lemma_stop_position_unique(text@, views, at as int);
            }
            return Some(at);
        }
        if at == chars.len() {
            proof {
                lemma_no_stop_position(text@, views);
            }
            return None;
        }
        at += 1;
    }
    proof {
        lemma_no_stop_position(text@, views);
    }
    None
}

/// `text` cut off immediately before the earliest stop marker, or `None` where
/// no marker occurs in it.
pub fn truncate_at_stop_marker(text: &str, markers: &Vec<String>) -> (out: Option<String>)
    ensures
        out is Some <==> truncate_at_stop(text@, texts(markers@)) is Some,
        out matches Some(s) ==> truncate_at_stop(text@, texts(markers@)) == Some(s@),
{
    match find_stop(text, markers) {
        Some(at) => {
            proof {
                let k = choose|k: int| 0 <= k < texts(markers@).len() && occurs_at(text@, #[trigger] texts(markers@)[k], at as int);
            }
            let head = text.substring_char(0, at);
            Some(head.to_owned())
        },
        None => None,
    }
}

} // verus!
