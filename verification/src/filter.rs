//! The search over the window list: which windows a search text keeps.

use vstd::prelude::*;

use crate::config::FilterType;
use crate::text::{
    ascii_lowercase, chars_of, contains_chars, lemma_lowered_empty, lowercase, lowered, occurs_in,
};
use vstd::utf8::is_ascii_chars;
use crate::window::{views_of, WindowInfo, WindowInfoView};

verus! {

/// Whether a window matches a lowercase search needle under a filter: the
/// needle occurs in the lowercased process name, the lowercased title, or
/// either, as the filter says.
pub open spec fn window_matches(w: WindowInfoView, needle: Seq<char>, filter: FilterType) -> bool {
    let in_process = occurs_in(needle, lowered(w.process_name));
    let in_title = occurs_in(needle, lowered(w.window_title));
    match filter {
        FilterType::All => in_process || in_title,
        FilterType::ProcessName => in_process,
        FilterType::WindowTitle => in_title,
    }
}

/// The windows of `ws` that match the needle, in their order.
pub open spec fn matching_windows(
    ws: Seq<WindowInfoView>,
    needle: Seq<char>,
    filter: FilterType,
) -> Seq<WindowInfoView>
    decreases ws.len(),
{
    if ws.len() == 0 {
        ws
    } else {
        let kept = matching_windows(ws.drop_last(), needle, filter);
        if window_matches(ws.last(), needle, filter) {
            kept.push(ws.last())
        } else {
            kept
        }
    }
}

/// What a search for `text` keeps of `ws`: everything when the lowercased
/// text is empty, else the windows that match it.
pub open spec fn filtered(ws: Seq<WindowInfoView>, text: Seq<char>, filter: FilterType) -> Seq<
    WindowInfoView,
> {
    let needle = lowered(text);
    if needle.len() == 0 {
        ws
    } else {
        matching_windows(ws, needle, filter)
    }
}

/// Whether `w` matches the lowercase needle under the filter.
fn matches_exec(w: &WindowInfo, needle: &[char], filter: FilterType) -> (r: bool)
    ensures
        r == window_matches(w@, needle@, filter),
{
    let process = lowercase(w.process_name.as_str());
    let title = lowercase(w.window_title.as_str());
    let process_chars = chars_of(process.as_str());
    let title_chars = chars_of(title.as_str());
    match filter {
        FilterType::All => contains_chars(process_chars.as_slice(), needle) || contains_chars(
            title_chars.as_slice(),
            needle,
        ),
        FilterType::ProcessName => contains_chars(process_chars.as_slice(), needle),
        FilterType::WindowTitle => contains_chars(title_chars.as_slice(), needle),
    }
}

/// The windows that a search for `text` keeps, in their order: all of them
/// when the lowercased text is empty, else those whose lowercased process
/// name or title (as `filter_type` says) contains the lowercased text.
pub fn filter_windows(windows: &[WindowInfo], text: &str, filter_type: FilterType) -> (r: Vec<
    WindowInfo,
>)
    ensures
        views_of(r@) == filtered(views_of(windows@), text@, filter_type),
{
    let lowered_text = lowercase(text);
    let needle = chars_of(lowered_text.as_str());
    let mut out: Vec<WindowInfo> = Vec::new();
    let mut i: usize = 0;
    let ghost ws = views_of(windows@);
    while i < windows.len()
        invariant
            i <= windows@.len(),
            ws == views_of(windows@),
            needle@ == lowered(text@),
            needle@.len() == 0 ==> views_of(out@) == ws.take(i as int),
            needle@.len() > 0 ==> views_of(out@) == matching_windows(
                ws.take(i as int),
                needle@,
                filter_type,
            ),
        decreases windows@.len() - i,
    {
        let w = &windows[i];
        proof {
            assert(ws.take(i + 1).drop_last() =~= ws.take(i as int));
            assert(ws.take(i + 1).last() == w@);
        }
        if needle.len() == 0 || matches_exec(w, needle.as_slice(), filter_type) {
            let ghost before = out@;
            out.push(w.clone());
            assert(views_of(out@) =~= views_of(before).push(w@));
        }
        i = i + 1;
    }
    assert(ws.take(windows@.len() as int) =~= ws);
    out
}

/// Matching keeps only matching windows, each one from the list.
pub proof fn lemma_matching_windows_match(
    ws: Seq<WindowInfoView>,
    needle: Seq<char>,
    filter: FilterType,
)
    ensures
        matching_windows(ws, needle, filter).len() <= ws.len(),
        forall|k: int|
            0 <= k < matching_windows(ws, needle, filter).len() ==> window_matches(
                #[trigger] matching_windows(ws, needle, filter)[k],
                needle,
                filter,
            ) && ws.contains(matching_windows(ws, needle, filter)[k]),
    decreases ws.len(),
{
    if ws.len() > 0 {
        lemma_matching_windows_match(ws.drop_last(), needle, filter);
        let kept = matching_windows(ws.drop_last(), needle, filter);
        assert forall|k: int| 0 <= k < kept.len() implies ws.contains(#[trigger] kept[k]) by {
            let j = choose|j: int| 0 <= j < ws.drop_last().len() && ws.drop_last()[j] == kept[k];
            assert(ws[j] == kept[k]);
        }
        assert(ws[ws.len() - 1] == ws.last());
    }
}

/// Searching again with the same text changes nothing: a search is
/// idempotent.
pub proof fn lemma_filter_idempotent(ws: Seq<WindowInfoView>, text: Seq<char>, filter: FilterType)
    ensures
        filtered(filtered(ws, text, filter), text, filter) == filtered(ws, text, filter),
{
    let needle = lowered(text);
    if needle.len() > 0 {
        lemma_occurs_in_itself(needle);
        lemma_matching_twice(ws, needle, needle, filter);
    }
}

/// A needle occurs in every sequence that holds a sequence it occurs in.
pub proof fn lemma_occurs_in_transitive(a: Seq<char>, b: Seq<char>, c: Seq<char>)
    requires
        occurs_in(a, b),
        occurs_in(b, c),
    ensures
        occurs_in(a, c),
{
    let i = choose|i: int| 0 <= i && i + a.len() <= b.len() && #[trigger] b.subrange(i, i + a.len()) == a;
    let j = choose|j: int| 0 <= j && j + b.len() <= c.len() && #[trigger] c.subrange(j, j + b.len()) == b;
    assert(c.subrange(j + i, j + i + a.len()) =~= a) by {
        assert forall|k: int| 0 <= k < a.len() implies c.subrange(j + i, j + i + a.len())[k] == a[k] by {
            assert(b.subrange(i, i + a.len())[k] == b[i + k]);
            assert(c.subrange(j, j + b.len())[i + k] == c[j + i + k]);
        }
    }
}

/// Matching with a needle `wide` and then with a needle `narrow` that holds
/// `wide` keeps what matching with `narrow` alone keeps.
pub proof fn lemma_matching_twice(
    ws: Seq<WindowInfoView>,
    wide: Seq<char>,
    narrow: Seq<char>,
    filter: FilterType,
)
    requires
        occurs_in(wide, narrow),
    ensures
        matching_windows(matching_windows(ws, wide, filter), narrow, filter) == matching_windows(
            ws,
            narrow,
            filter,
        ),
    decreases ws.len(),
{
    if ws.len() > 0 {
        let w = ws.last();
        lemma_matching_twice(ws.drop_last(), wide, narrow, filter);
        let process = lowered(w.process_name);
        let title = lowered(w.window_title);
        if occurs_in(narrow, process) {
            lemma_occurs_in_transitive(wide, narrow, process);
        }
        if occurs_in(narrow, title) {
            lemma_occurs_in_transitive(wide, narrow, title);
        }
        let kept = matching_windows(ws.drop_last(), wide, filter);
        if window_matches(w, wide, filter) {
            assert(matching_windows(ws, wide, filter).drop_last() =~= kept);
        }
    }
}

/// A needle always occurs in itself.
pub proof fn lemma_occurs_in_itself(s: Seq<char>)
    ensures
        occurs_in(s, s),
{
    assert(s.subrange(0, (0 + s.len()) as int) =~= s);
}

/// Typing more of the search: when the new lowercased search text holds the
/// old one, searching the old result with the new text gives what searching
/// the whole list with the new text gives.
pub proof fn lemma_refined_search(
    ws: Seq<WindowInfoView>,
    old_text: Seq<char>,
    new_text: Seq<char>,
    filter: FilterType,
)
    requires
        occurs_in(lowered(old_text), lowered(new_text)),
    ensures
        filtered(filtered(ws, old_text, filter), new_text, filter) == filtered(
            ws,
            new_text,
            filter,
        ),
{
    let wide = lowered(old_text);
    let narrow = lowered(new_text);
    if wide.len() > 0 && narrow.len() > 0 {
        lemma_matching_twice(ws, wide, narrow, filter);
    }
    if wide.len() > 0 && narrow.len() == 0 {
        // an empty needle cannot hold a non-empty one
        let i = choose|i: int| 0 <= i && i + wide.len() <= narrow.len() && #[trigger] narrow.subrange(i, i + wide.len()) == wide;
        assert(false);
    }
}

/// Searching under `All` keeps a window exactly when searching the process
/// names or searching the titles keeps it.
pub proof fn lemma_all_is_either(w: WindowInfoView, needle: Seq<char>)
    ensures
        window_matches(w, needle, FilterType::All) == (window_matches(
            w,
            needle,
            FilterType::ProcessName,
        ) || window_matches(w, needle, FilterType::WindowTitle)),
{
}

/// An empty search keeps every window, in order.
pub proof fn lemma_empty_search_keeps_all(ws: Seq<WindowInfoView>, filter: FilterType)
    ensures
        filtered(ws, Seq::<char>::empty(), filter) == ws,
{
    lemma_lowered_empty();
}

/// The search ignores the case of ASCII letters in the search text: two
/// ASCII texts that differ only in the case of their letters keep the same
/// windows.
pub proof fn lemma_search_ignores_ascii_case_of_text(
    ws: Seq<WindowInfoView>,
    a: Seq<char>,
    b: Seq<char>,
    filter: FilterType,
)
    requires
        is_ascii_chars(a),
        is_ascii_chars(b),
        ascii_lowercase(a) == ascii_lowercase(b),
    ensures
        filtered(ws, a, filter) == filtered(ws, b, filter),
{
}

/// The search ignores the case of ASCII letters in window names and titles:
/// two windows whose ASCII process names and ASCII titles differ only in the
/// case of their letters are kept alike.
pub proof fn lemma_search_ignores_ascii_case_of_windows(
    v: WindowInfoView,
    w: WindowInfoView,
    needle: Seq<char>,
    filter: FilterType,
)
    requires
        is_ascii_chars(v.process_name),
        is_ascii_chars(w.process_name),
        is_ascii_chars(v.window_title),
        is_ascii_chars(w.window_title),
        ascii_lowercase(v.process_name) == ascii_lowercase(w.process_name),
        ascii_lowercase(v.window_title) == ascii_lowercase(w.window_title),
    ensures
        window_matches(v, needle, filter) == window_matches(w, needle, filter),
{
}

/// What each filter looks at: the process-name filter keeps a window when
/// the needle occurs in its lowercased process name, the title filter when
/// it occurs in its lowercased title (the process name plays no part), and
/// the all-fields filter when it occurs in either.
pub proof fn lemma_filter_fields(w: WindowInfoView, needle: Seq<char>)
    ensures
        window_matches(w, needle, FilterType::ProcessName) == occurs_in(
            needle,
            lowered(w.process_name),
        ),
        window_matches(w, needle, FilterType::WindowTitle) == occurs_in(
            needle,
            lowered(w.window_title),
        ),
        window_matches(w, needle, FilterType::All) == (occurs_in(needle, lowered(w.process_name))
            || occurs_in(needle, lowered(w.window_title))),
{
}

/// The title filter does not look at process names: two windows with the
/// same title are kept alike, whatever their process names.
pub proof fn lemma_title_filter_ignores_process(
    v: WindowInfoView,
    w: WindowInfoView,
    needle: Seq<char>,
)
    requires
        v.window_title == w.window_title,
    ensures
        window_matches(v, needle, FilterType::WindowTitle) == window_matches(
            w,
            needle,
            FilterType::WindowTitle,
        ),
{
    lemma_filter_fields(v, needle);
    lemma_filter_fields(w, needle);
}

/// The process-name filter does not look at titles: two windows with the
/// same process name are kept alike, whatever their titles.
pub proof fn lemma_process_filter_ignores_title(
    v: WindowInfoView,
    w: WindowInfoView,
    needle: Seq<char>,
)
    requires
        v.process_name == w.process_name,
    ensures
        window_matches(v, needle, FilterType::ProcessName) == window_matches(
            w,
            needle,
            FilterType::ProcessName,
        ),
{
    lemma_filter_fields(v, needle);
    lemma_filter_fields(w, needle);
}

/// A window is in the result of a search exactly when it is in the list and
/// matches.
pub proof fn lemma_matching_membership(
    ws: Seq<WindowInfoView>,
    needle: Seq<char>,
    filter: FilterType,
    v: WindowInfoView,
)
    ensures
        matching_windows(ws, needle, filter).contains(v) <==> (ws.contains(v) && window_matches(
            v,
            needle,
            filter,
        )),
    decreases ws.len(),
{
    if ws.len() > 0 {
        lemma_matching_membership(ws.drop_last(), needle, filter, v);
        let kept = matching_windows(ws.drop_last(), needle, filter);
        assert(ws =~= ws.drop_last().push(ws.last()));
        if ws.contains(v) {
            let i = choose|i: int| 0 <= i < ws.len() && ws[i] == v;
            if i < ws.len() - 1 {
                assert(ws.drop_last()[i] == v);
            }
        }
        if ws.drop_last().contains(v) {
            let i = choose|i: int| 0 <= i < ws.drop_last().len() && ws.drop_last()[i] == v;
            assert(ws[i] == v);
        }
        if window_matches(ws.last(), needle, filter) {
            let r = kept.push(ws.last());
            if r.contains(v) {
                let i = choose|i: int| 0 <= i < r.len() && r[i] == v;
                if i < kept.len() {
                    assert(kept[i] == v);
                }
            }
            if kept.contains(v) {
                let i = choose|i: int| 0 <= i < kept.len() && kept[i] == v;
                assert(r[i] == v);
            }
            assert(r[r.len() - 1] == ws.last());
        }
    }
}

/// A search for a text whose lowercase is not empty keeps, of the listed
/// windows, exactly those whose lowercased title (under the title filter),
/// lowercased process name (under the process filter), or either (under
/// the all-fields filter) contains the lowercased text.
pub proof fn lemma_search_keeps_exactly(
    ws: Seq<WindowInfoView>,
    text: Seq<char>,
    v: WindowInfoView,
)
    requires
        lowered(text).len() > 0,
    ensures
        filtered(ws, text, FilterType::WindowTitle).contains(v) <==> (ws.contains(v) && occurs_in(
            lowered(text),
            lowered(v.window_title),
        )),
        filtered(ws, text, FilterType::ProcessName).contains(v) <==> (ws.contains(v) && occurs_in(
            lowered(text),
            lowered(v.process_name),
        )),
        filtered(ws, text, FilterType::All).contains(v) <==> (ws.contains(v) && (occurs_in(
            lowered(text),
            lowered(v.process_name),
        ) || occurs_in(lowered(text), lowered(v.window_title)))),
{
    lemma_filter_fields(v, lowered(text));
    lemma_matching_membership(ws, lowered(text), FilterType::WindowTitle, v);
    lemma_matching_membership(ws, lowered(text), FilterType::ProcessName, v);
    lemma_matching_membership(ws, lowered(text), FilterType::All, v);
}

/// A search keeps the list's order: searching two lists one after the
/// other keeps what searching each keeps, the first list's windows first;
/// a list of one window keeps that window exactly when it matches.
pub proof fn lemma_matching_keeps_order(
    a: Seq<WindowInfoView>,
    b: Seq<WindowInfoView>,
    needle: Seq<char>,
    filter: FilterType,
    w: WindowInfoView,
)
    ensures
        matching_windows(a + b, needle, filter) == matching_windows(a, needle, filter)
            + matching_windows(b, needle, filter),
        matching_windows(seq![w], needle, filter) == (if window_matches(w, needle, filter) {
            seq![w]
        } else {
            Seq::<WindowInfoView>::empty()
        }),
    decreases b.len(),
{
    assert(seq![w].drop_last() =~= Seq::<WindowInfoView>::empty());
    assert(seq![w].last() == w);
    assert(matching_windows(Seq::<WindowInfoView>::empty(), needle, filter)
        == Seq::<WindowInfoView>::empty());
    assert(Seq::<WindowInfoView>::empty().push(w) =~= seq![w]);
    if b.len() == 0 {
        assert(a + b =~= a);
        assert(matching_windows(a, needle, filter) + matching_windows(b, needle, filter)
            =~= matching_windows(a, needle, filter));
    } else {
        lemma_matching_keeps_order(a, b.drop_last(), needle, filter, w);
        assert((a + b).drop_last() =~= a + b.drop_last());
        assert((a + b).last() == b.last());
        let ka = matching_windows(a, needle, filter);
        let kb = matching_windows(b.drop_last(), needle, filter);
        if window_matches(b.last(), needle, filter) {
            assert((ka + kb).push(b.last()) =~= ka + kb.push(b.last()));
        }
    }
}

} // verus!
