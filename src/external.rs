//! Other applications' top-level windows, which can be listed, searched by
//! title, measured and moved only on Windows.

use vstd::prelude::*;

verus! {

/// The operating system the application runs on, as far as controlling other
/// applications' windows is concerned.
#[derive(Clone, Copy, Debug, PartialEq, Eq, Structural)]
pub enum Platform {
    Windows,
    Other,
}

/// A window's edges in screen pixels.
#[derive(Clone, Copy, Debug, PartialEq, Eq, Structural)]
pub struct ScreenRect {
    pub left: i32,
    pub top: i32,
    pub right: i32,
    pub bottom: i32,
}

impl ScreenRect {
    /// The distance from the left edge to the right edge.
    pub fn width(&self) -> (r: i64)
        ensures
            r == self.right - self.left,
    {
        self.right as i64 - self.left as i64
    }

    /// The distance from the top edge to the bottom edge.
    pub fn height(&self) -> (r: i64)
        ensures
            r == self.bottom - self.top,
    {
        self.bottom as i64 - self.top as i64
    }
}

/// One top-level window of the operating system, as read when the windows
/// were enumerated.
#[derive(Debug)]
pub struct ExternalWindow {
    pub handle: isize,
    pub title: String,
    pub class_name: String,
    pub process_id: u32,
    pub exe_path: String,
    pub rect: ScreenRect,
    pub visible: bool,
}

/// The message of every external-window command on a platform other than
/// Windows.
pub open spec fn unsupported_message() -> Seq<char> {
    "External window control is only available on Windows"@
}

/// The characters of a result whose error is text.
pub open spec fn error_text<T>(r: Result<T, String>) -> Option<Seq<char>> {
    match r {
        Ok(_) => None,
        Err(e) => Some(e@),
    }
}

/// Whether the external-window commands can run on `platform`: they fail with
/// the same fixed message everywhere but on Windows.
pub fn external_windows_supported(platform: Platform) -> (r: Result<(), String>)
    ensures
        platform == Platform::Windows <==> r is Ok,
        platform == Platform::Other ==> error_text(r) == Some(unsupported_message()),
{
    match platform {
        Platform::Windows => Ok(()),
        Platform::Other => Err(String::from_str("External window control is only available on Windows")),
    }
}

/// The lowercase form of a text, as Rust's `str::to_lowercase` gives it.
pub uninterp spec fn lower_of(s: Seq<char>) -> Seq<char>;

/// Relies on str::to_lowercase: the lowercase form, which depends on the
/// characters of `s` alone.
#[verifier::external_body]
fn lowercase(s: &str) -> (r: String)
    ensures
        r@ == lower_of(s@),
{
    s.to_lowercase()
}

/// `needle` occurs in `hay` as a run of consecutive characters.
pub open spec fn contains_text(hay: Seq<char>, needle: Seq<char>) -> bool {
    exists|i: int|
        0 <= i && i + needle.len() <= hay.len() && #[trigger] hay.subrange(i, i + needle.len())
            == needle
}

/// The characters of `s`, one by one.
fn chars_of(s: &str) -> (r: Vec<char>)
    ensures
        r@ == s@,
{
    let n = s.unicode_len();
    let mut r: Vec<char> = Vec::new();
    let mut i: usize = 0;
    while i < n
        invariant
            n == s@.len(),
            i <= n,
            r@ == s@.subrange(0, i as int),
        decreases n - i,
    {
        r.push(s.get_char(i));
        i = i + 1;
        assert(r@ =~= s@.subrange(0, i as int));
    }
    assert(r@ =~= s@);
    r
}

/// Whether `query` occurs in `title`, character for character. Both are
/// taken as they are: callers that want case to be ignored hand in the
/// lowercase forms.
pub fn title_matches(title: &str, query: &str) -> (r: bool)
    ensures
        r == contains_text(title@, query@),
{
    let hay = chars_of(title);
    let needle = chars_of(query);
    let m = needle.len();
    if m > hay.len() {
        return false;
    }
    let last = hay.len() - m;
    let mut i: usize = 0;
    while i <= last
        invariant
            hay@ == title@,
            needle@ == query@,
            m == needle@.len(),
            last + m == hay@.len(),
            last + m <= usize::MAX,
            forall|k: int| 0 <= k < i ==> #[trigger] hay@.subrange(k, k + m) != needle@,
        decreases last + 1 - i,
    {
        let mut j: usize = 0;
        while j < m
            invariant
                i <= last,
                last + m == hay@.len(),
                last + m <= usize::MAX,
                m == needle@.len(),
                j <= m,
                forall|t: int| 0 <= t < j ==> hay@[i + t] == needle@[t],
            ensures
                j <= m,
                forall|t: int| 0 <= t < j ==> hay@[i + t] == needle@[t],
                j < m ==> hay@[i + j] != needle@[j as int],
            decreases m - j,
        {
            if hay[i + j] != needle[j] {
                break;
            }
            j = j + 1;
        }
        if j == m {
            assert(hay@.subrange(i as int, i + m) =~= needle@);
            return true;
        }
        assert(hay@.subrange(i as int, i + m)[j as int] != needle@[j as int]);
        i = i + 1;
    }
    false
}

/// A window that search by title returns for `query`: a visible one whose
/// title holds the query, case ignored.
pub open spec fn title_hit(w: ExternalWindow, query: Seq<char>) -> bool {
    w.visible && contains_text(lower_of(w.title@), lower_of(query))
}

/// A window that the listing returns: a visible one.
pub open spec fn listed(w: ExternalWindow) -> bool {
    w.visible
}

/// The visible windows among `windows` whose title holds `query`, case
/// ignored, in their order; on a platform other than Windows, the fixed
/// message whatever the windows and the query.
pub fn find_windows_by_title(platform: Platform, windows: Vec<ExternalWindow>, query: &str) -> (r:
    Result<Vec<ExternalWindow>, String>)
    ensures
        platform == Platform::Other ==> error_text(r) == Some(unsupported_message()),
        platform == Platform::Windows ==> (r matches Ok(found) && found@ == windows@.filter(
            |w: ExternalWindow| title_hit(w, query@),
        )),
{
    if let Err(e) = external_windows_supported(platform) {
        return Err(e);
    }
    let wanted = lowercase(query);
    let mut rest = windows;
    let mut found: Vec<ExternalWindow> = Vec::new();
    let ghost all = rest@;
    let ghost pred = |w: ExternalWindow| title_hit(w, query@);
    while rest.len() > 0
        invariant
            wanted@ == lower_of(query@),
            pred == (|w: ExternalWindow| title_hit(w, query@)),
            all == all.subrange(0, all.len() - rest@.len()) + rest@,
            rest@.len() <= all.len(),
            found@ == all.subrange(0, all.len() - rest@.len()).filter(pred),
        decreases rest@.len(),
    {
        let ghost done = all.subrange(0, all.len() - rest@.len());
        let w = rest.remove(0);
        proof {
            assert(all.subrange(0, all.len() - rest@.len()) =~= done.push(w));
            done.lemma_filter_push(w, pred);
            assert(all =~= all.subrange(0, all.len() - rest@.len()) + rest@);
        }
        let keep = w.visible && {
            let title = lowercase(w.title.as_str());
            title_matches(title.as_str(), wanted.as_str())
        };
        if keep {
            found.push(w);
        }
    }
    assert(all.subrange(0, all.len() as int) =~= all);
    Ok(found)
}

/// The visible windows among `windows`, in their order; on a platform other
/// than Windows, the fixed message whatever the windows.
pub fn list_windows(platform: Platform, windows: Vec<ExternalWindow>) -> (r: Result<
    Vec<ExternalWindow>,
    String,
>)
    ensures
        platform == Platform::Other ==> error_text(r) == Some(unsupported_message()),
        platform == Platform::Windows ==> (r matches Ok(shown) && shown@ == windows@.filter(
            |w: ExternalWindow| listed(w),
        )),
{
    if let Err(e) = external_windows_supported(platform) {
        return Err(e);
    }
    let mut rest = windows;
    let mut shown: Vec<ExternalWindow> = Vec::new();
    let ghost all = rest@;
    let ghost pred = |w: ExternalWindow| listed(w);
    while rest.len() > 0
        invariant
            pred == (|w: ExternalWindow| listed(w)),
            all == all.subrange(0, all.len() - rest@.len()) + rest@,
            rest@.len() <= all.len(),
            shown@ == all.subrange(0, all.len() - rest@.len()).filter(pred),
        decreases rest@.len(),
    {
        let ghost done = all.subrange(0, all.len() - rest@.len());
        let w = rest.remove(0);
        proof {
            assert(all.subrange(0, all.len() - rest@.len()) =~= done.push(w));
            done.lemma_filter_push(w, pred);
            assert(all =~= all.subrange(0, all.len() - rest@.len()) + rest@);
        }
        if w.visible {
            shown.push(w);
        }
    }
    assert(all.subrange(0, all.len() as int) =~= all);
    Ok(shown)
}

} // verus!
