//! Picking a window out of the windows of the host.
//!
//! The list of windows comes from the windowing system, through the caller.
//! The controller searches it.

use crate::error::{PdbError, PdbErrorView};
use crate::text::{contains_substring, str_contains, str_eq};
use crate::types::{window_views, WindowInfo, WindowInfoView};
use vstd::prelude::*;
use vstd::string::*;

verus! {

/// How a window is looked for.
pub enum Wanted {
    /// The title contains these characters.
    TitleContains(Seq<char>),
    /// The title is exactly these characters.
    TitleIs(Seq<char>),
    /// The class name contains these characters.
    ClassContains(Seq<char>),
}

impl Wanted {
    /// Whether the window is one that is looked for.
    pub open spec fn accepts(self, window: WindowInfoView) -> bool {
        match self {
            Wanted::TitleContains(pattern) => contains_substring(window.title, pattern),
            Wanted::TitleIs(title) => window.title == title,
            Wanted::ClassContains(pattern) => contains_substring(window.class_name, pattern),
        }
    }

    /// The characters that are looked for.
    pub open spec fn pattern(self) -> Seq<char> {
        match self {
            Wanted::TitleContains(pattern) => pattern,
            Wanted::TitleIs(title) => title,
            Wanted::ClassContains(pattern) => pattern,
        }
    }
}

/// The index of the first wanted window at or after `from`, or the length of
/// the list if there is none.
pub open spec fn first_index(windows: Seq<WindowInfoView>, wanted: Wanted, from: int) -> int
    decreases windows.len() - from,
{
    if from < 0 || from >= windows.len() {
        windows.len() as int
    } else if wanted.accepts(windows[from]) {
        from
    } else {
        first_index(windows, wanted, from + 1)
    }
}

/// The first wanted window of the list, or the error that names what was
/// looked for.
pub open spec fn found(windows: Seq<WindowInfoView>, wanted: Wanted) -> Result<
    WindowInfoView,
    PdbErrorView,
> {
    let i = first_index(windows, wanted, 0);
    if i < windows.len() {
        Ok(windows[i])
    } else {
        Err(PdbErrorView::WindowNotFound(wanted.pattern()))
    }
}

/// `first_index` is the least index of a wanted window from `from` on.
pub proof fn lemma_first_index(windows: Seq<WindowInfoView>, wanted: Wanted, from: int)
    requires
        0 <= from <= windows.len(),
    ensures
        from <= first_index(windows, wanted, from) <= windows.len(),
        first_index(windows, wanted, from) < windows.len() ==> wanted.accepts(
            windows[first_index(windows, wanted, from)],
        ),
        forall|j: int| from <= j < first_index(windows, wanted, from) ==> !wanted.accepts(windows[j]),
    decreases windows.len() - from,
{
    if from < windows.len() && !wanted.accepts(windows[from]) {
        lemma_first_index(windows, wanted, from + 1);
    }
}

/// The way into the windows of a host.
#[derive(Debug, Clone, Copy, PartialEq, Eq, Structural)]
pub struct WindowController;

/// The three ways of looking for a window, as they are asked for at run time.
enum Search<'a> {
    TitleContains(&'a str),
    TitleIs(&'a str),
    ClassContains(&'a str),
}

impl<'a> Search<'a> {
    spec fn wanted(self) -> Wanted {
        match self {
            Search::TitleContains(pattern) => Wanted::TitleContains(pattern@),
            Search::TitleIs(title) => Wanted::TitleIs(title@),
            Search::ClassContains(pattern) => Wanted::ClassContains(pattern@),
        }
    }

    fn accepts(&self, window: &WindowInfo) -> (b: bool)
        ensures
            b == self.wanted().accepts(window@),
    {
        match self {
            Search::TitleContains(pattern) => str_contains(window.title.as_str(), pattern),
            Search::TitleIs(title) => str_eq(window.title.as_str(), title),
            Search::ClassContains(pattern) => str_contains(window.class_name.as_str(), pattern),
        }
    }

    fn pattern(&self) -> (p: &'a str)
        ensures
            p@ == self.wanted().pattern(),
    {
        match self {
            Search::TitleContains(pattern) => pattern,
            Search::TitleIs(title) => title,
            Search::ClassContains(pattern) => pattern,
        }
    }
}

fn first_wanted(windows: &[WindowInfo], how: Search<'_>) -> (r: Result<WindowInfo, PdbError>)
    ensures
        match r {
            Ok(window) => found(window_views(windows@), how.wanted()) == Ok::<
                WindowInfoView,
                PdbErrorView,
            >(window@),
            Err(e) => found(window_views(windows@), how.wanted()) == Err::<
                WindowInfoView,
                PdbErrorView,
            >(e@),
        },
{
    let ghost views = window_views(windows@);
    let ghost wanted = how.wanted();
    let mut i: usize = 0;
    while i < windows.len()
        invariant
            i <= windows.len(),
            views == window_views(windows@),
            wanted == how.wanted(),
            first_index(views, wanted, 0) == first_index(views, wanted, i as int),
        decreases windows.len() - i,
    {
        if how.accepts(&windows[i]) {
            return Ok(windows[i].clone());
        }
        i += 1;
    }
    Err(PdbError::WindowNotFound(String::from_str(how.pattern())))
}

impl WindowController {
    /// A controller.
    pub fn new() -> (controller: Self) {
        Self
    }

    /// Whether a window belongs in the list of windows: whether it is
    /// visible and has a title.
    pub fn lists(&self, window: &WindowInfo) -> (listed: bool)
        ensures
            listed == (window@.visible && window@.title.len() > 0),
    {
        window.visible && !window.title.as_str().is_empty()
    }

    /// The first of `windows` whose title contains `title`.
    pub fn find_window(&self, windows: &[WindowInfo], title: &str) -> (r: Result<
        WindowInfo,
        PdbError,
    >)
        ensures
            match r {
                Ok(window) => found(window_views(windows@), Wanted::TitleContains(title@)) == Ok::<
                    WindowInfoView,
                    PdbErrorView,
                >(window@),
                Err(e) => found(window_views(windows@), Wanted::TitleContains(title@)) == Err::<
                    WindowInfoView,
                    PdbErrorView,
                >(e@),
            },
    {
        first_wanted(windows, Search::TitleContains(title))
    }

    /// The first of `windows` whose title is `title`.
    pub fn find_window_exact(&self, windows: &[WindowInfo], title: &str) -> (r: Result<
        WindowInfo,
        PdbError,
    >)
        ensures
            match r {
                Ok(window) => found(window_views(windows@), Wanted::TitleIs(title@)) == Ok::<
                    WindowInfoView,
                    PdbErrorView,
                >(window@),
                Err(e) => found(window_views(windows@), Wanted::TitleIs(title@)) == Err::<
                    WindowInfoView,
                    PdbErrorView,
                >(e@),
            },
    {
        first_wanted(windows, Search::TitleIs(title))
    }

    /// The first of `windows` whose class name contains `class_name`.
    pub fn find_window_by_class(&self, windows: &[WindowInfo], class_name: &str) -> (r: Result<
        WindowInfo,
        PdbError,
    >)
        ensures
            match r {
                Ok(window) => found(window_views(windows@), Wanted::ClassContains(class_name@))
                    == Ok::<WindowInfoView, PdbErrorView>(window@),
                Err(e) => found(window_views(windows@), Wanted::ClassContains(class_name@)) == Err::<
                    WindowInfoView,
                    PdbErrorView,
                >(e@),
            },
    {
        first_wanted(windows, Search::ClassContains(class_name))
    }
}

impl Default for WindowController {
    fn default() -> (controller: Self) {
        Self::new()
    }
}

} // verus!
