//! Windows, tabs and stacked views, and how a selection moves through them.
use vstd::prelude::*;
use crate::results::{reaches_lookahead, should_fetch};

verus! {

#[derive(Clone, Copy, Debug, PartialEq, Eq, Hash, Structural)]
pub enum ViewType {
    Search,
    Home,
    Queue,
}

/// What a window lists, and so which data its selection points into.
#[derive(Clone, Copy, Debug, PartialEq, Eq, Hash, Structural)]
pub enum WindowType {
    PlaylistVideos,
    TrendingVideos,
    TopVideos,
    PopularVideos,
    SearchVideos,
    SearchChannels,
    SearchPlaylists,
    ChannelVideos,
    ChannelPlaylists,
    VideoQueue,
    AudioQueue,
}

/// The content of a window: rendered table rows, or plain labels.
#[derive(Clone, Debug)]
pub enum ContentType {
    MediaContent(Vec<Vec<String>>),
    ListContent(Vec<String>),
}

pub open spec fn content_len(c: ContentType) -> nat {
    match c {
        ContentType::MediaContent(rows) => rows@.len(),
        ContentType::ListContent(labels) => labels@.len(),
    }
}

#[derive(Clone, Debug)]
pub struct TabState {
    pub selected: usize,
    pub items: Vec<String>,
    pub title: String,
}

impl TabState {
    pub fn new(items: Vec<String>, title: String) -> (r: TabState)
        ensures
            r.selected == 0,
            r.items@ == items@,
            r.title == title,
    {
        TabState { title, items, selected: 0 }
    }
}

/// A titled list with a selection.
#[derive(Clone, Debug)]
pub struct Window {
    pub title: String,
    pub selected: usize,
    pub content: ContentType,
    pub window_type: WindowType,
}

/// The selection points at a row, or is 0 when there is none.
pub open spec fn selection_ok(w: Window) -> bool {
    if content_len(w.content) == 0 {
        w.selected == 0
    } else {
        w.selected < content_len(w.content)
    }
}

/// The selection one row down, if there is a row below.
pub open spec fn next_index(selected: nat, len: nat) -> nat {
    if selected + 1 < len {
        selected + 1
    } else {
        selected
    }
}

/// The selection one row up, if there is a row above.
pub open spec fn prev_index(selected: nat) -> nat {
    if selected > 0 {
        (selected - 1) as nat
    } else {
        selected
    }
}

/// Moves the selection down one row, if a row of the `len` is below it.
pub fn next_selection(window: &mut Window, len: usize)
    ensures
        final(window).selected == next_index(old(window).selected as nat, len as nat),
        final(window).title == old(window).title,
        final(window).content == old(window).content,
        final(window).window_type == old(window).window_type,
{
    if window.selected < len && window.selected + 1 < len {
        window.selected = window.selected + 1;
    }
}

/// Moves the selection up one row, if there is one above it.
pub fn prev_selection(window: &mut Window)
    ensures
        final(window).selected == prev_index(old(window).selected as nat),
        final(window).title == old(window).title,
        final(window).content == old(window).content,
        final(window).window_type == old(window).window_type,
{
    if window.selected > 0 {
        window.selected = window.selected - 1;
    }
}

impl Default for Window {
    /// An untitled, empty label list.
    fn default() -> (r: Window)
        ensures
            r.title@.len() == 0,
            r.selected == 0,
            r.content is ListContent && (r.content->ListContent_0)@.len() == 0,
            r.window_type == WindowType::SearchVideos,
    {
        Window {
            title: String::new(),
            selected: 0,
            content: ContentType::ListContent(Vec::new()),
            window_type: WindowType::SearchVideos,
        }
    }
}

impl Window {
    pub fn new(title: String, selected: usize, content: ContentType, window_type: WindowType) -> (r:
        Window)
        ensures
            r == (Window { title, selected, content, window_type }),
    {
        Window { title, selected, content, window_type }
    }

    /// The number of rows or labels shown.
    pub fn len(&self) -> (r: usize)
        ensures
            r == content_len(self.content),
    {
        match &self.content {
            ContentType::MediaContent(rows) => rows.len(),
            ContentType::ListContent(labels) => labels.len(),
        }
    }

    /// Moves the selection down and tells whether it has come near enough to
    /// the end that the next page should be fetched.
    pub fn move_down(&mut self) -> (fetch: bool)
        ensures
            final(self).selected == next_index(
                old(self).selected as nat,
                content_len(old(self).content),
            ),
            final(self).content == old(self).content,
            final(self).title == old(self).title,
            final(self).window_type == old(self).window_type,
            fetch == reaches_lookahead(final(self).selected as nat, content_len(old(self).content)),
            selection_ok(*old(self)) ==> selection_ok(*final(self)),
    {
        let len = self.len();
        next_selection(self, len);
        should_fetch(self.selected, len)
    }

    /// Moves the selection up.
    pub fn move_up(&mut self)
        ensures
            final(self).selected == prev_index(old(self).selected as nat),
            final(self).content == old(self).content,
            final(self).title == old(self).title,
            final(self).window_type == old(self).window_type,
            selection_ok(*old(self)) ==> selection_ok(*final(self)),
    {
        prev_selection(self);
    }

    /// Shows new content for a fresh query; the selection goes back to the top.
    pub fn replace_content(&mut self, content: ContentType)
        ensures
            final(self).content == content,
            final(self).selected == 0,
            final(self).title == old(self).title,
            final(self).window_type == old(self).window_type,
            selection_ok(*final(self)),
    {
        self.content = content;
        self.selected = 0;
    }

    /// Shows rows regenerated from the same list; the selection stays where
    /// it is while it still points at a row, else it moves to the last row.
    pub fn refresh_rows(&mut self, rows: Vec<Vec<String>>)
        ensures
            final(self).content == ContentType::MediaContent(rows),
            final(self).selected == (if old(self).selected < rows@.len() {
                old(self).selected as int
            } else if rows@.len() == 0 {
                0
            } else {
                rows@.len() - 1
            }),
            final(self).title == old(self).title,
            final(self).window_type == old(self).window_type,
            selection_ok(*final(self)),
    {
        let n = rows.len();
        if self.selected >= n {
            self.selected = if n == 0 {
                0
            } else {
                n - 1
            };
        }
        self.content = ContentType::MediaContent(rows);
    }
}

/// One view: tabs over windows, one window per tab.
#[derive(Clone, Debug)]
pub struct Page {
    pub tabs: TabState,
    pub root_windows: Vec<Window>,
}

/// A screen: its own page, and pages opened on top of it.
#[derive(Clone, Debug)]
pub struct Screen {
    pub root: Page,
    pub view_stack: Vec<Page>,
}

/// The page that is shown: the last one opened, else the screen's own.
pub open spec fn current_page(s: Screen) -> Page {
    if s.view_stack@.len() == 0 {
        s.root
    } else {
        s.view_stack@.last()
    }
}

/// `b` is `a` with the window under its selected tab moved down or up; a tab
/// with no window leaves the page as it was.
pub open spec fn window_moved(a: Page, b: Page, down: bool) -> bool {
    let t = a.tabs.selected as int;
    &&& b.tabs == a.tabs
    &&& b.root_windows@.len() == a.root_windows@.len()
    &&& forall|i: int|
        0 <= i < a.root_windows@.len() && i != t ==> #[trigger] b.root_windows@[i]
            == a.root_windows@[i]
    &&& t < a.root_windows@.len() ==> {
        let w = a.root_windows@[t];
        let w2 = b.root_windows@[t];
        &&& w2.content == w.content
        &&& w2.title == w.title
        &&& w2.window_type == w.window_type
        &&& w2.selected == (if down {
            next_index(w.selected as nat, content_len(w.content))
        } else {
            prev_index(w.selected as nat)
        })
    }
}

/// The fetch trigger of a move down in page `a` that gave `b`.
pub open spec fn fetch_after(a: Page, b: Page, fetch: bool) -> bool {
    let t = a.tabs.selected as int;
    if t < a.root_windows@.len() {
        fetch == reaches_lookahead(
            b.root_windows@[t].selected as nat,
            content_len(a.root_windows@[t].content),
        )
    } else {
        !fetch
    }
}

/// `b` is `a` with only the shown page changed.
pub open spec fn only_current_changed(a: Screen, b: Screen) -> bool {
    &&& b.view_stack@.len() == a.view_stack@.len()
    &&& if a.view_stack@.len() == 0 {
        b.view_stack == a.view_stack
    } else {
        &&& b.root == a.root
        &&& b.view_stack@.drop_last() == a.view_stack@.drop_last()
    }
}

/// The tab to the left, if there is one.
pub open spec fn tab_left_index(selected: nat) -> nat {
    prev_index(selected)
}

/// The tab to the right, if there is one among `count`.
pub open spec fn tab_right_index(selected: nat, count: nat) -> nat {
    next_index(selected, count)
}

impl Page {
    pub fn new(root_windows: Vec<Window>, tabs: Vec<String>, tab_title: String) -> (r: Page)
        ensures
            r.tabs.selected == 0,
            r.tabs.items@ == tabs@,
            r.tabs.title == tab_title,
            r.root_windows@ == root_windows@,
    {
        Page { tabs: TabState::new(tabs, tab_title), root_windows }
    }

    /// Moves the selection of the window under the selected tab.
    fn move_selection(&mut self, down: bool) -> (fetch: bool)
        ensures
            window_moved(*old(self), *final(self), down),
            down ==> fetch_after(*old(self), *final(self), fetch),
    {
        let t = self.tabs.selected;
        if t < self.root_windows.len() {
            let ghost before = self.root_windows@;
            let mut w = self.root_windows.remove(t);
            let fetch = if down {
                w.move_down()
            } else {
                w.move_up();
                false
            };
            self.root_windows.insert(t, w);
            proof {
                assert forall|i: int|
                    0 <= i < before.len() && i != t implies #[trigger] self.root_windows@[i]
                    == before[i] by {
                    if i < t {
                    } else {
                    }
                }
            }
            fetch
        } else {
            false
        }
    }

    /// Selects the tab to the left or to the right.
    fn move_tab(&mut self, right: bool)
        ensures
            final(self).root_windows == old(self).root_windows,
            final(self).tabs.items == old(self).tabs.items,
            final(self).tabs.title == old(self).tabs.title,
            final(self).tabs.selected == (if right {
                tab_right_index(old(self).tabs.selected as nat, old(self).tabs.items@.len())
            } else {
                tab_left_index(old(self).tabs.selected as nat)
            }),
    {
        if right {
            if self.tabs.selected < self.tabs.items.len() && self.tabs.selected + 1
                < self.tabs.items.len() {
                self.tabs.selected = self.tabs.selected + 1;
            }
        } else if self.tabs.selected > 0 {
            self.tabs.selected = self.tabs.selected - 1;
        }
    }
}

impl Screen {
    pub fn new(root_windows: Vec<Window>, tabs: Vec<String>, tab_title: String) -> (r: Screen)
        ensures
            r.root.tabs.selected == 0,
            r.root.tabs.items@ == tabs@,
            r.root.tabs.title == tab_title,
            r.root.root_windows@ == root_windows@,
            r.view_stack@.len() == 0,
    {
        Screen { root: Page::new(root_windows, tabs, tab_title), view_stack: Vec::new() }
    }

    /// The page that is shown.
    pub fn get_current_view(&self) -> (r: &Page)
        ensures
            *r == current_page(*self),
    {
        if self.view_stack.len() != 0 {
            let n = self.view_stack.len();
            &self.view_stack[n - 1]
        } else {
            &self.root
        }
    }

    /// Opens `page` on top of the others.
    pub fn push_view(&mut self, page: Page)
        ensures
            final(self).view_stack@ == old(self).view_stack@.push(page),
            final(self).root == old(self).root,
    {
        self.view_stack.push(page);
    }

    /// Closes the page on top, if one is open.
    pub fn pop_stack(&mut self)
        ensures
            final(self).view_stack@ == (if old(self).view_stack@.len() == 0 {
                old(self).view_stack@
            } else {
                old(self).view_stack@.drop_last()
            }),
            final(self).root == old(self).root,
    {
        if self.view_stack.len() != 0 {
            self.view_stack.pop();
        }
    }

    /// Moves the selection down in the shown page's selected window, and tells
    /// whether the next page of results should be fetched for it.
    pub fn move_down(&mut self) -> (fetch: bool)
        ensures
            only_current_changed(*old(self), *final(self)),
            window_moved(current_page(*old(self)), current_page(*final(self)), true),
            fetch_after(current_page(*old(self)), current_page(*final(self)), fetch),
    {
        if self.view_stack.len() == 0 {
            self.root.move_selection(true)
        } else {
            let n = self.view_stack.len();
            let mut top = self.view_stack.remove(n - 1);
            let fetch = top.move_selection(true);
            self.view_stack.push(top);
            proof {
                assert(self.view_stack@.drop_last() =~= old(self).view_stack@.drop_last());
            }
            fetch
        }
    }

    /// Moves the selection up in the shown page's selected window.
    pub fn move_up(&mut self)
        ensures
            only_current_changed(*old(self), *final(self)),
            window_moved(current_page(*old(self)), current_page(*final(self)), false),
    {
        if self.view_stack.len() == 0 {
            self.root.move_selection(false);
        } else {
            let n = self.view_stack.len();
            let mut top = self.view_stack.remove(n - 1);
            top.move_selection(false);
            self.view_stack.push(top);
            proof {
                assert(self.view_stack@.drop_last() =~= old(self).view_stack@.drop_last());
            }
        }
    }

    /// Selects the next tab to the left or right on the shown page.
    pub fn move_tab(&mut self, right: bool)
        ensures
            only_current_changed(*old(self), *final(self)),
            current_page(*final(self)).root_windows == current_page(*old(self)).root_windows,
            current_page(*final(self)).tabs.items == current_page(*old(self)).tabs.items,
            current_page(*final(self)).tabs.selected == (if right {
                tab_right_index(
                    current_page(*old(self)).tabs.selected as nat,
                    current_page(*old(self)).tabs.items@.len(),
                )
            } else {
                tab_left_index(current_page(*old(self)).tabs.selected as nat)
            }),
    {
        if self.view_stack.len() == 0 {
            self.root.move_tab(right);
        } else {
            let n = self.view_stack.len();
            let mut top = self.view_stack.remove(n - 1);
            top.move_tab(right);
            self.view_stack.push(top);
            proof {
                assert(self.view_stack@.drop_last() =~= old(self).view_stack@.drop_last());
            }
        }
    }
}

} // verus!
