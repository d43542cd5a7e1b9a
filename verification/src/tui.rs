//! The state of the interactive dashboard: what is selected, which view
//! is shown, what is searched for. Drawing and reading keys are left to
//! the program around it.

use vstd::prelude::*;
use vstd::view::View as _;

verus! {

/// `String::push` appends the character to the text.
pub assume_specification[ String::push ](s: &mut String, ch: char)
    ensures
        final(s)@ == old(s)@.push(ch),
;

/// `String::pop` takes the last character off the text and hands it back,
/// or hands back nothing and leaves an empty text as it is.
pub assume_specification[ String::pop ](s: &mut String) -> (last: Option<char>)
    ensures
        old(s)@.len() == 0 ==> last is None && final(s)@ == old(s)@,
        old(s)@.len() > 0 ==> last == Some(old(s)@.last()) && final(s)@ == old(s)@.drop_last(),
;

/// One of the views of the dashboard.
#[derive(Debug, Clone, Copy, PartialEq, Eq, Structural)]
pub enum View {
    Dashboard,
    Statistics,
    Configuration,
}

/// The views in the order of their tabs.
pub open spec fn all_views() -> Seq<View> {
    seq![View::Dashboard, View::Statistics, View::Configuration]
}

/// The place of a view among the tabs.
pub open spec fn view_index(view: View) -> int {
    match view {
        View::Dashboard => 0,
        View::Statistics => 1,
        View::Configuration => 2,
    }
}

impl View {
    /// The title of the view.
    pub fn title(&self) -> (title: &'static str)
        ensures
            title@ == match self {
                View::Dashboard => "Dashboard"@,
                View::Statistics => "Statistics"@,
                View::Configuration => "Configuration"@,
            },
    {
        match self {
            View::Dashboard => "Dashboard",
            View::Statistics => "Statistics",
            View::Configuration => "Configuration",
        }
    }

    /// The icon of the view.
    pub fn icon(&self) -> (icon: &'static str)
        ensures
            icon@ == match self {
                View::Dashboard => "📊"@,
                View::Statistics => "📈"@,
                View::Configuration => "⚙️"@,
            },
    {
        match self {
            View::Dashboard => "📊",
            View::Statistics => "📈",
            View::Configuration => "⚙️",
        }
    }

    /// All views, in the order of their tabs.
    pub fn all() -> (views: Vec<View>)
        ensures
            views@ == all_views(),
    {
        let mut views: Vec<View> = Vec::new();
        views.push(View::Dashboard);
        views.push(View::Statistics);
        views.push(View::Configuration);
        assert(views@ =~= all_views());
        views
    }

    /// The view of the next tab; after the last tab comes the first.
    pub fn next(self) -> (view: View)
        ensures
            view == all_views()[(view_index(self) + 1) % 3],
    {
        match self {
            View::Dashboard => View::Statistics,
            View::Statistics => View::Configuration,
            View::Configuration => View::Dashboard,
        }
    }

    /// The view of the tab before; before the first tab comes the last.
    pub fn previous(self) -> (view: View)
        ensures
            view == all_views()[(view_index(self) + 2) % 3],
    {
        match self {
            View::Dashboard => View::Configuration,
            View::Statistics => View::Dashboard,
            View::Configuration => View::Statistics,
        }
    }
}

/// A key, as far as the dashboard tells keys apart.
#[derive(Debug, Clone, Copy, PartialEq, Eq, Structural)]
pub enum Key {
    /// A character key.
    Char(char),
    /// The escape key.
    Esc,
    /// The arrow down.
    Down,
    /// The arrow up.
    Up,
    /// Any other key.
    Other,
}

/// The state of the dashboard.
#[derive(Debug, Clone, PartialEq, Eq)]
pub struct App {
    /// Set when the dashboard is to close.
    pub should_quit: bool,
    /// The row that is selected.
    pub selected_index: usize,
    /// The first row that is shown.
    pub scroll_offset: usize,
    /// The view that is shown.
    pub current_view: View,
    /// Whether the help is shown.
    pub show_help: bool,
    /// Whether the bar of statistics is shown.
    pub show_stats_bar: bool,
    /// What is searched for.
    pub search_query: String,
    /// Whether a search is being typed.
    pub is_searching: bool,
}

/// An [`App`] as plain values.
pub struct AppModel {
    pub should_quit: bool,
    pub selected_index: usize,
    pub scroll_offset: usize,
    pub current_view: View,
    pub show_help: bool,
    pub show_stats_bar: bool,
    pub search_query: Seq<char>,
    pub is_searching: bool,
}

impl vstd::view::View for App {
    type V = AppModel;

    open spec fn view(&self) -> AppModel {
        AppModel {
            should_quit: self.should_quit,
            selected_index: self.selected_index,
            scroll_offset: self.scroll_offset,
            current_view: self.current_view,
            show_help: self.show_help,
            show_stats_bar: self.show_stats_bar,
            search_query: self.search_query@,
            is_searching: self.is_searching,
        }
    }
}

/// The row that is selected after a step down in a list of `max` rows: the
/// next row, but never past the last one.
pub open spec fn step_down(selected: usize, max: usize) -> usize {
    if max == 0 {
        selected
    } else if selected + 1 <= max - 1 {
        (selected + 1) as usize
    } else {
        (max - 1) as usize
    }
}

/// What a key does to the state: `q`, escape, and `c` with the control
/// key close the dashboard; the arrow down and `j` step down; the arrow up
/// and `k` step up; every other key does nothing.
pub open spec fn after_key(app: AppModel, key: Key, control: bool, rows: usize) -> AppModel {
    match key {
        Key::Char('q') => AppModel { should_quit: true, ..app },
        Key::Esc => AppModel { should_quit: true, ..app },
        Key::Char('c') => if control {
            AppModel { should_quit: true, ..app }
        } else {
            app
        },
        Key::Down => AppModel { selected_index: step_down(app.selected_index, rows), ..app },
        Key::Char('j') => AppModel { selected_index: step_down(app.selected_index, rows), ..app },
        Key::Up => AppModel {
            selected_index: if app.selected_index > 0 {
                (app.selected_index - 1) as usize
            } else {
                0
            },
            ..app
        },
        Key::Char('k') => AppModel {
            selected_index: if app.selected_index > 0 {
                (app.selected_index - 1) as usize
            } else {
                0
            },
            ..app
        },
        _ => app,
    }
}

impl App {
    /// The state at the start: the first row of the first view, the bar of
    /// statistics shown, no help, no search.
    pub fn new() -> (app: App)
        ensures
            app@ == (AppModel {
                should_quit: false,
                selected_index: 0,
                scroll_offset: 0,
                current_view: View::Dashboard,
                show_help: false,
                show_stats_bar: true,
                search_query: Seq::empty(),
                is_searching: false,
            }),
    {
        App {
            should_quit: false,
            selected_index: 0,
            scroll_offset: 0,
            current_view: View::Dashboard,
            show_help: false,
            show_stats_bar: true,
            search_query: String::new(),
            is_searching: false,
        }
    }

    /// Asks the dashboard to close.
    pub fn quit(&mut self)
        ensures
            final(self)@ == (AppModel { should_quit: true, ..old(self)@ }),
    {
        self.should_quit = true;
    }

    /// Selects the next row of `max` rows, if there is one.
    pub fn next(&mut self, max: usize)
        ensures
            final(self)@ == (AppModel {
                selected_index: step_down(old(self)@.selected_index, max),
                ..old(self)@
            }),
    {
        if max > 0 {
            if self.selected_index < max - 1 {
                self.selected_index = self.selected_index + 1;
            } else {
                self.selected_index = max - 1;
            }
        }
    }

    /// Selects the row before, if there is one.
    pub fn previous(&mut self)
        ensures
            final(self)@ == (AppModel {
                selected_index: if old(self)@.selected_index > 0 {
                    (old(self)@.selected_index - 1) as usize
                } else {
                    0
                },
                ..old(self)@
            }),
    {
        if self.selected_index > 0 {
            self.selected_index -= 1;
        }
    }

    /// Shows the next view, with its first row selected.
    pub fn next_view(&mut self)
        ensures
            final(self)@ == (AppModel {
                current_view: all_views()[(view_index(old(self)@.current_view) + 1) % 3],
                selected_index: 0,
                ..old(self)@
            }),
    {
        self.current_view = self.current_view.next();
        self.selected_index = 0;
    }

    /// Shows the view before, with its first row selected.
    pub fn previous_view(&mut self)
        ensures
            final(self)@ == (AppModel {
                current_view: all_views()[(view_index(old(self)@.current_view) + 2) % 3],
                selected_index: 0,
                ..old(self)@
            }),
    {
        self.current_view = self.current_view.previous();
        self.selected_index = 0;
    }

    /// Shows the help if it is hidden, hides it if it is shown.
    pub fn toggle_help(&mut self)
        ensures
            final(self)@ == (AppModel { show_help: !old(self)@.show_help, ..old(self)@ }),
    {
        self.show_help = !self.show_help;
    }

    /// Shows the bar of statistics if it is hidden, hides it if it is
    /// shown.
    pub fn toggle_stats_bar(&mut self)
        ensures
            final(self)@ == (AppModel { show_stats_bar: !old(self)@.show_stats_bar, ..old(self)@ }),
    {
        self.show_stats_bar = !self.show_stats_bar;
    }

    /// Begins a search with nothing typed.
    pub fn start_search(&mut self)
        ensures
            final(self)@ == (AppModel {
                is_searching: true,
                search_query: Seq::empty(),
                ..old(self)@
            }),
    {
        self.is_searching = true;
        self.search_query = String::new();
    }

    /// Ends the search and forgets what was typed.
    pub fn cancel_search(&mut self)
        ensures
            final(self)@ == (AppModel {
                is_searching: false,
                search_query: Seq::empty(),
                ..old(self)@
            }),
    {
        self.is_searching = false;
        self.search_query = String::new();
    }

    /// Adds a character to what is searched for.
    pub fn append_to_search(&mut self, c: char)
        ensures
            final(self)@ == (AppModel {
                search_query: old(self)@.search_query.push(c),
                ..old(self)@
            }),
    {
        self.search_query.push(c);
    }

    /// Takes the last character off what is searched for, if there is
    /// one.
    pub fn backspace_search(&mut self)
        ensures
            final(self)@ == (AppModel {
                search_query: if old(self)@.search_query.len() > 0 {
                    old(self)@.search_query.drop_last()
                } else {
                    old(self)@.search_query
                },
                ..old(self)@
            }),
    {
        let _ = self.search_query.pop();
    }

    /// Takes a key, with the control key held or not, in a list of `rows`
    /// rows.
    pub fn handle_key_event(&mut self, key: Key, control: bool, rows: usize)
        ensures
            final(self)@ == after_key(old(self)@, key, control, rows),
    {
        match key {
            Key::Char(c) => {
                if c == 'q' {
                    self.quit();
                } else if c == 'c' {
                    if control {
                        self.quit();
                    }
                } else if c == 'j' {
                    self.next(rows);
                } else if c == 'k' {
                    self.previous();
                }
            },
            Key::Esc => {
                self.quit();
            },
            Key::Down => {
                self.next(rows);
            },
            Key::Up => {
                self.previous();
            },
            Key::Other => {},
        }
    }
}

/// When the dashboard reads the network anew.
#[derive(Debug, Clone, Copy, PartialEq, Eq)]
pub struct Dashboard {
    /// When the network was last read, in milliseconds of a clock that
    /// the program around the dashboard keeps.
    pub last_update: u64,
    /// How long a reading is good for, in milliseconds.
    pub refresh_rate: u64,
}

impl Dashboard {
    /// A dashboard that was read at `now` and reads anew every second.
    pub fn new(now: u64) -> (dashboard: Dashboard)
        ensures
            dashboard.last_update == now,
            dashboard.refresh_rate == 1000,
    {
        Dashboard { last_update: now, refresh_rate: 1000 }
    }

    /// True when the last reading is older at `now` than a reading is
    /// good for. A clock that went back counts as no time gone by.
    pub fn should_refresh(&self, now: u64) -> (due: bool)
        ensures
            due == (if now >= self.last_update {
                now - self.last_update >= self.refresh_rate
            } else {
                self.refresh_rate == 0
            }),
    {
        let elapsed: u64 = if now >= self.last_update {
            now - self.last_update
        } else {
            0
        };
        elapsed >= self.refresh_rate
    }

    /// Notes that the network was read at `now`.
    pub fn mark_refreshed(&mut self, now: u64)
        ensures
            final(self).last_update == now,
            final(self).refresh_rate == old(self).refresh_rate,
    {
        self.last_update = now;
    }
}

} // verus!
