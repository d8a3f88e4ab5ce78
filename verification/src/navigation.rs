//! Where the user is in the application.

use vstd::prelude::*;
use crate::clock::elapsed_ms;

verus! {

/// The time between two repaints with the GPU renderer, in microseconds.
pub const REPAINT_INTERVAL_GPU_MICROS: u64 = 8333;

/// The time between two repaints with the CPU renderer while something
/// loads or a toast is shown, in microseconds.
pub const REPAINT_INTERVAL_CPU_ACTIVE: u64 = 33333;

/// The time between two repaints with the CPU renderer while nothing
/// happens, in microseconds.
pub const REPAINT_INTERVAL_CPU_IDLE: u64 = 50000;

/// The number of items on a page of a grid.
pub const GRID_PAGE_SIZE: usize = 12;

/// The shortest time that the splash screen is shown, in seconds.
pub const SPLASH_MIN_DURATION_SECS: u64 = 2;

/// The time between two looks at whether the splash screen can end, in
/// milliseconds.
pub const SPLASH_CHECK_INTERVAL_MILLIS: u64 = 100;

/// The screen that is shown.
#[derive(Clone, Copy, Debug, PartialEq, Eq, Structural)]
pub enum AppScreen {
    Splash,
    Main,
}

/// The tab of the main screen.
#[derive(Clone, Copy, Debug, PartialEq, Eq, Structural)]
pub enum MainTab {
    Home,
    NowPlaying,
    Search,
    History,
    Suggestions,
    Likes,
    Playlists,
}

/// What the user interface keeps of its own state, its pictures apart.
#[derive(Debug)]
pub struct UIState {
    pub screen: AppScreen,
    pub selected_tab: MainTab,
    pub artwork_loading: bool,
    pub last_playback_error: Option<String>,
    pub show_volume_popup: bool,
    pub is_shutting_down: bool,
    pub is_seeking: bool,
    /// The position that a seek in progress goes to, in milliseconds.
    pub seek_target_pos_ms: Option<u64>,
    pub queue_collapsed: bool,
    /// The wall-clock reading at which the splash screen came up.
    pub splash_start_ms: Option<u64>,
    /// The shortest time that the splash screen is shown.
    pub splash_min_duration_ms: u64,
}

impl UIState {
    /// True if the splash screen has not been up for its shortest time at
    /// `now`.
    pub open spec fn splash_active_at(&self, now: u64) -> bool {
        self.splash_start_ms matches Some(start) && elapsed_ms(start, now)
            < self.splash_min_duration_ms
    }

    /// The splash screen, come up at `now_ms`, with the home tab behind
    /// it.
    pub fn new(now_ms: u64, splash_min_duration_ms: u64) -> (ui: UIState)
        ensures
            ui.screen == AppScreen::Splash,
            ui.selected_tab == MainTab::Home,
            !ui.artwork_loading,
            ui.last_playback_error is None,
            !ui.show_volume_popup,
            !ui.is_shutting_down,
            !ui.is_seeking,
            ui.seek_target_pos_ms is None,
            !ui.queue_collapsed,
            ui.splash_start_ms == Some(now_ms),
            ui.splash_min_duration_ms == splash_min_duration_ms,
    {
        UIState {
            screen: AppScreen::Splash,
            selected_tab: MainTab::Home,
            artwork_loading: false,
            last_playback_error: None,
            show_volume_popup: false,
            is_shutting_down: false,
            is_seeking: false,
            seek_target_pos_ms: None,
            queue_collapsed: false,
            splash_start_ms: Some(now_ms),
            splash_min_duration_ms,
        }
    }

    /// Whether the splash screen is still to be shown.
    pub fn is_splash_active(&self, now_ms: u64) -> (active: bool)
        ensures
            active == self.splash_active_at(now_ms),
    {
        match self.splash_start_ms {
            Some(start) => now_ms.saturating_sub(start) < self.splash_min_duration_ms,
            None => false,
        }
    }

    /// Whether the splash screen gives way to the main screen: with a
    /// valid token, once the splash screen has been up for its shortest
    /// time.
    pub fn splash_can_end(&self, has_valid_token: bool, now_ms: u64) -> (end: bool)
        ensures
            end == (has_valid_token && !self.splash_active_at(now_ms)),
    {
        has_valid_token && !self.is_splash_active(now_ms)
    }

    /// Goes from the splash screen to the main screen.
    pub fn transition_to_main(&mut self)
        ensures
            final(self).screen == AppScreen::Main,
            final(self).splash_start_ms is None,
            final(self).selected_tab == old(self).selected_tab,
            final(self).artwork_loading == old(self).artwork_loading,
            final(self).last_playback_error == old(self).last_playback_error,
            final(self).show_volume_popup == old(self).show_volume_popup,
            final(self).is_shutting_down == old(self).is_shutting_down,
            final(self).is_seeking == old(self).is_seeking,
            final(self).seek_target_pos_ms == old(self).seek_target_pos_ms,
            final(self).queue_collapsed == old(self).queue_collapsed,
            final(self).splash_min_duration_ms == old(self).splash_min_duration_ms,
    {
        self.screen = AppScreen::Main;
        self.splash_start_ms = None;
    }

    /// Takes note of a seek that the user has asked for.
    pub fn begin_seek(&mut self, position_ms: u64)
        ensures
            final(self).is_seeking,
            final(self).seek_target_pos_ms == Some(position_ms),
            final(self).screen == old(self).screen,
            final(self).selected_tab == old(self).selected_tab,
            final(self).artwork_loading == old(self).artwork_loading,
            final(self).last_playback_error == old(self).last_playback_error,
            final(self).show_volume_popup == old(self).show_volume_popup,
            final(self).is_shutting_down == old(self).is_shutting_down,
            final(self).queue_collapsed == old(self).queue_collapsed,
            final(self).splash_start_ms == old(self).splash_start_ms,
            final(self).splash_min_duration_ms == old(self).splash_min_duration_ms,
    {
        self.is_seeking = true;
        self.seek_target_pos_ms = Some(position_ms);
    }
}

/// The time between two repaints, in microseconds: short with the GPU
/// renderer; with the CPU renderer longer, and longest while nothing
/// loads and no toast is shown.
pub fn repaint_interval_micros(gpu: bool, active: bool) -> (micros: u64)
    ensures
        micros == (if gpu {
            REPAINT_INTERVAL_GPU_MICROS
        } else if active {
            REPAINT_INTERVAL_CPU_ACTIVE
        } else {
            REPAINT_INTERVAL_CPU_IDLE
        }),
{
    if gpu {
        REPAINT_INTERVAL_GPU_MICROS
    } else if active {
        REPAINT_INTERVAL_CPU_ACTIVE
    } else {
        REPAINT_INTERVAL_CPU_IDLE
    }
}

/// The items of page `page` of a list of `total` items, `page_size` to a
/// page: the place of the first and the place after the last. There is no
/// such page if the list ends before it.
pub fn page_bounds(page: usize, page_size: usize, total: usize) -> (bounds: Option<(usize, usize)>)
    ensures
        match bounds {
            Some((start, end)) => {
                &&& start == page * page_size
                &&& start < total
                &&& end == (if start + page_size <= total {
                    start + page_size
                } else {
                    total as int
                })
            },
            None => page * page_size >= total,
        },
{
    let start = match page.checked_mul(page_size) {
        Some(start) => start,
        None => {
            return None;
        },
    };
    if start >= total {
        return None;
    }
    let end = if page_size <= total - start {
        start + page_size
    } else {
        total
    };
    Some((start, end))
}

} // verus!
