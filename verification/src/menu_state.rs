//! The session's screen states: exactly one is live at any instant, and
//! every transition moves the whole state by value, so no field of a
//! previous screen survives except what the new screen took over.

use vstd::prelude::*;

use crate::anime::{anime_wf, catalog_wf, Anime};
use crate::config::{config_wf, Config};
use crate::episodes::strictly_ascending;
use crate::fetch::ListQueryState;
use crate::search::{SearchState, MAX_QUERY};

verus! {

/// The modal popup on the episode screen while a launch is in flight; the
/// payload is the episode number in hundredths.
#[derive(Clone, Copy, PartialEq, Eq, Structural, Debug)]
pub enum PopupState {
    Hidden,
    Syncplay(u64),
    Download(u64),
    Mpv(u64),
}

/// The active screen and the data it owns.
pub enum MenuState {
    MainMenu { anime_list: ListQueryState, should_draw_popup: bool },
    Search {
        anime_list: Vec<Anime>,
        search_state: SearchState,
        query: Vec<char>,
        anime_state: Option<usize>,
        filtered_list: Vec<Anime>,
    },
    Episodes {
        anime_list: Vec<Anime>,
        anime: Anime,
        episodes: Vec<u64>,
        state: usize,
        popup_state: PopupState,
    },
    Options { anime_list: ListQueryState, old_config: Config, state: usize },
}

/// A fetch handle held by a live screen: never the consumed placeholder,
/// and a delivered catalog is well formed.
pub open spec fn handle_live(h: ListQueryState) -> bool {
    match h {
        ListQueryState::Transitioning => false,
        ListQueryState::Obtaining(_) => true,
        ListQueryState::Obtained(catalog) => catalog_wf(catalog.deep_view()),
    }
}

/// Well-formedness of the live screen state.
pub open spec fn menu_wf(s: MenuState) -> bool {
    match s {
        MenuState::MainMenu { anime_list, should_draw_popup } => handle_live(anime_list),
        MenuState::Search { anime_list, search_state, query, anime_state, filtered_list } => {
            &&& catalog_wf(anime_list.deep_view())
            &&& catalog_wf(filtered_list.deep_view())
            &&& query@.len() <= MAX_QUERY
        },
        MenuState::Episodes { anime_list, anime, episodes, state, popup_state } => {
            &&& catalog_wf(anime_list.deep_view())
            &&& anime_wf(anime@)
            &&& strictly_ascending(episodes@)
        },
        MenuState::Options { anime_list, old_config, state } => {
            &&& handle_live(anime_list)
            &&& config_wf(old_config)
        },
    }
}

/// Exactly one screen variant is live at any instant: the four variants
/// are exhaustive and mutually exclusive.
pub proof fn lemma_exactly_one_screen(s: MenuState)
    ensures
        s is MainMenu || s is Search || s is Episodes || s is Options,
        s is MainMenu ==> !(s is Search) && !(s is Episodes) && !(s is Options),
        s is Search ==> !(s is MainMenu) && !(s is Episodes) && !(s is Options),
        s is Episodes ==> !(s is MainMenu) && !(s is Search) && !(s is Options),
        s is Options ==> !(s is MainMenu) && !(s is Search) && !(s is Episodes),
{
}

} // verus!
