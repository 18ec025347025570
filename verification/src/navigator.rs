//! The session navigator: a finite state machine over the screen states.
//!
//! Each step consumes the navigator by value, takes one event — a key
//! press or the completion of outside work — and returns the next
//! navigator together with the one effect the surrounding process must
//! perform: spawn or join the background fetch, load episodes or mirrors,
//! run a launch, persist the configuration, or show a notification. The
//! navigator itself never blocks and never touches the outside world.

use vstd::prelude::*;

use crate::anime::{
    anime_wf, clone_animes, other_scraper, sanitize_catalog, Anime, AnimeView,
    ScraperImpl,
};
use crate::config::{config_wf, Config};
use crate::episodes::{normalize_episodes, same_values, strictly_ascending};
use crate::fetch::{FetchTicket, ListQueryState, StateError};
use crate::launcher::{filter_whitelisted, mirror_whitelisted, LaunchKind};
use crate::menu_state::{menu_wf, MenuState, PopupState};
use crate::search::{filter_animes, filter_post, SearchState, MAX_QUERY};

verus! {

/// One key press, as the terminal reports it.
#[derive(Clone, Copy, PartialEq, Eq, Structural, Debug)]
pub enum Key {
    Up,
    Down,
    Left,
    Right,
    Enter,
    Esc,
    Backspace,
    Char(char),
}

/// Completion of outside work the navigator asked for.
#[derive(Debug)]
pub enum TaskEvent {
    /// The background catalog fetch delivered its entries.
    FetchReady(Vec<Anime>),
    /// The episode list for the chosen entry arrived (raw, in hundredths).
    EpisodesReady(Vec<u64>),
    /// The episode list could not be retrieved.
    EpisodesFailed,
    /// The mirror list for the chosen episode arrived.
    MirrorsReady(Vec<String>),
    /// The mirror list could not be retrieved.
    MirrorsFailed,
    /// The launch over the whitelisted mirrors finished.
    LaunchFinished(bool),
}

/// A fetch the surrounding process must start, keyed by its ticket.
#[derive(Clone, Copy, PartialEq, Eq, Structural, Debug)]
pub struct FetchSpawn {
    pub backend: ScraperImpl,
    pub ticket: FetchTicket,
}

/// The one piece of outside work a step asks for.
#[derive(Debug)]
pub enum Effect {
    /// Nothing to do.
    NoOp,
    /// Join the background fetch with this ticket and reply `FetchReady`.
    ConsumeFetch(FetchTicket),
    /// Start a background catalog fetch.
    StartFetch(FetchSpawn),
    /// Load the episode list for this slug; reply `EpisodesReady` or
    /// `EpisodesFailed`.
    LoadEpisodes(String),
    /// Load the mirror list for this slug and episode; reply
    /// `MirrorsReady` or `MirrorsFailed`.
    LoadMirrors(String, u64),
    /// Attempt these whitelisted mirrors in order, stopping at the first
    /// success; reply `LaunchFinished`.
    Launch(Vec<String>, LaunchKind),
    /// Persist the configuration and, on a backend change, start the
    /// fresh fetch.
    SaveConfig { config: Config, refetch: Option<FetchSpawn> },
    /// Tell the user an episode or mirror lookup failed.
    NotifyLookupFailure,
    /// Tell the user no whitelisted mirror could be launched.
    NotifyLaunchFailure(LaunchKind),
}

/// The session navigator.
pub struct Navigator {
    /// The loop runs while this holds.
    pub running: bool,
    /// The current configuration, including staged option edits.
    pub config: Config,
    /// The live screen.
    pub menu_state: MenuState,
    /// Which main-menu entry is highlighted (0 search, 1 options, 2 exit).
    pub main_menu_selection: usize,
    /// The id the next fetch ticket will use.
    pub next_ticket: u64,
    /// The host substrings a mirror must name to be launched.
    pub whitelist: Vec<String>,
}

/// Well-formedness of the whole navigator.
pub open spec fn nav_wf(n: Navigator) -> bool {
    &&& config_wf(n.config)
    &&& menu_wf(n.menu_state)
    &&& n.main_menu_selection < 3
}

/// The id following `t`, cycling at the numeric bound.
pub open spec fn next_id(t: u64) -> u64 {
    if t == u64::MAX {
        0
    } else {
        (t + 1) as u64
    }
}

impl Navigator {
    /// Opens a session: the main menu, with the initial catalog fetch
    /// already requested from the surrounding process.
    pub fn new(config: Config, whitelist: Vec<String>) -> (r: (Navigator, Effect))
        requires
            config_wf(config),
        ensures
            nav_wf(r.0),
            r.0.running,
            r.0.config == config,
            r.0.whitelist == whitelist,
            r.0.main_menu_selection == 0,
            r.0.next_ticket == 1,
            r.0.menu_state matches MenuState::MainMenu { anime_list, should_draw_popup }
                && anime_list == ListQueryState::Obtaining(FetchTicket { id: 0 })
                && !should_draw_popup,
            r.1 matches Effect::StartFetch(s) && s == (FetchSpawn {
                backend: config.scraper,
                ticket: FetchTicket { id: 0 },
            }),
    {
        let nav = Navigator {
            running: true,
            config,
            menu_state: MenuState::MainMenu {
                anime_list: ListQueryState::Obtaining(FetchTicket { id: 0 }),
                should_draw_popup: false,
            },
            main_menu_selection: 0,
            next_ticket: 1,
            whitelist,
        };
        let effect = Effect::StartFetch(
            FetchSpawn { backend: config.scraper, ticket: FetchTicket { id: 0 } },
        );
        (nav, effect)
    }
}

/// The highlight one step up, stopping at the top.
pub open spec fn sel_up(s: usize) -> usize {
    if s > 0 {
        (s - 1) as usize
    } else {
        0
    }
}

/// The highlight one step down, stopping at the last of `count` entries.
pub open spec fn sel_down(s: usize, count: usize) -> usize {
    if s + 1 < count {
        (s + 1) as usize
    } else if count > 0 {
        (count - 1) as usize
    } else {
        0
    }
}

/// A freshly entered search screen: it owns the catalog, the query is
/// empty, the first entry is highlighted, and the ranked list shows the
/// whole catalog.
pub open spec fn seeded_search(catalog: Seq<AnimeView>, s: MenuState) -> bool {
    &&& s is Search
    &&& s->Search_anime_list.deep_view() == catalog
    &&& s->Search_search_state == SearchState::Searching
    &&& s->Search_query@.len() == 0
    &&& s->Search_anime_state == Some(0usize)
    &&& s->Search_filtered_list.deep_view() == catalog
}

/// Every field but the screen state is carried over unchanged.
pub open spec fn same_outside_menu(pre: Navigator, post: Navigator) -> bool {
    &&& post.running == pre.running
    &&& post.config == pre.config
    &&& post.main_menu_selection == pre.main_menu_selection
    &&& post.next_ticket == pre.next_ticket
    &&& post.whitelist == pre.whitelist
}

/// The main-menu row of the transition table.
pub open spec fn main_menu_post(pre: Navigator, key: Key, post: Navigator, eff: Effect) -> bool {
    let anime_list = pre.menu_state->MainMenu_anime_list;
    if key == Key::Up || key == Key::Char('k') {
        eff is NoOp && post == Navigator {
            main_menu_selection: sel_up(pre.main_menu_selection),
            ..pre
        }
    } else if key == Key::Down || key == Key::Char('j') {
        eff is NoOp && post == Navigator {
            main_menu_selection: sel_down(pre.main_menu_selection, 3),
            ..pre
        }
    } else if key == Key::Right || key == Key::Char('l') || key == Key::Enter {
        if pre.main_menu_selection == 0 {
            // confirm "search": consume or seed
            match anime_list {
                ListQueryState::Obtaining(t) => {
                    &&& eff == Effect::ConsumeFetch(t)
                    &&& post == Navigator {
                        menu_state: MenuState::MainMenu {
                            anime_list: ListQueryState::Obtaining(t),
                            should_draw_popup: true,
                        },
                        ..pre
                    }
                },
                ListQueryState::Obtained(catalog) => {
                    &&& eff is NoOp
                    &&& same_outside_menu(pre, post)
                    &&& seeded_search(catalog.deep_view(), post.menu_state)
                },
                ListQueryState::Transitioning => false,
            }
        } else if pre.main_menu_selection == 1 {
            // confirm "options": the handle travels along
            eff is NoOp && post == Navigator {
                menu_state: MenuState::Options {
                    anime_list: anime_list,
                    old_config: pre.config,
                    state: 0,
                },
                ..pre
            }
        } else {
            // confirm "exit"
            eff is NoOp && post == Navigator { running: false, ..pre }
        }
    } else if key == Key::Left || key == Key::Char('h') || key == Key::Esc {
        eff is NoOp && post == Navigator { running: false, ..pre }
    } else {
        eff is NoOp && post == pre
    }
}

/// The search-screen row of the transition table.
pub open spec fn search_post(pre: Navigator, key: Key, post: Navigator, eff: Effect) -> bool {
    let al = pre.menu_state->Search_anime_list;
    let ss = pre.menu_state->Search_search_state;
    let q = pre.menu_state->Search_query;
    let sel = pre.menu_state->Search_anime_state;
    let fl = pre.menu_state->Search_filtered_list;
    if ss == SearchState::Searching {
        if key == Key::Esc {
            // back to the main menu; the catalog is conserved
            eff is NoOp && post == Navigator {
                menu_state: MenuState::MainMenu {
                    anime_list: ListQueryState::Obtained(al),
                    should_draw_popup: false,
                },
                ..pre
            }
        } else if key == Key::Enter {
            eff is NoOp && post == Navigator {
                menu_state: MenuState::Search {
                    anime_list: al,
                    search_state: SearchState::Choosing,
                    query: q,
                    anime_state: sel,
                    filtered_list: fl,
                },
                ..pre
            }
        } else if key == Key::Backspace {
            if q@.len() > 0 {
                &&& eff is NoOp
                &&& same_outside_menu(pre, post)
                &&& edited_search(al, q@.drop_last(), post.menu_state)
            } else {
                eff is NoOp && post == pre
            }
        } else if key matches Key::Char(c) {
            if q@.len() < MAX_QUERY {
                &&& eff is NoOp
                &&& same_outside_menu(pre, post)
                &&& edited_search(al, q@.push(key->Char_0), post.menu_state)
            } else {
                eff is NoOp && post == pre
            }
        } else {
            eff is NoOp && post == pre
        }
    } else {
        if key == Key::Up || key == Key::Char('k') {
            let sel2 = match sel {
                Some(i) => Some(sel_up(i)),
                None => Some(0usize),
            };
            eff is NoOp && post == Navigator {
                menu_state: MenuState::Search {
                    anime_list: al,
                    search_state: ss,
                    query: q,
                    anime_state: sel2,
                    filtered_list: fl,
                },
                ..pre
            }
        } else if key == Key::Down || key == Key::Char('j') {
            let sel2 = match sel {
                Some(i) => Some(sel_down(i, fl@.len() as usize)),
                None => Some(0usize),
            };
            eff is NoOp && post == Navigator {
                menu_state: MenuState::Search {
                    anime_list: al,
                    search_state: ss,
                    query: q,
                    anime_state: sel2,
                    filtered_list: fl,
                },
                ..pre
            }
        } else if key == Key::Right || key == Key::Char('l') || key == Key::Enter {
            // confirm the highlighted entry: ask for its episode list and
            // wait for the reply in place
            if sel matches Some(i) && i < fl@.len() {
                &&& eff matches Effect::LoadEpisodes(slug) && slug@ == fl.deep_view()[
                    sel->0 as int
                ].names[1]
                &&& post == pre
            } else {
                eff is NoOp && post == pre
            }
        } else if key == Key::Left || key == Key::Char('h') || key == Key::Esc {
            eff is NoOp && post == Navigator {
                menu_state: MenuState::Search {
                    anime_list: al,
                    search_state: SearchState::Searching,
                    query: q,
                    anime_state: Some(0usize),
                    filtered_list: fl,
                },
                ..pre
            }
        } else {
            eff is NoOp && post == pre
        }
    }
}

/// A search screen right after a query edit: the catalog is conserved,
/// the query reads `q2`, the highlight is reset (cleared on an empty
/// query), and the ranked list is recomputed for `q2`.
pub open spec fn edited_search(al: Vec<Anime>, q2: Seq<char>, s: MenuState) -> bool {
    &&& s is Search
    &&& s->Search_anime_list == al
    &&& s->Search_search_state == SearchState::Searching
    &&& s->Search_query@ == q2
    &&& s->Search_anime_state == if q2.len() == 0 {
        Option::<usize>::None
    } else {
        Some(0usize)
    }
    &&& filter_post(al.deep_view(), q2, s->Search_filtered_list.deep_view())
}

/// The external program a popup stands for.
pub open spec fn popup_kind(p: PopupState) -> LaunchKind {
    match p {
        PopupState::Syncplay(_) => LaunchKind::SyncViewer,
        PopupState::Download(_) => LaunchKind::Downloader,
        PopupState::Mpv(_) => LaunchKind::Viewer,
        PopupState::Hidden => LaunchKind::Viewer,
    }
}

/// The episode-screen row of the transition table.
pub open spec fn episodes_post(pre: Navigator, key: Key, post: Navigator, eff: Effect) -> bool {
    let al = pre.menu_state->Episodes_anime_list;
    let anime = pre.menu_state->Episodes_anime;
    let eps = pre.menu_state->Episodes_episodes;
    let st = pre.menu_state->Episodes_state;
    let popup = pre.menu_state->Episodes_popup_state;
    if key == Key::Up || key == Key::Char('k') {
        eff is NoOp && post == Navigator {
            menu_state: MenuState::Episodes {
                anime_list: al,
                anime: anime,
                episodes: eps,
                state: sel_up(st),
                popup_state: popup,
            },
            ..pre
        }
    } else if key == Key::Down || key == Key::Char('j') {
        eff is NoOp && post == Navigator {
            menu_state: MenuState::Episodes {
                anime_list: al,
                anime: anime,
                episodes: eps,
                state: sel_down(st, eps@.len() as usize),
                popup_state: popup,
            },
            ..pre
        }
    } else if key == Key::Char('s') || key == Key::Char('d') || key == Key::Right || key
        == Key::Char('l') || key == Key::Enter {
        // start a launch for the highlighted episode, unless one is
        // already in flight
        if popup == PopupState::Hidden && st < eps@.len() {
            let episode = eps@[st as int];
            let popup2 = if key == Key::Char('s') {
                PopupState::Syncplay(episode)
            } else if key == Key::Char('d') {
                PopupState::Download(episode)
            } else {
                PopupState::Mpv(episode)
            };
            &&& eff matches Effect::LoadMirrors(slug, ep) && slug@ == anime@.names[1] && ep
                == episode
            &&& post == Navigator {
                menu_state: MenuState::Episodes {
                    anime_list: al,
                    anime: anime,
                    episodes: eps,
                    state: st,
                    popup_state: popup2,
                },
                ..pre
            }
        } else {
            eff is NoOp && post == pre
        }
    } else if key == Key::Left || key == Key::Char('h') || key == Key::Esc {
        // back to searching; the catalog is conserved
        &&& eff is NoOp
        &&& same_outside_menu(pre, post)
        &&& post.menu_state is Search
        &&& post.menu_state->Search_anime_list == al
        &&& seeded_search(al.deep_view(), post.menu_state)
    } else {
        eff is NoOp && post == pre
    }
}

/// The options-screen row of the transition table.
pub open spec fn options_post(pre: Navigator, key: Key, post: Navigator, eff: Effect) -> bool {
    let al = pre.menu_state->Options_anime_list;
    let old_config = pre.menu_state->Options_old_config;
    let st = pre.menu_state->Options_state;
    if key == Key::Up || key == Key::Char('k') {
        eff is NoOp && post == Navigator {
            menu_state: MenuState::Options { anime_list: al, old_config, state: sel_up(st) },
            ..pre
        }
    } else if key == Key::Down || key == Key::Char('j') {
        eff is NoOp && post == Navigator {
            menu_state: MenuState::Options { anime_list: al, old_config, state: sel_down(st, 2) },
            ..pre
        }
    } else if key == Key::Right || key == Key::Char('l') {
        let cfg2 = if st == 0 {
            Config { scraper: other_scraper(pre.config.scraper), ..pre.config }
        } else {
            Config {
                pages: if pre.config.pages < crate::config::MAX_PAGES {
                    (pre.config.pages + 1) as usize
                } else {
                    crate::config::MAX_PAGES
                },
                ..pre.config
            }
        };
        eff is NoOp && post == Navigator { config: cfg2, ..pre }
    } else if key == Key::Left || key == Key::Char('h') {
        let cfg2 = if st == 0 {
            Config { scraper: other_scraper(pre.config.scraper), ..pre.config }
        } else {
            Config {
                pages: if pre.config.pages > crate::config::MIN_PAGES {
                    (pre.config.pages - 1) as usize
                } else {
                    crate::config::MIN_PAGES
                },
                ..pre.config
            }
        };
        eff is NoOp && post == Navigator { config: cfg2, ..pre }
    } else if key == Key::Enter {
        // persist; a backend change discards catalog and handle and
        // starts a fresh fetch, otherwise both are carried forward
        if pre.config.scraper != old_config.scraper {
            let ticket = FetchTicket { id: pre.next_ticket };
            &&& eff == Effect::SaveConfig {
                config: pre.config,
                refetch: Some(FetchSpawn { backend: pre.config.scraper, ticket }),
            }
            &&& post == Navigator {
                menu_state: MenuState::MainMenu {
                    anime_list: ListQueryState::Obtaining(ticket),
                    should_draw_popup: false,
                },
                next_ticket: next_id(pre.next_ticket),
                ..pre
            }
        } else {
            &&& eff == Effect::SaveConfig { config: pre.config, refetch: None }
            &&& post == Navigator {
                menu_state: MenuState::MainMenu { anime_list: al, should_draw_popup: false },
                ..pre
            }
        }
    } else if key == Key::Esc || key == Key::Char('q') {
        // cancel: restore the prior configuration, keep catalog and
        // handle untouched
        eff is NoOp && post == Navigator {
            config: old_config,
            menu_state: MenuState::MainMenu { anime_list: al, should_draw_popup: false },
            ..pre
        }
    } else {
        eff is NoOp && post == pre
    }
}

impl Navigator {
    /// One key press on the episode screen.
    pub fn handle_events_episodes(self, key: Key) -> (r: (Navigator, Effect))
        requires
            nav_wf(self),
            self.menu_state is Episodes,
        ensures
            nav_wf(r.0),
            episodes_post(self, key, r.0, r.1),
    {
        let Navigator { running, config, menu_state, main_menu_selection, next_ticket, whitelist } =
            self;
        match menu_state {
            MenuState::Episodes { anime_list, anime, episodes, state, popup_state } => {
                match key {
                    Key::Up | Key::Char('k') => {
                        let st2 = if state > 0 {
                            state - 1
                        } else {
                            0
                        };
                        let nav = Navigator {
                            running,
                            config,
                            menu_state: MenuState::Episodes {
                                anime_list,
                                anime,
                                episodes,
                                state: st2,
                                popup_state,
                            },
                            main_menu_selection,
                            next_ticket,
                            whitelist,
                        };
                        (nav, Effect::NoOp)
                    },
                    Key::Down | Key::Char('j') => {
                        let count = episodes.len();
                        let st2 = if count == 0 {
                            0
                        } else if state < count - 1 {
                            state + 1
                        } else {
                            count - 1
                        };
                        let nav = Navigator {
                            running,
                            config,
                            menu_state: MenuState::Episodes {
                                anime_list,
                                anime,
                                episodes,
                                state: st2,
                                popup_state,
                            },
                            main_menu_selection,
                            next_ticket,
                            whitelist,
                        };
                        (nav, Effect::NoOp)
                    },
                    Key::Char('s') | Key::Char('d') | Key::Right | Key::Char('l') | Key::Enter => {
                        let launchable = match popup_state {
                            PopupState::Hidden => true,
                            _ => false,
                        };
                        if launchable && state < episodes.len() {
                            let episode = episodes[state];
                            let popup2 = match key {
                                Key::Char('s') => PopupState::Syncplay(episode),
                                Key::Char('d') => PopupState::Download(episode),
                                _ => PopupState::Mpv(episode),
                            };
                            let slug = anime.slug().clone();
                            let nav = Navigator {
                                running,
                                config,
                                menu_state: MenuState::Episodes {
                                    anime_list,
                                    anime,
                                    episodes,
                                    state,
                                    popup_state: popup2,
                                },
                                main_menu_selection,
                                next_ticket,
                                whitelist,
                            };
                            (nav, Effect::LoadMirrors(slug, episode))
                        } else {
                            let nav = Navigator {
                                running,
                                config,
                                menu_state: MenuState::Episodes {
                                    anime_list,
                                    anime,
                                    episodes,
                                    state,
                                    popup_state,
                                },
                                main_menu_selection,
                                next_ticket,
                                whitelist,
                            };
                            (nav, Effect::NoOp)
                        }
                    },
                    Key::Left | Key::Char('h') | Key::Esc => {
                        let filtered_list = clone_animes(&anime_list);
                        let nav = Navigator {
                            running,
                            config,
                            menu_state: MenuState::Search {
                                anime_list,
                                search_state: SearchState::Searching,
                                query: Vec::new(),
                                anime_state: Some(0),
                                filtered_list,
                            },
                            main_menu_selection,
                            next_ticket,
                            whitelist,
                        };
                        (nav, Effect::NoOp)
                    },
                    _ => {
                        let nav = Navigator {
                            running,
                            config,
                            menu_state: MenuState::Episodes {
                                anime_list,
                                anime,
                                episodes,
                                state,
                                popup_state,
                            },
                            main_menu_selection,
                            next_ticket,
                            whitelist,
                        };
                        (nav, Effect::NoOp)
                    },
                }
            },
            _ => {
                proof {
                    assert(false);  // guarded by the requires
                }
                (
                    Navigator {
                        running,
                        config,
                        menu_state,
                        main_menu_selection,
                        next_ticket,
                        whitelist,
                    },
                    Effect::NoOp,
                )
            },
        }
    }

    /// One key press on the options screen.
    pub fn handle_events_options(self, key: Key) -> (r: (Navigator, Effect))
        requires
            nav_wf(self),
            self.menu_state is Options,
        ensures
            nav_wf(r.0),
            options_post(self, key, r.0, r.1),
    {
        let Navigator { running, config, menu_state, main_menu_selection, next_ticket, whitelist } =
            self;
        match menu_state {
            MenuState::Options { anime_list, old_config, state } => {
                match key {
                    Key::Up | Key::Char('k') => {
                        let st2 = if state > 0 {
                            state - 1
                        } else {
                            0
                        };
                        let nav = Navigator {
                            running,
                            config,
                            menu_state: MenuState::Options { anime_list, old_config, state: st2 },
                            main_menu_selection,
                            next_ticket,
                            whitelist,
                        };
                        (nav, Effect::NoOp)
                    },
                    Key::Down | Key::Char('j') => {
                        let st2 = if state < 1 {
                            state + 1
                        } else {
                            1
                        };
                        let nav = Navigator {
                            running,
                            config,
                            menu_state: MenuState::Options { anime_list, old_config, state: st2 },
                            main_menu_selection,
                            next_ticket,
                            whitelist,
                        };
                        (nav, Effect::NoOp)
                    },
                    Key::Right | Key::Char('l') => {
                        let cfg2 = if state == 0 {
                            Config { scraper: config.scraper.next(), ..config }
                        } else {
                            config.increment_pages()
                        };
                        let nav = Navigator {
                            running,
                            config: cfg2,
                            menu_state: MenuState::Options { anime_list, old_config, state },
                            main_menu_selection,
                            next_ticket,
                            whitelist,
                        };
                        (nav, Effect::NoOp)
                    },
                    Key::Left | Key::Char('h') => {
                        let cfg2 = if state == 0 {
                            Config { scraper: config.scraper.previous(), ..config }
                        } else {
                            config.decrement_pages()
                        };
                        let nav = Navigator {
                            running,
                            config: cfg2,
                            menu_state: MenuState::Options { anime_list, old_config, state },
                            main_menu_selection,
                            next_ticket,
                            whitelist,
                        };
                        (nav, Effect::NoOp)
                    },
                    Key::Enter => {
                        if !(config.scraper == old_config.scraper) {
                            let ticket = FetchTicket { id: next_ticket };
                            let fresh = if next_ticket == u64::MAX {
                                0
                            } else {
                                next_ticket + 1
                            };
                            let nav = Navigator {
                                running,
                                config,
                                menu_state: MenuState::MainMenu {
                                    anime_list: ListQueryState::Obtaining(ticket),
                                    should_draw_popup: false,
                                },
                                main_menu_selection,
                                next_ticket: fresh,
                                whitelist,
                            };
                            let eff = Effect::SaveConfig {
                                config,
                                refetch: Some(FetchSpawn { backend: config.scraper, ticket }),
                            };
                            (nav, eff)
                        } else {
                            let nav = Navigator {
                                running,
                                config,
                                menu_state: MenuState::MainMenu {
                                    anime_list,
                                    should_draw_popup: false,
                                },
                                main_menu_selection,
                                next_ticket,
                                whitelist,
                            };
                            (nav, Effect::SaveConfig { config, refetch: None })
                        }
                    },
                    Key::Esc | Key::Char('q') => {
                        let nav = Navigator {
                            running,
                            config: old_config,
                            menu_state: MenuState::MainMenu {
                                anime_list,
                                should_draw_popup: false,
                            },
                            main_menu_selection,
                            next_ticket,
                            whitelist,
                        };
                        (nav, Effect::NoOp)
                    },
                    _ => {
                        let nav = Navigator {
                            running,
                            config,
                            menu_state: MenuState::Options { anime_list, old_config, state },
                            main_menu_selection,
                            next_ticket,
                            whitelist,
                        };
                        (nav, Effect::NoOp)
                    },
                }
            },
            _ => {
                proof {
                    assert(false);  // guarded by the requires
                }
                (
                    Navigator {
                        running,
                        config,
                        menu_state,
                        main_menu_selection,
                        next_ticket,
                        whitelist,
                    },
                    Effect::NoOp,
                )
            },
        }
    }

    /// One key press on the search screen.
    pub fn handle_events_search(self, key: Key) -> (r: (Navigator, Effect))
        requires
            nav_wf(self),
            self.menu_state is Search,
        ensures
            nav_wf(r.0),
            search_post(self, key, r.0, r.1),
    {
        let Navigator { running, config, menu_state, main_menu_selection, next_ticket, whitelist } =
            self;
        match menu_state {
            MenuState::Search { anime_list, search_state, mut query, anime_state, filtered_list } => {
                let searching = match search_state {
                    SearchState::Searching => true,
                    SearchState::Choosing => false,
                };
                if searching {
                    match key {
                        Key::Esc => {
                            let nav = Navigator {
                                running,
                                config,
                                menu_state: MenuState::MainMenu {
                                    anime_list: ListQueryState::Obtained(anime_list),
                                    should_draw_popup: false,
                                },
                                main_menu_selection,
                                next_ticket,
                                whitelist,
                            };
                            (nav, Effect::NoOp)
                        },
                        Key::Enter => {
                            let nav = Navigator {
                                running,
                                config,
                                menu_state: MenuState::Search {
                                    anime_list,
                                    search_state: SearchState::Choosing,
                                    query,
                                    anime_state,
                                    filtered_list,
                                },
                                main_menu_selection,
                                next_ticket,
                                whitelist,
                            };
                            (nav, Effect::NoOp)
                        },
                        Key::Backspace => {
                            if query.len() > 0 {
                                query.pop();
                                proof {
                                    assert(query@ =~= self.menu_state->Search_query@.drop_last());
                                }
                                let anime_state = if query.len() == 0 {
                                    Option::None
                                } else {
                                    Some(0)
                                };
                                let filtered_list = filter_animes(&anime_list, &query);
                                let nav = Navigator {
                                    running,
                                    config,
                                    menu_state: MenuState::Search {
                                        anime_list,
                                        search_state: SearchState::Searching,
                                        query,
                                        anime_state,
                                        filtered_list,
                                    },
                                    main_menu_selection,
                                    next_ticket,
                                    whitelist,
                                };
                                (nav, Effect::NoOp)
                            } else {
                                let nav = Navigator {
                                    running,
                                    config,
                                    menu_state: MenuState::Search {
                                        anime_list,
                                        search_state,
                                        query,
                                        anime_state,
                                        filtered_list,
                                    },
                                    main_menu_selection,
                                    next_ticket,
                                    whitelist,
                                };
                                (nav, Effect::NoOp)
                            }
                        },
                        Key::Char(c) => {
                            if query.len() < MAX_QUERY {
                                query.push(c);
                                let filtered_list = filter_animes(&anime_list, &query);
                                let nav = Navigator {
                                    running,
                                    config,
                                    menu_state: MenuState::Search {
                                        anime_list,
                                        search_state: SearchState::Searching,
                                        query,
                                        anime_state: Some(0),
                                        filtered_list,
                                    },
                                    main_menu_selection,
                                    next_ticket,
                                    whitelist,
                                };
                                (nav, Effect::NoOp)
                            } else {
                                let nav = Navigator {
                                    running,
                                    config,
                                    menu_state: MenuState::Search {
                                        anime_list,
                                        search_state,
                                        query,
                                        anime_state,
                                        filtered_list,
                                    },
                                    main_menu_selection,
                                    next_ticket,
                                    whitelist,
                                };
                                (nav, Effect::NoOp)
                            }
                        },
                        _ => {
                            let nav = Navigator {
                                running,
                                config,
                                menu_state: MenuState::Search {
                                    anime_list,
                                    search_state,
                                    query,
                                    anime_state,
                                    filtered_list,
                                },
                                main_menu_selection,
                                next_ticket,
                                whitelist,
                            };
                            (nav, Effect::NoOp)
                        },
                    }
                } else {
                    match key {
                        Key::Up | Key::Char('k') => {
                            let sel2 = match anime_state {
                                Option::Some(i) => Some(
                                    if i > 0 {
                                        i - 1
                                    } else {
                                        0
                                    },
                                ),
                                Option::None => Some(0),
                            };
                            let nav = Navigator {
                                running,
                                config,
                                menu_state: MenuState::Search {
                                    anime_list,
                                    search_state,
                                    query,
                                    anime_state: sel2,
                                    filtered_list,
                                },
                                main_menu_selection,
                                next_ticket,
                                whitelist,
                            };
                            (nav, Effect::NoOp)
                        },
                        Key::Down | Key::Char('j') => {
                            let count = filtered_list.len();
                            let sel2 = match anime_state {
                                Option::Some(i) => Some(
                                    if count == 0 {
                                        0
                                    } else if i < count - 1 {
                                        i + 1
                                    } else {
                                        count - 1
                                    },
                                ),
                                Option::None => Some(0),
                            };
                            let nav = Navigator {
                                running,
                                config,
                                menu_state: MenuState::Search {
                                    anime_list,
                                    search_state,
                                    query,
                                    anime_state: sel2,
                                    filtered_list,
                                },
                                main_menu_selection,
                                next_ticket,
                                whitelist,
                            };
                            (nav, Effect::NoOp)
                        },
                        Key::Right | Key::Char('l') | Key::Enter => {
                            let eff = match anime_state {
                                Option::Some(i) => {
                                    if i < filtered_list.len() {
                                        proof {
                                            assert(filtered_list.deep_view()[i as int]
                                                == filtered_list@[i as int]@);
                                        }
                                        Effect::LoadEpisodes(filtered_list[i].slug().clone())
                                    } else {
                                        Effect::NoOp
                                    }
                                },
                                Option::None => Effect::NoOp,
                            };
                            let nav = Navigator {
                                running,
                                config,
                                menu_state: MenuState::Search {
                                    anime_list,
                                    search_state,
                                    query,
                                    anime_state,
                                    filtered_list,
                                },
                                main_menu_selection,
                                next_ticket,
                                whitelist,
                            };
                            (nav, eff)
                        },
                        Key::Left | Key::Char('h') | Key::Esc => {
                            let nav = Navigator {
                                running,
                                config,
                                menu_state: MenuState::Search {
                                    anime_list,
                                    search_state: SearchState::Searching,
                                    query,
                                    anime_state: Some(0),
                                    filtered_list,
                                },
                                main_menu_selection,
                                next_ticket,
                                whitelist,
                            };
                            (nav, Effect::NoOp)
                        },
                        _ => {
                            let nav = Navigator {
                                running,
                                config,
                                menu_state: MenuState::Search {
                                    anime_list,
                                    search_state,
                                    query,
                                    anime_state,
                                    filtered_list,
                                },
                                main_menu_selection,
                                next_ticket,
                                whitelist,
                            };
                            (nav, Effect::NoOp)
                        },
                    }
                }
            },
            _ => {
                proof {
                    assert(false);  // guarded by the requires
                }
                (
                    Navigator {
                        running,
                        config,
                        menu_state,
                        main_menu_selection,
                        next_ticket,
                        whitelist,
                    },
                    Effect::NoOp,
                )
            },
        }
    }

    /// One key press, dispatched to the live screen's handler.
    pub fn handle_key(self, key: Key) -> (r: (Navigator, Effect))
        requires
            nav_wf(self),
        ensures
            nav_wf(r.0),
            self.menu_state is MainMenu ==> main_menu_post(self, key, r.0, r.1),
            self.menu_state is Search ==> search_post(self, key, r.0, r.1),
            self.menu_state is Episodes ==> episodes_post(self, key, r.0, r.1),
            self.menu_state is Options ==> options_post(self, key, r.0, r.1),
    {
        match &self.menu_state {
            MenuState::MainMenu { .. } => self.handle_events_main_menu(key),
            MenuState::Search { .. } => self.handle_events_search(key),
            MenuState::Episodes { .. } => self.handle_events_episodes(key),
            MenuState::Options { .. } => self.handle_events_options(key),
        }
    }

    /// One key press on the main menu.
    pub fn handle_events_main_menu(self, key: Key) -> (r: (Navigator, Effect))
        requires
            nav_wf(self),
            self.menu_state is MainMenu,
        ensures
            nav_wf(r.0),
            main_menu_post(self, key, r.0, r.1),
    {
        match key {
            Key::Up | Key::Char('k') => {
                let sel = if self.main_menu_selection > 0 {
                    self.main_menu_selection - 1
                } else {
                    0
                };
                (Navigator { main_menu_selection: sel, ..self }, Effect::NoOp)
            },
            Key::Down | Key::Char('j') => {
                let sel = if self.main_menu_selection + 1 < 3 {
                    self.main_menu_selection + 1
                } else {
                    2
                };
                (Navigator { main_menu_selection: sel, ..self }, Effect::NoOp)
            },
            Key::Right | Key::Char('l') | Key::Enter => self.confirm_main_menu(),
            Key::Left | Key::Char('h') | Key::Esc => {
                (Navigator { running: false, ..self }, Effect::NoOp)
            },
            _ => (self, Effect::NoOp),
        }
    }

    /// Confirms the highlighted main-menu entry.
    fn confirm_main_menu(self) -> (r: (Navigator, Effect))
        requires
            nav_wf(self),
            self.menu_state is MainMenu,
        ensures
            nav_wf(r.0),
            main_menu_post(self, Key::Enter, r.0, r.1),
    {
        let Navigator { running, config, menu_state, main_menu_selection, next_ticket, whitelist } =
            self;
        match menu_state {
            MenuState::MainMenu { anime_list, should_draw_popup } => {
                if main_menu_selection == 0 {
                    match anime_list {
                        ListQueryState::Obtaining(t) => {
                            let nav = Navigator {
                                running,
                                config,
                                menu_state: MenuState::MainMenu {
                                    anime_list: ListQueryState::Obtaining(t),
                                    should_draw_popup: true,
                                },
                                main_menu_selection,
                                next_ticket,
                                whitelist,
                            };
                            (nav, Effect::ConsumeFetch(t))
                        },
                        ListQueryState::Obtained(catalog) => {
                            let filtered_list = clone_animes(&catalog);
                            let nav = Navigator {
                                running,
                                config,
                                menu_state: MenuState::Search {
                                    anime_list: catalog,
                                    search_state: SearchState::Searching,
                                    query: Vec::new(),
                                    anime_state: Some(0),
                                    filtered_list,
                                },
                                main_menu_selection,
                                next_ticket,
                                whitelist,
                            };
                            (nav, Effect::NoOp)
                        },
                        ListQueryState::Transitioning => {
                            proof {
                                assert(false);  // a live screen never holds the placeholder
                            }
                            let nav = Navigator {
                                running,
                                config,
                                menu_state: MenuState::MainMenu {
                                    anime_list: ListQueryState::Transitioning,
                                    should_draw_popup,
                                },
                                main_menu_selection,
                                next_ticket,
                                whitelist,
                            };
                            (nav, Effect::NoOp)
                        },
                    }
                } else if main_menu_selection == 1 {
                    let nav = Navigator {
                        running,
                        config,
                        menu_state: MenuState::Options {
                            anime_list,
                            old_config: config,
                            state: 0,
                        },
                        main_menu_selection,
                        next_ticket,
                        whitelist,
                    };
                    (nav, Effect::NoOp)
                } else {
                    let nav = Navigator {
                        running: false,
                        config,
                        menu_state: MenuState::MainMenu { anime_list, should_draw_popup },
                        main_menu_selection,
                        next_ticket,
                        whitelist,
                    };
                    (nav, Effect::NoOp)
                }
            },
            _ => {
                proof {
                    assert(false);  // guarded by the requires
                }
                (
                    Navigator {
                        running,
                        config,
                        menu_state,
                        main_menu_selection,
                        next_ticket,
                        whitelist,
                    },
                    Effect::NoOp,
                )
            },
        }
    }
}

/// Which screen shape each completion event presumes.
pub open spec fn event_ok(pre: Navigator, ev: TaskEvent) -> bool {
    match ev {
        TaskEvent::FetchReady(_) => pre.menu_state is MainMenu
            && pre.menu_state->MainMenu_anime_list is Obtaining,
        TaskEvent::EpisodesReady(_) => {
            &&& pre.menu_state is Search
            &&& pre.menu_state->Search_search_state == SearchState::Choosing
            &&& pre.menu_state->Search_anime_state matches Some(i) && i
                < pre.menu_state->Search_filtered_list@.len()
        },
        TaskEvent::EpisodesFailed => pre.menu_state is Search
            && pre.menu_state->Search_search_state == SearchState::Choosing,
        TaskEvent::MirrorsReady(_) => pre.menu_state is Episodes
            && pre.menu_state->Episodes_popup_state != PopupState::Hidden,
        TaskEvent::MirrorsFailed => pre.menu_state is Episodes
            && pre.menu_state->Episodes_popup_state != PopupState::Hidden,
        TaskEvent::LaunchFinished(_) => pre.menu_state is Episodes
            && pre.menu_state->Episodes_popup_state != PopupState::Hidden,
    }
}

/// The episode screen with its popup taken down, everything else as it
/// was.
pub open spec fn popup_cleared(pre: Navigator, post: Navigator) -> bool {
    post == Navigator {
        menu_state: MenuState::Episodes {
            anime_list: pre.menu_state->Episodes_anime_list,
            anime: pre.menu_state->Episodes_anime,
            episodes: pre.menu_state->Episodes_episodes,
            state: pre.menu_state->Episodes_state,
            popup_state: PopupState::Hidden,
        },
        ..pre
    }
}

/// The completion-event rows of the transition table.
pub open spec fn task_post(pre: Navigator, ev: TaskEvent, post: Navigator, eff: Effect) -> bool {
    match ev {
        TaskEvent::FetchReady(catalog) => {
            // the delivered catalog, cut down to its well-formed entries,
            // seeds the search screen
            &&& eff is NoOp
            &&& same_outside_menu(pre, post)
            &&& seeded_search(
                catalog.deep_view().filter(|a: AnimeView| anime_wf(a)),
                post.menu_state,
            )
        },
        TaskEvent::EpisodesReady(raw) => {
            let fl = pre.menu_state->Search_filtered_list;
            let i = pre.menu_state->Search_anime_state->0 as int;
            &&& eff is NoOp
            &&& same_outside_menu(pre, post)
            &&& post.menu_state is Episodes
            &&& post.menu_state->Episodes_anime_list == pre.menu_state->Search_anime_list
            &&& post.menu_state->Episodes_anime@ == fl.deep_view()[i]
            &&& strictly_ascending(post.menu_state->Episodes_episodes@)
            &&& same_values(post.menu_state->Episodes_episodes@, raw@)
            &&& post.menu_state->Episodes_state == 0
            &&& post.menu_state->Episodes_popup_state == PopupState::Hidden
        },
        TaskEvent::EpisodesFailed => {
            // surfaced to the user; the session stays where it is
            eff is NotifyLookupFailure && post == pre
        },
        TaskEvent::MirrorsReady(mirrors) => {
            let viewable = mirrors.deep_view().filter(
                |m: Seq<char>| mirror_whitelisted(m, pre.whitelist.deep_view()),
            );
            let kind = popup_kind(pre.menu_state->Episodes_popup_state);
            if viewable.len() == 0 {
                // nothing whitelisted: failure, with no process spawned
                eff == Effect::NotifyLaunchFailure(kind) && popup_cleared(pre, post)
            } else {
                &&& eff matches Effect::Launch(v, k) && v.deep_view() == viewable && k == kind
                &&& post == pre
            }
        },
        TaskEvent::MirrorsFailed => {
            eff is NotifyLookupFailure && popup_cleared(pre, post)
        },
        TaskEvent::LaunchFinished(success) => {
            let kind = popup_kind(pre.menu_state->Episodes_popup_state);
            &&& popup_cleared(pre, post)
            &&& eff == if success {
                Effect::NoOp
            } else {
                Effect::NotifyLaunchFailure(kind)
            }
        },
    }
}

impl Navigator {
    /// Completion of outside work. An event whose shape does not match
    /// the live screen is the fatal internal-consistency error; it is
    /// reported, never acted on.
    pub fn handle_task_event(self, ev: TaskEvent) -> (r: Result<(Navigator, Effect), StateError>)
        requires
            nav_wf(self),
        ensures
            r is Err <==> !event_ok(self, ev),
            r matches Err(e) ==> e == StateError::Mismatch,
            r matches Ok(p) ==> nav_wf(p.0) && task_post(self, ev, p.0, p.1),
    {
        let Navigator { running, config, menu_state, main_menu_selection, next_ticket, whitelist } =
            self;
        match ev {
            TaskEvent::FetchReady(catalog) => {
                match menu_state {
                    MenuState::MainMenu { anime_list: ListQueryState::Obtaining(_), .. } => {
                        let catalog = sanitize_catalog(catalog);
                        let filtered_list = clone_animes(&catalog);
                        let nav = Navigator {
                            running,
                            config,
                            menu_state: MenuState::Search {
                                anime_list: catalog,
                                search_state: SearchState::Searching,
                                query: Vec::new(),
                                anime_state: Some(0),
                                filtered_list,
                            },
                            main_menu_selection,
                            next_ticket,
                            whitelist,
                        };
                        Ok((nav, Effect::NoOp))
                    },
                    _ => Err(StateError::Mismatch),
                }
            },
            TaskEvent::EpisodesReady(raw) => {
                match menu_state {
                    MenuState::Search {
                        anime_list,
                        search_state: SearchState::Choosing,
                        query,
                        anime_state: Some(i),
                        filtered_list,
                    } => {
                        if i < filtered_list.len() {
                            proof {
                                assert(filtered_list.deep_view()[i as int] == filtered_list@[
                                    i as int
                                ]@);
                            }
                            let anime = filtered_list[i].clone();
                            let episodes = normalize_episodes(&raw);
                            let nav = Navigator {
                                running,
                                config,
                                menu_state: MenuState::Episodes {
                                    anime_list,
                                    anime,
                                    episodes,
                                    state: 0,
                                    popup_state: PopupState::Hidden,
                                },
                                main_menu_selection,
                                next_ticket,
                                whitelist,
                            };
                            Ok((nav, Effect::NoOp))
                        } else {
                            Err(StateError::Mismatch)
                        }
                    },
                    _ => Err(StateError::Mismatch),
                }
            },
            TaskEvent::EpisodesFailed => {
                match menu_state {
                    MenuState::Search { search_state: SearchState::Choosing, .. } => {
                        let nav = Navigator {
                            running,
                            config,
                            menu_state,
                            main_menu_selection,
                            next_ticket,
                            whitelist,
                        };
                        Ok((nav, Effect::NotifyLookupFailure))
                    },
                    _ => Err(StateError::Mismatch),
                }
            },
            TaskEvent::MirrorsReady(mirrors) => {
                match menu_state {
                    MenuState::Episodes { anime_list, anime, episodes, state, popup_state } => {
                        let in_flight = match popup_state {
                            PopupState::Hidden => false,
                            _ => true,
                        };
                        if in_flight {
                            let kind = match popup_state {
                                PopupState::Syncplay(_) => LaunchKind::SyncViewer,
                                PopupState::Download(_) => LaunchKind::Downloader,
                                _ => LaunchKind::Viewer,
                            };
                            let viewable = filter_whitelisted(
                                &mirrors,
                                &whitelist,
                            );
                            if viewable.len() == 0 {
                                let nav = Navigator {
                                    running,
                                    config,
                                    menu_state: MenuState::Episodes {
                                        anime_list,
                                        anime,
                                        episodes,
                                        state,
                                        popup_state: PopupState::Hidden,
                                    },
                                    main_menu_selection,
                                    next_ticket,
                                    whitelist,
                                };
                                Ok((nav, Effect::NotifyLaunchFailure(kind)))
                            } else {
                                let nav = Navigator {
                                    running,
                                    config,
                                    menu_state: MenuState::Episodes {
                                        anime_list,
                                        anime,
                                        episodes,
                                        state,
                                        popup_state,
                                    },
                                    main_menu_selection,
                                    next_ticket,
                                    whitelist,
                                };
                                Ok((nav, Effect::Launch(viewable, kind)))
                            }
                        } else {
                            Err(StateError::Mismatch)
                        }
                    },
                    _ => Err(StateError::Mismatch),
                }
            },
            TaskEvent::MirrorsFailed => {
                match menu_state {
                    MenuState::Episodes { anime_list, anime, episodes, state, popup_state } => {
                        let in_flight = match popup_state {
                            PopupState::Hidden => false,
                            _ => true,
                        };
                        if in_flight {
                            let nav = Navigator {
                                running,
                                config,
                                menu_state: MenuState::Episodes {
                                    anime_list,
                                    anime,
                                    episodes,
                                    state,
                                    popup_state: PopupState::Hidden,
                                },
                                main_menu_selection,
                                next_ticket,
                                whitelist,
                            };
                            Ok((nav, Effect::NotifyLookupFailure))
                        } else {
                            Err(StateError::Mismatch)
                        }
                    },
                    _ => Err(StateError::Mismatch),
                }
            },
            TaskEvent::LaunchFinished(success) => {
                match menu_state {
                    MenuState::Episodes { anime_list, anime, episodes, state, popup_state } => {
                        let in_flight = match popup_state {
                            PopupState::Hidden => false,
                            _ => true,
                        };
                        if in_flight {
                            let kind = match popup_state {
                                PopupState::Syncplay(_) => LaunchKind::SyncViewer,
                                PopupState::Download(_) => LaunchKind::Downloader,
                                _ => LaunchKind::Viewer,
                            };
                            let nav = Navigator {
                                running,
                                config,
                                menu_state: MenuState::Episodes {
                                    anime_list,
                                    anime,
                                    episodes,
                                    state,
                                    popup_state: PopupState::Hidden,
                                },
                                main_menu_selection,
                                next_ticket,
                                whitelist,
                            };
                            let eff = if success {
                                Effect::NoOp
                            } else {
                                Effect::NotifyLaunchFailure(kind)
                            };
                            Ok((nav, eff))
                        } else {
                            Err(StateError::Mismatch)
                        }
                    },
                    _ => Err(StateError::Mismatch),
                }
            },
        }
    }
}

} // verus!
