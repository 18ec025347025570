use ani_link::anime::{Anime, ScraperImpl};
use ani_link::config::Config;
use ani_link::fetch::{FetchTicket, ListQueryState, StateError};
use ani_link::launcher::{default_whitelist, LaunchKind};
use ani_link::menu_state::{MenuState, PopupState};
use ani_link::navigator::{Effect, Key, Navigator, TaskEvent};
use ani_link::search::SearchState;

fn entry(title: &str, slug: &str) -> Anime {
    Anime {
        names: vec![title.to_string(), slug.to_string()],
        synopsis: String::new(),
        image_url: String::new(),
    }
}

fn catalog() -> Vec<Anime> {
    vec![entry("Naruto", "naruto"), entry("Bleach", "bleach")]
}

fn session() -> Navigator {
    let (nav, effect) = Navigator::new(Config::default(), default_whitelist());
    assert!(matches!(effect, Effect::StartFetch(_)));
    nav
}

fn into_search(nav: Navigator) -> Navigator {
    let (nav, effect) = nav.handle_task_event(TaskEvent::FetchReady(catalog())).unwrap();
    assert!(matches!(effect, Effect::NoOp));
    assert!(matches!(nav.menu_state, MenuState::Search { .. }));
    nav
}

fn type_query(mut nav: Navigator, q: &str) -> Navigator {
    for c in q.chars() {
        let (next, effect) = nav.handle_key(Key::Char(c));
        assert!(matches!(effect, Effect::NoOp));
        nav = next;
    }
    nav
}

#[test]
fn startup_requests_one_background_fetch() {
    let (nav, effect) = Navigator::new(Config::default(), default_whitelist());
    assert!(nav.running);
    match effect {
        Effect::StartFetch(s) => {
            assert_eq!(s.backend, ScraperImpl::AnimeAv1Scraper);
            assert_eq!(s.ticket, FetchTicket { id: 0 });
        }
        other => panic!("expected a fetch to start, got {:?}", other),
    }
    match &nav.menu_state {
        MenuState::MainMenu { anime_list, should_draw_popup } => {
            assert!(matches!(anime_list, ListQueryState::Obtaining(FetchTicket { id: 0 })));
            assert!(!should_draw_popup);
        }
        _ => panic!("expected the main menu"),
    }
}

#[test]
fn confirming_search_on_a_pending_fetch_shows_busy_and_consumes() {
    let nav = session();
    let (nav, effect) = nav.handle_key(Key::Enter);
    match effect {
        Effect::ConsumeFetch(t) => assert_eq!(t, FetchTicket { id: 0 }),
        other => panic!("expected the fetch to be consumed, got {:?}", other),
    }
    match &nav.menu_state {
        MenuState::MainMenu { should_draw_popup, .. } => assert!(should_draw_popup),
        _ => panic!("expected the main menu with the busy overlay"),
    }
    // the joined fetch then seeds the search screen with the catalog
    let (nav, _) = nav.handle_task_event(TaskEvent::FetchReady(catalog())).unwrap();
    match &nav.menu_state {
        MenuState::Search { anime_list, query, filtered_list, search_state, anime_state } => {
            assert_eq!(anime_list.len(), 2);
            assert_eq!(filtered_list.len(), 2);
            assert!(query.is_empty());
            assert_eq!(*search_state, SearchState::Searching);
            assert_eq!(*anime_state, Some(0));
        }
        _ => panic!("expected the search screen"),
    }
}

#[test]
fn typing_a_query_ranks_and_confirming_requests_the_slug() {
    // catalog Naruto/Bleach, query "naru": ranked = [Naruto]; confirming
    // it asks the provider for "naruto"
    let nav = into_search(session());
    let nav = type_query(nav, "naru");
    match &nav.menu_state {
        MenuState::Search { filtered_list, .. } => {
            assert_eq!(filtered_list.len(), 1);
            assert_eq!(filtered_list[0].names[0], "Naruto");
        }
        _ => panic!("expected the search screen"),
    }
    let (nav, effect) = nav.handle_key(Key::Enter);
    assert!(matches!(effect, Effect::NoOp));
    match &nav.menu_state {
        MenuState::Search { search_state, .. } => assert_eq!(*search_state, SearchState::Choosing),
        _ => panic!("expected the search screen"),
    }
    let (_, effect) = nav.handle_key(Key::Enter);
    match effect {
        Effect::LoadEpisodes(slug) => assert_eq!(slug, "naruto"),
        other => panic!("expected an episode lookup, got {:?}", other),
    }
}

#[test]
fn backspace_to_empty_query_restores_the_catalog() {
    let nav = type_query(into_search(session()), "n");
    let (nav, _) = nav.handle_key(Key::Backspace);
    match &nav.menu_state {
        MenuState::Search { query, filtered_list, anime_state, .. } => {
            assert!(query.is_empty());
            assert_eq!(filtered_list.len(), 2);
            assert_eq!(*anime_state, None);
        }
        _ => panic!("expected the search screen"),
    }
}

#[test]
fn episode_screen_flow_launch_and_failure_notice() {
    let nav = type_query(into_search(session()), "naru");
    let (nav, _) = nav.handle_key(Key::Enter); // searching -> choosing
    let (nav, effect) = nav.handle_key(Key::Enter); // confirm Naruto
    assert!(matches!(effect, Effect::LoadEpisodes(_)));
    let (nav, _) = nav.handle_task_event(TaskEvent::EpisodesReady(vec![300, 100, 200])).unwrap();
    match &nav.menu_state {
        MenuState::Episodes { anime, episodes, state, popup_state, .. } => {
            assert_eq!(anime.names[1], "naruto");
            assert_eq!(*episodes, vec![100u64, 200, 300]);
            assert_eq!(*state, 0);
            assert_eq!(*popup_state, PopupState::Hidden);
        }
        _ => panic!("expected the episode screen"),
    }
    // move to the second episode and open it in the viewer
    let (nav, _) = nav.handle_key(Key::Down);
    let (nav, effect) = nav.handle_key(Key::Enter);
    match effect {
        Effect::LoadMirrors(slug, ep) => {
            assert_eq!(slug, "naruto");
            assert_eq!(ep, 200);
        }
        other => panic!("expected a mirror lookup, got {:?}", other),
    }
    match &nav.menu_state {
        MenuState::Episodes { popup_state, .. } => {
            assert_eq!(*popup_state, PopupState::Mpv(200));
        }
        _ => panic!("expected the episode screen"),
    }
    // mirrors arrive; only the whitelisted one is attempted
    let mirrors = vec![
        "https://example.com/1".to_string(),
        "https://www.mp4upload.com/embed-2.html".to_string(),
    ];
    let (nav, effect) = nav.handle_task_event(TaskEvent::MirrorsReady(mirrors)).unwrap();
    match effect {
        Effect::Launch(viewable, kind) => {
            assert_eq!(viewable, vec!["https://www.mp4upload.com/embed-2.html".to_string()]);
            assert_eq!(kind, LaunchKind::Viewer);
        }
        other => panic!("expected a launch, got {:?}", other),
    }
    // the launch fails: the popup comes down and the user is told
    let (nav, effect) = nav.handle_task_event(TaskEvent::LaunchFinished(false)).unwrap();
    assert!(matches!(effect, Effect::NotifyLaunchFailure(LaunchKind::Viewer)));
    match &nav.menu_state {
        MenuState::Episodes { popup_state, .. } => assert_eq!(*popup_state, PopupState::Hidden),
        _ => panic!("expected the episode screen"),
    }
    assert!(nav.running);
}

#[test]
fn mirrors_without_whitelisted_host_fail_without_launch() {
    let nav = type_query(into_search(session()), "naru");
    let (nav, _) = nav.handle_key(Key::Enter);
    let (nav, _) = nav.handle_key(Key::Enter);
    let (nav, _) = nav.handle_task_event(TaskEvent::EpisodesReady(vec![100])).unwrap();
    let (nav, _) = nav.handle_key(Key::Char('s'));
    let mirrors = vec!["https://example.com/1".to_string()];
    let (nav, effect) = nav.handle_task_event(TaskEvent::MirrorsReady(mirrors)).unwrap();
    assert!(matches!(effect, Effect::NotifyLaunchFailure(LaunchKind::SyncViewer)));
    match &nav.menu_state {
        MenuState::Episodes { popup_state, .. } => assert_eq!(*popup_state, PopupState::Hidden),
        _ => panic!("expected the episode screen"),
    }
}

#[test]
fn lookup_failure_keeps_the_session_alive() {
    let nav = type_query(into_search(session()), "naru");
    let (nav, _) = nav.handle_key(Key::Enter);
    let (nav, _) = nav.handle_key(Key::Enter);
    let (nav, effect) = nav.handle_task_event(TaskEvent::EpisodesFailed).unwrap();
    assert!(matches!(effect, Effect::NotifyLookupFailure));
    assert!(nav.running);
    assert!(matches!(nav.menu_state, MenuState::Search { .. }));
}

#[test]
fn changing_backend_in_options_starts_a_fresh_fetch() {
    // enter options off the main menu, flip the backend, confirm: the
    // old catalog is discarded and a fresh fetch starts
    let nav = into_search(session());
    let (nav, _) = nav.handle_key(Key::Esc); // back to main menu, catalog kept
    let (nav, _) = nav.handle_key(Key::Down); // highlight "options"
    let (nav, _) = nav.handle_key(Key::Enter);
    assert!(matches!(nav.menu_state, MenuState::Options { .. }));
    let (nav, _) = nav.handle_key(Key::Right); // flip the backend
    assert_eq!(nav.config.scraper, ScraperImpl::AnimeFlvScraper);
    let ticket_before = nav.next_ticket;
    let (nav, effect) = nav.handle_key(Key::Enter);
    match effect {
        Effect::SaveConfig { config, refetch } => {
            assert_eq!(config.scraper, ScraperImpl::AnimeFlvScraper);
            let spawn = refetch.expect("a backend change must refetch");
            assert_eq!(spawn.backend, ScraperImpl::AnimeFlvScraper);
            assert_eq!(spawn.ticket.id, ticket_before);
        }
        other => panic!("expected the config to be saved, got {:?}", other),
    }
    match &nav.menu_state {
        MenuState::MainMenu { anime_list, .. } => {
            assert!(matches!(anime_list, ListQueryState::Obtaining(_)));
        }
        _ => panic!("expected the main menu"),
    }
}

#[test]
fn cancelling_options_restores_config_and_keeps_the_catalog() {
    let nav = into_search(session());
    let (nav, _) = nav.handle_key(Key::Esc);
    let (nav, _) = nav.handle_key(Key::Down);
    let (nav, _) = nav.handle_key(Key::Enter);
    let (nav, _) = nav.handle_key(Key::Right); // stage a backend change
    let (nav, _) = nav.handle_key(Key::Down); // highlight "pages"
    let (nav, _) = nav.handle_key(Key::Right); // stage a page change
    assert_eq!(nav.config.scraper, ScraperImpl::AnimeFlvScraper);
    assert_eq!(nav.config.pages, 41);
    let (nav, effect) = nav.handle_key(Key::Esc); // cancel
    assert!(matches!(effect, Effect::NoOp));
    assert_eq!(nav.config, Config::default());
    match &nav.menu_state {
        MenuState::MainMenu { anime_list, .. } => match anime_list {
            ListQueryState::Obtained(entries) => assert_eq!(entries.len(), 2),
            _ => panic!("the obtained catalog must be kept untouched"),
        },
        _ => panic!("expected the main menu"),
    }
}

#[test]
fn saving_options_without_backend_change_keeps_the_catalog() {
    let nav = into_search(session());
    let (nav, _) = nav.handle_key(Key::Esc);
    let (nav, _) = nav.handle_key(Key::Down);
    let (nav, _) = nav.handle_key(Key::Enter);
    let (nav, _) = nav.handle_key(Key::Down); // highlight "pages"
    let (nav, _) = nav.handle_key(Key::Left); // pages down
    let (nav, effect) = nav.handle_key(Key::Enter);
    match effect {
        Effect::SaveConfig { config, refetch } => {
            assert_eq!(config.pages, 39);
            assert!(refetch.is_none());
        }
        other => panic!("expected the config to be saved, got {:?}", other),
    }
    match &nav.menu_state {
        MenuState::MainMenu { anime_list, .. } => {
            assert!(matches!(anime_list, ListQueryState::Obtained(_)));
        }
        _ => panic!("expected the main menu"),
    }
}

#[test]
fn exit_ends_the_loop() {
    let nav = session();
    let (nav, _) = nav.handle_key(Key::Esc);
    assert!(!nav.running);
}

#[test]
fn mismatched_completion_event_is_a_fatal_state_error() {
    let nav = session();
    // a launch result cannot arrive while the main menu is up
    let r = nav.handle_task_event(TaskEvent::LaunchFinished(true));
    assert_eq!(r.err(), Some(StateError::Mismatch));
    let nav = into_search(session());
    let r = nav.handle_task_event(TaskEvent::FetchReady(Vec::new()));
    assert_eq!(r.err(), Some(StateError::Mismatch));
}

#[test]
fn fetched_entries_without_a_slug_are_dropped() {
    let nav = session();
    let broken = vec![
        Anime { names: vec!["OnlyTitle".to_string()], synopsis: String::new(), image_url: String::new() },
        entry("Naruto", "naruto"),
    ];
    let (nav, _) = nav.handle_task_event(TaskEvent::FetchReady(broken)).unwrap();
    match &nav.menu_state {
        MenuState::Search { anime_list, .. } => {
            assert_eq!(anime_list.len(), 1);
            assert_eq!(anime_list[0].names[0], "Naruto");
        }
        _ => panic!("expected the search screen"),
    }
}
