use ani_link::anime::{Anime, ScraperImpl};
use ani_link::config::Config;
use ani_link::episodes::normalize_episodes;
use ani_link::fetch::{FetchTicket, ListQueryState, StateError};
use ani_link::popup::Popup;

fn entry(title: &str, slug: &str) -> Anime {
    Anime {
        names: vec![title.to_string(), slug.to_string()],
        synopsis: String::new(),
        image_url: String::new(),
    }
}

#[test]
fn catalog_is_consumed_at_most_once() {
    // taking the catalog a second time must fail deterministically
    let mut handle = ListQueryState::Obtained(vec![entry("Naruto", "naruto")]);
    let first = handle.take_catalog();
    assert!(first.is_ok());
    assert_eq!(first.unwrap().len(), 1);
    let second = handle.take_catalog();
    assert_eq!(second.unwrap_err(), StateError::Consumed);
    let third = handle.take_catalog();
    assert_eq!(third.unwrap_err(), StateError::Consumed);
}

#[test]
fn pending_handle_does_not_yield_a_catalog() {
    let mut handle = ListQueryState::Obtaining(FetchTicket { id: 7 });
    assert_eq!(handle.take_catalog().unwrap_err(), StateError::Pending);
    // the pending handle survives the refused take
    assert!(matches!(handle, ListQueryState::Obtaining(FetchTicket { id: 7 })));
}

#[test]
fn fulfill_is_refused_off_the_running_state() {
    let done = ListQueryState::Obtained(Vec::new());
    assert_eq!(done.fulfill(Vec::new()).unwrap_err(), StateError::Mismatch);
    let consumed = ListQueryState::Transitioning;
    assert_eq!(consumed.fulfill(Vec::new()).unwrap_err(), StateError::Consumed);
    let running = ListQueryState::Obtaining(FetchTicket { id: 0 });
    assert!(running.fulfill(vec![entry("A", "a")]).is_ok());
}

#[test]
fn episodes_are_sorted_strictly_ascending_without_duplicates() {
    let raw = vec![1250u64, 100, 1250, 50, 100];
    let eps = normalize_episodes(&raw);
    assert_eq!(eps, vec![50u64, 100, 1250]);
}

#[test]
fn episode_normalization_of_empty_list_is_empty() {
    let eps = normalize_episodes(&Vec::new());
    assert!(eps.is_empty());
}

#[test]
fn config_defaults_and_bounds() {
    let c = Config::default();
    assert_eq!(c.scraper, ScraperImpl::AnimeAv1Scraper);
    assert_eq!(c.pages, 40);

    let low = Config { scraper: c.scraper, pages: 0 }.clamp_pages();
    assert_eq!(low.pages, 1);
    let high = Config { scraper: c.scraper, pages: 500 }.clamp_pages();
    assert_eq!(high.pages, 50);

    let top = Config { scraper: c.scraper, pages: 50 }.increment_pages();
    assert_eq!(top.pages, 50);
    let bottom = Config { scraper: c.scraper, pages: 1 }.decrement_pages();
    assert_eq!(bottom.pages, 1);
    assert_eq!(Config { scraper: c.scraper, pages: 41 }.increment_pages().pages, 42);
    assert_eq!(Config { scraper: c.scraper, pages: 41 }.decrement_pages().pages, 40);
}

#[test]
fn scrapers_cycle_both_ways() {
    assert_eq!(ScraperImpl::AnimeAv1Scraper.next(), ScraperImpl::AnimeFlvScraper);
    assert_eq!(ScraperImpl::AnimeFlvScraper.next(), ScraperImpl::AnimeAv1Scraper);
    assert_eq!(ScraperImpl::AnimeAv1Scraper.previous(), ScraperImpl::AnimeFlvScraper);
    assert_eq!(ScraperImpl::AnimeAv1Scraper.next().previous(), ScraperImpl::AnimeAv1Scraper);
}

#[test]
fn popup_carries_title_and_text() {
    let p = Popup::new(" Descarga ".to_string(), "\nDescargando el episodio 12.5...".to_string());
    assert_eq!(p.title().as_str(), " Descarga ");
    assert_eq!(p.text().as_str(), "\nDescargando el episodio 12.5...");
}
