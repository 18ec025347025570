use ani_link::anime::Anime;
use ani_link::search::filter_animes;

fn entry(title: &str, slug: &str) -> Anime {
    Anime {
        names: vec![title.to_string(), slug.to_string()],
        synopsis: String::new(),
        image_url: String::new(),
    }
}

fn chars(s: &str) -> Vec<char> {
    s.chars().collect()
}

#[test]
fn empty_query_keeps_catalog_order() {
    let catalog = vec![entry("Zeta", "zeta"), entry("Alpha", "alpha"), entry("Mid", "mid")];
    let ranked = filter_animes(&catalog, &chars(""));
    assert_eq!(ranked.len(), 3);
    assert_eq!(ranked[0].names[0], "Zeta");
    assert_eq!(ranked[1].names[0], "Alpha");
    assert_eq!(ranked[2].names[0], "Mid");
}

#[test]
fn query_excludes_non_matching_entries() {
    let catalog = vec![entry("Naruto", "naruto"), entry("Bleach", "bleach")];
    let ranked = filter_animes(&catalog, &chars("naru"));
    assert_eq!(ranked.len(), 1);
    assert_eq!(ranked[0].names[0], "Naruto");
    assert_eq!(ranked[0].names[1], "naruto");
}

#[test]
fn query_is_matched_ignoring_ascii_case() {
    let catalog = vec![entry("Naruto", "naruto")];
    let ranked = filter_animes(&catalog, &chars("NARU"));
    assert_eq!(ranked.len(), 1);
}

#[test]
fn filter_on_empty_catalog_is_empty() {
    let catalog: Vec<Anime> = Vec::new();
    assert_eq!(filter_animes(&catalog, &chars("")).len(), 0);
    assert_eq!(filter_animes(&catalog, &chars("x")).len(), 0);
}

#[test]
fn ranked_matches_are_sorted_by_score_then_title() {
    // several titles that all match the query; the result must hold
    // exactly the matching titles, ordered by descending matcher score
    // with ties broken by ascending title
    let titles = ["Sword Art Online", "Sakura Wars", "Star Blazers", "Slam Dunk", "Monster"];
    let catalog: Vec<Anime> = titles
        .iter()
        .map(|t| entry(t, &t.to_lowercase().replace(' ', "-")))
        .collect();
    let query = "sa";
    let ranked = filter_animes(&catalog, &chars(query));

    let mut expected: Vec<(i64, String)> = titles
        .iter()
        .filter_map(|t| {
            fuzzy_matcher::clangd::fuzzy_match(t, query).map(|s| (s, t.to_string()))
        })
        .collect();
    expected.sort_by(|a, b| b.0.cmp(&a.0).then(a.1.cmp(&b.1)));

    let got: Vec<String> = ranked.iter().map(|a| a.names[0].clone()).collect();
    let want: Vec<String> = expected.into_iter().map(|p| p.1).collect();
    assert_eq!(got, want);
}
