//! Catalog entries and the choice of catalog backend.

use vstd::prelude::*;

verus! {

/// One catalog entry. `names` holds at least the display title (index 0)
/// and the machine slug used in provider calls (index 1); `synopsis` and
/// `image_url` are carried for display only.
#[derive(Debug)]
pub struct Anime {
    pub names: Vec<String>,
    pub synopsis: String,
    pub image_url: String,
}

/// Mathematical value of an `Anime`: every string as a character sequence.
pub ghost struct AnimeView {
    pub names: Seq<Seq<char>>,
    pub synopsis: Seq<char>,
    pub image_url: Seq<char>,
}

impl View for Anime {
    type V = AnimeView;

    open spec fn view(&self) -> AnimeView {
        AnimeView {
            names: self.names.deep_view(),
            synopsis: self.synopsis@,
            image_url: self.image_url@,
        }
    }
}

impl DeepView for Anime {
    type V = AnimeView;

    open spec fn deep_view(&self) -> AnimeView {
        self.view()
    }
}

/// A well-formed entry names both a display title and a slug.
pub open spec fn anime_wf(a: AnimeView) -> bool {
    a.names.len() >= 2
}

/// Every entry of a catalog is well formed.
pub open spec fn catalog_wf(c: Seq<AnimeView>) -> bool {
    forall|i: int| 0 <= i < c.len() ==> anime_wf(#[trigger] c[i])
}

impl Anime {
    /// The display title, shown in lists.
    pub fn title(&self) -> (r: &String)
        requires
            anime_wf(self@),
        ensures
            r@ == self@.names[0],
    {
        &self.names[0]
    }

    /// The machine slug, handed to the catalog provider.
    pub fn slug(&self) -> (r: &String)
        requires
            anime_wf(self@),
        ensures
            r@ == self@.names[1],
    {
        &self.names[1]
    }
}

impl Clone for Anime {
    fn clone(&self) -> (r: Self)
        ensures
            r@ == self@,
    {
        let mut names: Vec<String> = Vec::new();
        let mut i: usize = 0;
        while i < self.names.len()
            invariant
                i <= self.names@.len(),
                names.deep_view() =~= self.names.deep_view().take(i as int),
            decreases self.names@.len() - i,
        {
            let ghost before = names.deep_view();
            names.push(self.names[i].clone());
            proof {
                assert(names.deep_view() =~= before.push(self.names.deep_view()[i as int]));
                assert(self.names.deep_view().take(i + 1) =~= self.names.deep_view().take(
                    i as int,
                ).push(self.names.deep_view()[i as int]));
            }
            i = i + 1;
        }
        proof {
            assert(names.deep_view() =~= self.names.deep_view());
        }
        let r = Anime {
            names,
            synopsis: self.synopsis.clone(),
            image_url: self.image_url.clone(),
        };
        r
    }
}

/// Copies a catalog; the copy has the same mathematical value.
pub fn clone_animes(v: &Vec<Anime>) -> (r: Vec<Anime>)
    ensures
        r.deep_view() == v.deep_view(),
{
    let mut r: Vec<Anime> = Vec::new();
    let mut i: usize = 0;
    while i < v.len()
        invariant
            i <= v@.len(),
            r.deep_view() =~= v.deep_view().take(i as int),
        decreases v@.len() - i,
    {
        let ghost before = r.deep_view();
        r.push(v[i].clone());
        proof {
            assert(r.deep_view() =~= before.push(v.deep_view()[i as int]));
            assert(v.deep_view().take(i + 1) =~= v.deep_view().take(i as int).push(
                v.deep_view()[i as int],
            ));
        }
        i = i + 1;
    }
    proof {
        assert(r.deep_view() =~= v.deep_view());
    }
    r
}

/// Keeps, in order, exactly the entries that name both a title and a
/// slug; what a provider delivered becomes a well-formed catalog.
pub fn sanitize_catalog(v: Vec<Anime>) -> (r: Vec<Anime>)
    ensures
        r.deep_view() == v.deep_view().filter(|a: AnimeView| anime_wf(a)),
        catalog_wf(r.deep_view()),
{
    let ghost pred = |a: AnimeView| anime_wf(a);
    let mut r: Vec<Anime> = Vec::new();
    let mut i: usize = 0;
    while i < v.len()
        invariant
            i <= v@.len(),
            pred == (|a: AnimeView| anime_wf(a)),
            r.deep_view() =~= v.deep_view().take(i as int).filter(pred),
            catalog_wf(r.deep_view()),
        decreases v@.len() - i,
    {
        let ghost prefix = v.deep_view().take(i as int);
        let ghost extended = v.deep_view().take(i + 1);
        proof {
            assert(extended.drop_last() =~= prefix);
            assert(extended.last() == v.deep_view()[i as int]);
            reveal_with_fuel(Seq::filter, 2);
        }
        let ghost before = r.deep_view();
        if v[i].names.len() >= 2 {
            r.push(v[i].clone());
            proof {
                assert(r.deep_view() =~= before.push(v.deep_view()[i as int]));
            }
        }
        i = i + 1;
    }
    proof {
        assert(v.deep_view().take(v.deep_view().len() as int) =~= v.deep_view());
    }
    r
}

/// The available catalog backends.
#[derive(Clone, Copy, PartialEq, Eq, Structural, Debug)]
pub enum ScraperImpl {
    AnimeAv1Scraper,
    AnimeFlvScraper,
}

/// The other backend: with two of them, stepping in either direction
/// swaps.
pub open spec fn other_scraper(s: ScraperImpl) -> ScraperImpl {
    match s {
        ScraperImpl::AnimeAv1Scraper => ScraperImpl::AnimeFlvScraper,
        ScraperImpl::AnimeFlvScraper => ScraperImpl::AnimeAv1Scraper,
    }
}

impl ScraperImpl {
    /// Cycles backwards through the backends.
    pub fn previous(self) -> (r: Self)
        ensures
            r == other_scraper(self),
    {
        match self {
            Self::AnimeAv1Scraper => Self::AnimeFlvScraper,
            Self::AnimeFlvScraper => Self::AnimeAv1Scraper,
        }
    }

    /// Cycles forwards through the backends.
    pub fn next(self) -> (r: Self)
        ensures
            r == other_scraper(self),
    {
        match self {
            Self::AnimeAv1Scraper => Self::AnimeFlvScraper,
            Self::AnimeFlvScraper => Self::AnimeAv1Scraper,
        }
    }

    /// Name of the backend, for option screens and configuration files.
    pub fn label(&self) -> (r: &'static str)
        ensures
            self is AnimeAv1Scraper ==> r@ == "AnimeAv1Scraper"@,
            self is AnimeFlvScraper ==> r@ == "AnimeFlvScraper"@,
    {
        match self {
            Self::AnimeAv1Scraper => "AnimeAv1Scraper",
            Self::AnimeFlvScraper => "AnimeFlvScraper",
        }
    }
}

} // verus!
