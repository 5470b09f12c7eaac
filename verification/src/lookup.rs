//! The lookup tables that resolve a session's foreign keys to display names:
//! cinema id to theater name and presentation slug to movie title, with
//! last-write-wins on a repeated key and placeholder names for a key that
//! resolves to nothing.
use vstd::prelude::*;
use crate::schedule::Market;
use crate::schedule::Presentation;
use crate::schedule::RawData;

verus! {

/// A key-to-name table, kept in insertion order; a later entry for the same
/// key wins.
pub struct NameMap {
    pairs: Vec<(String, String)>,
}

impl View for NameMap {
    type V = Seq<(Seq<char>, Seq<char>)>;

    closed spec fn view(&self) -> Seq<(Seq<char>, Seq<char>)> {
        self.pairs@.map_values(|p: (String, String)| (p.0@, p.1@))
    }
}

/// The value of the last entry for `key`, if the table holds one.
pub open spec fn lookup_spec(pairs: Seq<(Seq<char>, Seq<char>)>, key: Seq<char>) -> Option<
    Seq<char>,
>
    decreases pairs.len(),
{
    if pairs.len() == 0 {
        None
    } else if pairs.last().0 == key {
        Some(pairs.last().1)
    } else {
        lookup_spec(pairs.drop_last(), key)
    }
}

impl NameMap {
    /// An empty table.
    pub fn new() -> (r: NameMap)
        ensures
            r@ =~= Seq::<(Seq<char>, Seq<char>)>::empty(),
    {
        NameMap { pairs: Vec::new() }
    }

    /// Adds an entry, overwriting any earlier one for the same key.
    pub fn insert_name(&mut self, key: String, value: String)
        ensures
            final(self)@ =~= old(self)@.push((key@, value@)),
    {
        self.pairs.push((key, value));
    }

    /// Looks up the name recorded last for `key`.
    pub fn lookup(&self, key: &String) -> (r: Option<String>)
        ensures
            match lookup_spec(self@, key@) {
                Some(v) => r matches Some(s) && s@ == v,
                None => r is None,
            },
    {
        let n = self.pairs.len();
        let mut i: usize = n;
        proof {
            assert(self@.take(n as int) =~= self@);
        }
        while i > 0
            invariant
                0 <= i <= n,
                n == self.pairs.len(),
                lookup_spec(self@, key@) == lookup_spec(self@.take(i as int), key@),
            decreases i,
        {
            i = i - 1;
            let p = &self.pairs[i];
            proof {
                assert(self@.take(i as int + 1).last() == self@[i as int]);
                assert(self@.take(i as int + 1).drop_last() =~= self@.take(i as int));
            }
            if p.0.eq(key) {
                return Some(p.1.clone());
            }
        }
        proof {
            assert(self@.take(0) =~= Seq::<(Seq<char>, Seq<char>)>::empty());
        }
        None
    }
}

/// The cinema table entries of one market's cinema list.
pub open spec fn cinema_entries(m: Market) -> Seq<(Seq<char>, Seq<char>)> {
    m.cinemas@.map_values(|c: crate::schedule::Cinema| (c.id@, c.name@))
}

/// The cinema table entries of a market list, in iteration order.
pub open spec fn market_entries(markets: Seq<Market>) -> Seq<(Seq<char>, Seq<char>)>
    decreases markets.len(),
{
    if markets.len() == 0 {
        Seq::empty()
    } else {
        market_entries(markets.drop_last()) + cinema_entries(markets.last())
    }
}

/// The movie-title table entries of a presentation list, in iteration order.
pub open spec fn presentation_entries(ps: Seq<Presentation>) -> Seq<(Seq<char>, Seq<char>)> {
    ps.map_values(|p: Presentation| (p.slug@, p.show.title@))
}

/// Builds the two lookup tables of a schedule: cinema id to theater name
/// from every market's cinema list, and presentation slug to movie title
/// from the presentation list, each in iteration order so that a later
/// entry for a repeated key wins.
pub fn get_movie_schedule(data: &RawData) -> (r: (NameMap, NameMap))
    ensures
        r.0@ =~= market_entries(data.data.market@),
        r.1@ =~= presentation_entries(data.data.presentations@),
{
    let mut cinema_names = NameMap::new();
    let markets = &data.data.market;
    let mut i: usize = 0;
    while i < markets.len()
        invariant
            0 <= i <= markets.len(),
            markets == &data.data.market,
            cinema_names@ =~= market_entries(markets@.take(i as int)),
        decreases markets.len() - i,
    {
        let cinemas = &markets[i].cinemas;
        let ghost prior = cinema_names@;
        let mut j: usize = 0;
        while j < cinemas.len()
            invariant
                0 <= j <= cinemas.len(),
                cinemas == &markets@[i as int].cinemas,
                i < markets.len(),
                markets == &data.data.market,
                cinema_names@ =~= prior + cinema_entries(markets@[i as int]).take(j as int),
            decreases cinemas.len() - j,
        {
            cinema_names.insert_name(cinemas[j].id.clone(), cinemas[j].name.clone());
            j += 1;
        }
        proof {
            assert(markets@.take(i as int + 1).drop_last() =~= markets@.take(i as int));
            assert(markets@.take(i as int + 1).last() == markets@[i as int]);
            assert(cinema_entries(markets@[i as int]).take(cinemas@.len() as int)
                =~= cinema_entries(markets@[i as int]));
        }
        i += 1;
    }
    proof {
        assert(markets@.take(markets@.len() as int) =~= markets@);
    }
    let mut movie_titles = NameMap::new();
    let presentations = &data.data.presentations;
    let mut k: usize = 0;
    while k < presentations.len()
        invariant
            0 <= k <= presentations.len(),
            presentations == &data.data.presentations,
            movie_titles@ =~= presentation_entries(presentations@.take(k as int)),
        decreases presentations.len() - k,
    {
        movie_titles.insert_name(presentations[k].slug.clone(), presentations[k].show.title.clone());
        proof {
            assert(presentation_entries(presentations@.take(k as int + 1))
                =~= presentation_entries(presentations@.take(k as int)).push(
                (presentations@[k as int].slug@, presentations@[k as int].show.title@),
            ));
        }
        k += 1;
    }
    proof {
        assert(presentations@.take(presentations@.len() as int) =~= presentations@);
    }
    (cinema_names, movie_titles)
}

/// The resolved theater name of a cinema id: the name in the table, or the
/// placeholder when the id resolves to nothing.
pub open spec fn theater_of(pairs: Seq<(Seq<char>, Seq<char>)>, id: Seq<char>) -> Seq<char> {
    match lookup_spec(pairs, id) {
        Some(name) => name,
        None => "Unknown Theater"@,
    }
}

/// The resolved movie title of a presentation slug: the title in the table,
/// or the placeholder when the slug resolves to nothing.
pub open spec fn movie_of(pairs: Seq<(Seq<char>, Seq<char>)>, slug: Seq<char>) -> Seq<char> {
    match lookup_spec(pairs, slug) {
        Some(title) => title,
        None => "Unknown Movie"@,
    }
}

/// A key that no entry carries resolves to nothing.
pub proof fn lemma_lookup_unmatched(pairs: Seq<(Seq<char>, Seq<char>)>, key: Seq<char>)
    requires
        forall|m: int| 0 <= m < pairs.len() ==> (#[trigger] pairs[m]).0 != key,
    ensures
        lookup_spec(pairs, key) is None,
    decreases pairs.len(),
{
    if pairs.len() > 0 {
        assert(pairs[pairs.len() - 1].0 != key);
        assert(forall|m: int|
            0 <= m < pairs.drop_last().len() ==> (#[trigger] pairs.drop_last()[m]).0 != key);
        lemma_lookup_unmatched(pairs.drop_last(), key);
    }
}

/// A cinema id that matches no entry renders exactly the Unknown Theater
/// placeholder.
pub proof fn lemma_unknown_theater(pairs: Seq<(Seq<char>, Seq<char>)>, id: Seq<char>)
    requires
        forall|m: int| 0 <= m < pairs.len() ==> (#[trigger] pairs[m]).0 != id,
    ensures
        theater_of(pairs, id) == "Unknown Theater"@,
{
    lemma_lookup_unmatched(pairs, id);
}

/// A presentation slug that matches no entry renders exactly the Unknown
/// Movie placeholder.
pub proof fn lemma_unknown_movie(pairs: Seq<(Seq<char>, Seq<char>)>, slug: Seq<char>)
    requires
        forall|m: int| 0 <= m < pairs.len() ==> (#[trigger] pairs[m]).0 != slug,
    ensures
        movie_of(pairs, slug) == "Unknown Movie"@,
{
    lemma_lookup_unmatched(pairs, slug);
}

/// Resolves a cinema id to its theater name, falling back to the
/// placeholder.
pub fn theater_name(names: &NameMap, id: &String) -> (r: String)
    ensures
        r@ == theater_of(names@, id@),
{
    match names.lookup(id) {
        Some(name) => name,
        None => String::from_str("Unknown Theater"),
    }
}

/// Resolves a presentation slug to its movie title, falling back to the
/// placeholder.
pub fn movie_title(titles: &NameMap, slug: &String) -> (r: String)
    ensures
        r@ == movie_of(titles@, slug@),
{
    match titles.lookup(slug) {
        Some(title) => title,
        None => String::from_str("Unknown Movie"),
    }
}

} // verus!
