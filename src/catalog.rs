//! Records of the remote catalog and the walk over its pages.
use vstd::prelude::*;

verus! {

/// One catalog entry.
pub struct Character {
    pub name: String,
    pub status: String,
    pub species: String,
    pub character_type: String,
    pub image: String,
    /// References to the episodes the character appears in, in order.
    pub episode: Vec<String>,
}

/// One episode record of the remote catalog.
pub struct Episode {
    pub id: i32,
    pub name: String,
    pub air_date: String,
    /// The season and episode code, such as `S01E01`.
    pub episode: String,
    pub characters: Vec<String>,
    pub url: String,
    pub created: String,
}

/// One page of a paginated collection: its items and the address of the next
/// page, if any.
pub struct Page {
    pub items: Vec<Character>,
    pub next: Option<String>,
}

/// Why a catalog operation failed.
#[derive(PartialEq, Eq, Structural, Clone, Copy, Debug)]
pub enum FetchError {
    /// The remote API could not be reached, or it timed out.
    Transport,
    /// The remote API answered with a payload that is not a valid page.
    Decode,
    /// The collection holds no item.
    EmptyCollection,
}

impl FetchError {
    /// What the requesting chat is told: a distinct notice for an empty
    /// collection, one generic notice for the other failures.
    pub fn user_message(&self) -> (r: String)
        ensures
            r@ == match *self {
                FetchError::EmptyCollection => "No se encontraron personajes"@,
                _ => "No se pudo consultar el catálogo de personajes"@,
            },
    {
        match self {
            FetchError::EmptyCollection => String::from_str("No se encontraron personajes"),
            _ => String::from_str("No se pudo consultar el catálogo de personajes"),
        }
    }
}

/// Address of the full character collection.
pub fn collection_url() -> (r: String)
    ensures
        r@ == collection_url_spec(),
{
    String::from_str("https://rickandmortyapi.com/api/character")
}

pub open spec fn collection_url_spec() -> Seq<char> {
    "https://rickandmortyapi.com/api/character"@
}

/// Address of the characters whose name matches `query`.
pub fn search_url(query: &str) -> (r: String)
    ensures
        r@ == collection_url_spec() + "/?name="@ + query@,
{
    let mut url = collection_url();
    url.append("/?name=");
    url.append(query);
    url
}

/// Outcome of walking a collection from accumulated items `acc`, given the
/// outcomes of the page requests in order: `None` while a further page is
/// still to be requested, otherwise the whole collection or the first failure.
pub open spec fn walk_run(
    acc: Seq<Character>,
    outcomes: Seq<Result<Page, FetchError>>,
) -> Option<Result<Seq<Character>, FetchError>>
    decreases outcomes.len(),
{
    if outcomes.len() == 0 {
        None
    } else {
        match outcomes[0] {
            Err(e) => Some(Err(e)),
            Ok(p) => match p.next {
                None => Some(Ok(acc + p.items@)),
                Some(_) => walk_run(acc + p.items@, outcomes.drop_first()),
            },
        }
    }
}

/// A walk over a paginated collection that still has a page to request.
pub struct CatalogWalk {
    acc: Vec<Character>,
    url: String,
}

/// What a walk does after one page request.
pub enum WalkStep {
    /// Request the page at `walk.url()` next.
    Request(CatalogWalk),
    /// The last page was read: every item of the collection, in page order.
    Finished(Vec<Character>),
    /// A request failed; what was gathered is dropped.
    Aborted(FetchError),
}

impl CatalogWalk {
    pub closed spec fn items(&self) -> Seq<Character> {
        self.acc@
    }

    pub closed spec fn next_url(&self) -> String {
        self.url
    }

    /// A walk that first requests `start`.
    pub fn start(start: String) -> (r: CatalogWalk)
        ensures
            r.items() == Seq::<Character>::empty(),
            r.next_url() == start,
    {
        CatalogWalk { acc: Vec::new(), url: start }
    }

    /// Address of the page to request next.
    pub fn url(&self) -> (r: &String)
        ensures
            *r == self.next_url(),
    {
        &self.url
    }

    /// Takes the outcome of requesting `self.url()`.
    pub fn advance(self, outcome: Result<Page, FetchError>) -> (r: WalkStep)
        ensures
            match r {
                WalkStep::Request(w) => {
                    &&& walk_run(self.items(), seq![outcome]) is None
                    &&& outcome is Ok
                    &&& w.items() == self.items() + outcome->Ok_0.items@
                    &&& outcome->Ok_0.next == Some(w.next_url())
                },
                WalkStep::Finished(v) => walk_run(self.items(), seq![outcome]) == Some(
                    Ok::<Seq<Character>, FetchError>(v@),
                ),
                WalkStep::Aborted(e) => walk_run(self.items(), seq![outcome]) == Some(
                    Err::<Seq<Character>, FetchError>(e),
                ),
            },
    {
        proof {
            assert(seq![outcome].drop_first() =~= Seq::<Result<Page, FetchError>>::empty());
            reveal_with_fuel(walk_run, 2);
        }
        match outcome {
            Err(e) => WalkStep::Aborted(e),
            Ok(page) => {
                let Page { items, next } = page;
                let mut acc = self.acc;
                let mut items = items;
                acc.append(&mut items);
                match next {
                    None => WalkStep::Finished(acc),
                    Some(url) => WalkStep::Request(CatalogWalk { acc, url }),
                }
            },
        }
    }
}

/// A failed page request ends the walk with that failure, and no item, however
/// many pages were read before it.
pub proof fn lemma_walk_aborts_on_failure(
    acc: Seq<Character>,
    outcomes: Seq<Result<Page, FetchError>>,
    i: int,
)
    requires
        0 <= i < outcomes.len(),
        outcomes[i] is Err,
        forall|j: int| 0 <= j < i ==> #[trigger] outcomes[j] is Ok && outcomes[j]->Ok_0.next is Some,
    ensures
        walk_run(acc, outcomes) == Some(Err::<Seq<Character>, FetchError>(outcomes[i]->Err_0)),
    decreases i,
{
    if i > 0 {
        let p = outcomes[0]->Ok_0;
        assert(outcomes[0] is Ok);
        let rest = outcomes.drop_first();
        assert forall|j: int| 0 <= j < i - 1 implies #[trigger] rest[j] is Ok && rest[j]->Ok_0.next is Some by {
            assert(rest[j] == outcomes[j + 1]);
        }
        lemma_walk_aborts_on_failure(acc + p.items@, rest, i - 1);
    }
}

/// Items of the pages of `outcomes`, in page order, for outcomes that are
/// all pages.
pub open spec fn items_of(outcomes: Seq<Result<Page, FetchError>>) -> Seq<Character>
    decreases outcomes.len(),
{
    if outcomes.len() == 0 {
        Seq::empty()
    } else {
        outcomes[0]->Ok_0.items@ + items_of(outcomes.drop_first())
    }
}

/// A walk whose first request gave `first` and whose later requests gave
/// `rest` ends as one step with `first` and, where that step asks for a further
/// page, a walk over `rest` from the items gathered so far. So a run of
/// `CatalogWalk::advance` calls computes `walk_run` over all its outcomes.
pub proof fn lemma_walk_step(
    acc: Seq<Character>,
    first: Result<Page, FetchError>,
    rest: Seq<Result<Page, FetchError>>,
)
    ensures
        (first is Ok && first->Ok_0.next is Some) ==> walk_run(acc, seq![first] + rest) == walk_run(
            acc + first->Ok_0.items@,
            rest,
        ),
        !(first is Ok && first->Ok_0.next is Some) ==> walk_run(acc, seq![first] + rest) == walk_run(
            acc,
            seq![first],
        ),
{
    let all = seq![first] + rest;
    assert(all[0] == first);
    assert(all.drop_first() =~= rest);
}

/// When every request succeeds and only the last page has no successor, the
/// walk returns every item of every page, in page order.
pub proof fn lemma_walk_collects_all_pages(acc: Seq<Character>, outcomes: Seq<Result<Page, FetchError>>)
    requires
        outcomes.len() > 0,
        forall|j: int| 0 <= j < outcomes.len() ==> #[trigger] outcomes[j] is Ok,
        forall|j: int| 0 <= j < outcomes.len() - 1 ==> #[trigger] outcomes[j]->Ok_0.next is Some,
        outcomes.last()->Ok_0.next is None,
    ensures
        walk_run(acc, outcomes) == Some(Ok::<Seq<Character>, FetchError>(acc + items_of(outcomes))),
    decreases outcomes.len(),
{
    assert(outcomes[0] is Ok);
    let p = outcomes[0]->Ok_0;
    let rest = outcomes.drop_first();
    if outcomes.len() == 1 {
        assert(rest =~= Seq::<Result<Page, FetchError>>::empty());
        assert(p.items@ + items_of(rest) =~= p.items@);
    } else {
        assert(outcomes[0]->Ok_0.next is Some);
        assert forall|j: int| 0 <= j < rest.len() implies #[trigger] rest[j] is Ok by {
            assert(rest[j] == outcomes[j + 1]);
        }
        assert forall|j: int| 0 <= j < rest.len() - 1 implies #[trigger] rest[j]->Ok_0.next is Some by {
            assert(rest[j] == outcomes[j + 1]);
        }
        assert(rest.last() == outcomes.last());
        lemma_walk_collects_all_pages(acc + p.items@, rest);
        assert(acc + p.items@ + items_of(rest) =~= acc + (p.items@ + items_of(rest)));
    }
}

/// A terminal page without items ends the walk successfully with what was
/// gathered so far; on a first page, with an empty collection.
pub proof fn lemma_walk_empty_last_page(acc: Seq<Character>, page: Page)
    requires
        page.items@.len() == 0,
        page.next is None,
    ensures
        walk_run(acc, seq![Ok::<Page, FetchError>(page)]) == Some(Ok::<Seq<Character>, FetchError>(acc)),
{
    assert(acc + page.items@ =~= acc);
}

} // verus!
