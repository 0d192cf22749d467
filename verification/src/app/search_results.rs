use vstd::prelude::*;

use crate::PAGE_SIZE;
use vstd::string::StringExecFns;

verus! {

/// A track as the result table shows it.
#[derive(Clone, Debug)]
pub struct Track {
    pub name: String,
    /// Names of the performing artists, main artist first.
    pub artists: Vec<String>,
    /// Name of the album the track is on.
    pub album: String,
}

/// An album as the result table shows it.
#[derive(Clone, Debug)]
pub struct Album {
    pub name: String,
    pub artists: Vec<String>,
}

/// An artist as the result table shows it.
#[derive(Clone, Debug)]
pub struct Artist {
    pub name: String,
    pub genres: Vec<String>,
}

/// A show as the result table shows it.
#[derive(Clone, Debug)]
pub struct Show {
    pub name: String,
}

/// A playlist as the result table shows it.
#[derive(Clone, Debug)]
pub struct Playlist {
    pub name: String,
}

/// The kinds of item the search endpoint looks for.
#[derive(Debug, Clone, Copy, PartialEq, Eq, Structural)]
pub enum SearchType {
    Artist,
    Album,
    Track,
    Playlist,
    Show,
    Episode,
}

/// One page returned by a search, with the items of its kind.
#[derive(Clone, Debug)]
pub enum SearchResult {
    Playlists(Vec<Playlist>),
    Albums(Vec<Album>),
    Artists(Vec<Artist>),
    Tracks(Vec<Track>),
    Shows(Vec<Show>),
    /// Episode pages are received but not kept.
    Episodes,
}

/// The items of one page.
pub enum PageItems {
    Playlists(Seq<Playlist>),
    Albums(Seq<Album>),
    Artists(Seq<Artist>),
    Tracks(Seq<Track>),
    Shows(Seq<Show>),
    Episodes,
}

impl View for SearchResult {
    type V = PageItems;

    open spec fn view(&self) -> PageItems {
        match self {
            SearchResult::Playlists(v) => PageItems::Playlists(v@),
            SearchResult::Albums(v) => PageItems::Albums(v@),
            SearchResult::Artists(v) => PageItems::Artists(v@),
            SearchResult::Tracks(v) => PageItems::Tracks(v@),
            SearchResult::Shows(v) => PageItems::Shows(v@),
            SearchResult::Episodes => PageItems::Episodes,
        }
    }
}

/// The results of one kind gathered so far, page by page.
#[derive(Clone, Debug)]
pub struct SearchTypeResults<T: Clone> {
    pub items: Vec<T>,
    /// Offset at which the next page starts.
    pub next_offset: u32,
    pub last_page_was_full: bool,
}

/// The abstract content of a `SearchTypeResults`.
pub struct PagedItems<T> {
    pub items: Seq<T>,
    pub next_offset: u32,
    pub last_page_was_full: bool,
}

impl<T: Clone> View for SearchTypeResults<T> {
    type V = PagedItems<T>;

    open spec fn view(&self) -> PagedItems<T> {
        PagedItems {
            items: self.items@,
            next_offset: self.next_offset,
            last_page_was_full: self.last_page_was_full,
        }
    }
}

/// Results made of a first page: the offset moves past its items (counted
/// modulo 2^32) and a full page means more may follow.
pub open spec fn first_page<T>(items: Seq<T>) -> PagedItems<T> {
    PagedItems {
        items,
        next_offset: items.len() as u32,
        last_page_was_full: items.len() == PAGE_SIZE,
    }
}

/// Adding the page to the offset does not go past `u32::MAX`.
pub open spec fn page_fits<T>(r: PagedItems<T>, page: Seq<T>) -> bool {
    r.next_offset + (page.len() as u32) <= u32::MAX
}

/// Results with one more page: its items follow the earlier ones, the offset
/// moves past them, and whether more may follow depends on this page alone.
pub open spec fn appended<T>(r: PagedItems<T>, page: Seq<T>) -> PagedItems<T> {
    PagedItems {
        items: r.items + page,
        next_offset: (r.next_offset + (page.len() as u32)) as u32,
        last_page_was_full: page.len() == PAGE_SIZE,
    }
}

impl<T: Clone> SearchTypeResults<T> {
    /// Results made of a first page.
    pub fn from_first_page(items: Vec<T>) -> (r: Self)
        ensures
            r@ == first_page(items@),
    {
        let next_offset = items.len() as u32;
        let last_page_was_full = items.len() == PAGE_SIZE;
        Self { items, next_offset, last_page_was_full }
    }

    /// Adds the next page.
    pub fn append_page(&mut self, new_items: Vec<T>)
        requires
            page_fits(old(self)@, new_items@),
        ensures
            final(self)@ == appended(old(self)@, new_items@),
    {
        let mut new_items = new_items;
        self.last_page_was_full = new_items.len() == PAGE_SIZE;
        self.next_offset += new_items.len() as u32;
        self.items.append(&mut new_items);
    }

    /// Whether the last page was full, so that another may follow.
    pub fn has_more(&self) -> (b: bool)
        ensures
            b == self.last_page_was_full,
    {
        self.last_page_was_full
    }
}

/// The results gathered per kind; a kind that no page has brought yet is `None`.
#[derive(Clone, Debug)]
pub struct SearchResults {
    pub tracks: Option<SearchTypeResults<Track>>,
    pub albums: Option<SearchTypeResults<Album>>,
    pub artists: Option<SearchTypeResults<Artist>>,
    pub shows: Option<SearchTypeResults<Show>>,
    pub playlists: Option<SearchTypeResults<Playlist>>,
}

/// The abstract content of a `SearchResults`.
pub struct ResultsView {
    pub tracks: Option<PagedItems<Track>>,
    pub albums: Option<PagedItems<Album>>,
    pub artists: Option<PagedItems<Artist>>,
    pub shows: Option<PagedItems<Show>>,
    pub playlists: Option<PagedItems<Playlist>>,
}

/// The abstract content of an optional `SearchTypeResults`.
pub open spec fn slot_view<T: Clone>(slot: Option<SearchTypeResults<T>>) -> Option<PagedItems<T>> {
    match slot {
        Some(r) => Some(r@),
        None => None,
    }
}

impl View for SearchResults {
    type V = ResultsView;

    open spec fn view(&self) -> ResultsView {
        ResultsView {
            tracks: slot_view(self.tracks),
            albums: slot_view(self.albums),
            artists: slot_view(self.artists),
            shows: slot_view(self.shows),
            playlists: slot_view(self.playlists),
        }
    }
}

/// No results of any kind.
pub open spec fn no_results() -> ResultsView {
    ResultsView { tracks: None, albums: None, artists: None, shows: None, playlists: None }
}

/// A page taken into a slot: it starts the results of its kind, or follows them.
pub open spec fn gathered<T>(slot: Option<PagedItems<T>>, page: Seq<T>) -> Option<PagedItems<T>> {
    match slot {
        None => Some(first_page(page)),
        Some(r) => Some(appended(r, page)),
    }
}

/// A page added to a slot only when results of its kind already exist.
pub open spec fn extended<T>(slot: Option<PagedItems<T>>, page: Seq<T>) -> Option<PagedItems<T>> {
    match slot {
        None => None,
        Some(r) => Some(appended(r, page)),
    }
}

/// Adding the page to the slot keeps the offset within `u32`.
pub open spec fn slot_fits<T>(slot: Option<PagedItems<T>>, page: Seq<T>) -> bool {
    match slot {
        None => true,
        Some(r) => page_fits(r, page),
    }
}

/// A page taken into the results of its kind; episode pages change nothing.
pub open spec fn collect_page(r: ResultsView, page: PageItems) -> ResultsView {
    match page {
        PageItems::Tracks(p) => ResultsView { tracks: gathered(r.tracks, p), ..r },
        PageItems::Albums(p) => ResultsView { albums: gathered(r.albums, p), ..r },
        PageItems::Artists(p) => ResultsView { artists: gathered(r.artists, p), ..r },
        PageItems::Shows(p) => ResultsView { shows: gathered(r.shows, p), ..r },
        PageItems::Playlists(p) => ResultsView { playlists: gathered(r.playlists, p), ..r },
        PageItems::Episodes => r,
    }
}

/// A further page added to the results of its kind, when there are any.
pub open spec fn extend_page(r: ResultsView, page: PageItems) -> ResultsView {
    match page {
        PageItems::Tracks(p) => ResultsView { tracks: extended(r.tracks, p), ..r },
        PageItems::Albums(p) => ResultsView { albums: extended(r.albums, p), ..r },
        PageItems::Artists(p) => ResultsView { artists: extended(r.artists, p), ..r },
        PageItems::Shows(p) => ResultsView { shows: extended(r.shows, p), ..r },
        PageItems::Playlists(p) => ResultsView { playlists: extended(r.playlists, p), ..r },
        PageItems::Episodes => r,
    }
}

/// Adding the page keeps the offset of its kind within `u32`.
pub open spec fn results_fit(r: ResultsView, page: PageItems) -> bool {
    match page {
        PageItems::Tracks(p) => slot_fits(r.tracks, p),
        PageItems::Albums(p) => slot_fits(r.albums, p),
        PageItems::Artists(p) => slot_fits(r.artists, p),
        PageItems::Shows(p) => slot_fits(r.shows, p),
        PageItems::Playlists(p) => slot_fits(r.playlists, p),
        PageItems::Episodes => true,
    }
}

/// The results that a sequence of fetched pages amounts to: failed fetches
/// are skipped, and every other page is collected in order.
pub open spec fn collected<E>(pages: Seq<Result<SearchResult, E>>) -> ResultsView
    decreases pages.len(),
{
    if pages.len() == 0 {
        no_results()
    } else {
        match pages.last() {
            Ok(page) => collect_page(collected(pages.drop_last()), page@),
            Err(_) => collected(pages.drop_last()),
        }
    }
}

/// Every page of the sequence fits into what the pages before it collected.
pub open spec fn pages_fit<E>(pages: Seq<Result<SearchResult, E>>) -> bool {
    forall|i: int|
        0 <= i < pages.len() ==> match #[trigger] pages[i] {
            Ok(page) => results_fit(collected(pages.take(i)), page@),
            Err(_) => true,
        }
}

impl Default for SearchResults {
    fn default() -> (r: SearchResults)
        ensures
            r@ == no_results(),
    {
        SearchResults { tracks: None, albums: None, artists: None, shows: None, playlists: None }
    }
}

/// Takes a page into a slot: it starts the results or follows them.
fn gather_into<T: Clone>(slot: &mut Option<SearchTypeResults<T>>, items: Vec<T>)
    requires
        slot_fits(slot_view(*old(slot)), items@),
    ensures
        slot_view(*final(slot)) == gathered(slot_view(*old(slot)), items@),
{
    match slot {
        None => {
            *slot = Some(SearchTypeResults::from_first_page(items));
        },
        Some(r) => {
            r.append_page(items);
        },
    }
}

/// Adds a page to a slot that already holds results.
fn extend_slot<T: Clone>(slot: &mut Option<SearchTypeResults<T>>, items: Vec<T>)
    requires
        slot_fits(slot_view(*old(slot)), items@),
    ensures
        slot_view(*final(slot)) == extended(slot_view(*old(slot)), items@),
{
    if let Some(r) = slot {
        r.append_page(items);
    }
}

impl SearchResults {
    /// The results that the fetched pages amount to.
    pub fn from_pages<E>(pages: Vec<Result<SearchResult, E>>) -> (r: SearchResults)
        requires
            pages_fit(pages@),
        ensures
            r@ == collected(pages@),
    {
        let ghost all = pages@;
        let mut results = SearchResults::default();
        for sr in it: pages
            invariant
                it.seq() == all,
                pages_fit(all),
                results@ == collected(all.take(it.index())),
        {
            let ghost i = it.index();
            proof {
                assert(all.take(i + 1).drop_last() =~= all.take(i));
                assert(all.take(i + 1).last() == all[i]);
                assert(all.take(i + 1) =~= all.take(i).push(all[i]));
            }
            if let Ok(page) = sr {
                match page {
                    SearchResult::Tracks(items) => gather_into(&mut results.tracks, items),
                    SearchResult::Albums(items) => gather_into(&mut results.albums, items),
                    SearchResult::Artists(items) => gather_into(&mut results.artists, items),
                    SearchResult::Shows(items) => gather_into(&mut results.shows, items),
                    SearchResult::Playlists(items) => gather_into(&mut results.playlists, items),
                    SearchResult::Episodes => {},
                }
            }
        }
        proof {
            assert(all.take(all.len() as int) =~= all);
        }
        results
    }

    /// Adds a further page to the results of its kind; a page of a kind with
    /// no results yet is dropped.
    pub fn append_page(&mut self, sr: SearchResult)
        requires
            results_fit(old(self)@, sr@),
        ensures
            final(self)@ == extend_page(old(self)@, sr@),
    {
        match sr {
            SearchResult::Tracks(items) => extend_slot(&mut self.tracks, items),
            SearchResult::Albums(items) => extend_slot(&mut self.albums, items),
            SearchResult::Artists(items) => extend_slot(&mut self.artists, items),
            SearchResult::Shows(items) => extend_slot(&mut self.shows, items),
            SearchResult::Playlists(items) => extend_slot(&mut self.playlists, items),
            SearchResult::Episodes => {},
        }
    }
}

/// The results of the kind on display, borrowed from a `SearchResults`.
pub enum ActiveResults<'a> {
    Tracks(&'a SearchTypeResults<Track>),
    Albums(&'a SearchTypeResults<Album>),
    Artist(&'a SearchTypeResults<Artist>),
    Shows(&'a SearchTypeResults<Show>),
    Playlists(&'a SearchTypeResults<Playlist>),
}

impl SearchResults {
    /// The results of the given kind, if any were gathered; episodes are never kept.
    pub fn active(&self, search_type: SearchType) -> (a: Option<ActiveResults<'_>>)
        ensures
            match search_type {
                SearchType::Track => match self.tracks {
                    Some(r) => a matches Some(ActiveResults::Tracks(x)) && *x == r,
                    None => a is None,
                },
                SearchType::Album => match self.albums {
                    Some(r) => a matches Some(ActiveResults::Albums(x)) && *x == r,
                    None => a is None,
                },
                SearchType::Artist => match self.artists {
                    Some(r) => a matches Some(ActiveResults::Artist(x)) && *x == r,
                    None => a is None,
                },
                SearchType::Show => match self.shows {
                    Some(r) => a matches Some(ActiveResults::Shows(x)) && *x == r,
                    None => a is None,
                },
                SearchType::Playlist => match self.playlists {
                    Some(r) => a matches Some(ActiveResults::Playlists(x)) && *x == r,
                    None => a is None,
                },
                SearchType::Episode => a is None,
            },
    {
        match search_type {
            SearchType::Track => match &self.tracks {
                Some(r) => Some(ActiveResults::Tracks(r)),
                None => None,
            },
            SearchType::Album => match &self.albums {
                Some(r) => Some(ActiveResults::Albums(r)),
                None => None,
            },
            SearchType::Artist => match &self.artists {
                Some(r) => Some(ActiveResults::Artist(r)),
                None => None,
            },
            SearchType::Show => match &self.shows {
                Some(r) => Some(ActiveResults::Shows(r)),
                None => None,
            },
            SearchType::Playlist => match &self.playlists {
                Some(r) => Some(ActiveResults::Playlists(r)),
                None => None,
            },
            _ => None,
        }
    }
}

/// The first name of a list, or the empty string when there is none.
pub open spec fn first_or_empty(names: Seq<String>) -> Seq<char> {
    if names.len() > 0 {
        names[0]@
    } else {
        Seq::empty()
    }
}

/// The parts one after another, with `sep` between neighbours.
pub open spec fn joined(parts: Seq<Seq<char>>, sep: Seq<char>) -> Seq<char>
    decreases parts.len(),
{
    if parts.len() == 0 {
        Seq::empty()
    } else if parts.len() == 1 {
        parts[0]
    } else {
        joined(parts.drop_last(), sep) + sep + parts.last()
    }
}

/// The characters of each string.
pub open spec fn strings_view(v: Seq<String>) -> Seq<Seq<char>> {
    v.map_values(|s: String| s@)
}

impl<'a> ActiveResults<'a> {
    /// Number of items gathered so far.
    pub open spec fn item_count(&self) -> nat {
        match self {
            ActiveResults::Tracks(r) => r.items@.len(),
            ActiveResults::Albums(r) => r.items@.len(),
            ActiveResults::Artist(r) => r.items@.len(),
            ActiveResults::Shows(r) => r.items@.len(),
            ActiveResults::Playlists(r) => r.items@.len(),
        }
    }

    /// Whether the last page was full.
    pub open spec fn spec_has_more(&self) -> bool {
        match self {
            ActiveResults::Tracks(r) => r.last_page_was_full,
            ActiveResults::Albums(r) => r.last_page_was_full,
            ActiveResults::Artist(r) => r.last_page_was_full,
            ActiveResults::Shows(r) => r.last_page_was_full,
            ActiveResults::Playlists(r) => r.last_page_was_full,
        }
    }

    /// Offset at which the next page starts.
    pub open spec fn spec_next_offset(&self) -> u32 {
        match self {
            ActiveResults::Tracks(r) => r.next_offset,
            ActiveResults::Albums(r) => r.next_offset,
            ActiveResults::Artist(r) => r.next_offset,
            ActiveResults::Shows(r) => r.next_offset,
            ActiveResults::Playlists(r) => r.next_offset,
        }
    }

    /// The column titles of the result table.
    pub open spec fn header_titles(&self) -> Seq<&'static str> {
        match self {
            ActiveResults::Tracks(_) => seq!["Track", "Artist", "Album"],
            ActiveResults::Albums(_) => seq!["Album", "Artist"],
            ActiveResults::Artist(_) => seq!["Artist", "Genres"],
            ActiveResults::Shows(_) => seq!["Show"],
            ActiveResults::Playlists(_) => seq!["Playlist"],
        }
    }

    /// The cells of the table row for item `idx`.
    pub open spec fn row_cells(&self, idx: int) -> Seq<Seq<char>> {
        match self {
            ActiveResults::Tracks(r) => {
                let t = r.items@[idx];
                seq![t.name@, first_or_empty(t.artists@), t.album@]
            },
            ActiveResults::Albums(r) => {
                let a = r.items@[idx];
                seq![a.name@, first_or_empty(a.artists@)]
            },
            ActiveResults::Artist(r) => {
                let a = r.items@[idx];
                seq![a.name@, joined(strings_view(a.genres@), ", "@)]
            },
            ActiveResults::Shows(r) => seq![r.items@[idx].name@],
            ActiveResults::Playlists(r) => seq![r.items@[idx].name@],
        }
    }

    /// Number of items gathered so far.
    pub fn len(&self) -> (n: usize)
        ensures
            n == self.item_count(),
    {
        match self {
            Self::Tracks(r) => r.items.len(),
            Self::Albums(r) => r.items.len(),
            Self::Artist(r) => r.items.len(),
            Self::Shows(r) => r.items.len(),
            Self::Playlists(r) => r.items.len(),
        }
    }

    /// Whether another page may follow.
    pub fn has_more(&self) -> (b: bool)
        ensures
            b == self.spec_has_more(),
    {
        match self {
            Self::Tracks(r) => r.has_more(),
            Self::Albums(r) => r.has_more(),
            Self::Artist(r) => r.has_more(),
            Self::Shows(r) => r.has_more(),
            Self::Playlists(r) => r.has_more(),
        }
    }

    /// Offset at which the next page starts.
    pub fn next_offset(&self) -> (o: u32)
        ensures
            o == self.spec_next_offset(),
    {
        match self {
            Self::Tracks(r) => r.next_offset,
            Self::Albums(r) => r.next_offset,
            Self::Artist(r) => r.next_offset,
            Self::Shows(r) => r.next_offset,
            Self::Playlists(r) => r.next_offset,
        }
    }

    /// The column titles of the result table.
    pub fn headers(&self) -> (h: Vec<&'static str>)
        ensures
            h@ == self.header_titles(),
    {
        match self {
            Self::Tracks(_) => vec!["Track", "Artist", "Album"],
            Self::Albums(_) => vec!["Album", "Artist"],
            Self::Artist(_) => vec!["Artist", "Genres"],
            Self::Shows(_) => vec!["Show"],
            Self::Playlists(_) => vec!["Playlist"],
        }
    }
}

/// The first name of the list, or an empty string.
fn first_name(names: &Vec<String>) -> (s: String)
    ensures
        s@ == first_or_empty(names@),
{
    if names.len() > 0 {
        names[0].clone()
    } else {
        String::new()
    }
}

/// The strings one after another with `sep` between neighbours, as `join` builds them.
fn join_strings(parts: &Vec<String>, sep: &str) -> (s: String)
    ensures
        s@ == joined(strings_view(parts@), sep@),
{
    let mut res = String::new();
    let ghost views = strings_view(parts@);
    let mut i: usize = 0;
    while i < parts.len()
        invariant
            0 <= i <= parts.len(),
            views == strings_view(parts@),
            views.len() == parts@.len(),
            res@ == joined(views.take(i as int), sep@),
        decreases parts.len() - i,
    {
        proof {
            assert(views.take(i + 1).drop_last() =~= views.take(i as int));
            assert(views.take(i + 1).last() == parts@[i as int]@);
        }
        if i != 0 {
            res.append(sep);
        } else {
            assert(views.take(i as int) =~= Seq::<Seq<char>>::empty());
        }
        res.append(parts[i].as_str());
        i = i + 1;
    }
    proof {
        assert(views.take(parts.len() as int) =~= views);
    }
    res
}

impl<'a> ActiveResults<'a> {
    /// The cells of the table row for item `idx`.
    pub fn row_at(&self, idx: usize) -> (cells: Vec<String>)
        requires
            idx < self.item_count(),
        ensures
            strings_view(cells@) == self.row_cells(idx as int),
    {
        let cells = match self {
            Self::Tracks(r) => {
                let t = &r.items[idx];
                let artist = first_name(&t.artists);
                vec![t.name.clone(), artist, t.album.clone()]
            },
            Self::Albums(r) => {
                let a = &r.items[idx];
                let artist = first_name(&a.artists);
                vec![a.name.clone(), artist]
            },
            Self::Artist(r) => {
                let a = &r.items[idx];
                let name = a.name.clone();
                vec![name, join_strings(&a.genres, ", ")]
            },
            Self::Shows(r) => {
                let s = &r.items[idx];
                vec![s.name.clone()]
            },
            Self::Playlists(r) => {
                let p = &r.items[idx];
                vec![p.name.clone()]
            },
        };
        proof {
            assert(strings_view(cells@) =~= self.row_cells(idx as int));
        }
        cells
    }
}

/// A first page of at most `u32::MAX` items leaves the offset at its length.
pub proof fn lemma_first_page_offset<T>(items: Seq<T>)
    requires
        items.len() <= u32::MAX,
    ensures
        first_page(items).next_offset == items.len(),
{
}

/// While the offset equals the number of items gathered, adding a page keeps
/// it so: the offset always points just past the items already fetched.
pub proof fn lemma_offset_counts_items<T>(r: PagedItems<T>, page: Seq<T>)
    requires
        r.next_offset == r.items.len(),
        r.items.len() + page.len() <= u32::MAX,
    ensures
        page_fits(r, page),
        appended(r, page).next_offset == appended(r, page).items.len(),
        appended(r, page).items.len() == r.items.len() + page.len(),
{
}

/// A further page added to existing results is taken in just as collecting
/// would take it; a page of a kind with no results is dropped.
pub proof fn lemma_extend_agrees_with_collect(r: ResultsView, page: PageItems)
    ensures
        match page {
            PageItems::Tracks(_) => r.tracks is Some,
            PageItems::Albums(_) => r.albums is Some,
            PageItems::Artists(_) => r.artists is Some,
            PageItems::Shows(_) => r.shows is Some,
            PageItems::Playlists(_) => r.playlists is Some,
            PageItems::Episodes => true,
        } ==> extend_page(r, page) == collect_page(r, page),
        !match page {
            PageItems::Tracks(_) => r.tracks is Some,
            PageItems::Albums(_) => r.albums is Some,
            PageItems::Artists(_) => r.artists is Some,
            PageItems::Shows(_) => r.shows is Some,
            PageItems::Playlists(_) => r.playlists is Some,
            PageItems::Episodes => true,
        } ==> extend_page(r, page) == r,
{
}

/// The pages that contribute to the results, in order: the pages that were
/// fetched successfully and are not episode pages.
pub open spec fn counted_pages<E>(pages: Seq<Result<SearchResult, E>>) -> Seq<PageItems>
    decreases pages.len(),
{
    if pages.len() == 0 {
        Seq::empty()
    } else {
        let rest = counted_pages(pages.drop_last());
        match pages.last() {
            Ok(page) => if page@ is Episodes {
                rest
            } else {
                rest.push(page@)
            },
            Err(_) => rest,
        }
    }
}

/// The results that collecting the given pages one by one amounts to.
pub open spec fn collect_all(pages: Seq<PageItems>) -> ResultsView
    decreases pages.len(),
{
    if pages.len() == 0 {
        no_results()
    } else {
        collect_page(collect_all(pages.drop_last()), pages.last())
    }
}

/// What a sequence of fetched pages amounts to depends only on its counted
/// pages: failed fetches and episode pages, wherever they stand, change nothing.
pub proof fn lemma_collected_from_counted_pages<E>(pages: Seq<Result<SearchResult, E>>)
    ensures
        collected(pages) == collect_all(counted_pages(pages)),
    decreases pages.len(),
{
    if pages.len() > 0 {
        lemma_collected_from_counted_pages(pages.drop_last());
        let rest = counted_pages(pages.drop_last());
        if let Ok(page) = pages.last() {
            if !(page@ is Episodes) {
                assert(rest.push(page@).drop_last() =~= rest);
            }
        }
    }
}

/// Two sequences of fetched pages with the same counted pages, in the same
/// order, amount to the same results, whatever failed fetches and episode
/// pages either holds and wherever they stand.
pub proof fn lemma_skipped_pages_change_nothing<E, F>(
    pages: Seq<Result<SearchResult, E>>,
    other: Seq<Result<SearchResult, F>>,
)
    requires
        counted_pages(pages) == counted_pages(other),
    ensures
        collected(pages) == collected(other),
{
    lemma_collected_from_counted_pages(pages);
    lemma_collected_from_counted_pages(other);
}

/// A failed fetch or an episode page inserted anywhere leaves the counted
/// pages as they were.
pub proof fn lemma_insert_skipped_page<E>(
    pages: Seq<Result<SearchResult, E>>,
    i: int,
    skipped: Result<SearchResult, E>,
)
    requires
        0 <= i <= pages.len(),
        match skipped {
            Ok(page) => page@ is Episodes,
            Err(_) => true,
        },
    ensures
        counted_pages(pages.insert(i, skipped)) == counted_pages(pages),
        collected(pages.insert(i, skipped)) == collected(pages),
    decreases pages.len() - i,
{
    let longer = pages.insert(i, skipped);
    if i == pages.len() {
        assert(longer.drop_last() =~= pages);
    } else {
        lemma_insert_skipped_page(pages.drop_last(), i, skipped);
        assert(longer.drop_last() =~= pages.drop_last().insert(i, skipped));
        assert(longer.last() == pages.last());
    }
    lemma_skipped_pages_change_nothing(longer, pages);
}

/// A first page and a further page, stated on the items, the offset and
/// whether more may follow: the items are the page's items after those already
/// gathered, the offset grows by the page's length, and more may follow exactly
/// when the page held ten items.
pub proof fn lemma_page_results<T>(r: PagedItems<T>, page: Seq<T>)
    ensures
        PAGE_SIZE == 10,
        first_page(page).items == page,
        first_page(page).last_page_was_full == (page.len() == 10),
        page.len() <= u32::MAX ==> first_page(page).next_offset == page.len(),
        appended(r, page).items == r.items + page,
        appended(r, page).last_page_was_full == (page.len() == 10),
        r.next_offset + page.len() <= u32::MAX ==> appended(r, page).next_offset == r.next_offset
            + page.len(),
{
}

/// The items of the successful track pages, page by page, in order.
pub open spec fn track_pages<E>(pages: Seq<Result<SearchResult, E>>) -> Seq<Seq<Track>>
    decreases pages.len(),
{
    if pages.len() == 0 {
        Seq::empty()
    } else {
        let rest = track_pages(pages.drop_last());
        match pages.last() {
            Ok(SearchResult::Tracks(v)) => rest.push(v@),
            _ => rest,
        }
    }
}

/// The items of the successful album pages, page by page, in order.
pub open spec fn album_pages<E>(pages: Seq<Result<SearchResult, E>>) -> Seq<Seq<Album>>
    decreases pages.len(),
{
    if pages.len() == 0 {
        Seq::empty()
    } else {
        let rest = album_pages(pages.drop_last());
        match pages.last() {
            Ok(SearchResult::Albums(v)) => rest.push(v@),
            _ => rest,
        }
    }
}

/// The items of the successful artist pages, page by page, in order.
pub open spec fn artist_pages<E>(pages: Seq<Result<SearchResult, E>>) -> Seq<Seq<Artist>>
    decreases pages.len(),
{
    if pages.len() == 0 {
        Seq::empty()
    } else {
        let rest = artist_pages(pages.drop_last());
        match pages.last() {
            Ok(SearchResult::Artists(v)) => rest.push(v@),
            _ => rest,
        }
    }
}

/// The items of the successful show pages, page by page, in order.
pub open spec fn show_pages<E>(pages: Seq<Result<SearchResult, E>>) -> Seq<Seq<Show>>
    decreases pages.len(),
{
    if pages.len() == 0 {
        Seq::empty()
    } else {
        let rest = show_pages(pages.drop_last());
        match pages.last() {
            Ok(SearchResult::Shows(v)) => rest.push(v@),
            _ => rest,
        }
    }
}

/// The items of the successful playlist pages, page by page, in order.
pub open spec fn playlist_pages<E>(pages: Seq<Result<SearchResult, E>>) -> Seq<Seq<Playlist>>
    decreases pages.len(),
{
    if pages.len() == 0 {
        Seq::empty()
    } else {
        let rest = playlist_pages(pages.drop_last());
        match pages.last() {
            Ok(SearchResult::Playlists(v)) => rest.push(v@),
            _ => rest,
        }
    }
}

/// The results of one kind are the concatenation of the pages of that kind:
/// present exactly when there was such a page, holding all their items in
/// order, with the offset at their total count (when it fits in `u32`), and
/// more expected exactly when the last of them held ten items.
pub open spec fn concatenation_of<T>(slot: Option<PagedItems<T>>, kind_pages: Seq<Seq<T>>) -> bool {
    &&& (slot is Some <==> kind_pages.len() > 0)
    &&& slot matches Some(r) ==> {
        &&& r.items == kind_pages.flatten()
        &&& r.last_page_was_full == (kind_pages.last().len() == 10)
        &&& kind_pages.flatten().len() <= u32::MAX ==> r.next_offset == kind_pages.flatten().len()
    }
}

/// Pages of one kind taken one after another.
spec fn gathered_all<T>(kind_pages: Seq<Seq<T>>) -> Option<PagedItems<T>>
    decreases kind_pages.len(),
{
    if kind_pages.len() == 0 {
        None
    } else {
        gathered(gathered_all(kind_pages.drop_last()), kind_pages.last())
    }
}

proof fn lemma_gathered_all_concatenates<T>(kind_pages: Seq<Seq<T>>)
    ensures
        concatenation_of(gathered_all(kind_pages), kind_pages),
    decreases kind_pages.len(),
{
    if kind_pages.len() > 0 {
        let before = kind_pages.drop_last();
        let last = kind_pages.last();
        lemma_gathered_all_concatenates(before);
        assert(before.push(last) =~= kind_pages);
        before.lemma_flatten_push(last);
        if before.len() == 0 {
            assert(before.flatten() =~= Seq::<T>::empty());
        }
    }
}

proof fn lemma_kinds_gathered_apart<E>(pages: Seq<Result<SearchResult, E>>)
    ensures
        collected(pages).tracks == gathered_all(track_pages(pages)),
        collected(pages).albums == gathered_all(album_pages(pages)),
        collected(pages).artists == gathered_all(artist_pages(pages)),
        collected(pages).shows == gathered_all(show_pages(pages)),
        collected(pages).playlists == gathered_all(playlist_pages(pages)),
    decreases pages.len(),
{
    if pages.len() > 0 {
        lemma_kinds_gathered_apart(pages.drop_last());
        let pd = pages.drop_last();
        match pages.last() {
            Ok(SearchResult::Tracks(v)) => {
                assert(track_pages(pd).push(v@).drop_last() =~= track_pages(pd));
            },
            Ok(SearchResult::Albums(v)) => {
                assert(album_pages(pd).push(v@).drop_last() =~= album_pages(pd));
            },
            Ok(SearchResult::Artists(v)) => {
                assert(artist_pages(pd).push(v@).drop_last() =~= artist_pages(pd));
            },
            Ok(SearchResult::Shows(v)) => {
                assert(show_pages(pd).push(v@).drop_last() =~= show_pages(pd));
            },
            Ok(SearchResult::Playlists(v)) => {
                assert(playlist_pages(pd).push(v@).drop_last() =~= playlist_pages(pd));
            },
            _ => {},
        }
    }
}

/// Collecting fetched pages gathers every kind apart: the results of each
/// kind are the concatenation, in order, of the items of all successful pages
/// of that kind, with the offset at their total count and more expected exactly
/// when the last of them was full; pages of other kinds play no part.
pub proof fn lemma_collected_concatenates_each_kind<E>(pages: Seq<Result<SearchResult, E>>)
    ensures
        concatenation_of(collected(pages).tracks, track_pages(pages)),
        concatenation_of(collected(pages).albums, album_pages(pages)),
        concatenation_of(collected(pages).artists, artist_pages(pages)),
        concatenation_of(collected(pages).shows, show_pages(pages)),
        concatenation_of(collected(pages).playlists, playlist_pages(pages)),
{
    lemma_kinds_gathered_apart(pages);
    lemma_gathered_all_concatenates(track_pages(pages));
    lemma_gathered_all_concatenates(album_pages(pages));
    lemma_gathered_all_concatenates(artist_pages(pages));
    lemma_gathered_all_concatenates(show_pages(pages));
    lemma_gathered_all_concatenates(playlist_pages(pages));
}

/// A further page added to the results of one kind, stated on the items: when
/// results of the kind exist, its items follow them, the offset grows by its
/// length, and more are expected exactly when it held ten items; when none
/// exist, there still are none.
pub open spec fn extended_by<T>(before: Option<PagedItems<T>>, after: Option<PagedItems<T>>, page: Seq<T>) -> bool {
    &&& (after is Some <==> before is Some)
    &&& before matches Some(b) ==> after matches Some(a) && {
        &&& a.items == b.items + page
        &&& a.last_page_was_full == (page.len() == 10)
        &&& b.next_offset + page.len() <= u32::MAX ==> a.next_offset == b.next_offset + page.len()
    }
}

/// `SearchResults::append_page` adds the page to the results of its own kind,
/// as `extended_by` states, and leaves every other kind as it was; an episode
/// page changes nothing.
pub proof fn lemma_extend_page_adds_to_its_kind(r: ResultsView, page: PageItems)
    ensures
        match page {
            PageItems::Tracks(p) => {
                let a = extend_page(r, page);
                &&& extended_by(r.tracks, a.tracks, p)
                &&& a.albums == r.albums && a.artists == r.artists && a.shows == r.shows && a.playlists == r.playlists
            },
            PageItems::Albums(p) => {
                let a = extend_page(r, page);
                &&& extended_by(r.albums, a.albums, p)
                &&& a.tracks == r.tracks && a.artists == r.artists && a.shows == r.shows && a.playlists == r.playlists
            },
            PageItems::Artists(p) => {
                let a = extend_page(r, page);
                &&& extended_by(r.artists, a.artists, p)
                &&& a.tracks == r.tracks && a.albums == r.albums && a.shows == r.shows && a.playlists == r.playlists
            },
            PageItems::Shows(p) => {
                let a = extend_page(r, page);
                &&& extended_by(r.shows, a.shows, p)
                &&& a.tracks == r.tracks && a.albums == r.albums && a.artists == r.artists && a.playlists == r.playlists
            },
            PageItems::Playlists(p) => {
                let a = extend_page(r, page);
                &&& extended_by(r.playlists, a.playlists, p)
                &&& a.tracks == r.tracks && a.albums == r.albums && a.artists == r.artists && a.shows == r.shows
            },
            PageItems::Episodes => extend_page(r, page) == r,
        },
{
}

/// Joining, stated part by part: no parts give the empty string, one part is
/// itself, and a further part comes after the separator.
pub proof fn lemma_joined_parts(parts: Seq<Seq<char>>, sep: Seq<char>, part: Seq<char>)
    ensures
        joined(Seq::empty(), sep) == Seq::<char>::empty(),
        joined(seq![part], sep) == part,
        parts.len() > 0 ==> joined(parts.push(part), sep) == joined(parts, sep) + sep + part,
{
    assert(seq![part].len() == 1);
    if parts.len() > 0 {
        assert(parts.push(part).drop_last() =~= parts);
    }
}

/// The table rows, stated cell by cell on the item: every row has one cell per
/// column title; tracks show name, first-listed artist (empty when none) and
/// album; albums show name and first-listed artist (empty when none); artists
/// show name and their genres joined by ", "; shows and playlists show their
/// name.
pub proof fn lemma_row_cells(a: ActiveResults, idx: int)
    requires
        0 <= idx < a.item_count(),
    ensures
        a.row_cells(idx).len() == a.header_titles().len(),
        match a {
            ActiveResults::Tracks(r) => {
                let t = r.items@[idx];
                let cells = a.row_cells(idx);
                &&& a.header_titles() == seq!["Track", "Artist", "Album"]
                &&& cells[0] == t.name@
                &&& t.artists@.len() > 0 ==> cells[1] == t.artists@[0]@
                &&& t.artists@.len() == 0 ==> cells[1] == Seq::<char>::empty()
                &&& cells[2] == t.album@
            },
            ActiveResults::Albums(r) => {
                let al = r.items@[idx];
                let cells = a.row_cells(idx);
                &&& a.header_titles() == seq!["Album", "Artist"]
                &&& cells[0] == al.name@
                &&& al.artists@.len() > 0 ==> cells[1] == al.artists@[0]@
                &&& al.artists@.len() == 0 ==> cells[1] == Seq::<char>::empty()
            },
            ActiveResults::Artist(r) => {
                let ar = r.items@[idx];
                let cells = a.row_cells(idx);
                &&& a.header_titles() == seq!["Artist", "Genres"]
                &&& cells[0] == ar.name@
                &&& ar.genres@.len() == 0 ==> cells[1] == Seq::<char>::empty()
                &&& ar.genres@.len() == 1 ==> cells[1] == ar.genres@[0]@
                &&& ar.genres@.len() > 1 ==> cells[1] == joined(
                    strings_view(ar.genres@.drop_last()),
                    ", "@,
                ) + ", "@ + ar.genres@.last()@
            },
            ActiveResults::Shows(r) => {
                &&& a.header_titles() == seq!["Show"]
                &&& a.row_cells(idx)[0] == r.items@[idx].name@
            },
            ActiveResults::Playlists(r) => {
                &&& a.header_titles() == seq!["Playlist"]
                &&& a.row_cells(idx)[0] == r.items@[idx].name@
            },
        },
{
    if let ActiveResults::Artist(r) = a {
        let g = r.items@[idx].genres@;
        if g.len() > 1 {
            assert(strings_view(g).drop_last() =~= strings_view(g.drop_last()));
        }
    }
}

/// The summary of the results on display is that of the results borrowed:
/// their item count, whether more may follow, and their offset.
pub proof fn lemma_active_results_summary(a: ActiveResults)
    ensures
        match a {
            ActiveResults::Tracks(x) => a.item_count() == x.items@.len() && a.spec_has_more()
                == x.last_page_was_full && a.spec_next_offset() == x.next_offset,
            ActiveResults::Albums(x) => a.item_count() == x.items@.len() && a.spec_has_more()
                == x.last_page_was_full && a.spec_next_offset() == x.next_offset,
            ActiveResults::Artist(x) => a.item_count() == x.items@.len() && a.spec_has_more()
                == x.last_page_was_full && a.spec_next_offset() == x.next_offset,
            ActiveResults::Shows(x) => a.item_count() == x.items@.len() && a.spec_has_more()
                == x.last_page_was_full && a.spec_next_offset() == x.next_offset,
            ActiveResults::Playlists(x) => a.item_count() == x.items@.len() && a.spec_has_more()
                == x.last_page_was_full && a.spec_next_offset() == x.next_offset,
        },
{
}

} // verus!
