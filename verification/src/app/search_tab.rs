use vstd::prelude::*;

use crate::app::search_results::SearchType;

verus! {

/// The tabs of the search page, in the order they are shown.
#[derive(Debug, Clone, Copy, PartialEq, Eq, Structural)]
pub enum SearchTab {
    Tracks,
    Albums,
    Artist,
    Shows,
    Playlists,
}

/// The kind of item a tab searches for.
pub open spec fn tab_search_type(tab: SearchTab) -> SearchType {
    match tab {
        SearchTab::Tracks => SearchType::Track,
        SearchTab::Albums => SearchType::Album,
        SearchTab::Artist => SearchType::Artist,
        SearchTab::Shows => SearchType::Show,
        SearchTab::Playlists => SearchType::Playlist,
    }
}

/// The tabs in display order.
pub open spec fn tab_order() -> Seq<SearchTab> {
    seq![SearchTab::Tracks, SearchTab::Albums, SearchTab::Artist, SearchTab::Shows, SearchTab::Playlists]
}

/// Where a tab stands in the display order.
pub open spec fn tab_position(tab: SearchTab) -> int {
    match tab {
        SearchTab::Tracks => 0,
        SearchTab::Albums => 1,
        SearchTab::Artist => 2,
        SearchTab::Shows => 3,
        SearchTab::Playlists => 4,
    }
}

/// The tab selected for a kind of item: the first tab that searches for it,
/// or the first tab when none does.
pub open spec fn selected_tab_position(search_type: SearchType) -> int {
    match search_type {
        SearchType::Track => 0,
        SearchType::Album => 1,
        SearchType::Artist => 2,
        SearchType::Show => 3,
        SearchType::Playlist => 4,
        SearchType::Episode => 0,
    }
}

impl SearchTab {
    /// The kind of item this tab searches for.
    pub fn search_type(self) -> (t: SearchType)
        ensures
            t == tab_search_type(self),
    {
        match self {
            SearchTab::Tracks => SearchType::Track,
            SearchTab::Albums => SearchType::Album,
            SearchTab::Artist => SearchType::Artist,
            SearchTab::Shows => SearchType::Show,
            SearchTab::Playlists => SearchType::Playlist,
        }
    }

    /// All tabs in display order.
    pub fn all() -> (tabs: Vec<SearchTab>)
        ensures
            tabs@ == tab_order(),
    {
        vec![SearchTab::Tracks, SearchTab::Albums, SearchTab::Artist, SearchTab::Shows, SearchTab::Playlists]
    }

    /// The tab's title, its name.
    pub fn title(self) -> (s: &'static str)
        ensures
            s@ == match self {
                SearchTab::Tracks => "Tracks"@,
                SearchTab::Albums => "Albums"@,
                SearchTab::Artist => "Artist"@,
                SearchTab::Shows => "Shows"@,
                SearchTab::Playlists => "Playlists"@,
            },
    {
        match self {
            SearchTab::Tracks => "Tracks",
            SearchTab::Albums => "Albums",
            SearchTab::Artist => "Artist",
            SearchTab::Shows => "Shows",
            SearchTab::Playlists => "Playlists",
        }
    }

    /// Where the tab stands in the display order.
    pub fn index(self) -> (i: usize)
        ensures
            i == tab_position(self),
    {
        match self {
            SearchTab::Tracks => 0,
            SearchTab::Albums => 1,
            SearchTab::Artist => 2,
            SearchTab::Shows => 3,
            SearchTab::Playlists => 4,
        }
    }

    /// Position of the first tab whose kind is `search_type`, or 0 when no
    /// tab searches for that kind.
    pub fn position_of(search_type: SearchType) -> (i: usize)
        ensures
            i == selected_tab_position(search_type),
    {
        let tabs = SearchTab::all();
        let mut i: usize = 0;
        while i < tabs.len()
            invariant
                tabs@ == tab_order(),
                0 <= i <= tabs.len(),
                forall|j: int| 0 <= j < i ==> tab_search_type(#[trigger] tabs@[j]) != search_type,
            decreases tabs.len() - i,
        {
            if tabs[i].search_type() == search_type {
                return i;
            }
            i = i + 1;
        }
        assert(tab_search_type(tabs@[0]) != search_type);
        assert(tab_search_type(tabs@[1]) != search_type);
        assert(tab_search_type(tabs@[2]) != search_type);
        assert(tab_search_type(tabs@[3]) != search_type);
        assert(tab_search_type(tabs@[4]) != search_type);
        0
    }
}

/// Each kind of item has at most one tab.
pub proof fn lemma_search_type_injective(a: SearchTab, b: SearchTab)
    requires
        tab_search_type(a) == tab_search_type(b),
    ensures
        a == b,
{
}

/// The display order lists every tab once, at the position `index` reports,
/// and the tab selected for a tab's kind is that tab.
pub proof fn lemma_tab_positions(tab: SearchTab)
    ensures
        tab_order().len() == 5,
        0 <= tab_position(tab) < 5,
        tab_order()[tab_position(tab)] == tab,
        selected_tab_position(tab_search_type(tab)) == tab_position(tab),
        tab_search_type(tab) != SearchType::Episode,
        selected_tab_position(SearchType::Episode) == 0,
        forall|i: int, j: int| 0 <= i < j < 5 ==> tab_order()[i] != tab_order()[j],
{
}

/// Each tab searches for the kind it is named after, and the tabs stand in
/// the order Tracks, Albums, Artist, Shows, Playlists.
pub proof fn lemma_tab_kinds_and_order()
    ensures
        tab_search_type(SearchTab::Tracks) == SearchType::Track,
        tab_search_type(SearchTab::Albums) == SearchType::Album,
        tab_search_type(SearchTab::Artist) == SearchType::Artist,
        tab_search_type(SearchTab::Shows) == SearchType::Show,
        tab_search_type(SearchTab::Playlists) == SearchType::Playlist,
        tab_order() == seq![SearchTab::Tracks, SearchTab::Albums, SearchTab::Artist, SearchTab::Shows, SearchTab::Playlists],
{
}

} // verus!
