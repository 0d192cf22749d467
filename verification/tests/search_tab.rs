use spotui::app::search_results::SearchType;
use spotui::app::search_tab::SearchTab;

#[test]
fn tabs_map_to_search_types() {
    assert_eq!(SearchTab::Tracks.search_type(), SearchType::Track);
    assert_eq!(SearchTab::Albums.search_type(), SearchType::Album);
    assert_eq!(SearchTab::Artist.search_type(), SearchType::Artist);
    assert_eq!(SearchTab::Shows.search_type(), SearchType::Show);
    assert_eq!(SearchTab::Playlists.search_type(), SearchType::Playlist);
}

#[test]
fn tab_order_titles_and_positions() {
    let all = SearchTab::all();
    let titles: Vec<&str> = all.iter().map(|t| t.title()).collect();
    assert_eq!(titles, vec!["Tracks", "Albums", "Artist", "Shows", "Playlists"]);
    for (i, t) in all.iter().enumerate() {
        assert_eq!(t.index(), i);
        assert_eq!(SearchTab::position_of(t.search_type()), i);
    }
}

#[test]
fn unknown_search_type_selects_first_tab() {
    assert_eq!(SearchTab::position_of(SearchType::Episode), 0);
}
