use spotui::app::search_results::{
    ActiveResults, Album, Artist, Playlist, SearchResult, SearchResults, SearchType,
    SearchTypeResults, Show, Track,
};
use spotui::PAGE_SIZE;

fn track(name: &str, artists: &[&str], album: &str) -> Track {
    Track {
        name: name.to_string(),
        artists: artists.iter().map(|a| a.to_string()).collect(),
        album: album.to_string(),
    }
}

fn tracks(n: usize) -> Vec<Track> {
    (0..n).map(|i| track(&format!("t{i}"), &["a"], "b")).collect()
}

fn playlist(name: &str) -> Playlist {
    Playlist { name: name.to_string() }
}

#[test]
fn first_page_full_means_more() {
    let r = SearchTypeResults::from_first_page(tracks(PAGE_SIZE));
    assert_eq!(r.items.len(), 10);
    assert_eq!(r.next_offset, 10);
    assert!(r.last_page_was_full);
    assert!(r.has_more());
}

#[test]
fn first_page_short_means_no_more() {
    let r = SearchTypeResults::from_first_page(tracks(3));
    assert_eq!(r.next_offset, 3);
    assert!(!r.has_more());
    let empty: SearchTypeResults<Track> = SearchTypeResults::from_first_page(Vec::new());
    assert_eq!(empty.next_offset, 0);
    assert!(!empty.has_more());
}

#[test]
fn append_page_moves_offset_and_keeps_order() {
    let mut r = SearchTypeResults::from_first_page(vec![playlist("a"), playlist("b")]);
    r.append_page((0..10).map(|i| playlist(&format!("p{i}"))).collect());
    assert_eq!(r.next_offset, 12);
    assert!(r.has_more());
    assert_eq!(r.items[0].name, "a");
    assert_eq!(r.items[2].name, "p0");
    r.append_page(vec![playlist("z")]);
    assert_eq!(r.next_offset, 13);
    assert!(!r.has_more());
    assert_eq!(r.items.len(), 13);
    assert_eq!(r.items[12].name, "z");
}

#[test]
fn from_pages_gathers_by_kind_and_skips_failures() {
    let pages: Vec<Result<SearchResult, String>> = vec![
        Ok(SearchResult::Tracks(tracks(10))),
        Err("network".to_string()),
        Ok(SearchResult::Playlists(vec![playlist("p")])),
        Ok(SearchResult::Episodes),
        Ok(SearchResult::Tracks(tracks(4))),
    ];
    let r = SearchResults::from_pages(pages);
    let t = r.tracks.as_ref().unwrap();
    assert_eq!(t.items.len(), 14);
    assert_eq!(t.next_offset, 14);
    assert!(!t.has_more());
    assert_eq!(r.playlists.as_ref().unwrap().items.len(), 1);
    assert!(r.albums.is_none());
    assert!(r.artists.is_none());
    assert!(r.shows.is_none());
}

#[test]
fn from_pages_of_nothing_is_empty() {
    let r = SearchResults::from_pages(Vec::<Result<SearchResult, ()>>::new());
    assert!(r.tracks.is_none() && r.albums.is_none() && r.artists.is_none());
    assert!(r.shows.is_none() && r.playlists.is_none());
    let r = SearchResults::from_pages(vec![Err::<SearchResult, ()>(())]);
    assert!(r.tracks.is_none());
}

#[test]
fn failed_fetch_changes_nothing() {
    let a = SearchResults::from_pages(vec![
        Ok::<SearchResult, u8>(SearchResult::Shows(vec![Show { name: "s".to_string() }])),
        Ok(SearchResult::Shows(vec![Show { name: "t".to_string() }])),
    ]);
    let b = SearchResults::from_pages(vec![
        Ok::<SearchResult, u8>(SearchResult::Shows(vec![Show { name: "s".to_string() }])),
        Err(7),
        Ok(SearchResult::Shows(vec![Show { name: "t".to_string() }])),
    ]);
    let sa = a.shows.unwrap();
    let sb = b.shows.unwrap();
    assert_eq!(sa.next_offset, sb.next_offset);
    assert_eq!(sa.items.len(), sb.items.len());
    assert_eq!(sb.items[1].name, "t");
}

#[test]
fn append_page_only_extends_existing_kinds() {
    let mut r = SearchResults::from_pages(vec![Ok::<SearchResult, ()>(SearchResult::Albums(vec![
        Album { name: "x".to_string(), artists: vec![] },
    ]))]);
    r.append_page(SearchResult::Tracks(tracks(2)));
    assert!(r.tracks.is_none());
    r.append_page(SearchResult::Albums(vec![Album { name: "y".to_string(), artists: vec![] }]));
    let albums = r.albums.as_ref().unwrap();
    assert_eq!(albums.items.len(), 2);
    assert_eq!(albums.next_offset, 2);
    r.append_page(SearchResult::Episodes);
    assert_eq!(r.albums.as_ref().unwrap().items.len(), 2);
}

#[test]
fn default_results_are_empty() {
    let r = SearchResults::default();
    assert!(r.tracks.is_none() && r.playlists.is_none());
}

#[test]
fn active_picks_the_kind() {
    let r = SearchResults::from_pages(vec![
        Ok::<SearchResult, ()>(SearchResult::Tracks(tracks(10))),
        Ok(SearchResult::Artists(vec![Artist { name: "Queen".to_string(), genres: vec![] }])),
    ]);
    let t = r.active(SearchType::Track).unwrap();
    assert!(matches!(t, ActiveResults::Tracks(_)));
    assert_eq!(t.len(), 10);
    assert!(t.has_more());
    assert_eq!(t.next_offset(), 10);
    let a = r.active(SearchType::Artist).unwrap();
    assert!(matches!(a, ActiveResults::Artist(_)));
    assert_eq!(a.len(), 1);
    assert!(!a.has_more());
    assert_eq!(a.next_offset(), 1);
    assert!(r.active(SearchType::Album).is_none());
    assert!(r.active(SearchType::Show).is_none());
    assert!(r.active(SearchType::Playlist).is_none());
    assert!(r.active(SearchType::Episode).is_none());
}

#[test]
fn headers_per_kind() {
    let t = SearchTypeResults::from_first_page(tracks(1));
    let al = SearchTypeResults::from_first_page(vec![Album { name: "A".into(), artists: vec![] }]);
    let ar = SearchTypeResults::from_first_page(vec![Artist { name: "B".into(), genres: vec![] }]);
    let sh = SearchTypeResults::from_first_page(vec![Show { name: "C".into() }]);
    let pl = SearchTypeResults::from_first_page(vec![playlist("D")]);
    assert_eq!(ActiveResults::Tracks(&t).headers(), vec!["Track", "Artist", "Album"]);
    assert_eq!(ActiveResults::Albums(&al).headers(), vec!["Album", "Artist"]);
    assert_eq!(ActiveResults::Artist(&ar).headers(), vec!["Artist", "Genres"]);
    assert_eq!(ActiveResults::Shows(&sh).headers(), vec!["Show"]);
    assert_eq!(ActiveResults::Playlists(&pl).headers(), vec!["Playlist"]);
}

#[test]
fn rows_per_kind() {
    let t = SearchTypeResults::from_first_page(vec![
        track("Bohemian Rhapsody", &["Queen", "Other"], "A Night at the Opera"),
        track("Untitled", &[], "Loose"),
    ]);
    assert_eq!(
        ActiveResults::Tracks(&t).row_at(0),
        vec!["Bohemian Rhapsody", "Queen", "A Night at the Opera"]
    );
    assert_eq!(ActiveResults::Tracks(&t).row_at(1), vec!["Untitled", "", "Loose"]);
    let al = SearchTypeResults::from_first_page(vec![
        Album { name: "Abbey Road".into(), artists: vec!["The Beatles".into()] },
        Album { name: "Solo".into(), artists: vec![] },
    ]);
    assert_eq!(ActiveResults::Albums(&al).row_at(0), vec!["Abbey Road", "The Beatles"]);
    assert_eq!(ActiveResults::Albums(&al).row_at(1), vec!["Solo", ""]);
    let ar = SearchTypeResults::from_first_page(vec![
        Artist { name: "Queen".into(), genres: vec!["rock".into(), "glam rock".into(), "pop".into()] },
        Artist { name: "Nobody".into(), genres: vec![] },
        Artist { name: "One".into(), genres: vec!["jazz".into()] },
    ]);
    assert_eq!(ActiveResults::Artist(&ar).row_at(0), vec!["Queen", "rock, glam rock, pop"]);
    assert_eq!(ActiveResults::Artist(&ar).row_at(1), vec!["Nobody", ""]);
    assert_eq!(ActiveResults::Artist(&ar).row_at(2), vec!["One", "jazz"]);
    let sh = SearchTypeResults::from_first_page(vec![Show { name: "Podcast".into() }]);
    assert_eq!(ActiveResults::Shows(&sh).row_at(0), vec!["Podcast"]);
    let pl = SearchTypeResults::from_first_page(vec![playlist("Mix")]);
    assert_eq!(ActiveResults::Playlists(&pl).row_at(0), vec!["Mix"]);
}

#[test]
fn episode_pages_and_failures_are_skipped_anywhere() {
    let plain = SearchResults::from_pages(vec![
        Ok::<SearchResult, ()>(SearchResult::Tracks(tracks(10))),
        Ok(SearchResult::Tracks(tracks(2))),
    ]);
    let noisy = SearchResults::from_pages(vec![
        Ok::<SearchResult, &str>(SearchResult::Episodes),
        Err("timeout"),
        Ok(SearchResult::Tracks(tracks(10))),
        Ok(SearchResult::Episodes),
        Err("again"),
        Err("and again"),
        Ok(SearchResult::Tracks(tracks(2))),
        Ok(SearchResult::Episodes),
    ]);
    let a = plain.tracks.unwrap();
    let b = noisy.tracks.unwrap();
    assert_eq!(a.items.len(), b.items.len());
    assert_eq!(a.next_offset, b.next_offset);
    assert_eq!(a.last_page_was_full, b.last_page_was_full);
    assert!(noisy.albums.is_none() && noisy.artists.is_none());
    assert!(noisy.shows.is_none() && noisy.playlists.is_none());
}
