# spotui

The state and logic of a terminal Spotify client, verified with Verus.

- `src/app.rs`: the application state (page, input mode, search query and
  cursor) and what each key does to it; `src/app/search_results.rs`: search
  results gathered page by page per kind of item, and the rows of the result
  table; `src/app/search_tab.rs`: the tabs of the search page;
  `src/text.rs`: UTF-8 positions inside the query; `src/spotify.rs`: the name
  a user is greeted by.
- `app/`: the terminal program around the library: sign-in, Web API calls,
  the event loop and drawing with ratatui.
