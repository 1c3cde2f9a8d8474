use osu_rankings::cursor::Cursor;
use osu_rankings::json::{Json, Number};
use osu_rankings::multiplayer::{GetMultiplayerScore, GetMultiplayerScores, GetMultiplayerUserHighScore, Route};
use osu_rankings::news::{News, NewsPost, NewsSearch, NewsSidebar};

fn query(q: &[(String, String)]) -> Vec<(&str, &str)> {
    q.iter().map(|(k, v)| (k.as_str(), v.as_str())).collect()
}

#[test]
fn score_request_route() {
    let r = GetMultiplayerScore::new(1, 2, 3).start();
    assert_eq!(r.route, Route::GetMultiplayerScore { room: 1, playlist: 2, score_id: 3 });
    assert!(r.query.is_empty());
}

#[test]
fn user_high_score_request_route() {
    let r = GetMultiplayerUserHighScore::new(4, 5, 6).start();
    assert_eq!(r.route, Route::GetMultiplayerUserHighScore { room: 4, playlist: 5, user_id: 6 });
    assert!(r.query.is_empty());
}

#[test]
fn scores_request_plain() {
    let mut req = GetMultiplayerScores::new(7, 8);
    let r = req.start();
    assert_eq!(r.route, Route::GetMultiplayerScores { room: 7, playlist: 8 });
    assert!(r.query.is_empty());
}

#[test]
fn scores_sort_ascending() {
    let mut req = GetMultiplayerScores::new(7, 8).sort_ascending();
    assert_eq!(req.sort, Some("sort_asc"));
    let r = req.start();
    assert_eq!(query(&r.query), vec![("sort", "sort_asc")]);
}

#[test]
fn scores_sort_descending_with_limit() {
    let mut req = GetMultiplayerScores::new(7, 8).sort_ascending().sort_descending();
    req.limit = Some(1234);
    req.cursor = Some(());
    let r = req.start();
    assert_eq!(query(&r.query), vec![("limit", "1234"), ("sort", "sort_desc")]);
    assert_eq!(req.cursor, None);
}

fn post(id: u32, updated: Option<&str>) -> NewsPost {
    NewsPost {
        post_id: id,
        author: "author".to_string(),
        edit_url: "https://github.com/ppy/osu-wiki".to_string(),
        first_image: "https://osu.ppy.sh/a.png".to_string(),
        published_at: "2021-01-01T00:00:00Z".to_string(),
        updated_at: updated.map(|s| s.to_string()),
        slug: "slug".to_string(),
        title: "title".to_string(),
        preview: None,
    }
}

fn news(cursor: Option<Cursor>) -> News {
    News {
        cursor,
        posts: vec![post(1, None)],
        search: NewsSearch { cursor: None, limit: 12 },
        sidebar: NewsSidebar { current_year: 2021, posts: vec![], years: vec![2021, 2020] },
    }
}

fn token() -> Json {
    Json::Obj(vec![
        ("published_at".to_string(), Json::Str("2021-01-01T00:00:00Z".to_string())),
        ("id".to_string(), Json::Num(Number::from_u64(991))),
    ])
}

#[test]
fn news_with_token_has_more() {
    let page = news(Some(Cursor::new(token())));
    assert!(page.has_more());
    let req = page.get_next().unwrap();
    assert_eq!(req.cursor.token(), &token());
}

#[test]
fn news_without_token_is_done() {
    let page = news(None);
    assert!(!page.has_more());
    assert!(page.get_next().is_none());
}

#[test]
fn news_posts_compare_by_id_and_update() {
    assert_eq!(post(1, Some("a")), post(1, Some("a")));
    assert_ne!(post(1, Some("a")), post(1, Some("b")));
    assert_ne!(post(1, None), post(2, None));
    let mut other = post(1, None);
    other.title = "other".to_string();
    assert_eq!(post(1, None), other);
}
