use api::shared::vo::IdSet;
use api::domain::media::FindByQuery;
use api::shared::vo::Date;
use api::infra::sql::media_query::{media_count_query, media_filter, media_page_query, SELECT_SQL};
use api::infra::sql::query::{QueryPiece, SqlValue};
use api::shared::paged::RequestPageParams;
use api::shared::vo::{Slug, UUID4};

fn sql(s: &'static str) -> QueryPiece {
    QueryPiece::Sql(s)
}

#[test]
fn no_filters_no_where() {
    let q = FindByQuery::default();
    assert_eq!(media_filter(&q), vec![]);
    assert_eq!(media_count_query(&q), vec![sql(r#"SELECT COUNT("m"."id") FROM "media" "m""#)]);
}

#[test]
fn one_filter_in_brackets() {
    let q = FindByQuery { is_single: Some(true), ..FindByQuery::default() };
    assert_eq!(
        media_filter(&q),
        vec![
            sql(" WHERE "),
            sql("("),
            sql(r#""m"."is_single" = "#),
            QueryPiece::Bind(SqlValue::Bool(true)),
            sql(")"),
        ]
    );
}

#[test]
fn filters_joined_by_and_in_fixed_order() {
    let q = FindByQuery {
        max_parental_rating: Some(16),
        search: Some(String::from("rock")),
        release_date: Some(Date { year: 2021, month: 5, day: 1 }),
        ..FindByQuery::default()
    };
    assert_eq!(
        media_filter(&q),
        vec![
            sql(" WHERE "),
            sql("("),
            sql(r#""m"."name""#),
            sql(" ILIKE '%' || "),
            QueryPiece::Bind(SqlValue::Text(String::from("rock"))),
            sql(" || '%'"),
            sql(" OR "),
            sql(r#""m"."slug""#),
            sql(" ILIKE '%' || "),
            QueryPiece::Bind(SqlValue::Text(String::from("rock"))),
            sql(" || '%'"),
            sql(")"),
            sql(" AND "),
            sql("("),
            sql(r#""m"."release_date" = "#),
            QueryPiece::Bind(SqlValue::Date(Date { year: 2021, month: 5, day: 1 })),
            sql(")"),
            sql(" AND "),
            sql("("),
            sql(r#""m"."parental_rating" <= "#),
            QueryPiece::Bind(SqlValue::SmallInt(16)),
            sql(")"),
        ]
    );
}

#[test]
fn id_lists_become_subqueries() {
    let q = FindByQuery {
        genre_ids: Some(IdSet::from_vec(vec![UUID4(String::from("g1")), UUID4(String::from("g2"))])),
        slug: Some(Slug::new("abc").unwrap()),
        media_type: Some(String::from("Song")),
        ..FindByQuery::default()
    };
    assert_eq!(
        media_filter(&q),
        vec![
            sql(" WHERE "),
            sql("("),
            sql(r#""m"."type" = "#),
            QueryPiece::Bind(SqlValue::Text(String::from("Song"))),
            sql(")"),
            sql(" AND "),
            sql("("),
            sql(r#""m"."slug" = "#),
            QueryPiece::Bind(SqlValue::Text(String::from("abc"))),
            sql(")"),
            sql(" AND "),
            sql("("),
            sql(r#""m"."id" IN (SELECT "mg"."media_id" FROM "media_genre" "mg" WHERE "mg"."genre_id" IN ("#),
            QueryPiece::Bind(SqlValue::Uuid(String::from("g1"))),
            sql(", "),
            QueryPiece::Bind(SqlValue::Uuid(String::from("g2"))),
            sql("))"),
            sql(")"),
        ]
    );
}

#[test]
fn page_query_limits_and_offsets() {
    let q = FindByQuery {
        page: RequestPageParams { page: 3, per_page: 10 },
        artist_ids: Some(IdSet::from_vec(vec![UUID4(String::from("a"))])),
        ..FindByQuery::default()
    };
    let pieces = media_page_query(&q);
    assert_eq!(pieces[0], sql(SELECT_SQL));
    assert_eq!(pieces[1], sql(" WHERE "));
    assert_eq!(
        pieces[3],
        sql(r#""m"."id" IN (SELECT "mi"."media_id" FROM "media_interpreter" "mi" WHERE "mi"."interpreter_id" IN ("#)
    );
    let n = pieces.len();
    assert_eq!(pieces[n - 4], sql(" LIMIT "));
    assert_eq!(pieces[n - 3], QueryPiece::Bind(SqlValue::BigInt(10)));
    assert_eq!(pieces[n - 2], sql(" OFFSET "));
    assert_eq!(pieces[n - 1], QueryPiece::Bind(SqlValue::BigInt(20)));
}

#[test]
fn request_filter_ids_become_one_id_sets() {
    let album = UUID4(String::from("4b3d0f9a-2b7e-4c1e-9a55-0b5d3c1e2f10"));
    let page = RequestPageParams { page: 2, per_page: 10 };
    let filter = api::infra::actix::media::dto::FindByQuery {
        search: Some(String::from("blue")),
        album_id: Some(album.clone()),
        ..Default::default()
    };
    let q = api::infra::actix::media::dto::find_by_input(page, filter);
    assert_eq!(
        q,
        FindByQuery {
            page,
            search: Some(String::from("blue")),
            album_ids: Some(IdSet::from_vec(vec![album])),
            ..FindByQuery::default()
        }
    );
    assert_eq!(q.artist_ids, None);
}

#[test]
fn count_query_names_the_table_as_the_filters_do() {
    let q = FindByQuery { is_single: Some(false), ..FindByQuery::default() };
    let count = media_count_query(&q);
    assert_eq!(count[0], sql(r#"SELECT COUNT("m"."id") FROM "media" "m""#));
    assert_eq!(count[3], sql(r#""m"."is_single" = "#));
}
