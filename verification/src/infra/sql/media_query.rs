use vstd::prelude::*;
use crate::domain::media::FindByQuery;
use crate::infra::sql::query::{
    append_pieces, pieces_view, push_bind, push_sql, PieceView, QueryPiece, SqlValue, SqlValueView,
};
use crate::shared::paged::{skip_for, PageQueryParams};
use crate::shared::vo::{IdSet, Slug, UUID4};

verus! {

/// A column compared with a bound value: the column and operator, then the
/// value.
pub open spec fn compare_pieces(sql: Seq<char>, value: SqlValueView) -> Seq<PieceView> {
    seq![PieceView::Sql(sql), PieceView::Bind(value)]
}

/// A text searched for, as a part, in the name or in the slug of a media.
pub open spec fn search_pieces(text: Seq<char>) -> Seq<PieceView> {
    seq![
        PieceView::Sql(r#""m"."name""#@),
        PieceView::Sql(" ILIKE '%' || "@),
        PieceView::Bind(SqlValueView::Text(text)),
        PieceView::Sql(" || '%'"@),
        PieceView::Sql(" OR "@),
        PieceView::Sql(r#""m"."slug""#@),
        PieceView::Sql(" ILIKE '%' || "@),
        PieceView::Bind(SqlValueView::Text(text)),
        PieceView::Sql(" || '%'"@),
    ]
}

/// The identifiers bound one after the other, separated by commas.
pub open spec fn id_list_pieces(ids: Seq<UUID4>) -> Seq<PieceView>
    decreases ids.len(),
{
    if ids.len() == 0 {
        seq![]
    } else {
        id_list_pieces(ids.drop_last()) + (if ids.len() > 1 {
            seq![PieceView::Sql(", "@)]
        } else {
            seq![]
        }) + seq![PieceView::Bind(SqlValueView::Uuid(ids.last().0@))]
    }
}

/// A media that a link table relates to one of `ids`: the subquery's head, the
/// identifiers, and the closing brackets.
pub open spec fn in_subquery_pieces(head: Seq<char>, ids: Seq<UUID4>) -> Seq<PieceView> {
    seq![PieceView::Sql(head)] + id_list_pieces(ids) + seq![PieceView::Sql("))"@)]
}

/// The text of a slug.
pub open spec fn slug_text(slug: Slug) -> Seq<char> {
    slug.0@
}

/// One condition when the filter is given, none otherwise.
pub open spec fn one_if(given: bool, condition: Seq<PieceView>) -> Seq<Seq<PieceView>> {
    if given {
        seq![condition]
    } else {
        seq![]
    }
}

/// The conditions of the filters that a query gives, in a fixed order.
pub open spec fn media_conditions(q: FindByQuery) -> Seq<Seq<PieceView>> {
    Seq::<Seq<PieceView>>::empty()
        + one_if(q.search is Some, search_pieces(q.search->0@))
        + one_if(q.release_date is Some, compare_pieces(r#""m"."release_date" = "#@, SqlValueView::Date(q.release_date->0)))
        + one_if(q.min_release_date is Some, compare_pieces(r#""m"."release_date" >= "#@, SqlValueView::Date(q.min_release_date->0)))
        + one_if(q.max_release_date is Some, compare_pieces(r#""m"."release_date" <= "#@, SqlValueView::Date(q.max_release_date->0)))
        + one_if(q.parental_rating is Some, compare_pieces(r#""m"."parental_rating" = "#@, SqlValueView::SmallInt(q.parental_rating->0 as i16)))
        + one_if(q.min_parental_rating is Some, compare_pieces(r#""m"."parental_rating" >= "#@, SqlValueView::SmallInt(q.min_parental_rating->0 as i16)))
        + one_if(q.max_parental_rating is Some, compare_pieces(r#""m"."parental_rating" <= "#@, SqlValueView::SmallInt(q.max_parental_rating->0 as i16)))
        + one_if(q.is_single is Some, compare_pieces(r#""m"."is_single" = "#@, SqlValueView::Bool(q.is_single->0)))
        + one_if(q.media_type is Some, compare_pieces(r#""m"."type" = "#@, SqlValueView::Text(q.media_type->0@)))
        + one_if(q.slug is Some, compare_pieces(r#""m"."slug" = "#@, SqlValueView::Text(slug_text(q.slug->0))))
        + one_if(q.artist_ids is Some, in_subquery_pieces(r#""m"."id" IN (SELECT "mi"."media_id" FROM "media_interpreter" "mi" WHERE "mi"."interpreter_id" IN ("#@, q.artist_ids->0@))
        + one_if(q.composer_ids is Some, in_subquery_pieces(r#""m"."id" IN (SELECT "mc"."media_id" FROM "media_composer" "mc" WHERE "mc"."composer_id" IN ("#@, q.composer_ids->0@))
        + one_if(q.genre_ids is Some, in_subquery_pieces(r#""m"."id" IN (SELECT "mg"."media_id" FROM "media_genre" "mg" WHERE "mg"."genre_id" IN ("#@, q.genre_ids->0@))
        + one_if(q.album_ids is Some, in_subquery_pieces(r#""m"."id" IN (SELECT "ma"."media_id" FROM "media_album" "ma" WHERE "ma"."album_id" IN ("#@, q.album_ids->0@))
}

/// The conditions each in brackets, joined by `AND`.
pub open spec fn joined(conds: Seq<Seq<PieceView>>) -> Seq<PieceView>
    decreases conds.len(),
{
    if conds.len() == 0 {
        seq![]
    } else {
        joined(conds.drop_last()) + (if conds.len() > 1 {
            seq![PieceView::Sql(" AND "@)]
        } else {
            seq![]
        }) + seq![PieceView::Sql("("@)] + conds.last() + seq![PieceView::Sql(")"@)]
    }
}

/// The `WHERE` part of a listing of media: nothing without filters, else
/// `WHERE` and the conditions joined.
pub open spec fn filter_pieces(q: FindByQuery) -> Seq<PieceView> {
    if media_conditions(q).len() == 0 {
        seq![]
    } else {
        seq![PieceView::Sql(" WHERE "@)] + joined(media_conditions(q))
    }
}

/// The query that counts the media that the filters keep.
pub open spec fn count_query_pieces(q: FindByQuery) -> Seq<PieceView> {
    seq![PieceView::Sql(r#"SELECT COUNT("m"."id") FROM "media" "m""#@)] + filter_pieces(q)
}

/// The query that reads the page of media that the filters keep.
pub open spec fn page_query_pieces(q: FindByQuery) -> Seq<PieceView> {
    seq![PieceView::Sql(SELECT_SQL@)] + filter_pieces(q) + seq![
        PieceView::Sql(" LIMIT "@),
        PieceView::Bind(SqlValueView::BigInt(q.page.per_page as i64)),
        PieceView::Sql(" OFFSET "@),
        PieceView::Bind(SqlValueView::BigInt(skip_for(q.page.page as int, q.page.per_page as int) as i64)),
    ]
}

/// The columns of a media, read from the table under the name `m`.
pub const SELECT_SQL: &'static str = r#"
            select 
            "m"."id",
            "m"."name", 
            "m"."type"::text as "media_type", 
            "m"."slug", 
            "m"."release_date",
            "m"."cover",
            "m"."parental_rating",
            "m"."is_single",
            "m"."created_at",
            "m"."updated_at"
            from "media" "m" 
          "#;

proof fn lemma_joined_push(conds: Seq<Seq<PieceView>>, c: Seq<PieceView>)
    ensures
        joined(conds.push(c)) == joined(conds) + (if conds.len() > 0 {
            seq![PieceView::Sql(" AND "@)]
        } else {
            seq![]
        }) + seq![PieceView::Sql("("@)] + c + seq![PieceView::Sql(")"@)],
{
    assert(conds.push(c).drop_last() =~= conds);
}

/// A column compared with a bound value.
fn compare_condition(sql: &'static str, value: SqlValue) -> (r: Vec<QueryPiece>)
    ensures
        pieces_view(r@) == compare_pieces(sql@, value@),
{
    let mut r: Vec<QueryPiece> = Vec::new();
    push_sql(&mut r, sql);
    push_bind(&mut r, value);
    assert(pieces_view(r@) =~= compare_pieces(sql@, value@));
    r
}

/// A text searched for in the name or the slug.
fn search_condition(text: &String) -> (r: Vec<QueryPiece>)
    ensures
        pieces_view(r@) == search_pieces(text@),
{
    let mut r: Vec<QueryPiece> = Vec::new();
    push_sql(&mut r, r#""m"."name""#);
    push_sql(&mut r, " ILIKE '%' || ");
    push_bind(&mut r, SqlValue::Text(text.clone()));
    push_sql(&mut r, " || '%'");
    push_sql(&mut r, " OR ");
    push_sql(&mut r, r#""m"."slug""#);
    push_sql(&mut r, " ILIKE '%' || ");
    push_bind(&mut r, SqlValue::Text(text.clone()));
    push_sql(&mut r, " || '%'");
    assert(pieces_view(r@) =~= search_pieces(text@));
    r
}

/// A media related to one of `ids` through a link table.
fn in_subquery_condition(head: &'static str, set: &IdSet) -> (r: Vec<QueryPiece>)
    ensures
        pieces_view(r@) == in_subquery_pieces(head@, set@),
{
    let ids = set.to_vec();
    let mut r: Vec<QueryPiece> = Vec::new();
    push_sql(&mut r, head);
    for i in 0..ids.len()
        invariant
            pieces_view(r@) == seq![PieceView::Sql(head@)] + id_list_pieces(ids@.take(i as int)),
    {
        assert(ids@.take(i + 1).drop_last() =~= ids@.take(i as int));
        if i > 0 {
            push_sql(&mut r, ", ");
        }
        push_bind(&mut r, SqlValue::Uuid(ids[i].0.clone()));
        assert(pieces_view(r@) =~= seq![PieceView::Sql(head@)] + id_list_pieces(ids@.take(i + 1)));
    }
    assert(ids@.take(ids@.len() as int) =~= ids@);
    push_sql(&mut r, "))");
    assert(pieces_view(r@) =~= in_subquery_pieces(head@, ids@));
    r
}

/// Appends one condition, after `AND` unless it is the first.
fn add_condition(pieces: &mut Vec<QueryPiece>, has_filters: &mut bool, condition: Vec<QueryPiece>)
    ensures
        *final(has_filters),
        pieces_view(final(pieces)@) == pieces_view(old(pieces)@) + (if *old(has_filters) {
            seq![PieceView::Sql(" AND "@)]
        } else {
            seq![]
        }) + seq![PieceView::Sql("("@)] + pieces_view(condition@) + seq![PieceView::Sql(")"@)],
{
    let ghost start = pieces_view(pieces@);
    if *has_filters {
        push_sql(pieces, " AND ");
    }
    push_sql(pieces, "(");
    let ghost c = pieces_view(condition@);
    append_pieces(pieces, condition);
    push_sql(pieces, ")");
    *has_filters = true;
    assert(pieces_view(pieces@) =~= start + (if *old(has_filters) {
        seq![PieceView::Sql(" AND "@)]
    } else {
        seq![]
    }) + seq![PieceView::Sql("("@)] + c + seq![PieceView::Sql(")"@)]);
}

/// The conditions that an optional filter gives: one when it is given.
pub open spec fn opt_view(cond: Option<Vec<QueryPiece>>) -> Seq<Seq<PieceView>> {
    match cond {
        Some(c) => seq![pieces_view(c@)],
        None => seq![],
    }
}

/// Appends the condition of an optional filter, if it is given, to the
/// conditions built so far.
fn add_optional(
    pieces: &mut Vec<QueryPiece>,
    has_filters: &mut bool,
    cond: Option<Vec<QueryPiece>>,
    Ghost(prefix): Ghost<Seq<PieceView>>,
    Ghost(conds): Ghost<Seq<Seq<PieceView>>>,
) -> (r: Ghost<Seq<Seq<PieceView>>>)
    requires
        pieces_view(old(pieces)@) == prefix + joined(conds),
        *old(has_filters) == (conds.len() > 0),
    ensures
        r@ == conds + opt_view(cond),
        pieces_view(final(pieces)@) == prefix + joined(r@),
        *final(has_filters) == (r@.len() > 0),
{
    let ghost v = opt_view(cond);
    match cond {
        Some(c) => {
            proof {
                lemma_joined_push(conds, pieces_view(c@));
                assert(conds + v =~= conds.push(pieces_view(c@)));
            }
            add_condition(pieces, has_filters, c);
        },
        None => {
            assert(conds + v =~= conds);
        },
    }
    Ghost(conds + v)
}

fn cond_search(q: &FindByQuery) -> (r: Option<Vec<QueryPiece>>)
    ensures
        opt_view(r) == one_if(q.search is Some, search_pieces(q.search->0@)),
{
    match &q.search {
        Some(v) => Some(search_condition(v)),
        None => None,
    }
}

fn cond_release_date(q: &FindByQuery) -> (r: Option<Vec<QueryPiece>>)
    ensures
        opt_view(r) == one_if(q.release_date is Some, compare_pieces(r#""m"."release_date" = "#@, SqlValueView::Date(q.release_date->0))),
{
    match &q.release_date {
        Some(v) => Some(compare_condition(r#""m"."release_date" = "#, SqlValue::Date(*v))),
        None => None,
    }
}

fn cond_min_release_date(q: &FindByQuery) -> (r: Option<Vec<QueryPiece>>)
    ensures
        opt_view(r) == one_if(q.min_release_date is Some, compare_pieces(r#""m"."release_date" >= "#@, SqlValueView::Date(q.min_release_date->0))),
{
    match &q.min_release_date {
        Some(v) => Some(compare_condition(r#""m"."release_date" >= "#, SqlValue::Date(*v))),
        None => None,
    }
}

fn cond_max_release_date(q: &FindByQuery) -> (r: Option<Vec<QueryPiece>>)
    ensures
        opt_view(r) == one_if(q.max_release_date is Some, compare_pieces(r#""m"."release_date" <= "#@, SqlValueView::Date(q.max_release_date->0))),
{
    match &q.max_release_date {
        Some(v) => Some(compare_condition(r#""m"."release_date" <= "#, SqlValue::Date(*v))),
        None => None,
    }
}

fn cond_parental_rating(q: &FindByQuery) -> (r: Option<Vec<QueryPiece>>)
    ensures
        opt_view(r) == one_if(q.parental_rating is Some, compare_pieces(r#""m"."parental_rating" = "#@, SqlValueView::SmallInt(q.parental_rating->0 as i16))),
{
    match &q.parental_rating {
        Some(v) => Some(compare_condition(r#""m"."parental_rating" = "#, SqlValue::SmallInt(*v as i16))),
        None => None,
    }
}

fn cond_min_parental_rating(q: &FindByQuery) -> (r: Option<Vec<QueryPiece>>)
    ensures
        opt_view(r) == one_if(q.min_parental_rating is Some, compare_pieces(r#""m"."parental_rating" >= "#@, SqlValueView::SmallInt(q.min_parental_rating->0 as i16))),
{
    match &q.min_parental_rating {
        Some(v) => Some(compare_condition(r#""m"."parental_rating" >= "#, SqlValue::SmallInt(*v as i16))),
        None => None,
    }
}

fn cond_max_parental_rating(q: &FindByQuery) -> (r: Option<Vec<QueryPiece>>)
    ensures
        opt_view(r) == one_if(q.max_parental_rating is Some, compare_pieces(r#""m"."parental_rating" <= "#@, SqlValueView::SmallInt(q.max_parental_rating->0 as i16))),
{
    match &q.max_parental_rating {
        Some(v) => Some(compare_condition(r#""m"."parental_rating" <= "#, SqlValue::SmallInt(*v as i16))),
        None => None,
    }
}

fn cond_is_single(q: &FindByQuery) -> (r: Option<Vec<QueryPiece>>)
    ensures
        opt_view(r) == one_if(q.is_single is Some, compare_pieces(r#""m"."is_single" = "#@, SqlValueView::Bool(q.is_single->0))),
{
    match &q.is_single {
        Some(v) => Some(compare_condition(r#""m"."is_single" = "#, SqlValue::Bool(*v))),
        None => None,
    }
}

fn cond_media_type(q: &FindByQuery) -> (r: Option<Vec<QueryPiece>>)
    ensures
        opt_view(r) == one_if(q.media_type is Some, compare_pieces(r#""m"."type" = "#@, SqlValueView::Text(q.media_type->0@))),
{
    match &q.media_type {
        Some(v) => Some(compare_condition(r#""m"."type" = "#, SqlValue::Text(v.clone()))),
        None => None,
    }
}

fn cond_slug(q: &FindByQuery) -> (r: Option<Vec<QueryPiece>>)
    ensures
        opt_view(r) == one_if(q.slug is Some, compare_pieces(r#""m"."slug" = "#@, SqlValueView::Text(slug_text(q.slug->0)))),
{
    match &q.slug {
        Some(v) => Some(compare_condition(r#""m"."slug" = "#, SqlValue::Text(v.0.clone()))),
        None => None,
    }
}

fn cond_artist_ids(q: &FindByQuery) -> (r: Option<Vec<QueryPiece>>)
    ensures
        opt_view(r) == one_if(q.artist_ids is Some, in_subquery_pieces(r#""m"."id" IN (SELECT "mi"."media_id" FROM "media_interpreter" "mi" WHERE "mi"."interpreter_id" IN ("#@, q.artist_ids->0@)),
{
    match &q.artist_ids {
        Some(v) => Some(in_subquery_condition(r#""m"."id" IN (SELECT "mi"."media_id" FROM "media_interpreter" "mi" WHERE "mi"."interpreter_id" IN ("#, v)),
        None => None,
    }
}

fn cond_composer_ids(q: &FindByQuery) -> (r: Option<Vec<QueryPiece>>)
    ensures
        opt_view(r) == one_if(q.composer_ids is Some, in_subquery_pieces(r#""m"."id" IN (SELECT "mc"."media_id" FROM "media_composer" "mc" WHERE "mc"."composer_id" IN ("#@, q.composer_ids->0@)),
{
    match &q.composer_ids {
        Some(v) => Some(in_subquery_condition(r#""m"."id" IN (SELECT "mc"."media_id" FROM "media_composer" "mc" WHERE "mc"."composer_id" IN ("#, v)),
        None => None,
    }
}

fn cond_genre_ids(q: &FindByQuery) -> (r: Option<Vec<QueryPiece>>)
    ensures
        opt_view(r) == one_if(q.genre_ids is Some, in_subquery_pieces(r#""m"."id" IN (SELECT "mg"."media_id" FROM "media_genre" "mg" WHERE "mg"."genre_id" IN ("#@, q.genre_ids->0@)),
{
    match &q.genre_ids {
        Some(v) => Some(in_subquery_condition(r#""m"."id" IN (SELECT "mg"."media_id" FROM "media_genre" "mg" WHERE "mg"."genre_id" IN ("#, v)),
        None => None,
    }
}

fn cond_album_ids(q: &FindByQuery) -> (r: Option<Vec<QueryPiece>>)
    ensures
        opt_view(r) == one_if(q.album_ids is Some, in_subquery_pieces(r#""m"."id" IN (SELECT "ma"."media_id" FROM "media_album" "ma" WHERE "ma"."album_id" IN ("#@, q.album_ids->0@)),
{
    match &q.album_ids {
        Some(v) => Some(in_subquery_condition(r#""m"."id" IN (SELECT "ma"."media_id" FROM "media_album" "ma" WHERE "ma"."album_id" IN ("#, v)),
        None => None,
    }
}

/// The `WHERE` part of a listing of media, as the steps of building it.
pub fn media_filter(q: &FindByQuery) -> (r: Vec<QueryPiece>)
    ensures
        pieces_view(r@) == filter_pieces(*q),
{
    let mut pieces: Vec<QueryPiece> = Vec::new();
    let ghost prefix = Seq::<PieceView>::empty();
    assert(pieces_view(pieces@) =~= prefix + joined(Seq::<Seq<PieceView>>::empty()));
    let mut has_filters = false;
    let ghost conds = Seq::<Seq<PieceView>>::empty();
    let Ghost(conds) = add_optional(&mut pieces, &mut has_filters, cond_search(q), Ghost(prefix), Ghost(conds));
    let Ghost(conds) = add_optional(&mut pieces, &mut has_filters, cond_release_date(q), Ghost(prefix), Ghost(conds));
    let Ghost(conds) = add_optional(&mut pieces, &mut has_filters, cond_min_release_date(q), Ghost(prefix), Ghost(conds));
    let Ghost(conds) = add_optional(&mut pieces, &mut has_filters, cond_max_release_date(q), Ghost(prefix), Ghost(conds));
    let Ghost(conds) = add_optional(&mut pieces, &mut has_filters, cond_parental_rating(q), Ghost(prefix), Ghost(conds));
    let Ghost(conds) = add_optional(&mut pieces, &mut has_filters, cond_min_parental_rating(q), Ghost(prefix), Ghost(conds));
    let Ghost(conds) = add_optional(&mut pieces, &mut has_filters, cond_max_parental_rating(q), Ghost(prefix), Ghost(conds));
    let Ghost(conds) = add_optional(&mut pieces, &mut has_filters, cond_is_single(q), Ghost(prefix), Ghost(conds));
    let Ghost(conds) = add_optional(&mut pieces, &mut has_filters, cond_media_type(q), Ghost(prefix), Ghost(conds));
    let Ghost(conds) = add_optional(&mut pieces, &mut has_filters, cond_slug(q), Ghost(prefix), Ghost(conds));
    let Ghost(conds) = add_optional(&mut pieces, &mut has_filters, cond_artist_ids(q), Ghost(prefix), Ghost(conds));
    let Ghost(conds) = add_optional(&mut pieces, &mut has_filters, cond_composer_ids(q), Ghost(prefix), Ghost(conds));
    let Ghost(conds) = add_optional(&mut pieces, &mut has_filters, cond_genre_ids(q), Ghost(prefix), Ghost(conds));
    let Ghost(conds) = add_optional(&mut pieces, &mut has_filters, cond_album_ids(q), Ghost(prefix), Ghost(conds));
    assert(conds == media_conditions(*q));
    assert(pieces_view(pieces@) == joined(media_conditions(*q)));
    if has_filters {
        let mut r: Vec<QueryPiece> = Vec::new();
        push_sql(&mut r, " WHERE ");
        append_pieces(&mut r, pieces);
        r
    } else {
        assert(pieces_view(pieces@) =~= filter_pieces(*q));
        pieces
    }
}

/// The query that counts the media that the filters keep, as the steps of
/// building it.
pub fn media_count_query(q: &FindByQuery) -> (r: Vec<QueryPiece>)
    ensures
        pieces_view(r@) == count_query_pieces(*q),
{
    let mut r: Vec<QueryPiece> = Vec::new();
    push_sql(&mut r, r#"SELECT COUNT("m"."id") FROM "media" "m""#);
    append_pieces(&mut r, media_filter(q));
    r
}

/// The query that reads the page of media that the filters keep, as the steps
/// of building it.
pub fn media_page_query(q: &FindByQuery) -> (r: Vec<QueryPiece>)
    requires
        skip_for(q.page.page as int, q.page.per_page as int) <= usize::MAX,
    ensures
        pieces_view(r@) == page_query_pieces(*q),
{
    let mut r: Vec<QueryPiece> = Vec::new();
    push_sql(&mut r, SELECT_SQL);
    append_pieces(&mut r, media_filter(q));
    let page = PageQueryParams::from(q.page);
    push_sql(&mut r, " LIMIT ");
    push_bind(&mut r, SqlValue::BigInt(page.take as i64));
    push_sql(&mut r, " OFFSET ");
    push_bind(&mut r, SqlValue::BigInt(page.skip as i64));
    r
}

} // verus!
