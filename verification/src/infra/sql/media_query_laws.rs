use vstd::prelude::*;
use crate::domain::media::FindByQuery;
use crate::infra::sql::media_query::{
    count_query_pieces, page_query_pieces, SELECT_SQL,
    compare_pieces, filter_pieces, id_list_pieces, in_subquery_pieces, joined, media_conditions, one_if, search_pieces,
    slug_text,
};
use crate::infra::sql::query::{PieceView, SqlValueView};
use crate::shared::vo::UUID4;

verus! {

broadcast use vstd::seq_lib::lemma_seq_concat_contains_all_elements;

/// `part` stands in `s` from position `k` on.
pub open spec fn occurs_at(s: Seq<PieceView>, k: int, part: Seq<PieceView>) -> bool {
    0 <= k && k + part.len() <= s.len() && s.subrange(k, k + part.len()) == part
}

/// `part` stands somewhere in `s`.
pub open spec fn occurs(s: Seq<PieceView>, part: Seq<PieceView>) -> bool {
    exists|k: int| occurs_at(s, k, part)
}

/// How many pieces a list of `n` bound identifiers takes: the identifiers and
/// the commas between them.
pub open spec fn id_list_len(n: int) -> int {
    if n <= 0 {
        0
    } else {
        2 * n - 1
    }
}

/// From position `k` on, `s` binds the identifiers of `ids` one after the
/// other, separated by `, `, and then closes the subquery with `))`.
pub open spec fn binds_ids_at(s: Seq<PieceView>, k: int, ids: Seq<UUID4>) -> bool {
    &&& 0 <= k
    &&& k + id_list_len(ids.len() as int) < s.len()
    &&& forall|j: int| 0 <= j < ids.len() ==> s[k + 2 * j] == PieceView::Bind(SqlValueView::Uuid(#[trigger] ids[j].0@))
    &&& forall|j: int| 0 <= j < ids.len() - 1 ==> #[trigger] s[k + 2 * j + 1] == PieceView::Sql(", "@)
    &&& s[k + id_list_len(ids.len() as int)] == PieceView::Sql("))"@)
}

/// `s` holds the subquery that starts with `head` and binds exactly `ids`.
pub open spec fn has_subquery(s: Seq<PieceView>, head: Seq<char>, ids: Seq<UUID4>) -> bool {
    exists|k: int| 0 <= k < s.len() && s[k] == PieceView::Sql(head) && binds_ids_at(s, k + 1, ids)
}

/// The pieces that bind a list of identifiers: one `Bind` per identifier, in
/// order, with `, ` between them.
proof fn lemma_id_list_positions(ids: Seq<UUID4>)
    ensures
        id_list_pieces(ids).len() == id_list_len(ids.len() as int),
        forall|j: int| 0 <= j < ids.len() ==> id_list_pieces(ids)[2 * j] == PieceView::Bind(SqlValueView::Uuid(#[trigger] ids[j].0@)),
        forall|j: int| 0 <= j < ids.len() - 1 ==> #[trigger] id_list_pieces(ids)[2 * j + 1] == PieceView::Sql(", "@),
    decreases ids.len(),
{
    if ids.len() > 0 {
        let prev = ids.drop_last();
        lemma_id_list_positions(prev);
        let p = id_list_pieces(prev);
        let l = id_list_pieces(ids);
        assert forall|j: int| 0 <= j < ids.len() implies l[2 * j] == PieceView::Bind(SqlValueView::Uuid(#[trigger] ids[j].0@)) by {
            if j < ids.len() - 1 {
                assert(prev[j] == ids[j]);
                assert(l[2 * j] == p[2 * j]);
            }
        }
        assert forall|j: int| 0 <= j < ids.len() - 1 implies #[trigger] l[2 * j + 1] == PieceView::Sql(", "@) by {
            if j < ids.len() - 2 {
                assert(l[2 * j + 1] == p[2 * j + 1]);
            }
        }
    }
}

/// Each condition stands, whole, in the conditions joined.
proof fn lemma_joined_holds(conds: Seq<Seq<PieceView>>, i: int) -> (k: int)
    requires
        0 <= i < conds.len(),
    ensures
        occurs_at(joined(conds), k, conds[i]),
    decreases conds.len(),
{
    let n = conds.len();
    let prev = conds.drop_last();
    let c = conds[i];
    if i == n - 1 {
        let k = joined(prev).len() + (if n > 1 {
            1int
        } else {
            0int
        }) + 1;
        assert(joined(conds).subrange(k, k + c.len()) =~= c);
        k
    } else {
        let k = lemma_joined_holds(prev, i);
        assert(prev[i] == c);
        assert(joined(conds).subrange(k, k + c.len()) =~= joined(prev).subrange(k, k + c.len()));
        k
    }
}

/// Each condition of a query stands, whole, in its `WHERE` part.
proof fn lemma_condition_in_filter(q: FindByQuery, c: Seq<PieceView>) -> (k: int)
    requires
        media_conditions(q).contains(c),
    ensures
        occurs_at(filter_pieces(q), k, c),
{
    let conds = media_conditions(q);
    let i = choose|i: int| 0 <= i < conds.len() && conds[i] == c;
    let k0 = lemma_joined_holds(conds, i);
    let s = filter_pieces(q);
    assert(s.subrange(k0 + 1, k0 + 1 + c.len()) =~= joined(conds).subrange(k0, k0 + c.len()));
    k0 + 1
}

proof fn lemma_one_if_holds(c: Seq<PieceView>)
    ensures
        one_if(true, c).contains(c),
{
    assert(one_if(true, c)[0] == c);
}

/// A subquery condition that stands in `s` binds exactly its identifiers.
proof fn lemma_subquery_in(s: Seq<PieceView>, k: int, head: Seq<char>, ids: Seq<UUID4>)
    requires
        occurs_at(s, k, seq![PieceView::Sql(head)] + id_list_pieces(ids) + seq![PieceView::Sql("))"@)]),
    ensures
        has_subquery(s, head, ids),
{
    let c = seq![PieceView::Sql(head)] + id_list_pieces(ids) + seq![PieceView::Sql("))"@)];
    lemma_id_list_positions(ids);
    let l = id_list_pieces(ids);
    assert forall|m: int| 0 <= m < c.len() implies s[k + m] == #[trigger] c[m] by {
        assert(s.subrange(k, k + c.len())[m] == c[m]);
    }
    assert(s[k] == c[0]);
    assert forall|j: int| 0 <= j < ids.len() implies s[k + 1 + 2 * j] == PieceView::Bind(SqlValueView::Uuid(#[trigger] ids[j].0@)) by {
        assert(c[1 + 2 * j] == l[2 * j]);
    }
    assert forall|j: int| 0 <= j < ids.len() - 1 implies #[trigger] s[k + 1 + 2 * j + 1] == PieceView::Sql(", "@) by {
        assert(c[1 + 2 * j + 1] == l[2 * j + 1]);
    }
    assert(c[1 + id_list_len(ids.len() as int)] == PieceView::Sql("))"@));
    assert(s[k + 1 + id_list_len(ids.len() as int)] == PieceView::Sql("))"@));
    assert(binds_ids_at(s, k + 1, ids));
}

proof fn lemma_search_given(q: FindByQuery)
    ensures
        q.search matches Some(t) ==> occurs(filter_pieces(q), seq![
            PieceView::Sql(r#""m"."name""#@),
            PieceView::Sql(" ILIKE '%' || "@),
            PieceView::Bind(SqlValueView::Text(t@)),
            PieceView::Sql(" || '%'"@),
            PieceView::Sql(" OR "@),
            PieceView::Sql(r#""m"."slug""#@),
            PieceView::Sql(" ILIKE '%' || "@),
            PieceView::Bind(SqlValueView::Text(t@)),
            PieceView::Sql(" || '%'"@),
        ]),
{
    let conds = media_conditions(q);
    let s = filter_pieces(q);
    if let Some(t) = q.search {
        let c = seq![
            PieceView::Sql(r#""m"."name""#@),
            PieceView::Sql(" ILIKE '%' || "@),
            PieceView::Bind(SqlValueView::Text(t@)),
            PieceView::Sql(" || '%'"@),
            PieceView::Sql(" OR "@),
            PieceView::Sql(r#""m"."slug""#@),
            PieceView::Sql(" ILIKE '%' || "@),
            PieceView::Bind(SqlValueView::Text(t@)),
            PieceView::Sql(" || '%'"@),
        ];
        lemma_one_if_holds(c);
        assert(conds.contains(c));
        let k = lemma_condition_in_filter(q, c);
        assert(occurs_at(s, k, c));
    }
}

proof fn lemma_release_date_given(q: FindByQuery)
    ensures
        q.release_date matches Some(d) ==> occurs(filter_pieces(q), seq![
            PieceView::Sql(r#""m"."release_date" = "#@),
            PieceView::Bind(SqlValueView::Date(d)),
        ]),
{
    let conds = media_conditions(q);
    let s = filter_pieces(q);
    if let Some(d) = q.release_date {
        let c = seq![PieceView::Sql(r#""m"."release_date" = "#@), PieceView::Bind(SqlValueView::Date(d))];
        lemma_one_if_holds(c);
        assert(conds.contains(c));
        let k = lemma_condition_in_filter(q, c);
        assert(occurs_at(s, k, c));
    }
}

proof fn lemma_min_release_date_given(q: FindByQuery)
    ensures
        q.min_release_date matches Some(d) ==> occurs(filter_pieces(q), seq![
            PieceView::Sql(r#""m"."release_date" >= "#@),
            PieceView::Bind(SqlValueView::Date(d)),
        ]),
{
    let conds = media_conditions(q);
    let s = filter_pieces(q);
    if let Some(d) = q.min_release_date {
        let c = seq![PieceView::Sql(r#""m"."release_date" >= "#@), PieceView::Bind(SqlValueView::Date(d))];
        lemma_one_if_holds(c);
        assert(conds.contains(c));
        let k = lemma_condition_in_filter(q, c);
        assert(occurs_at(s, k, c));
    }
}

proof fn lemma_max_release_date_given(q: FindByQuery)
    ensures
        q.max_release_date matches Some(d) ==> occurs(filter_pieces(q), seq![
            PieceView::Sql(r#""m"."release_date" <= "#@),
            PieceView::Bind(SqlValueView::Date(d)),
        ]),
{
    let conds = media_conditions(q);
    let s = filter_pieces(q);
    if let Some(d) = q.max_release_date {
        let c = seq![PieceView::Sql(r#""m"."release_date" <= "#@), PieceView::Bind(SqlValueView::Date(d))];
        lemma_one_if_holds(c);
        assert(conds.contains(c));
        let k = lemma_condition_in_filter(q, c);
        assert(occurs_at(s, k, c));
    }
}

proof fn lemma_parental_rating_given(q: FindByQuery)
    ensures
        q.parental_rating matches Some(v) ==> occurs(filter_pieces(q), seq![
            PieceView::Sql(r#""m"."parental_rating" = "#@),
            PieceView::Bind(SqlValueView::SmallInt(v as i16)),
        ]),
{
    let conds = media_conditions(q);
    let s = filter_pieces(q);
    if let Some(v) = q.parental_rating {
        let c = seq![PieceView::Sql(r#""m"."parental_rating" = "#@), PieceView::Bind(SqlValueView::SmallInt(v as i16))];
        lemma_one_if_holds(c);
        assert(conds.contains(c));
        let k = lemma_condition_in_filter(q, c);
        assert(occurs_at(s, k, c));
    }
}

proof fn lemma_min_parental_rating_given(q: FindByQuery)
    ensures
        q.min_parental_rating matches Some(v) ==> occurs(filter_pieces(q), seq![
            PieceView::Sql(r#""m"."parental_rating" >= "#@),
            PieceView::Bind(SqlValueView::SmallInt(v as i16)),
        ]),
{
    let conds = media_conditions(q);
    let s = filter_pieces(q);
    if let Some(v) = q.min_parental_rating {
        let c = seq![PieceView::Sql(r#""m"."parental_rating" >= "#@), PieceView::Bind(SqlValueView::SmallInt(v as i16))];
        lemma_one_if_holds(c);
        assert(conds.contains(c));
        let k = lemma_condition_in_filter(q, c);
        assert(occurs_at(s, k, c));
    }
}

proof fn lemma_max_parental_rating_given(q: FindByQuery)
    ensures
        q.max_parental_rating matches Some(v) ==> occurs(filter_pieces(q), seq![
            PieceView::Sql(r#""m"."parental_rating" <= "#@),
            PieceView::Bind(SqlValueView::SmallInt(v as i16)),
        ]),
{
    let conds = media_conditions(q);
    let s = filter_pieces(q);
    if let Some(v) = q.max_parental_rating {
        let c = seq![PieceView::Sql(r#""m"."parental_rating" <= "#@), PieceView::Bind(SqlValueView::SmallInt(v as i16))];
        lemma_one_if_holds(c);
        assert(conds.contains(c));
        let k = lemma_condition_in_filter(q, c);
        assert(occurs_at(s, k, c));
    }
}

proof fn lemma_is_single_given(q: FindByQuery)
    ensures
        q.is_single matches Some(b) ==> occurs(filter_pieces(q), seq![
            PieceView::Sql(r#""m"."is_single" = "#@),
            PieceView::Bind(SqlValueView::Bool(b)),
        ]),
{
    let conds = media_conditions(q);
    let s = filter_pieces(q);
    if let Some(b) = q.is_single {
        let c = seq![PieceView::Sql(r#""m"."is_single" = "#@), PieceView::Bind(SqlValueView::Bool(b))];
        lemma_one_if_holds(c);
        assert(conds.contains(c));
        let k = lemma_condition_in_filter(q, c);
        assert(occurs_at(s, k, c));
    }
}

proof fn lemma_media_type_given(q: FindByQuery)
    ensures
        q.media_type matches Some(t) ==> occurs(filter_pieces(q), seq![
            PieceView::Sql(r#""m"."type" = "#@),
            PieceView::Bind(SqlValueView::Text(t@)),
        ]),
{
    let conds = media_conditions(q);
    let s = filter_pieces(q);
    if let Some(t) = q.media_type {
        let c = seq![PieceView::Sql(r#""m"."type" = "#@), PieceView::Bind(SqlValueView::Text(t@))];
        lemma_one_if_holds(c);
        assert(conds.contains(c));
        let k = lemma_condition_in_filter(q, c);
        assert(occurs_at(s, k, c));
    }
}

proof fn lemma_slug_given(q: FindByQuery)
    ensures
        q.slug matches Some(s) ==> occurs(filter_pieces(q), seq![
            PieceView::Sql(r#""m"."slug" = "#@),
            PieceView::Bind(SqlValueView::Text(s.0@)),
        ]),
{
    let conds = media_conditions(q);
    let s = filter_pieces(q);
    if let Some(sl) = q.slug {
        let c = seq![PieceView::Sql(r#""m"."slug" = "#@), PieceView::Bind(SqlValueView::Text(sl.0@))];
        lemma_one_if_holds(c);
        assert(conds.contains(c));
        let k = lemma_condition_in_filter(q, c);
        assert(occurs_at(s, k, c));
    }
}

proof fn lemma_artist_ids_given(q: FindByQuery)
    ensures
        q.artist_ids matches Some(ids) ==> has_subquery(filter_pieces(q),
            r#""m"."id" IN (SELECT "mi"."media_id" FROM "media_interpreter" "mi" WHERE "mi"."interpreter_id" IN ("#@, ids@),
{
    let conds = media_conditions(q);
    let s = filter_pieces(q);
    if let Some(ids) = q.artist_ids {
        let head = r#""m"."id" IN (SELECT "mi"."media_id" FROM "media_interpreter" "mi" WHERE "mi"."interpreter_id" IN ("#@;
        let c = seq![PieceView::Sql(head)] + id_list_pieces(ids@) + seq![PieceView::Sql("))"@)];
        lemma_one_if_holds(c);
        assert(conds.contains(c));
        let k = lemma_condition_in_filter(q, c);
        lemma_subquery_in(s, k, head, ids@);
    }
}

proof fn lemma_composer_ids_given(q: FindByQuery)
    ensures
        q.composer_ids matches Some(ids) ==> has_subquery(filter_pieces(q),
            r#""m"."id" IN (SELECT "mc"."media_id" FROM "media_composer" "mc" WHERE "mc"."composer_id" IN ("#@, ids@),
{
    let conds = media_conditions(q);
    let s = filter_pieces(q);
    if let Some(ids) = q.composer_ids {
        let head = r#""m"."id" IN (SELECT "mc"."media_id" FROM "media_composer" "mc" WHERE "mc"."composer_id" IN ("#@;
        let c = seq![PieceView::Sql(head)] + id_list_pieces(ids@) + seq![PieceView::Sql("))"@)];
        lemma_one_if_holds(c);
        assert(conds.contains(c));
        let k = lemma_condition_in_filter(q, c);
        lemma_subquery_in(s, k, head, ids@);
    }
}

proof fn lemma_genre_ids_given(q: FindByQuery)
    ensures
        q.genre_ids matches Some(ids) ==> has_subquery(filter_pieces(q),
            r#""m"."id" IN (SELECT "mg"."media_id" FROM "media_genre" "mg" WHERE "mg"."genre_id" IN ("#@, ids@),
{
    let conds = media_conditions(q);
    let s = filter_pieces(q);
    if let Some(ids) = q.genre_ids {
        let head = r#""m"."id" IN (SELECT "mg"."media_id" FROM "media_genre" "mg" WHERE "mg"."genre_id" IN ("#@;
        let c = seq![PieceView::Sql(head)] + id_list_pieces(ids@) + seq![PieceView::Sql("))"@)];
        lemma_one_if_holds(c);
        assert(conds.contains(c));
        let k = lemma_condition_in_filter(q, c);
        lemma_subquery_in(s, k, head, ids@);
    }
}

proof fn lemma_album_ids_given(q: FindByQuery)
    ensures
        q.album_ids matches Some(ids) ==> has_subquery(filter_pieces(q),
            r#""m"."id" IN (SELECT "ma"."media_id" FROM "media_album" "ma" WHERE "ma"."album_id" IN ("#@, ids@),
{
    let conds = media_conditions(q);
    let s = filter_pieces(q);
    if let Some(ids) = q.album_ids {
        let head = r#""m"."id" IN (SELECT "ma"."media_id" FROM "media_album" "ma" WHERE "ma"."album_id" IN ("#@;
        let c = seq![PieceView::Sql(head)] + id_list_pieces(ids@) + seq![PieceView::Sql("))"@)];
        lemma_one_if_holds(c);
        assert(conds.contains(c));
        let k = lemma_condition_in_filter(q, c);
        lemma_subquery_in(s, k, head, ids@);
    }
}

/// Each filter that a media listing gives adds its own condition to the
/// `WHERE` part: the text searched for in the name or the slug, each date and
/// rating bound compared with its own operator, the single flag, the type and
/// the slug compared for equality, and for each of the interpreter, composer,
/// genre and album filters the subquery of its link table binding exactly the
/// identifiers given. Without any filter there is no `WHERE` part at all.
pub proof fn each_given_filter_adds_its_condition(q: FindByQuery)
    ensures
        q.search is None && q.release_date is None && q.min_release_date is None && q.max_release_date is None
            && q.parental_rating is None && q.min_parental_rating is None && q.max_parental_rating is None
            && q.is_single is None && q.media_type is None && q.slug is None && q.artist_ids is None
            && q.composer_ids is None && q.genre_ids is None && q.album_ids is None ==> filter_pieces(q).len() == 0,
        q.search matches Some(t) ==> occurs(filter_pieces(q), seq![
            PieceView::Sql(r#""m"."name""#@),
            PieceView::Sql(" ILIKE '%' || "@),
            PieceView::Bind(SqlValueView::Text(t@)),
            PieceView::Sql(" || '%'"@),
            PieceView::Sql(" OR "@),
            PieceView::Sql(r#""m"."slug""#@),
            PieceView::Sql(" ILIKE '%' || "@),
            PieceView::Bind(SqlValueView::Text(t@)),
            PieceView::Sql(" || '%'"@),
        ]),
        q.release_date matches Some(d) ==> occurs(filter_pieces(q), seq![
            PieceView::Sql(r#""m"."release_date" = "#@),
            PieceView::Bind(SqlValueView::Date(d)),
        ]),
        q.min_release_date matches Some(d) ==> occurs(filter_pieces(q), seq![
            PieceView::Sql(r#""m"."release_date" >= "#@),
            PieceView::Bind(SqlValueView::Date(d)),
        ]),
        q.max_release_date matches Some(d) ==> occurs(filter_pieces(q), seq![
            PieceView::Sql(r#""m"."release_date" <= "#@),
            PieceView::Bind(SqlValueView::Date(d)),
        ]),
        q.parental_rating matches Some(v) ==> occurs(filter_pieces(q), seq![
            PieceView::Sql(r#""m"."parental_rating" = "#@),
            PieceView::Bind(SqlValueView::SmallInt(v as i16)),
        ]),
        q.min_parental_rating matches Some(v) ==> occurs(filter_pieces(q), seq![
            PieceView::Sql(r#""m"."parental_rating" >= "#@),
            PieceView::Bind(SqlValueView::SmallInt(v as i16)),
        ]),
        q.max_parental_rating matches Some(v) ==> occurs(filter_pieces(q), seq![
            PieceView::Sql(r#""m"."parental_rating" <= "#@),
            PieceView::Bind(SqlValueView::SmallInt(v as i16)),
        ]),
        q.is_single matches Some(b) ==> occurs(filter_pieces(q), seq![
            PieceView::Sql(r#""m"."is_single" = "#@),
            PieceView::Bind(SqlValueView::Bool(b)),
        ]),
        q.media_type matches Some(t) ==> occurs(filter_pieces(q), seq![
            PieceView::Sql(r#""m"."type" = "#@),
            PieceView::Bind(SqlValueView::Text(t@)),
        ]),
        q.slug matches Some(s) ==> occurs(filter_pieces(q), seq![
            PieceView::Sql(r#""m"."slug" = "#@),
            PieceView::Bind(SqlValueView::Text(s.0@)),
        ]),
        q.artist_ids matches Some(ids) ==> has_subquery(filter_pieces(q),
            r#""m"."id" IN (SELECT "mi"."media_id" FROM "media_interpreter" "mi" WHERE "mi"."interpreter_id" IN ("#@, ids@),
        q.composer_ids matches Some(ids) ==> has_subquery(filter_pieces(q),
            r#""m"."id" IN (SELECT "mc"."media_id" FROM "media_composer" "mc" WHERE "mc"."composer_id" IN ("#@, ids@),
        q.genre_ids matches Some(ids) ==> has_subquery(filter_pieces(q),
            r#""m"."id" IN (SELECT "mg"."media_id" FROM "media_genre" "mg" WHERE "mg"."genre_id" IN ("#@, ids@),
        q.album_ids matches Some(ids) ==> has_subquery(filter_pieces(q),
            r#""m"."id" IN (SELECT "ma"."media_id" FROM "media_album" "ma" WHERE "ma"."album_id" IN ("#@, ids@),
{
    lemma_search_given(q);
    lemma_release_date_given(q);
    lemma_min_release_date_given(q);
    lemma_max_release_date_given(q);
    lemma_parental_rating_given(q);
    lemma_min_parental_rating_given(q);
    lemma_max_parental_rating_given(q);
    lemma_is_single_given(q);
    lemma_media_type_given(q);
    lemma_slug_given(q);
    lemma_artist_ids_given(q);
    lemma_composer_ids_given(q);
    lemma_genre_ids_given(q);
    lemma_album_ids_given(q);
}


/// How many pieces of `s` are the word `AND` that joins two conditions.
pub open spec fn and_count(s: Seq<PieceView>) -> nat
    decreases s.len(),
{
    if s.len() == 0 {
        0
    } else {
        and_count(s.drop_last()) + (if s.last() == PieceView::Sql(" AND "@) {
            1nat
        } else {
            0nat
        })
    }
}

/// How many of its filters a media listing gives.
pub open spec fn given_filters(q: FindByQuery) -> nat {
    (if q.search is Some { 1nat } else { 0nat })
        + (if q.release_date is Some { 1nat } else { 0nat })
        + (if q.min_release_date is Some { 1nat } else { 0nat })
        + (if q.max_release_date is Some { 1nat } else { 0nat })
        + (if q.parental_rating is Some { 1nat } else { 0nat })
        + (if q.min_parental_rating is Some { 1nat } else { 0nat })
        + (if q.max_parental_rating is Some { 1nat } else { 0nat })
        + (if q.is_single is Some { 1nat } else { 0nat })
        + (if q.media_type is Some { 1nat } else { 0nat })
        + (if q.slug is Some { 1nat } else { 0nat })
        + (if q.artist_ids is Some { 1nat } else { 0nat })
        + (if q.composer_ids is Some { 1nat } else { 0nat })
        + (if q.genre_ids is Some { 1nat } else { 0nat })
        + (if q.album_ids is Some { 1nat } else { 0nat })
}

proof fn lemma_and_count_concat(a: Seq<PieceView>, b: Seq<PieceView>)
    ensures
        and_count(a + b) == and_count(a) + and_count(b),
    decreases b.len(),
{
    if b.len() > 0 {
        lemma_and_count_concat(a, b.drop_last());
        assert((a + b).drop_last() =~= a + b.drop_last());
    }
}

proof fn lemma_and_free(s: Seq<PieceView>)
    requires
        forall|i: int| 0 <= i < s.len() ==> s[i] != PieceView::Sql(" AND "@),
    ensures
        and_count(s) == 0,
    decreases s.len(),
{
    if s.len() > 0 {
        lemma_and_free(s.drop_last());
    }
}

proof fn lemma_joined_and_count(conds: Seq<Seq<PieceView>>)
    requires
        forall|i: int| 0 <= i < conds.len() ==> and_count(#[trigger] conds[i]) == 0,
    ensures
        conds.len() > 0 ==> and_count(joined(conds)) + 1 == conds.len(),
        conds.len() == 0 ==> and_count(joined(conds)) == 0,
    decreases conds.len(),
{
    if conds.len() > 0 {
        let prev = conds.drop_last();
        assert forall|i: int| 0 <= i < prev.len() implies and_count(#[trigger] prev[i]) == 0 by {
            assert(prev[i] == conds[i]);
        }
        lemma_joined_and_count(prev);
        let sep: Seq<PieceView> = if conds.len() > 1 {
            seq![PieceView::Sql(" AND "@)]
        } else {
            seq![]
        };
        let open_: Seq<PieceView> = seq![PieceView::Sql("("@)];
        let close: Seq<PieceView> = seq![PieceView::Sql(")"@)];
        reveal_strlit(" AND ");
        reveal_strlit("(");
        reveal_strlit(")");
        assert(" AND "@.len() == 5);
        assert("("@.len() == 1);
        assert(")"@.len() == 1);
        assert(open_[0] != PieceView::Sql(" AND "@));
        lemma_and_free(open_);
        lemma_and_free(close);
        assert(and_count(conds.last()) == 0);
        lemma_and_count_concat(joined(prev), sep);
        lemma_and_count_concat(joined(prev) + sep, open_);
        lemma_and_count_concat(joined(prev) + sep + open_, conds.last());
        lemma_and_count_concat(joined(prev) + sep + open_ + conds.last(), close);
        if conds.len() > 1 {
            assert(and_count(sep) == 1) by {
                reveal_with_fuel(and_count, 2);
                assert(sep.drop_last() =~= Seq::<PieceView>::empty());
            }
        } else {
            assert(and_count(sep) == 0);
        }
    }
}

proof fn lemma_compare_and_free(sql: Seq<char>, v: SqlValueView)
    requires
        sql.len() != 5,
    ensures
        and_count(seq![PieceView::Sql(sql), PieceView::Bind(v)]) == 0,
{
    reveal_strlit(" AND ");
    assert(" AND "@.len() == 5);
    let c = seq![PieceView::Sql(sql), PieceView::Bind(v)];
    assert(c[0] != PieceView::Sql(" AND "@));
    lemma_and_free(c);
}

proof fn lemma_search_and_free(t: Seq<char>)
    ensures
        and_count(search_pieces(t)) == 0,
{
    reveal_strlit(" AND ");
    reveal_strlit(r#""m"."name""#);
    reveal_strlit(" ILIKE '%' || ");
    reveal_strlit(" || '%'");
    reveal_strlit(" OR ");
    reveal_strlit(r#""m"."slug""#);
    assert(" AND "@.len() == 5);
    assert(r#""m"."name""#@.len() == 10);
    assert(" ILIKE '%' || "@.len() == 14);
    assert(" || '%'"@.len() == 7);
    assert(" OR "@.len() == 4);
    assert(r#""m"."slug""#@.len() == 10);
    lemma_and_free(search_pieces(t));
}

proof fn lemma_subquery_and_free(head: Seq<char>, ids: Seq<UUID4>)
    requires
        head.len() != 5,
    ensures
        and_count(in_subquery_pieces(head, ids)) == 0,
{
    reveal_strlit(" AND ");
    reveal_strlit(", ");
    reveal_strlit("))");
    assert(" AND "@.len() == 5);
    assert(", "@.len() == 2);
    assert("))"@.len() == 2);
    lemma_id_list_positions(ids);
    let l = id_list_pieces(ids);
    let c = in_subquery_pieces(head, ids);
    assert forall|m: int| 0 <= m < c.len() implies c[m] != PieceView::Sql(" AND "@) by {
        if 1 <= m < 1 + l.len() {
            let p = m - 1;
            assert(c[m] == l[p]);
            if p % 2 == 0 {
                assert(l[2 * (p / 2)] == PieceView::Bind(SqlValueView::Uuid(ids[p / 2].0@)));
            } else {
                assert(l[2 * (p / 2) + 1] == PieceView::Sql(", "@));
            }
        }
    }
    lemma_and_free(c);
}

/// Every condition of `conds` is free of `AND`.
#[verifier::opaque]
pub open spec fn all_and_free(conds: Seq<Seq<PieceView>>) -> bool {
    forall|i: int| 0 <= i < conds.len() ==> and_count(#[trigger] conds[i]) == 0
}

proof fn lemma_free_concat(a: Seq<Seq<PieceView>>, b: Seq<Seq<PieceView>>)
    requires
        all_and_free(a),
        all_and_free(b),
    ensures
        all_and_free(a + b),
{
    reveal(all_and_free);
    assert forall|i: int| 0 <= i < (a + b).len() implies and_count(#[trigger] (a + b)[i]) == 0 by {
        if i < a.len() {
            assert((a + b)[i] == a[i]);
        } else {
            assert((a + b)[i] == b[i - a.len()]);
        }
    }
}

proof fn lemma_free_one_if(g: bool, c: Seq<PieceView>)
    requires
        and_count(c) == 0,
    ensures
        all_and_free(one_if(g, c)),
{
    reveal(all_and_free);
}

proof fn lemma_literal_lengths()
    ensures
        r#""m"."release_date" = "#@.len() > 5,
        r#""m"."release_date" >= "#@.len() > 5,
        r#""m"."release_date" <= "#@.len() > 5,
        r#""m"."parental_rating" = "#@.len() > 5,
        r#""m"."parental_rating" >= "#@.len() > 5,
        r#""m"."parental_rating" <= "#@.len() > 5,
        r#""m"."is_single" = "#@.len() > 5,
        r#""m"."type" = "#@.len() > 5,
        r#""m"."slug" = "#@.len() > 5,
        r#""m"."id" IN (SELECT "mi"."media_id" FROM "media_interpreter" "mi" WHERE "mi"."interpreter_id" IN ("#@.len() > 5,
        r#""m"."id" IN (SELECT "mc"."media_id" FROM "media_composer" "mc" WHERE "mc"."composer_id" IN ("#@.len() > 5,
        r#""m"."id" IN (SELECT "mg"."media_id" FROM "media_genre" "mg" WHERE "mg"."genre_id" IN ("#@.len() > 5,
        r#""m"."id" IN (SELECT "ma"."media_id" FROM "media_album" "ma" WHERE "ma"."album_id" IN ("#@.len() > 5,
{
    reveal_strlit(r#""m"."release_date" = "#);
    reveal_strlit(r#""m"."release_date" >= "#);
    reveal_strlit(r#""m"."release_date" <= "#);
    reveal_strlit(r#""m"."parental_rating" = "#);
    reveal_strlit(r#""m"."parental_rating" >= "#);
    reveal_strlit(r#""m"."parental_rating" <= "#);
    reveal_strlit(r#""m"."is_single" = "#);
    reveal_strlit(r#""m"."type" = "#);
    reveal_strlit(r#""m"."slug" = "#);
    reveal_strlit(r#""m"."id" IN (SELECT "mi"."media_id" FROM "media_interpreter" "mi" WHERE "mi"."interpreter_id" IN ("#);
    reveal_strlit(r#""m"."id" IN (SELECT "mc"."media_id" FROM "media_composer" "mc" WHERE "mc"."composer_id" IN ("#);
    reveal_strlit(r#""m"."id" IN (SELECT "mg"."media_id" FROM "media_genre" "mg" WHERE "mg"."genre_id" IN ("#);
    reveal_strlit(r#""m"."id" IN (SELECT "ma"."media_id" FROM "media_album" "ma" WHERE "ma"."album_id" IN ("#);
}

proof fn lemma_search_condition_free(q: FindByQuery)
    ensures
        all_and_free(one_if(q.search is Some, search_pieces(q.search->0@))),
{
    lemma_literal_lengths();
    lemma_search_and_free(q.search->0@);
    lemma_free_one_if(q.search is Some, search_pieces(q.search->0@));
}

proof fn lemma_release_date_condition_free(q: FindByQuery)
    ensures
        all_and_free(one_if(q.release_date is Some, compare_pieces(r#""m"."release_date" = "#@, SqlValueView::Date(q.release_date->0)))),
{
    lemma_literal_lengths();
    lemma_compare_and_free(r#""m"."release_date" = "#@, SqlValueView::Date(q.release_date->0));
    lemma_free_one_if(q.release_date is Some, compare_pieces(r#""m"."release_date" = "#@, SqlValueView::Date(q.release_date->0)));
}

proof fn lemma_min_release_date_condition_free(q: FindByQuery)
    ensures
        all_and_free(one_if(q.min_release_date is Some, compare_pieces(r#""m"."release_date" >= "#@, SqlValueView::Date(q.min_release_date->0)))),
{
    lemma_literal_lengths();
    lemma_compare_and_free(r#""m"."release_date" >= "#@, SqlValueView::Date(q.min_release_date->0));
    lemma_free_one_if(q.min_release_date is Some, compare_pieces(r#""m"."release_date" >= "#@, SqlValueView::Date(q.min_release_date->0)));
}

proof fn lemma_max_release_date_condition_free(q: FindByQuery)
    ensures
        all_and_free(one_if(q.max_release_date is Some, compare_pieces(r#""m"."release_date" <= "#@, SqlValueView::Date(q.max_release_date->0)))),
{
    lemma_literal_lengths();
    lemma_compare_and_free(r#""m"."release_date" <= "#@, SqlValueView::Date(q.max_release_date->0));
    lemma_free_one_if(q.max_release_date is Some, compare_pieces(r#""m"."release_date" <= "#@, SqlValueView::Date(q.max_release_date->0)));
}

proof fn lemma_parental_rating_condition_free(q: FindByQuery)
    ensures
        all_and_free(one_if(q.parental_rating is Some, compare_pieces(r#""m"."parental_rating" = "#@, SqlValueView::SmallInt(q.parental_rating->0 as i16)))),
{
    lemma_literal_lengths();
    lemma_compare_and_free(r#""m"."parental_rating" = "#@, SqlValueView::SmallInt(q.parental_rating->0 as i16));
    lemma_free_one_if(q.parental_rating is Some, compare_pieces(r#""m"."parental_rating" = "#@, SqlValueView::SmallInt(q.parental_rating->0 as i16)));
}

proof fn lemma_min_parental_rating_condition_free(q: FindByQuery)
    ensures
        all_and_free(one_if(q.min_parental_rating is Some, compare_pieces(r#""m"."parental_rating" >= "#@, SqlValueView::SmallInt(q.min_parental_rating->0 as i16)))),
{
    lemma_literal_lengths();
    lemma_compare_and_free(r#""m"."parental_rating" >= "#@, SqlValueView::SmallInt(q.min_parental_rating->0 as i16));
    lemma_free_one_if(q.min_parental_rating is Some, compare_pieces(r#""m"."parental_rating" >= "#@, SqlValueView::SmallInt(q.min_parental_rating->0 as i16)));
}

proof fn lemma_max_parental_rating_condition_free(q: FindByQuery)
    ensures
        all_and_free(one_if(q.max_parental_rating is Some, compare_pieces(r#""m"."parental_rating" <= "#@, SqlValueView::SmallInt(q.max_parental_rating->0 as i16)))),
{
    lemma_literal_lengths();
    lemma_compare_and_free(r#""m"."parental_rating" <= "#@, SqlValueView::SmallInt(q.max_parental_rating->0 as i16));
    lemma_free_one_if(q.max_parental_rating is Some, compare_pieces(r#""m"."parental_rating" <= "#@, SqlValueView::SmallInt(q.max_parental_rating->0 as i16)));
}

proof fn lemma_is_single_condition_free(q: FindByQuery)
    ensures
        all_and_free(one_if(q.is_single is Some, compare_pieces(r#""m"."is_single" = "#@, SqlValueView::Bool(q.is_single->0)))),
{
    lemma_literal_lengths();
    lemma_compare_and_free(r#""m"."is_single" = "#@, SqlValueView::Bool(q.is_single->0));
    lemma_free_one_if(q.is_single is Some, compare_pieces(r#""m"."is_single" = "#@, SqlValueView::Bool(q.is_single->0)));
}

proof fn lemma_media_type_condition_free(q: FindByQuery)
    ensures
        all_and_free(one_if(q.media_type is Some, compare_pieces(r#""m"."type" = "#@, SqlValueView::Text(q.media_type->0@)))),
{
    lemma_literal_lengths();
    lemma_compare_and_free(r#""m"."type" = "#@, SqlValueView::Text(q.media_type->0@));
    lemma_free_one_if(q.media_type is Some, compare_pieces(r#""m"."type" = "#@, SqlValueView::Text(q.media_type->0@)));
}

proof fn lemma_slug_condition_free(q: FindByQuery)
    ensures
        all_and_free(one_if(q.slug is Some, compare_pieces(r#""m"."slug" = "#@, SqlValueView::Text(slug_text(q.slug->0))))),
{
    lemma_literal_lengths();
    lemma_compare_and_free(r#""m"."slug" = "#@, SqlValueView::Text(slug_text(q.slug->0)));
    lemma_free_one_if(q.slug is Some, compare_pieces(r#""m"."slug" = "#@, SqlValueView::Text(slug_text(q.slug->0))));
}

proof fn lemma_artist_ids_condition_free(q: FindByQuery)
    ensures
        all_and_free(one_if(q.artist_ids is Some, in_subquery_pieces(r#""m"."id" IN (SELECT "mi"."media_id" FROM "media_interpreter" "mi" WHERE "mi"."interpreter_id" IN ("#@, q.artist_ids->0@))),
{
    lemma_literal_lengths();
    lemma_subquery_and_free(r#""m"."id" IN (SELECT "mi"."media_id" FROM "media_interpreter" "mi" WHERE "mi"."interpreter_id" IN ("#@, q.artist_ids->0@);
    lemma_free_one_if(q.artist_ids is Some, in_subquery_pieces(r#""m"."id" IN (SELECT "mi"."media_id" FROM "media_interpreter" "mi" WHERE "mi"."interpreter_id" IN ("#@, q.artist_ids->0@));
}

proof fn lemma_composer_ids_condition_free(q: FindByQuery)
    ensures
        all_and_free(one_if(q.composer_ids is Some, in_subquery_pieces(r#""m"."id" IN (SELECT "mc"."media_id" FROM "media_composer" "mc" WHERE "mc"."composer_id" IN ("#@, q.composer_ids->0@))),
{
    lemma_literal_lengths();
    lemma_subquery_and_free(r#""m"."id" IN (SELECT "mc"."media_id" FROM "media_composer" "mc" WHERE "mc"."composer_id" IN ("#@, q.composer_ids->0@);
    lemma_free_one_if(q.composer_ids is Some, in_subquery_pieces(r#""m"."id" IN (SELECT "mc"."media_id" FROM "media_composer" "mc" WHERE "mc"."composer_id" IN ("#@, q.composer_ids->0@));
}

proof fn lemma_genre_ids_condition_free(q: FindByQuery)
    ensures
        all_and_free(one_if(q.genre_ids is Some, in_subquery_pieces(r#""m"."id" IN (SELECT "mg"."media_id" FROM "media_genre" "mg" WHERE "mg"."genre_id" IN ("#@, q.genre_ids->0@))),
{
    lemma_literal_lengths();
    lemma_subquery_and_free(r#""m"."id" IN (SELECT "mg"."media_id" FROM "media_genre" "mg" WHERE "mg"."genre_id" IN ("#@, q.genre_ids->0@);
    lemma_free_one_if(q.genre_ids is Some, in_subquery_pieces(r#""m"."id" IN (SELECT "mg"."media_id" FROM "media_genre" "mg" WHERE "mg"."genre_id" IN ("#@, q.genre_ids->0@));
}

proof fn lemma_album_ids_condition_free(q: FindByQuery)
    ensures
        all_and_free(one_if(q.album_ids is Some, in_subquery_pieces(r#""m"."id" IN (SELECT "ma"."media_id" FROM "media_album" "ma" WHERE "ma"."album_id" IN ("#@, q.album_ids->0@))),
{
    lemma_literal_lengths();
    lemma_subquery_and_free(r#""m"."id" IN (SELECT "ma"."media_id" FROM "media_album" "ma" WHERE "ma"."album_id" IN ("#@, q.album_ids->0@);
    lemma_free_one_if(q.album_ids is Some, in_subquery_pieces(r#""m"."id" IN (SELECT "ma"."media_id" FROM "media_album" "ma" WHERE "ma"."album_id" IN ("#@, q.album_ids->0@));
}

/// The conditions of the filters hold no `AND` of their own.
proof fn lemma_conditions_and_free(q: FindByQuery)
    ensures
        all_and_free(media_conditions(q)),
{
    let s0: Seq<Seq<PieceView>> = Seq::empty();
    assert(all_and_free(s0)) by {
        reveal(all_and_free);
    }
    lemma_search_condition_free(q);
    lemma_free_concat(s0, one_if(q.search is Some, search_pieces(q.search->0@)));
    let s1 = s0 + one_if(q.search is Some, search_pieces(q.search->0@));
    lemma_release_date_condition_free(q);
    lemma_free_concat(s1, one_if(q.release_date is Some, compare_pieces(r#""m"."release_date" = "#@, SqlValueView::Date(q.release_date->0))));
    let s2 = s1 + one_if(q.release_date is Some, compare_pieces(r#""m"."release_date" = "#@, SqlValueView::Date(q.release_date->0)));
    lemma_min_release_date_condition_free(q);
    lemma_free_concat(s2, one_if(q.min_release_date is Some, compare_pieces(r#""m"."release_date" >= "#@, SqlValueView::Date(q.min_release_date->0))));
    let s3 = s2 + one_if(q.min_release_date is Some, compare_pieces(r#""m"."release_date" >= "#@, SqlValueView::Date(q.min_release_date->0)));
    lemma_max_release_date_condition_free(q);
    lemma_free_concat(s3, one_if(q.max_release_date is Some, compare_pieces(r#""m"."release_date" <= "#@, SqlValueView::Date(q.max_release_date->0))));
    let s4 = s3 + one_if(q.max_release_date is Some, compare_pieces(r#""m"."release_date" <= "#@, SqlValueView::Date(q.max_release_date->0)));
    lemma_parental_rating_condition_free(q);
    lemma_free_concat(s4, one_if(q.parental_rating is Some, compare_pieces(r#""m"."parental_rating" = "#@, SqlValueView::SmallInt(q.parental_rating->0 as i16))));
    let s5 = s4 + one_if(q.parental_rating is Some, compare_pieces(r#""m"."parental_rating" = "#@, SqlValueView::SmallInt(q.parental_rating->0 as i16)));
    lemma_min_parental_rating_condition_free(q);
    lemma_free_concat(s5, one_if(q.min_parental_rating is Some, compare_pieces(r#""m"."parental_rating" >= "#@, SqlValueView::SmallInt(q.min_parental_rating->0 as i16))));
    let s6 = s5 + one_if(q.min_parental_rating is Some, compare_pieces(r#""m"."parental_rating" >= "#@, SqlValueView::SmallInt(q.min_parental_rating->0 as i16)));
    lemma_max_parental_rating_condition_free(q);
    lemma_free_concat(s6, one_if(q.max_parental_rating is Some, compare_pieces(r#""m"."parental_rating" <= "#@, SqlValueView::SmallInt(q.max_parental_rating->0 as i16))));
    let s7 = s6 + one_if(q.max_parental_rating is Some, compare_pieces(r#""m"."parental_rating" <= "#@, SqlValueView::SmallInt(q.max_parental_rating->0 as i16)));
    lemma_is_single_condition_free(q);
    lemma_free_concat(s7, one_if(q.is_single is Some, compare_pieces(r#""m"."is_single" = "#@, SqlValueView::Bool(q.is_single->0))));
    let s8 = s7 + one_if(q.is_single is Some, compare_pieces(r#""m"."is_single" = "#@, SqlValueView::Bool(q.is_single->0)));
    lemma_media_type_condition_free(q);
    lemma_free_concat(s8, one_if(q.media_type is Some, compare_pieces(r#""m"."type" = "#@, SqlValueView::Text(q.media_type->0@))));
    let s9 = s8 + one_if(q.media_type is Some, compare_pieces(r#""m"."type" = "#@, SqlValueView::Text(q.media_type->0@)));
    lemma_slug_condition_free(q);
    lemma_free_concat(s9, one_if(q.slug is Some, compare_pieces(r#""m"."slug" = "#@, SqlValueView::Text(slug_text(q.slug->0)))));
    let s10 = s9 + one_if(q.slug is Some, compare_pieces(r#""m"."slug" = "#@, SqlValueView::Text(slug_text(q.slug->0))));
    lemma_artist_ids_condition_free(q);
    lemma_free_concat(s10, one_if(q.artist_ids is Some, in_subquery_pieces(r#""m"."id" IN (SELECT "mi"."media_id" FROM "media_interpreter" "mi" WHERE "mi"."interpreter_id" IN ("#@, q.artist_ids->0@)));
    let s11 = s10 + one_if(q.artist_ids is Some, in_subquery_pieces(r#""m"."id" IN (SELECT "mi"."media_id" FROM "media_interpreter" "mi" WHERE "mi"."interpreter_id" IN ("#@, q.artist_ids->0@));
    lemma_composer_ids_condition_free(q);
    lemma_free_concat(s11, one_if(q.composer_ids is Some, in_subquery_pieces(r#""m"."id" IN (SELECT "mc"."media_id" FROM "media_composer" "mc" WHERE "mc"."composer_id" IN ("#@, q.composer_ids->0@)));
    let s12 = s11 + one_if(q.composer_ids is Some, in_subquery_pieces(r#""m"."id" IN (SELECT "mc"."media_id" FROM "media_composer" "mc" WHERE "mc"."composer_id" IN ("#@, q.composer_ids->0@));
    lemma_genre_ids_condition_free(q);
    lemma_free_concat(s12, one_if(q.genre_ids is Some, in_subquery_pieces(r#""m"."id" IN (SELECT "mg"."media_id" FROM "media_genre" "mg" WHERE "mg"."genre_id" IN ("#@, q.genre_ids->0@)));
    let s13 = s12 + one_if(q.genre_ids is Some, in_subquery_pieces(r#""m"."id" IN (SELECT "mg"."media_id" FROM "media_genre" "mg" WHERE "mg"."genre_id" IN ("#@, q.genre_ids->0@));
    lemma_album_ids_condition_free(q);
    lemma_free_concat(s13, one_if(q.album_ids is Some, in_subquery_pieces(r#""m"."id" IN (SELECT "ma"."media_id" FROM "media_album" "ma" WHERE "ma"."album_id" IN ("#@, q.album_ids->0@)));
    let s14 = s13 + one_if(q.album_ids is Some, in_subquery_pieces(r#""m"."id" IN (SELECT "ma"."media_id" FROM "media_album" "ma" WHERE "ma"."album_id" IN ("#@, q.album_ids->0@));
    assert(media_conditions(q) == s14);
}

proof fn lemma_conditions_count(q: FindByQuery)
    ensures
        media_conditions(q).len() == given_filters(q),
{
}

/// A media listing's `WHERE` part holds one condition for each filter that
/// it gives, and no other: with `k` filters given there are `k - 1` `AND`s
/// joining them after the `WHERE`, and with none there is no `WHERE` part.
pub proof fn one_condition_per_given_filter(q: FindByQuery)
    ensures
        given_filters(q) == 0 <==> filter_pieces(q).len() == 0,
        given_filters(q) > 0 ==> filter_pieces(q)[0] == PieceView::Sql(" WHERE "@)
            && and_count(filter_pieces(q)) + 1 == given_filters(q),
{
    let conds = media_conditions(q);
    lemma_conditions_count(q);
    lemma_conditions_and_free(q);
    reveal(all_and_free);
    assert(forall|i: int| 0 <= i < conds.len() ==> and_count(#[trigger] conds[i]) == 0);
    lemma_joined_and_count(conds);
    if conds.len() > 0 {
        reveal_strlit(" AND ");
        reveal_strlit(" WHERE ");
        assert(" AND "@.len() == 5);
        assert(" WHERE "@.len() == 7);
        let w: Seq<PieceView> = seq![PieceView::Sql(" WHERE "@)];
        lemma_and_free(w);
        lemma_and_count_concat(w, joined(conds));
        assert(filter_pieces(q).len() > 0) by {
            lemma_joined_holds(conds, 0);
        }
    }
}

/// The count and the page of a media listing read the same `WHERE` part: the
/// count query is the count of the media table, named `m` as the filters
/// name it, then the filters; the page query is the columns of the media,
/// then the filters, then `LIMIT` the page size and `OFFSET` the items of the
/// pages before the one asked for (page 0 read as the first page).
pub proof fn count_and_page_read_the_same_filters(q: FindByQuery)
    ensures
        count_query_pieces(q)[0] == PieceView::Sql(r#"SELECT COUNT("m"."id") FROM "media" "m""#@),
        count_query_pieces(q).subrange(1, count_query_pieces(q).len() as int) == filter_pieces(q),
        ({
            let s = page_query_pieces(q);
            let n = s.len() as int;
            &&& n >= 5
            &&& s[0] == PieceView::Sql(SELECT_SQL@)
            &&& s.subrange(1, n - 4) == filter_pieces(q)
            &&& s[n - 4] == PieceView::Sql(" LIMIT "@)
            &&& s[n - 3] == PieceView::Bind(SqlValueView::BigInt(q.page.per_page as i64))
            &&& s[n - 2] == PieceView::Sql(" OFFSET "@)
            &&& q.page.page >= 1 ==> s[n - 1] == PieceView::Bind(
                SqlValueView::BigInt(((q.page.page - 1) * q.page.per_page) as i64),
            )
            &&& q.page.page == 0 ==> s[n - 1] == PieceView::Bind(SqlValueView::BigInt(0))
        }),
{
    let c = count_query_pieces(q);
    assert(c.subrange(1, c.len() as int) =~= filter_pieces(q));
    let s = page_query_pieces(q);
    let n = s.len() as int;
    assert(s.subrange(1, n - 4) =~= filter_pieces(q));
}

} // verus!
