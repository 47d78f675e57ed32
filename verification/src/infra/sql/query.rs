use vstd::prelude::*;
use crate::shared::vo::Date;

verus! {

/// A value bound to a query parameter.
#[derive(Debug, PartialEq, Eq)]
pub enum SqlValue {
    Text(String),
    Uuid(String),
    Date(Date),
    SmallInt(i16),
    BigInt(i64),
    Bool(bool),
}

/// A bound value as a value.
pub enum SqlValueView {
    Text(Seq<char>),
    Uuid(Seq<char>),
    Date(Date),
    SmallInt(i16),
    BigInt(i64),
    Bool(bool),
}

impl View for SqlValue {
    type V = SqlValueView;

    open spec fn view(&self) -> SqlValueView {
        match self {
            SqlValue::Text(s) => SqlValueView::Text(s@),
            SqlValue::Uuid(s) => SqlValueView::Uuid(s@),
            SqlValue::Date(d) => SqlValueView::Date(*d),
            SqlValue::SmallInt(v) => SqlValueView::SmallInt(*v),
            SqlValue::BigInt(v) => SqlValueView::BigInt(*v),
            SqlValue::Bool(v) => SqlValueView::Bool(*v),
        }
    }
}

/// One step of building a query: a piece of SQL text, or a value bound to the
/// next parameter placeholder.
#[derive(Debug, PartialEq, Eq)]
pub enum QueryPiece {
    Sql(&'static str),
    Bind(SqlValue),
}

/// A step of building a query as a value.
pub enum PieceView {
    Sql(Seq<char>),
    Bind(SqlValueView),
}

impl View for QueryPiece {
    type V = PieceView;

    open spec fn view(&self) -> PieceView {
        match self {
            QueryPiece::Sql(s) => PieceView::Sql(s@),
            QueryPiece::Bind(v) => PieceView::Bind(v@),
        }
    }
}

/// The steps of building a query, in order.
pub open spec fn pieces_view(pieces: Seq<QueryPiece>) -> Seq<PieceView> {
    pieces.map_values(|p: QueryPiece| p@)
}

/// Appends a piece of SQL text.
pub fn push_sql(pieces: &mut Vec<QueryPiece>, sql: &'static str)
    ensures
        pieces_view(final(pieces)@) == pieces_view(old(pieces)@).push(PieceView::Sql(sql@)),
{
    pieces.push(QueryPiece::Sql(sql));
    assert(pieces_view(pieces@) =~= pieces_view(old(pieces)@).push(PieceView::Sql(sql@)));
}

/// Appends a bound value.
pub fn push_bind(pieces: &mut Vec<QueryPiece>, value: SqlValue)
    ensures
        pieces_view(final(pieces)@) == pieces_view(old(pieces)@).push(PieceView::Bind(value@)),
{
    let ghost v = value@;
    pieces.push(QueryPiece::Bind(value));
    assert(pieces_view(pieces@) =~= pieces_view(old(pieces)@).push(PieceView::Bind(v)));
}

/// Appends the steps of `more`.
pub fn append_pieces(pieces: &mut Vec<QueryPiece>, more: Vec<QueryPiece>)
    ensures
        pieces_view(final(pieces)@) == pieces_view(old(pieces)@) + pieces_view(more@),
{
    let mut more = more;
    let ghost m = more@;
    pieces.append(&mut more);
    assert(pieces_view(pieces@) =~= pieces_view(old(pieces)@) + pieces_view(m));
}

} // verus!
