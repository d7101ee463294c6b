//! Filtered listing. Every user-supplied value becomes a bind parameter of the
//! query; this module decides which filters apply and what is bound.
use vstd::prelude::*;

use super::domain::{RequirementKind, RequirementStatus};
use super::dto::ListRequirementsQuery;
use crate::ids::CustomerId;
use crate::text::{chars_of, concat3, push_char, to_ascii_upper, to_ascii_uppercase};

verus! {

/// The escaped form of one character inside a LIKE pattern with `ESCAPE '\'`.
pub open spec fn escape_char(c: char) -> Seq<char> {
    if c == '\\' || c == '%' || c == '_' {
        seq!['\\', c]
    } else {
        seq![c]
    }
}

/// `s` with every `\`, `%` and `_` preceded by a backslash.
pub open spec fn spec_escape_like(s: Seq<char>) -> Seq<char>
    decreases s.len(),
{
    if s.len() == 0 {
        Seq::empty()
    } else {
        escape_char(s[0]) + spec_escape_like(s.drop_first())
    }
}

/// The text a LIKE pattern (with `ESCAPE '\'`) matches when it holds no
/// wildcard: `None` when the pattern has an unescaped `%` or `_`, or ends in a
/// lone backslash.
pub open spec fn like_literal(t: Seq<char>) -> Option<Seq<char>>
    decreases t.len(),
{
    if t.len() == 0 {
        Some(Seq::empty())
    } else if t[0] == '\\' {
        if t.len() < 2 {
            None
        } else {
            match like_literal(t.skip(2)) {
                Some(rest) => Some(seq![t[1]] + rest),
                None => None,
            }
        }
    } else if t[0] == '%' || t[0] == '_' {
        None
    } else {
        match like_literal(t.skip(1)) {
            Some(rest) => Some(seq![t[0]] + rest),
            None => None,
        }
    }
}

proof fn lemma_escape_push(s: Seq<char>, c: char)
    ensures
        spec_escape_like(s.push(c)) == spec_escape_like(s) + escape_char(c),
    decreases s.len(),
{
    if s.len() == 0 {
        assert(s.push(c).drop_first() =~= Seq::<char>::empty());
        assert(spec_escape_like(Seq::<char>::empty()) == Seq::<char>::empty());
        assert(spec_escape_like(s.push(c)) =~= escape_char(c));
    } else {
        lemma_escape_push(s.drop_first(), c);
        assert(s.push(c).drop_first() =~= s.drop_first().push(c));
        assert(spec_escape_like(s.push(c)) =~= spec_escape_like(s) + escape_char(c));
    }
}

/// An escaped pattern matches exactly the text it was made from.
pub proof fn escaped_pattern_matches_literally(s: Seq<char>)
    ensures
        like_literal(spec_escape_like(s)) == Some(s),
    decreases s.len(),
{
    if s.len() > 0 {
        escaped_pattern_matches_literally(s.drop_first());
        let rest = spec_escape_like(s.drop_first());
        let t = spec_escape_like(s);
        assert(t == escape_char(s[0]) + rest);
        if s[0] == '\\' || s[0] == '%' || s[0] == '_' {
            assert(t.skip(2) =~= rest);
            assert(t[0] == '\\');
            assert(t[1] == s[0]);
        } else {
            assert(t.skip(1) =~= rest);
            assert(t[0] == s[0]);
        }
        assert(s =~= seq![s[0]] + s.drop_first());
    } else {
        assert(spec_escape_like(s) == Seq::<char>::empty());
    }
}

/// Escapes LIKE wildcards so user input matches literally.
pub fn escape_like(input: &str) -> (r: String)
    ensures
        r@ == spec_escape_like(input@),
        like_literal(r@) == Some(input@),
{
    let v = chars_of(input);
    let mut r = String::new();
    let mut i: usize = 0;
    assert(spec_escape_like(v@.subrange(0, 0)) == Seq::<char>::empty()) by {
        assert(v@.subrange(0, 0).len() == 0);
    }
    while i < v.len()
        invariant
            i <= v.len(),
            v@ == input@,
            r@ == spec_escape_like(v@.subrange(0, i as int)),
        decreases v.len() - i,
    {
        let c = v[i];
        proof {
            lemma_escape_push(v@.subrange(0, i as int), c);
            assert(v@.subrange(0, i as int).push(c) =~= v@.subrange(0, i + 1));
        }
        if c == '\\' || c == '%' || c == '_' {
            push_char(&mut r, '\\');
            push_char(&mut r, c);
            assert(r@ =~= spec_escape_like(v@.subrange(0, i as int)) + escape_char(c));
        } else {
            push_char(&mut r, c);
            assert(r@ =~= spec_escape_like(v@.subrange(0, i as int)) + escape_char(c));
        }
        i += 1;
    }
    assert(v@.subrange(0, v@.len() as int) =~= v@);
    proof {
        escaped_pattern_matches_literally(input@);
    }
    r
}

/// One condition of the listing query, with the value it binds.
pub enum FilterClause {
    /// `r.customer_id = $` (the `.own` scope).
    CustomerIs(CustomerId),
    /// `r.status = $`.
    StatusIs(RequirementStatus),
    /// `r.kind = $`.
    KindIs(RequirementKind),
    /// `r.destination_country = $` (upper-cased country code).
    DestinationCountryIs(String),
    /// `r.created_at >= $`.
    CreatedFrom(i64),
    /// `r.created_at < $`.
    CreatedBefore(i64),
    /// `r.title ILIKE $ ESCAPE '\'`.
    TitleLike(String),
}

/// The shape of a clause, without its text values.
#[derive(Debug, Clone, Copy, PartialEq, Eq, Structural)]
pub enum ClauseShape {
    CustomerIs(CustomerId),
    StatusIs(RequirementStatus),
    KindIs(RequirementKind),
    DestinationCountryIs,
    CreatedFrom(i64),
    CreatedBefore(i64),
    TitleLike,
}

impl FilterClause {
    pub open spec fn shape(self) -> ClauseShape {
        match self {
            FilterClause::CustomerIs(id) => ClauseShape::CustomerIs(id),
            FilterClause::StatusIs(s) => ClauseShape::StatusIs(s),
            FilterClause::KindIs(k) => ClauseShape::KindIs(k),
            FilterClause::DestinationCountryIs(_) => ClauseShape::DestinationCountryIs,
            FilterClause::CreatedFrom(t) => ClauseShape::CreatedFrom(t),
            FilterClause::CreatedBefore(t) => ClauseShape::CreatedBefore(t),
            FilterClause::TitleLike(_) => ClauseShape::TitleLike,
        }
    }
}

/// The shapes of `clauses`, in order.
pub open spec fn shapes_of(clauses: Seq<FilterClause>) -> Seq<ClauseShape> {
    clauses.map_values(|c: FilterClause| c.shape())
}

/// The clauses, in order: the customer scope, then each filter that is set.
pub open spec fn spec_clause_shapes(customer: Option<CustomerId>, filter: ListRequirementsQuery) -> Seq<
    ClauseShape,
> {
    let s0: Seq<ClauseShape> = match customer {
        Some(c) => seq![ClauseShape::CustomerIs(c)],
        None => Seq::empty(),
    };
    let s1 = match filter.status {
        Some(x) => s0.push(ClauseShape::StatusIs(x)),
        None => s0,
    };
    let s2 = match filter.kind {
        Some(x) => s1.push(ClauseShape::KindIs(x)),
        None => s1,
    };
    let s3 = match filter.destination_country {
        Some(_) => s2.push(ClauseShape::DestinationCountryIs),
        None => s2,
    };
    let s4 = match filter.created_from {
        Some(t) => s3.push(ClauseShape::CreatedFrom(t)),
        None => s3,
    };
    let s5 = match filter.created_to {
        Some(t) => s4.push(ClauseShape::CreatedBefore(t)),
        None => s4,
    };
    match filter.search {
        Some(_) => s5.push(ClauseShape::TitleLike),
        None => s5,
    }
}

/// The values bound by the text clauses: the upper-cased country code and the
/// escaped title pattern wrapped in `%`.
pub open spec fn clause_text_ok(c: FilterClause, filter: ListRequirementsQuery) -> bool {
    match c {
        FilterClause::DestinationCountryIs(v) => filter.destination_country matches Some(country)
            && v@ == to_ascii_upper(country@),
        FilterClause::TitleLike(v) => filter.search matches Some(search) && v@ == "%"@
            + spec_escape_like(search@) + "%"@,
        _ => true,
    }
}

/// Every filter that is set yields its clause, and nothing else is added: the
/// listing is restricted to the customer when one is given, and to the
/// status, kind, destination country, creation window and title search that
/// the query sets, one clause each.
pub proof fn listing_filters_follow_the_query(
    customer: Option<CustomerId>,
    filter: ListRequirementsQuery,
)
    ensures
        ({
            let shapes = spec_clause_shapes(customer, filter);
            &&& shapes.len() == (if customer is Some { 1nat } else { 0nat }) + (if filter.status is Some {
                1nat
            } else {
                0nat
            }) + (if filter.kind is Some { 1nat } else { 0nat }) + (if filter.destination_country is Some {
                1nat
            } else {
                0nat
            }) + (if filter.created_from is Some { 1nat } else { 0nat }) + (if filter.created_to is Some {
                1nat
            } else {
                0nat
            }) + (if filter.search is Some { 1nat } else { 0nat })
            &&& forall|c: CustomerId|
                shapes.contains(ClauseShape::CustomerIs(c)) <==> customer == Some(c)
            &&& forall|s: RequirementStatus|
                shapes.contains(ClauseShape::StatusIs(s)) <==> filter.status == Some(s)
            &&& forall|k: RequirementKind|
                shapes.contains(ClauseShape::KindIs(k)) <==> filter.kind == Some(k)
            &&& shapes.contains(ClauseShape::DestinationCountryIs) <==> filter.destination_country is Some
            &&& forall|t: i64|
                shapes.contains(ClauseShape::CreatedFrom(t)) <==> filter.created_from == Some(t)
            &&& forall|t: i64|
                shapes.contains(ClauseShape::CreatedBefore(t)) <==> filter.created_to == Some(t)
            &&& shapes.contains(ClauseShape::TitleLike) <==> filter.search is Some
        }),
{
    broadcast use vstd::seq_lib::group_seq_properties;

}

fn push_clause(out: &mut Vec<FilterClause>, c: FilterClause, Ghost(filter): Ghost<ListRequirementsQuery>)
    requires
        clause_text_ok(c, filter),
        forall|i: int| 0 <= i < old(out)@.len() ==> clause_text_ok(#[trigger] old(out)@[i], filter),
    ensures
        shapes_of(final(out)@) == shapes_of(old(out)@).push(c.shape()),
        forall|i: int| 0 <= i < final(out)@.len() ==> clause_text_ok(#[trigger] final(out)@[i], filter),
{
    out.push(c);
    assert(shapes_of(out@) =~= shapes_of(old(out)@).push(c.shape()));
}

/// The conditions that restrict the listing; `customer = Some(..)` restricts
/// results to that customer (the `.own` scope).
#[verifier::rlimit(30)]
pub fn push_filters(customer: Option<CustomerId>, filter: &ListRequirementsQuery) -> (r: Vec<
    FilterClause,
>)
    ensures
        shapes_of(r@) == spec_clause_shapes(customer, *filter),
        forall|i: int| 0 <= i < r@.len() ==> clause_text_ok(#[trigger] r@[i], *filter),
{
    let mut out: Vec<FilterClause> = Vec::new();
    assert(shapes_of(out@) =~= Seq::<ClauseShape>::empty());
    if let Some(customer_id) = customer {
        push_clause(&mut out, FilterClause::CustomerIs(customer_id), Ghost(*filter));
        assert(shapes_of(out@) =~= seq![ClauseShape::CustomerIs(customer_id)]);
    }
    if let Some(status) = filter.status {
        push_clause(&mut out, FilterClause::StatusIs(status), Ghost(*filter));
    }
    if let Some(kind) = filter.kind {
        push_clause(&mut out, FilterClause::KindIs(kind), Ghost(*filter));
    }
    if let Some(country) = &filter.destination_country {
        let upper = to_ascii_uppercase(country.as_str());
        push_clause(&mut out, FilterClause::DestinationCountryIs(upper), Ghost(*filter));
    }
    if let Some(from) = filter.created_from {
        push_clause(&mut out, FilterClause::CreatedFrom(from), Ghost(*filter));
    }
    if let Some(to) = filter.created_to {
        push_clause(&mut out, FilterClause::CreatedBefore(to), Ghost(*filter));
    }
    if let Some(search) = &filter.search {
        let escaped = escape_like(search.as_str());
        let pattern = concat3("%", escaped.as_str(), "%");
        push_clause(&mut out, FilterClause::TitleLike(pattern), Ghost(*filter));
    }
    out
}

} // verus!
