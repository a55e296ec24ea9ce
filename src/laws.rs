//! Laws that relate shortening and redirecting.
use crate::ident::is_short_id;
use crate::reply::ReplyView;
use crate::service::{
    id_of_short_url, ids_shaped, parses_as_url, redirect_view, shorten_outcome,
};
use crate::table::stored_url;
use vstd::prelude::*;

verus! {

/// Shortening a valid URL and then redirecting by the identifier in the
/// returned link redirects to that URL, exactly as it was given.
pub proof fn lemma_shorten_then_redirect(
    t0: Map<Seq<char>, Seq<char>>,
    base: Seq<char>,
    u: Seq<char>,
    r: ReplyView,
    t1: Map<Seq<char>, Seq<char>>,
)
    requires
        parses_as_url(u),
        shorten_outcome(t0, base, u, r, t1),
        r is Created,
    ensures
        redirect_view(stored_url(t1, id_of_short_url(base, r->Created_0))) == ReplyView::Redirect(u),
{
}

/// Shortening a text that is no URL answers 400 and leaves the table as it was.
pub proof fn lemma_invalid_url_writes_nothing(
    t0: Map<Seq<char>, Seq<char>>,
    base: Seq<char>,
    s: Seq<char>,
    r: ReplyView,
    t1: Map<Seq<char>, Seq<char>>,
)
    requires
        !parses_as_url(s),
        shorten_outcome(t0, base, s, r, t1),
    ensures
        r == ReplyView::InvalidUrl,
        t1 == t0,
{
}

/// Shortening only ever stores identifiers of the generator's shape.
pub proof fn lemma_shorten_keeps_ids_shaped(
    t0: Map<Seq<char>, Seq<char>>,
    base: Seq<char>,
    u: Seq<char>,
    r: ReplyView,
    t1: Map<Seq<char>, Seq<char>>,
)
    requires
        ids_shaped(t0),
        shorten_outcome(t0, base, u, r, t1),
    ensures
        ids_shaped(t1),
{
}

/// In a table filled by shortening, an identifier that the generator could
/// not have produced, or did not produce for this table, is not found.
pub proof fn lemma_unissued_id_not_found(t: Map<Seq<char>, Seq<char>>, id: Seq<char>)
    requires
        ids_shaped(t),
        !is_short_id(id) || !t.contains_key(id),
    ensures
        redirect_view(stored_url(t, id)) == ReplyView::NotFound,
{
}

/// Shortening the same URL twice, successfully, stores two rows under two
/// distinct identifiers, both for that URL: nothing is merged by URL.
pub proof fn lemma_repeat_shorten_two_rows(
    t0: Map<Seq<char>, Seq<char>>,
    base: Seq<char>,
    u: Seq<char>,
    r1: ReplyView,
    t1: Map<Seq<char>, Seq<char>>,
    r2: ReplyView,
    t2: Map<Seq<char>, Seq<char>>,
)
    requires
        t0.dom().finite(),
        shorten_outcome(t0, base, u, r1, t1),
        shorten_outcome(t1, base, u, r2, t2),
        r1 is Created,
        r2 is Created,
    ensures
        ({
            let id1 = id_of_short_url(base, r1->Created_0);
            let id2 = id_of_short_url(base, r2->Created_0);
            &&& id1 != id2
            &&& !t0.contains_key(id1) && !t0.contains_key(id2)
            &&& t2 == t0.insert(id1, u).insert(id2, u)
            &&& t2.len() == t0.len() + 2
        }),
{
    let id1 = id_of_short_url(base, r1->Created_0);
    let id2 = id_of_short_url(base, r2->Created_0);
    assert(t1.contains_key(id1));
    assert(t1.len() == t0.len() + 1);
}

} // verus!
