//! The two endpoints: shortening a URL and redirecting by identifier.
//!
//! Each endpoint is split at its storage access, so that a server backed by
//! any store runs the same decisions: `plan_shorten`, then an insert, then
//! `finish_shorten`; a lookup, then `fold_lookup` and `redirect_reply`.
//! `shorten` and `redirect` run the whole flow against a `LinkTable`.
use crate::ident::{generate_short_id, is_short_id};
use crate::reply::{Reply, ReplyView};
use crate::table::{stored_url, LinkTable, ShortLink};
use vstd::prelude::*;
use vstd::string::StringExecFns;

verus! {

/// Whether `url::Url::parse` accepts the text as an absolute URL.
pub uninterp spec fn parses_as_url(s: Seq<char>) -> bool;

/// Relies on `url::Url::parse`: succeeds exactly on the texts it accepts.
#[verifier::external_body]
fn url_parses(s: &str) -> (r: bool)
    ensures
        r == parses_as_url(s@),
{
    url::Url::parse(s).is_ok()
}

/// A failed storage access, whatever its cause.
#[derive(PartialEq, Eq, Structural, Clone, Copy, Debug)]
pub struct StoreError;

/// The public link for `id`: the base, a slash, the identifier.
pub open spec fn short_url_of(base: Seq<char>, id: Seq<char>) -> Seq<char> {
    base + seq!['/'] + id
}

/// The identifier at the end of a public link made from `base`.
pub open spec fn id_of_short_url(base: Seq<char>, short_url: Seq<char>) -> Seq<char> {
    short_url.skip(base.len() + 1 as int)
}

/// The reply to a redirect request, given what the store holds for it.
pub open spec fn redirect_view(stored: Option<Seq<char>>) -> ReplyView {
    match stored {
        Some(u) => ReplyView::Redirect(u),
        None => ReplyView::NotFound,
    }
}

/// Table and reply after shortening `u` with the identifier `id`.
pub open spec fn shorten_step(
    t: Map<Seq<char>, Seq<char>>,
    base: Seq<char>,
    u: Seq<char>,
    id: Seq<char>,
) -> (Map<Seq<char>, Seq<char>>, ReplyView) {
    if !parses_as_url(u) {
        (t, ReplyView::InvalidUrl)
    } else if t.contains_key(id) {
        (t, ReplyView::ShortenFailed)
    } else {
        (t.insert(id, u), ReplyView::Created(short_url_of(base, id)))
    }
}

/// What holds after shortening `u` from table `t0`, whichever identifier was
/// drawn: `t1` and `r` are `shorten_step` for some identifier of the
/// generator's shape, and a created link names that identifier.
pub open spec fn shorten_outcome(
    t0: Map<Seq<char>, Seq<char>>,
    base: Seq<char>,
    u: Seq<char>,
    r: ReplyView,
    t1: Map<Seq<char>, Seq<char>>,
) -> bool {
    if !parses_as_url(u) {
        r == ReplyView::InvalidUrl && t1 == t0
    } else {
        match r {
            ReplyView::Created(s) => {
                let id = id_of_short_url(base, s);
                &&& is_short_id(id)
                &&& s == short_url_of(base, id)
                &&& (t1, r) == shorten_step(t0, base, u, id)
            },
            ReplyView::ShortenFailed => {
                &&& t1 == t0
                &&& exists|id: Seq<char>| is_short_id(id) && #[trigger] t0.contains_key(id)
            },
            _ => false,
        }
    }
}

/// Every stored identifier has the generator's shape.
pub open spec fn ids_shaped(t: Map<Seq<char>, Seq<char>>) -> bool {
    forall|k: Seq<char>| #[trigger] t.contains_key(k) ==> is_short_id(k)
}

/// Folds a failed lookup into "not found".
pub fn fold_lookup(outcome: Result<Option<String>, StoreError>) -> (r: Option<String>)
    ensures
        r == match outcome {
            Ok(found) => found,
            Err(_) => None,
        },
{
    match outcome {
        Ok(found) => found,
        Err(_) => None,
    }
}

/// The reply to a redirect request: 302 to the stored URL, or 404.
pub fn redirect_reply(stored: Option<String>) -> (r: Reply)
    ensures
        r@ == redirect_view(
            match stored {
                Some(u) => Some(u@),
                None => None,
            },
        ),
{
    match stored {
        Some(location) => Reply::Redirect { location },
        None => Reply::NotFound,
    }
}

/// Validates `url` and pairs it with `id`; a text that is no URL gives the
/// 400 reply.
pub fn plan_shorten_with_id(url: &str, id: String) -> (r: Result<ShortLink, Reply>)
    ensures
        match r {
            Ok(link) => parses_as_url(url@) && link.id == id && link.url@ == url@,
            Err(reply) => !parses_as_url(url@) && reply@ == ReplyView::InvalidUrl,
        },
{
    if !url_parses(url) {
        return Err(Reply::InvalidUrl);
    }
    Ok(ShortLink { id, url: String::from_str(url) })
}

/// Validates `url` and, where it is a URL, draws a fresh identifier for it.
pub fn plan_shorten(url: &str) -> (r: Result<ShortLink, Reply>)
    ensures
        match r {
            Ok(link) => parses_as_url(url@) && is_short_id(link.id@) && link.url@ == url@,
            Err(reply) => !parses_as_url(url@) && reply@ == ReplyView::InvalidUrl,
        },
{
    if !url_parses(url) {
        return Err(Reply::InvalidUrl);
    }
    Ok(ShortLink { id: generate_short_id(), url: String::from_str(url) })
}

/// The reply once the store has answered the insert of `link`: 200 with the
/// public link, or 500 whatever the failure was.
pub fn finish_shorten(base: &str, link: &ShortLink, inserted: bool) -> (r: Reply)
    ensures
        r@ == if inserted {
            ReplyView::Created(short_url_of(base@, link.id@))
        } else {
            ReplyView::ShortenFailed
        },
{
    if inserted {
        let mut short_url = String::from_str(base);
        short_url.append("/");
        short_url.append(link.id.as_str());
        proof {
            reveal_strlit("/");
            assert("/"@ =~= seq!['/']);
            assert(short_url@ =~= short_url_of(base@, link.id@));
        }
        Reply::Created { short_url }
    } else {
        Reply::ShortenFailed
    }
}

/// Inserts a planned link into `table` and answers accordingly.
fn store_link(table: &mut LinkTable, base: &str, link: ShortLink) -> (r: Reply)
    requires
        old(table).wf(),
    ensures
        final(table).wf(),
        final(table)@.dom().finite(),
        (final(table)@, r@) == (if old(table)@.contains_key(link.id@) {
            (old(table)@, ReplyView::ShortenFailed)
        } else {
            (
                old(table)@.insert(link.id@, link.url@),
                ReplyView::Created(short_url_of(base@, link.id@)),
            )
        }),
{
    let inserted = table.insert(link.id.as_str(), link.url.as_str());
    finish_shorten(base, &link, inserted)
}

/// Shortens `url` into `table` under the identifier `id`.
pub fn shorten_with_id(table: &mut LinkTable, base: &str, url: &str, id: String) -> (r: Reply)
    requires
        old(table).wf(),
    ensures
        final(table).wf(),
        final(table)@.dom().finite(),
        (final(table)@, r@) == shorten_step(old(table)@, base@, url@, id@),
{
    proof {
        table.lemma_view_finite();
    }
    match plan_shorten_with_id(url, id) {
        Err(reply) => reply,
        Ok(link) => store_link(table, base, link),
    }
}

/// Shortens `url` into `table` under a freshly drawn identifier. A text that
/// is no URL gives 400 and writes nothing; an identifier already taken gives
/// 500 and writes nothing, with no second draw.
pub fn shorten(table: &mut LinkTable, base: &str, url: &str) -> (r: Reply)
    requires
        old(table).wf(),
    ensures
        final(table).wf(),
        final(table)@.dom().finite(),
        shorten_outcome(old(table)@, base@, url@, r@, final(table)@),
        !parses_as_url(url@) ==> r@ == ReplyView::InvalidUrl && final(table)@ == old(table)@,
{
    proof {
        table.lemma_view_finite();
    }
    match plan_shorten(url) {
        Err(reply) => reply,
        Ok(link) => {
            let ghost id_v = link.id@;
            let r = store_link(table, base, link);
            proof {
                let bu = base@ + seq!['/'];
                assert((bu + id_v).skip(base@.len() + 1 as int) =~= id_v);
            }
            r
        },
    }
}

/// Looks `id` up in `table`: 302 to the stored URL, or 404.
pub fn redirect(table: &LinkTable, id: &str) -> (r: Reply)
    requires
        table.wf(),
    ensures
        r@ == redirect_view(stored_url(table@, id@)),
{
    redirect_reply(table.lookup(id))
}

} // verus!
