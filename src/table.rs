//! The mapping from short identifier to target URL, with the identifier as
//! primary key: an insert under a taken identifier fails and changes nothing.
use vstd::prelude::*;
use vstd::string::StringExecFns;

verus! {

/// One row: a short identifier and the URL it stands for.
pub struct ShortLink {
    pub id: String,
    pub url: String,
}

/// The stored URL for `id`, if any.
pub open spec fn stored_url(t: Map<Seq<char>, Seq<char>>, id: Seq<char>) -> Option<Seq<char>> {
    if t.contains_key(id) {
        Some(t[id])
    } else {
        None
    }
}

/// The rows of the table, at most one per identifier.
pub struct LinkTable {
    rows: Vec<ShortLink>,
    contents: Ghost<Map<Seq<char>, Seq<char>>>,
}

impl View for LinkTable {
    type V = Map<Seq<char>, Seq<char>>;

    closed spec fn view(&self) -> Map<Seq<char>, Seq<char>> {
        self.contents@
    }
}

impl LinkTable {
    /// The rows hold distinct identifiers, and together they are the view.
    pub closed spec fn wf(&self) -> bool {
        &&& self.contents@.dom().finite()
        &&& forall|i: int, j: int|
            0 <= i < j < self.rows@.len() ==> #[trigger] self.rows@[i].id@
                != #[trigger] self.rows@[j].id@
        &&& forall|i: int|
            0 <= i < self.rows@.len() ==> #[trigger] self.contents@.contains_key(self.rows@[i].id@)
                && self.contents@[self.rows@[i].id@] == self.rows@[i].url@
        &&& forall|k: Seq<char>|
            #[trigger] self.contents@.contains_key(k) ==> exists|i: int|
                0 <= i < self.rows@.len() && #[trigger] self.rows@[i].id@ == k
        &&& self.contents@.len() == self.rows@.len()
    }

    /// A well-formed table holds finitely many rows.
    pub proof fn lemma_view_finite(&self)
        requires
            self.wf(),
        ensures
            self@.dom().finite(),
    {
    }

    /// An empty table.
    pub fn new() -> (r: LinkTable)
        ensures
            r.wf(),
            r@ == Map::<Seq<char>, Seq<char>>::empty(),
            r@.dom().finite(),
    {
        LinkTable { rows: Vec::new(), contents: Ghost(Map::empty()) }
    }

    /// The number of rows.
    pub fn len(&self) -> (r: usize)
        requires
            self.wf(),
        ensures
            r == self@.len(),
    {
        self.rows.len()
    }

    /// The position of the row with identifier `id`, if there is one.
    fn position(&self, id: &str) -> (r: Option<usize>)
        requires
            self.wf(),
        ensures
            match r {
                Some(i) => i < self.rows@.len() && self.rows@[i as int].id@ == id@,
                None => !self@.contains_key(id@),
            },
    {
        let key = String::from_str(id);
        let mut i: usize = 0;
        while i < self.rows.len()
            invariant
                self.wf(),
                key@ == id@,
                i <= self.rows@.len(),
                forall|j: int| 0 <= j < i ==> #[trigger] self.rows@[j].id@ != id@,
            decreases self.rows@.len() - i,
        {
            if self.rows[i].id == key {
                return Some(i);
            }
            i = i + 1;
        }
        None
    }

    /// The URL stored under `id`, or `None` where no row has that identifier.
    pub fn lookup(&self, id: &str) -> (r: Option<String>)
        requires
            self.wf(),
        ensures
            match r {
                Some(u) => stored_url(self@, id@) == Some(u@),
                None => stored_url(self@, id@) is None,
            },
    {
        match self.position(id) {
            Some(i) => Some(self.rows[i].url.clone()),
            None => None,
        }
    }

    /// Adds the row `(id, url)`. Fails, leaving the table as it was, where
    /// `id` is already taken.
    pub fn insert(&mut self, id: &str, url: &str) -> (r: bool)
        requires
            old(self).wf(),
        ensures
            final(self).wf(),
            final(self)@.dom().finite(),
            r == !old(self)@.contains_key(id@),
            r ==> final(self)@ == old(self)@.insert(id@, url@),
            !r ==> final(self)@ == old(self)@,
    {
        if self.position(id).is_some() {
            return false;
        }
        let ghost before = self.rows@;
        let row = ShortLink { id: String::from_str(id), url: String::from_str(url) };
        self.rows.push(row);
        self.contents = Ghost(self.contents@.insert(id@, url@));
        assert forall|k: Seq<char>| #[trigger] self.contents@.contains_key(k) implies exists|i: int|
            0 <= i < self.rows@.len() && #[trigger] self.rows@[i].id@ == k by {
            if k == id@ {
                assert(self.rows@[before.len() as int].id@ == k);
            } else {
                let i = choose|i: int| 0 <= i < before.len() && #[trigger] before[i].id@ == k;
                assert(self.rows@[i].id@ == k);
            }
        }
        true
    }
}

} // verus!
