//! The record store: an ordered, in-memory collection of tweet records.
//!
//! The store owns the authoritative sequence of records. Every operation is
//! specified against the abstract sequence `self@`; callers that share the
//! store across threads are expected to guard it with a mutual-exclusion
//! primitive, so that each operation here runs atomically.

use vstd::prelude::*;

verus! {

use vstd::string::StringExecFns;

/// A point in time, as seconds since the Unix epoch plus a sub-second
/// nanosecond part. The clock that produces these lives behind
/// [`now_timestamp`]; the store itself only carries the value.
#[derive(Clone, Copy, PartialEq, Eq, Structural, Debug)]
pub struct Timestamp {
    /// Whole seconds since 1970-01-01T00:00:00 UTC.
    pub secs: i64,
    /// Nanoseconds within the second; may exceed 10^9 during a leap second.
    pub nanos: u32,
}

/// One stored record. `likes` is the only field that ever changes after
/// creation, and it only ever grows by one per successful like operation.
#[derive(Debug)]
pub struct Tweet {
    pub id: String,
    pub author: String,
    pub message: String,
    pub created_at: Timestamp,
    pub likes: u8,
}

impl Clone for Tweet {
    fn clone(&self) -> (r: Self)
        ensures
            r == *self,
    {
        Tweet {
            id: self.id.clone(),
            author: self.author.clone(),
            message: self.message.clone(),
            created_at: self.created_at,
            likes: self.likes,
        }
    }
}

/// Why a like operation failed.
#[derive(Clone, Copy, PartialEq, Eq, Structural, Debug)]
pub enum StoreError {
    /// No record carries the requested identifier.
    NotFound,
    /// The record exists but its like counter is already at its maximum,
    /// so the increment is rejected rather than allowed to wrap.
    CounterFull,
}

/// Some record in `s` carries the identifier `id`.
pub open spec fn has_id(s: Seq<Tweet>, id: Seq<char>) -> bool {
    exists|k: int| 0 <= k < s.len() && s[k].id@ == id
}

/// The position of the record carrying `id`; meaningful only when
/// `has_id(s, id)` holds, and unique when `ids_unique(s)` holds.
pub open spec fn index_of_id(s: Seq<Tweet>, id: Seq<char>) -> int {
    choose|k: int| 0 <= k < s.len() && s[k].id@ == id
}

/// No two records in `s` carry the same identifier.
pub open spec fn ids_unique(s: Seq<Tweet>) -> bool {
    forall|i: int, j: int| 0 <= i < j < s.len() ==> s[i].id@ != s[j].id@
}

/// Every identifier in `s` is short enough that an identifier longer than
/// `36 + s.len()` characters cannot yet occur in `s`. Identifiers are either
/// freshly drawn UUIDs (36 characters) or fallback identifiers whose length
/// was one past this bound when they were minted, so the bound is maintained
/// as the store grows.
pub open spec fn id_lens_bounded(s: Seq<Tweet>) -> bool {
    forall|i: int| 0 <= i < s.len() ==> #[trigger] s[i].id@.len() <= 36 + s.len()
}

/// `t` with its like counter one higher; all other fields unchanged.
pub open spec fn liked(t: Tweet) -> Tweet {
    Tweet { likes: (t.likes + 1) as u8, ..t }
}

/// `s` with the record at `i` liked once.
pub open spec fn like_once(s: Seq<Tweet>, i: int) -> Seq<Tweet> {
    s.update(i, liked(s[i]))
}

/// `s` with the record at `i` liked `n` times in a row.
pub open spec fn like_n(s: Seq<Tweet>, i: int, n: nat) -> Seq<Tweet>
    decreases n,
{
    if n == 0 {
        s
    } else {
        like_once(like_n(s, i, (n - 1) as nat), i)
    }
}

/// Appending a record never reorders or rewrites the records already stored:
/// every earlier record keeps its position and its fields, and the new record
/// stands last.
pub proof fn lemma_append_preserves_list(s: Seq<Tweet>, t: Tweet)
    ensures
        s.push(t).len() == s.len() + 1,
        forall|i: int| 0 <= i < s.len() ==> s.push(t)[i] == s[i],
        s.push(t)[s.len() as int] == t,
{
}

/// Appending a record whose identifier is fresh keeps all identifiers
/// pairwise distinct, and the fresh identifier differs from every stored one.
pub proof fn lemma_fresh_id_keeps_ids_unique(s: Seq<Tweet>, t: Tweet)
    requires
        ids_unique(s),
        !has_id(s, t.id@),
    ensures
        ids_unique(s.push(t)),
        forall|i: int| 0 <= i < s.len() ==> s[i].id@ != t.id@,
{
    assert forall|i: int| 0 <= i < s.len() implies s[i].id@ != t.id@ by {
        if s[i].id@ == t.id@ {
            assert(has_id(s, t.id@));
        }
    }
    assert forall|i: int, j: int| 0 <= i < j < s.push(t).len() implies s.push(t)[i].id@
        != s.push(t)[j].id@ by {
        if j < s.len() {
            assert(s.push(t)[i] == s[i]);
            assert(s.push(t)[j] == s[j]);
        } else {
            assert(s.push(t)[i] == s[i]);
            assert(s.push(t)[j] == t);
        }
    }
}

/// Replacing the record at `i` by one with the same identifier keeps all
/// identifiers pairwise distinct.
pub proof fn lemma_update_keeps_ids_unique(s: Seq<Tweet>, i: int, t: Tweet)
    requires
        ids_unique(s),
        0 <= i < s.len(),
        t.id@ == s[i].id@,
    ensures
        ids_unique(s.update(i, t)),
{
    assert forall|p: int, q: int| 0 <= p < q < s.update(i, t).len() implies s.update(i, t)[p].id@
        != s.update(i, t)[q].id@ by {
        assert(s[p].id@ != s[q].id@);
    }
}

/// When identifiers are pairwise distinct, the record at `i` is the one and
/// only record found under its own identifier.
pub proof fn lemma_id_index(s: Seq<Tweet>, i: int)
    requires
        ids_unique(s),
        0 <= i < s.len(),
    ensures
        has_id(s, s[i].id@),
        index_of_id(s, s[i].id@) == i,
{
    assert(has_id(s, s[i].id@));
    let j = index_of_id(s, s[i].id@);
    assert(0 <= j < s.len() && s[j].id@ == s[i].id@);
    if i < j {
        assert(s[i].id@ != s[j].id@);
    } else if j < i {
        assert(s[j].id@ != s[i].id@);
    }
}

/// Liking one record `n` times adds exactly `n` to its counter — no update is
/// lost — and touches nothing else: the sequence keeps its length, every other
/// record is untouched, and the liked record keeps its identity fields.
pub proof fn lemma_likes_accumulate(s: Seq<Tweet>, i: int, n: nat)
    requires
        0 <= i < s.len(),
        s[i].likes + n <= 255,
    ensures
        like_n(s, i, n).len() == s.len(),
        like_n(s, i, n)[i].likes == s[i].likes + n,
        like_n(s, i, n)[i].id == s[i].id,
        like_n(s, i, n)[i].author == s[i].author,
        like_n(s, i, n)[i].message == s[i].message,
        like_n(s, i, n)[i].created_at == s[i].created_at,
        forall|j: int| 0 <= j < s.len() && j != i ==> like_n(s, i, n)[j] == s[j],
    decreases n,
{
    if n > 0 {
        lemma_likes_accumulate(s, i, (n - 1) as nat);
    }
}

/// Relies on `uuid::Uuid::new_v4` and its `Display` impl: a freshly drawn
/// random UUID, rendered in the hyphenated form, which is always 36
/// characters. Nothing more can be promised of a random value.
#[verifier::external_body]
fn fresh_id() -> (r: String)
    ensures
        r@.len() == 36,
{
    uuid::Uuid::new_v4().to_string()
}

/// Relies on `chrono::Utc::now` for the current moment and on
/// `DateTime::timestamp` / `DateTime::timestamp_subsec_nanos` to read it out
/// as plain integers; the sub-second part stays below 2·10^9 even during a
/// leap second.
#[verifier::external_body]
fn now_timestamp() -> (r: Timestamp)
    ensures
        r.nanos < 2_000_000_000,
{
    let now = chrono::Utc::now();
    Timestamp { secs: now.timestamp(), nanos: now.timestamp_subsec_nanos() }
}

/// The ordered collection of tweet records. Its abstract value `self@` is the
/// sequence of records in insertion order; `wf()` says that no identifier
/// occurs twice.
pub struct TweetStore {
    tweets: Vec<Tweet>,
}

impl View for TweetStore {
    type V = Seq<Tweet>;

    closed spec fn view(&self) -> Seq<Tweet> {
        self.tweets@
    }
}

impl TweetStore {
    /// All identifiers in the store are pairwise distinct, and none is longer
    /// than the bound under which a fresh over-long identifier can always be
    /// minted.
    pub open spec fn wf(&self) -> bool {
        ids_unique(self@) && id_lens_bounded(self@)
    }

    /// An empty store.
    pub fn new() -> (s: Self)
        ensures
            s@ == Seq::<Tweet>::empty(),
            s.wf(),
    {
        TweetStore { tweets: Vec::new() }
    }

    /// The store the process starts with: two fixed records, freshly
    /// identified and timestamped, with like counters at zero.
    pub fn seeded() -> (s: Self)
        ensures
            s.wf(),
            s@.len() == 2,
            s@[0].author@ == "zig"@,
            s@[0].message@ == "Hello, world!"@,
            s@[0].likes == 0,
            s@[1].author@ == "qwe"@,
            s@[1].message@ == "Hi !"@,
            s@[1].likes == 0,
            s@[0].id@ != s@[1].id@,
    {
        let mut s = TweetStore::new();
        s.append(String::from_str("zig"), String::from_str("Hello, world!"));
        s.append(String::from_str("qwe"), String::from_str("Hi !"));
        s
    }

    /// How many records the store holds.
    pub fn len(&self) -> (n: usize)
        ensures
            n == self@.len(),
    {
        self.tweets.len()
    }

    /// The position of the first record carrying `id`, if any.
    fn position_of_id(v: &Vec<Tweet>, id: &String) -> (r: Option<usize>)
        ensures
            match r {
                Some(i) => {
                    &&& i < v@.len()
                    &&& v@[i as int].id@ == id@
                    &&& forall|j: int| 0 <= j < i ==> v@[j].id@ != id@
                },
                None => !has_id(v@, id@),
            },
    {
        let n = v.len();
        let mut i: usize = 0;
        while i < n
            invariant
                n == v@.len(),
                i <= n,
                forall|j: int| 0 <= j < i ==> v@[j].id@ != id@,
            decreases n - i,
        {
            if v[i].id == *id {
                return Some(i);
            }
            i = i + 1;
        }
        None
    }

    /// Whether some record carries `id`.
    pub fn contains_id(&self, id: &String) -> (b: bool)
        ensures
            b == has_id(self@, id@),
    {
        match Self::position_of_id(&self.tweets, id) {
            Some(_) => true,
            None => false,
        }
    }

    /// A snapshot of all records, in insertion order. The caller gets its own
    /// copy; nothing it does to the copy can reach the store.
    pub fn list(&self) -> (r: Vec<Tweet>)
        ensures
            r@ == self@,
    {
        let n = self.tweets.len();
        let mut out: Vec<Tweet> = Vec::new();
        let mut i: usize = 0;
        while i < n
            invariant
                n == self@.len(),
                i <= n,
                out@ == self@.subrange(0, i as int),
            decreases n - i,
        {
            out.push(self.tweets[i].clone());
            proof {
                assert(out@ =~= self@.subrange(0, i + 1 as int));
            }
            i = i + 1;
        }
        proof {
            assert(out@ =~= self@);
        }
        out
    }

    /// A fallback identifier of exactly `37 + n` characters, for when a
    /// freshly drawn UUID collides with a stored identifier: with `n` the
    /// number of stored records, a well-formed store holds no identifier of
    /// that length.
    fn fallback_id(n: usize) -> (r: String)
        requires
            n <= usize::MAX - 37,
        ensures
            r@.len() == 37 + n,
    {
        proof {
            reveal_strlit("x");
        }
        let mut out = String::from_str("x");
        let mut i: usize = 0;
        while i < 36 + n
            invariant
                n <= usize::MAX - 37,
                i <= 36 + n,
                out@.len() == 1 + i,
            decreases 36 + n - i,
        {
            proof {
                reveal_strlit("x");
            }
            out.append("x");
            i = i + 1;
        }
        out
    }

    /// Create a record with a freshly generated identifier, the given author
    /// and message, the current time, and a like counter at zero; add it at
    /// the end; return a copy of it. The generated identifier differs from
    /// every identifier already stored. The length bound on the store is a
    /// machine limit: one more identifier must still fit in a `usize` length.
    pub fn append(&mut self, author: String, message: String) -> (r: Tweet)
        requires
            old(self).wf(),
            old(self)@.len() <= usize::MAX - 37,
        ensures
            final(self).wf(),
            final(self)@ == old(self)@.push(r),
            r.author == author,
            r.message == message,
            r.likes == 0,
            r.id@.len() >= 36,
            !has_id(old(self)@, r.id@),
    {
        let mut id = fresh_id();
        if self.contains_id(&id) {
            id = Self::fallback_id(self.tweets.len());
            proof {
                assert(!has_id(self@, id@)) by {
                    if has_id(self@, id@) {
                        let k = choose|k: int|
                            0 <= k < self@.len() && self@[k].id@ == id@;
                        assert(self@[k].id@.len() <= 36 + self@.len());
                    }
                }
            }
        }
        let t = Tweet { id, author, message, created_at: now_timestamp(), likes: 0 };
        let r = t.clone();
        proof {
            lemma_fresh_id_keeps_ids_unique(self@, t);
        }
        self.tweets.push(t);
        r
    }

    /// Increase the like counter of the record carrying `id` by exactly one
    /// and return a copy of the updated record. Fails with `NotFound` — and
    /// leaves the store untouched — when no record carries `id`; fails with
    /// `CounterFull` — likewise without touching anything — when the counter
    /// is already at its maximum, so it can never wrap.
    pub fn increment_likes(&mut self, id: &String) -> (r: Result<Tweet, StoreError>)
        requires
            old(self).wf(),
        ensures
            final(self).wf(),
            !has_id(old(self)@, id@) ==> r == Result::<Tweet, StoreError>::Err(
                StoreError::NotFound,
            ) && final(self)@ == old(self)@,
            has_id(old(self)@, id@) ==> ({
                let i = index_of_id(old(self)@, id@);
                if old(self)@[i].likes < 255 {
                    &&& r == Result::<Tweet, StoreError>::Ok(liked(old(self)@[i]))
                    &&& final(self)@ == like_once(old(self)@, i)
                } else {
                    &&& r == Result::<Tweet, StoreError>::Err(StoreError::CounterFull)
                    &&& final(self)@ == old(self)@
                }
            }),
    {
        let ghost s0 = self@;
        match Self::position_of_id(&self.tweets, id) {
            None => Err(StoreError::NotFound),
            Some(i) => {
                proof {
                    lemma_id_index(s0, i as int);
                }
                if self.tweets[i].likes == 255 {
                    Err(StoreError::CounterFull)
                } else {
                    let t = &mut self.tweets[i];
                    t.likes = t.likes + 1;
                    proof {
                        lemma_update_keeps_ids_unique(s0, i as int, liked(s0[i as int]));
                    }
                    let r = self.tweets[i].clone();
                    Ok(r)
                }
            },
        }
    }
}

} // verus!
