//! One-shot notices: messages that a failed operation leaves for the next
//! listing, which shows them once.

use vstd::prelude::*;

verus! {

/// The texts of a sequence of strings.
pub open spec fn texts(strings: Seq<String>) -> Seq<Seq<char>> {
    strings.map_values(|s: String| s@)
}

/// The notices as one block of text: each notice, then a line feed.
pub open spec fn lines_of(notices: Seq<Seq<char>>) -> Seq<char>
    decreases notices.len(),
{
    if notices.len() == 0 {
        Seq::empty()
    } else {
        lines_of(notices.drop_last()) + notices.last() + seq!['\n']
    }
}

/// The notices that wait for one client, oldest first.
#[derive(Clone, Debug, PartialEq, Eq)]
pub struct NoticeQueue {
    pending: Vec<String>,
}

impl View for NoticeQueue {
    type V = Seq<Seq<char>>;

    closed spec fn view(&self) -> Seq<Seq<char>> {
        texts(self.pending@)
    }
}

impl NoticeQueue {
    /// A queue in which nothing waits.
    pub fn new() -> (queue: NoticeQueue)
        ensures
            queue@ == Seq::<Seq<char>>::empty(),
    {
        let queue = NoticeQueue { pending: Vec::new() };
        assert(queue@ =~= Seq::<Seq<char>>::empty());
        queue
    }

    /// A queue that holds the notices a request came in with.
    pub fn from_pending(pending: Vec<String>) -> (queue: NoticeQueue)
        ensures
            queue@ == texts(pending@),
    {
        NoticeQueue { pending }
    }

    /// Number of notices that wait.
    pub fn len(&self) -> (n: usize)
        ensures
            n == self@.len(),
    {
        self.pending.len()
    }

    /// Whether no notice waits.
    pub fn is_empty(&self) -> (empty: bool)
        ensures
            empty == (self@.len() == 0),
    {
        self.pending.len() == 0
    }

    /// Adds a notice behind those that wait already.
    pub fn attach(&mut self, notice: String)
        ensures
            final(self)@ == old(self)@.push(notice@),
    {
        self.pending.push(notice);
        assert(self@ =~= old(self)@.push(notice@));
    }

    /// Hands out every waiting notice, oldest first, and leaves the queue
    /// empty: no notice is handed out twice.
    pub fn drain(&mut self) -> (delivered: Vec<String>)
        ensures
            texts(delivered@) == old(self)@,
            final(self)@ == Seq::<Seq<char>>::empty(),
    {
        let mut delivered: Vec<String> = Vec::new();
        core::mem::swap(&mut self.pending, &mut delivered);
        assert(self@ =~= Seq::<Seq<char>>::empty());
        delivered
    }

    /// Ends the queue's life and hands out what still waits, to be carried
    /// to the client's next request.
    pub fn into_pending(self) -> (left: Vec<String>)
        ensures
            texts(left@) == self@,
    {
        self.pending
    }
}

/// The notices that wait for `client` among `entries`, oldest first.
pub open spec fn pending_in(entries: Seq<(u64, String)>, client: u64) -> Seq<Seq<char>>
    decreases entries.len(),
{
    if entries.len() == 0 {
        Seq::empty()
    } else if entries.last().0 == client {
        pending_in(entries.drop_last(), client).push(entries.last().1@)
    } else {
        pending_in(entries.drop_last(), client)
    }
}

/// The waiting notices of every client, each under the key of its client.
/// What one client leaves or takes changes nothing for another.
#[derive(Clone, Debug, PartialEq, Eq)]
pub struct NoticeBoard {
    entries: Vec<(u64, String)>,
}

impl NoticeBoard {
    /// The notices that wait for `client`, oldest first.
    pub closed spec fn pending(&self, client: u64) -> Seq<Seq<char>> {
        pending_in(self.entries@, client)
    }

    /// A board on which nothing waits for anyone.
    pub fn new() -> (board: NoticeBoard)
        ensures
            forall|client: u64| #[trigger] board.pending(client) == Seq::<Seq<char>>::empty(),
    {
        NoticeBoard { entries: Vec::new() }
    }

    /// Adds a notice for `client` behind those that wait for it already.
    pub fn attach(&mut self, client: u64, notice: String)
        ensures
            final(self).pending(client) == old(self).pending(client).push(notice@),
            forall|other: u64|
                other != client ==> #[trigger] final(self).pending(other) == old(self).pending(
                    other,
                ),
    {
        self.entries.push((client, notice));
        assert(self.entries@.drop_last() =~= old(self).entries@);
    }

    /// Number of notices that wait for `client`.
    pub fn waiting(&self, client: u64) -> (n: usize)
        ensures
            n == self.pending(client).len(),
    {
        let mut n: usize = 0;
        let mut i: usize = 0;
        assert(self.entries@.take(0) =~= Seq::<(u64, String)>::empty());
        while i < self.entries.len()
            invariant
                i <= self.entries.len(),
                n == pending_in(self.entries@.take(i as int), client).len(),
                n <= i,
            decreases self.entries.len() - i,
        {
            assert(self.entries@.take(i + 1).drop_last() =~= self.entries@.take(i as int));
            if self.entries[i].0 == client {
                n = n + 1;
            }
            i = i + 1;
        }
        assert(self.entries@.take(i as int) =~= self.entries@);
        n
    }

    /// Takes the notices that wait for `client` off the board, oldest first,
    /// as the queue of one request. Nothing is left for `client`, so no
    /// notice is taken twice.
    pub fn take(&mut self, client: u64) -> (queue: NoticeQueue)
        ensures
            queue@ == old(self).pending(client),
            final(self).pending(client) == Seq::<Seq<char>>::empty(),
            forall|other: u64|
                other != client ==> #[trigger] final(self).pending(other) == old(self).pending(
                    other,
                ),
    {
        let mut taken: Vec<String> = Vec::new();
        let mut kept: Vec<(u64, String)> = Vec::new();
        let mut i: usize = 0;
        assert(self.entries@.take(0) =~= Seq::<(u64, String)>::empty());
        assert(texts(taken@) =~= Seq::<Seq<char>>::empty());
        while i < self.entries.len()
            invariant
                i <= self.entries.len(),
                texts(taken@) == pending_in(self.entries@.take(i as int), client),
                pending_in(kept@, client) == Seq::<Seq<char>>::empty(),
                forall|other: u64|
                    other != client ==> #[trigger] pending_in(kept@, other) == pending_in(
                        self.entries@.take(i as int),
                        other,
                    ),
            decreases self.entries.len() - i,
        {
            let ghost seen = self.entries@.take(i as int);
            let ghost kept_before = kept@;
            assert(self.entries@.take(i + 1).drop_last() =~= seen);
            let owner: u64 = self.entries[i].0;
            let notice: String = self.entries[i].1.as_str().to_owned();
            if owner == client {
                taken.push(notice);
                assert(texts(taken@) =~= pending_in(seen, client).push(notice@));
            } else {
                kept.push((owner, notice));
                assert(kept@.drop_last() =~= kept_before);
                assert forall|other: u64| other != client implies #[trigger] pending_in(
                    kept@,
                    other,
                ) == pending_in(self.entries@.take(i + 1), other) by {
                    assert(pending_in(kept_before, other) == pending_in(seen, other));
                }
            }
            i = i + 1;
        }
        assert(self.entries@.take(i as int) =~= self.entries@);
        self.entries = kept;
        NoticeQueue::from_pending(taken)
    }

    /// Puts what a request left in its queue back on the board, behind the
    /// notices that wait for `client` already.
    pub fn put_back(&mut self, client: u64, queue: NoticeQueue)
        ensures
            final(self).pending(client) == old(self).pending(client) + queue@,
            forall|other: u64|
                other != client ==> #[trigger] final(self).pending(other) == old(self).pending(
                    other,
                ),
    {
        let left = queue.into_pending();
        let mut i: usize = 0;
        assert(texts(left@).take(0) =~= Seq::<Seq<char>>::empty());
        assert(old(self).pending(client) + Seq::<Seq<char>>::empty() =~= old(self).pending(
            client,
        ));
        while i < left.len()
            invariant
                i <= left.len(),
                pending_in(self.entries@, client) == old(self).pending(client) + texts(
                    left@,
                ).take(i as int),
                forall|other: u64|
                    other != client ==> #[trigger] pending_in(self.entries@, other) == old(
                        self,
                    ).pending(other),
            decreases left.len() - i,
        {
            let ghost before = self.entries@;
            self.entries.push((client, left[i].as_str().to_owned()));
            assert(self.entries@.drop_last() =~= before);
            assert(texts(left@).take(i + 1) =~= texts(left@).take(i as int).push(left@[i as int]@));
            assert(pending_in(self.entries@, client) =~= old(self).pending(client) + texts(
                left@,
            ).take(i + 1));
            assert forall|other: u64| other != client implies #[trigger] pending_in(
                self.entries@,
                other,
            ) == old(self).pending(other) by {
                assert(pending_in(before, other) == old(self).pending(other));
            }
            i = i + 1;
        }
        assert(texts(left@).take(i as int) =~= texts(left@));
    }
}

/// Joins notices into the block of text that a page shows: each notice on a
/// line of its own.
pub fn join_notices(notices: &Vec<String>) -> (block: String)
    ensures
        block@ == lines_of(texts(notices@)),
{
    let mut block = String::new();
    let mut i: usize = 0;
    proof {
        reveal_strlit("\n");
        assert("\n"@ =~= seq!['\n']);
        assert(texts(notices@).take(0) =~= Seq::<Seq<char>>::empty());
    }
    while i < notices.len()
        invariant
            i <= notices.len(),
            "\n"@ == seq!['\n'],
            block@ == lines_of(texts(notices@).take(i as int)),
        decreases notices.len() - i,
    {
        block.append(notices[i].as_str());
        block.append("\n");
        proof {
            let before = texts(notices@).take(i as int);
            let after = texts(notices@).take(i + 1);
            assert(after.drop_last() =~= before);
            assert(after.last() == notices@[i as int]@);
        }
        i = i + 1;
    }
    assert(texts(notices@).take(i as int) =~= texts(notices@));
    block
}

} // verus!
