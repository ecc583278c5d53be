//! The chore store: the single source of truth for one profile's chores,
//! with the transition protocol that moves a chore from the due list into
//! exactly one terminal list while every other chore stays where it was.

use vstd::prelude::*;
use vstd::multiset::Multiset;
use crate::chore::{Chore, Priority, label_of};

verus! {

/// The terminal classification a due chore receives.
#[derive(Clone, Copy, Debug, PartialEq, Eq, Structural)]
pub enum Disposition {
    Completed,
    Obviated,
    Abrogated,
}

/// The one error the store surfaces: an index that does not refer to a live
/// due entry.
#[derive(Clone, Copy, Debug, PartialEq, Eq, Structural)]
pub enum TransitionError {
    OutOfRange,
}

/// Owns all chore data for one profile: the user-visible ordered due list and
/// the three terminal lists, which keep insertion order. Each chore belongs
/// to exactly one of the four lists at any time; mutation happens only
/// through `transition_due`, which takes the store exclusively.
pub struct ChoreStore {
    name: String,
    due: Vec<Chore>,
    completed: Vec<Chore>,
    obviated: Vec<Chore>,
    abrogated: Vec<Chore>,
}

impl ChoreStore {
    /// The profile's display name.
    pub closed spec fn spec_name(self) -> Seq<char> {
        self.name@
    }

    /// The ordered sequence of chores still due.
    pub closed spec fn spec_due(self) -> Seq<Chore> {
        self.due@
    }

    /// The chores resolved as completed, in insertion order.
    pub closed spec fn spec_completed(self) -> Seq<Chore> {
        self.completed@
    }

    /// The chores resolved as obviated, in insertion order.
    pub closed spec fn spec_obviated(self) -> Seq<Chore> {
        self.obviated@
    }

    /// The chores resolved as abrogated, in insertion order.
    pub closed spec fn spec_abrogated(self) -> Seq<Chore> {
        self.abrogated@
    }

    /// The terminal list that `d` names.
    pub open spec fn spec_terminal(self, d: Disposition) -> Seq<Chore> {
        match d {
            Disposition::Completed => self.spec_completed(),
            Disposition::Obviated => self.spec_obviated(),
            Disposition::Abrogated => self.spec_abrogated(),
        }
    }

    /// Every chore the store holds, across all four lists.
    pub open spec fn all_chores(self) -> Multiset<Chore> {
        self.spec_due().to_multiset().add(self.spec_completed().to_multiset()).add(
            self.spec_obviated().to_multiset(),
        ).add(self.spec_abrogated().to_multiset())
    }

    /// The store relation a successful transition establishes: the chore that
    /// was at `index` has left `due` with the remaining order kept, and has
    /// been appended unchanged to the list `d` names; the other two terminal
    /// lists and the profile name are untouched.
    pub open spec fn transitioned(
        pre: ChoreStore,
        post: ChoreStore,
        index: int,
        d: Disposition,
    ) -> bool {
        &&& 0 <= index < pre.spec_due().len()
        &&& post.spec_due() == pre.spec_due().remove(index)
        &&& post.spec_terminal(d) == pre.spec_terminal(d).push(pre.spec_due()[index])
        &&& d != Disposition::Completed ==> post.spec_completed() == pre.spec_completed()
        &&& d != Disposition::Obviated ==> post.spec_obviated() == pre.spec_obviated()
        &&& d != Disposition::Abrogated ==> post.spec_abrogated() == pre.spec_abrogated()
        &&& post.spec_name() == pre.spec_name()
    }

    /// The labelling relation of the due list: `r` pairs each current due
    /// position with the label of the chore at that position.
    pub open spec fn is_due_listing(self, r: Seq<(usize, String)>) -> bool {
        &&& r.len() == self.spec_due().len()
        &&& forall|i: int|
            0 <= i < r.len() ==> (#[trigger] r[i]).0 as int == i && r[i].1@ == label_of(
                self.spec_due()[i],
            )
    }

    /// Creates a store for profile `name` whose due list is `due`; the three
    /// terminal lists start empty.
    pub fn new(name: String, due: Vec<Chore>) -> (r: ChoreStore)
        ensures
            r.spec_name() == name@,
            r.spec_due() == due@,
            r.spec_completed() == Seq::<Chore>::empty(),
            r.spec_obviated() == Seq::<Chore>::empty(),
            r.spec_abrogated() == Seq::<Chore>::empty(),
    {
        ChoreStore {
            name,
            due,
            completed: Vec::new(),
            obviated: Vec::new(),
            abrogated: Vec::new(),
        }
    }

    /// The display name of the current profile.
    pub fn profile_name(&self) -> (r: &str)
        ensures
            r@ == self.spec_name(),
    {
        self.name.as_str()
    }

    /// The chores still due, in their user-visible order.
    pub fn due(&self) -> (r: &Vec<Chore>)
        ensures
            r@ == self.spec_due(),
    {
        &self.due
    }

    /// The chores resolved as completed, in insertion order.
    pub fn completed(&self) -> (r: &Vec<Chore>)
        ensures
            r@ == self.spec_completed(),
    {
        &self.completed
    }

    /// The chores resolved as obviated, in insertion order.
    pub fn obviated(&self) -> (r: &Vec<Chore>)
        ensures
            r@ == self.spec_obviated(),
    {
        &self.obviated
    }

    /// The chores resolved as abrogated, in insertion order.
    pub fn abrogated(&self) -> (r: &Vec<Chore>)
        ensures
            r@ == self.spec_abrogated(),
    {
        &self.abrogated
    }

    /// Enumerates the currently due chores as `(index, label)` pairs, where
    /// the label reads `"{title} ({priority}) [{cost}]"` and the index is the
    /// chore's current 0-based due position, valid only until the next
    /// mutation of the store.
    pub fn list_due(&self) -> (r: Vec<(usize, String)>)
        ensures
            self.is_due_listing(r@),
    {
        let mut r: Vec<(usize, String)> = Vec::new();
        let mut i: usize = 0;
        while i < self.due.len()
            invariant
                i <= self.due@.len(),
                r@.len() == i,
                forall|j: int|
                    0 <= j < i ==> (#[trigger] r@[j]).0 as int == j && r@[j].1@ == label_of(
                        self.due@[j],
                    ),
            decreases self.due@.len() - i,
        {
            let label = self.due[i].label();
            r.push((i, label));
            i += 1;
        }
        r
    }

    /// Atomically moves the chore at `index` out of `due` and appends it,
    /// unchanged, to the terminal list named by `disposition`. Fails with
    /// `OutOfRange` — mutating nothing — exactly when `index` is not a valid
    /// due position. Either way, no chore is created or destroyed and the
    /// relative order of the remaining due chores is preserved.
    pub fn transition_due(&mut self, index: usize, disposition: Disposition) -> (r: Result<
        (),
        TransitionError,
    >)
        ensures
            r is Ok <==> index < old(self).spec_due().len(),
            r is Ok ==> Self::transitioned(*old(self), *final(self), index as int, disposition),
            r is Err ==> r == Err::<(), TransitionError>(TransitionError::OutOfRange) && *final(self)
                == *old(self),
            final(self).all_chores() == old(self).all_chores(),
            forall|j: int|
                0 <= j < index <= old(self).spec_due().len() ==> final(self).spec_due()[j] == old(
                    self,
                ).spec_due()[j],
            forall|j: int|
                index <= j < final(self).spec_due().len() && index < old(self).spec_due().len()
                    ==> final(self).spec_due()[j] == old(self).spec_due()[j + 1],
    {
        if index >= self.due.len() {
            return Err(TransitionError::OutOfRange);
        }
        let chore = self.due.remove(index);
        match disposition {
            Disposition::Completed => self.completed.push(chore),
            Disposition::Obviated => self.obviated.push(chore),
            Disposition::Abrogated => self.abrogated.push(chore),
        }
        proof {
            lemma_partition_preserved(*old(self), *self, index as int, disposition);
        }
        Ok(())
    }
}

/// The partition invariant across a transition: a successful transition only
/// reclassifies one chore, so the combined chore population of the four
/// lists — and with it the total chore count — is exactly what it was.
pub proof fn lemma_partition_preserved(
    pre: ChoreStore,
    post: ChoreStore,
    index: int,
    d: Disposition,
)
    requires
        ChoreStore::transitioned(pre, post, index, d),
    ensures
        post.all_chores() == pre.all_chores(),
        post.spec_due().len() + post.spec_completed().len() + post.spec_obviated().len()
            + post.spec_abrogated().len() == pre.spec_due().len() + pre.spec_completed().len()
            + pre.spec_obviated().len() + pre.spec_abrogated().len(),
{
    broadcast use vstd::seq_lib::group_to_multiset_ensures;

    let moved = pre.spec_due()[index];
    assert(pre.spec_due().contains(moved));
    assert(post.spec_due().to_multiset() =~= pre.spec_due().to_multiset().remove(moved));
    assert(post.spec_terminal(d).to_multiset() =~= pre.spec_terminal(d).to_multiset().insert(
        moved,
    ));
    assert(pre.spec_due().to_multiset().count(moved) > 0);
    assert(post.all_chores() =~= pre.all_chores());
}

/// Listing the due chores is idempotent: any two listings of the same store
/// agree pairwise, in both index and label.
pub proof fn lemma_list_due_idempotent(
    s: ChoreStore,
    r1: Seq<(usize, String)>,
    r2: Seq<(usize, String)>,
)
    requires
        s.is_due_listing(r1),
        s.is_due_listing(r2),
    ensures
        r1.len() == r2.len(),
        forall|i: int| 0 <= i < r1.len() ==> (#[trigger] r1[i]).0 == r2[i].0,
        forall|i: int| 0 <= i < r1.len() ==> (#[trigger] r1[i]).1@ == r2[i].1@,
{
}

/// Terminal dispositions are terminal: across any single transition, a chore
/// that sits in one terminal list and nowhere else stays in that list and
/// appears in no other list — no operation in scope moves it again.
pub proof fn lemma_terminal_exclusive(
    pre: ChoreStore,
    post: ChoreStore,
    index: int,
    d: Disposition,
    home: Disposition,
    c: Chore,
)
    requires
        ChoreStore::transitioned(pre, post, index, d),
        pre.spec_terminal(home).contains(c),
        !pre.spec_due().contains(c),
        forall|e: Disposition| e != home ==> !(#[trigger] pre.spec_terminal(e)).contains(c),
    ensures
        post.spec_terminal(home).contains(c),
        !post.spec_due().contains(c),
        forall|e: Disposition| e != home ==> !(#[trigger] post.spec_terminal(e)).contains(c),
{
    let moved = pre.spec_due()[index];
    assert(pre.spec_due().contains(moved));
    assert(moved != c);
    assert forall|j: int| 0 <= j < post.spec_due().len() implies post.spec_due()[j] != c by {
        if j < index {
            assert(post.spec_due()[j] == pre.spec_due()[j]);
            assert(pre.spec_due().contains(pre.spec_due()[j]));
        } else {
            assert(post.spec_due()[j] == pre.spec_due()[j + 1]);
            assert(pre.spec_due().contains(pre.spec_due()[j + 1]));
        }
    }
    assert(!post.spec_due().contains(c));
    if d == home {
        assert(post.spec_terminal(home) == pre.spec_terminal(home).push(moved));
        let k = choose|k: int| 0 <= k < pre.spec_terminal(home).len() && pre.spec_terminal(home)[k]
            == c;
        assert(post.spec_terminal(home)[k] == c);
        assert(post.spec_terminal(home).contains(c));
    } else {
        assert(post.spec_terminal(home) == pre.spec_terminal(home));
    }
    assert forall|e: Disposition| e != home implies !(#[trigger] post.spec_terminal(e)).contains(
        c,
    ) by {
        if e == d {
            assert(post.spec_terminal(e) == pre.spec_terminal(e).push(moved));
            if post.spec_terminal(e).contains(c) {
                let k = choose|k: int|
                    0 <= k < post.spec_terminal(e).len() && post.spec_terminal(e)[k] == c;
                if k < pre.spec_terminal(e).len() {
                    assert(pre.spec_terminal(e).contains(c));
                } else {
                    assert(post.spec_terminal(e)[k] == moved);
                }
                assert(false);
            }
        } else {
            assert(post.spec_terminal(e) == pre.spec_terminal(e));
        }
    }
}

/// The fixed store the program starts from: profile `"Username"` and three
/// seed chores on the due list.
pub fn initial_store() -> (r: ChoreStore)
    ensures
        r.spec_name() == "Username"@,
        r.spec_due().len() == 3,
        r.spec_due()[0].title@ == "Chore 1"@ && r.spec_due()[0].cost == 5 && r.spec_due()[0].priority
            == Priority::High,
        r.spec_due()[1].title@ == "Chore 2"@ && r.spec_due()[1].cost == 3 && r.spec_due()[1].priority
            == Priority::Mid,
        r.spec_due()[2].title@ == "Chore 3"@ && r.spec_due()[2].cost == 1 && r.spec_due()[2].priority
            == Priority::Low,
        r.spec_completed() == Seq::<Chore>::empty(),
        r.spec_obviated() == Seq::<Chore>::empty(),
        r.spec_abrogated() == Seq::<Chore>::empty(),
{
    let mut due: Vec<Chore> = Vec::new();
    due.push(Chore { title: "Chore 1".to_owned(), cost: 5, priority: Priority::High });
    due.push(Chore { title: "Chore 2".to_owned(), cost: 3, priority: Priority::Mid });
    due.push(Chore { title: "Chore 3".to_owned(), cost: 1, priority: Priority::Low });
    ChoreStore::new("Username".to_owned(), due)
}

} // verus!
