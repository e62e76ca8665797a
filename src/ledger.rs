use crate::error::PayError;
use crate::transaction_history::{Tx, TxStatus};
use vstd::prelude::*;

verus! {

/// The sequence of records kept under one account.
#[derive(Debug)]
pub struct AccountTxs {
    pub account: String,
    pub txs: Vec<Tx>,
}

/// Every account's append-only sequence of records.
#[derive(Debug)]
pub struct Ledger {
    pub accounts: Vec<AccountTxs>,
}

impl Ledger {
    /// Some slot holds the sequence of `a`.
    pub open spec fn has(self, a: Seq<char>) -> bool {
        exists|k: int| 0 <= k < self.accounts@.len() && #[trigger] self.accounts@[k].account@ == a
    }

    /// The slot that holds the sequence of `a`.
    pub open spec fn slot(self, a: Seq<char>) -> int {
        choose|k: int| 0 <= k < self.accounts@.len() && #[trigger] self.accounts@[k].account@ == a
    }

    /// The records of account `a`, oldest first; empty for an account that
    /// has none.
    pub open spec fn txs_of(self, a: Seq<char>) -> Seq<Tx> {
        if self.has(a) {
            self.accounts@[self.slot(a)].txs@
        } else {
            Seq::empty()
        }
    }

    /// One slot per account; each record stands at its own position; every
    /// position fits a `u32`.
    pub open spec fn wf(self) -> bool {
        &&& forall|j: int, k: int|
            0 <= j < self.accounts@.len() && 0 <= k < self.accounts@.len()
                && #[trigger] self.accounts@[j].account@ == #[trigger] self.accounts@[k].account@
                ==> j == k
        &&& forall|k: int|
            0 <= k < self.accounts@.len() ==> #[trigger] self.accounts@[k].txs@.len() <= u32::MAX
        &&& forall|k: int, i: int|
            0 <= k < self.accounts@.len() && 0 <= i < self.accounts@[k].txs@.len()
                ==> #[trigger] self.accounts@[k].txs@[i].position == i
    }

    pub proof fn lemma_slot(self, k: int)
        requires
            self.wf(),
            0 <= k < self.accounts@.len(),
        ensures
            self.has(self.accounts@[k].account@),
            self.slot(self.accounts@[k].account@) == k,
            self.txs_of(self.accounts@[k].account@) == self.accounts@[k].txs@,
    {
        let a = self.accounts@[k].account@;
        assert(self.has(a));
        let j = self.slot(a);
        assert(self.accounts@[j].account@ == a);
    }

    /// Each account's records stand at their own positions, and there are
    /// at most `u32::MAX` of them.
    pub proof fn lemma_positions(self, a: Seq<char>)
        requires
            self.wf(),
        ensures
            self.txs_of(a).len() <= u32::MAX,
            forall|i: int| 0 <= i < self.txs_of(a).len() ==> #[trigger] self.txs_of(a)[i].position == i,
    {
        if self.has(a) {
            let k = self.slot(a);
            assert(self.accounts@[k].txs@.len() <= u32::MAX);
        }
    }

    /// `new` differs from `old` at most in the records of slot `k`.
    proof fn lemma_frame(old: Ledger, new: Ledger, k: int)
        requires
            old.wf(),
            0 <= k < old.accounts@.len(),
            new.accounts@.len() == old.accounts@.len(),
            forall|j: int|
                0 <= j < old.accounts@.len() ==> #[trigger] new.accounts@[j].account@
                    == old.accounts@[j].account@,
            forall|j: int| 0 <= j < old.accounts@.len() && j != k ==> #[trigger] new.accounts@[j].txs@
                == old.accounts@[j].txs@,
        ensures
            forall|a: Seq<char>| a != old.accounts@[k].account@ ==> #[trigger] new.txs_of(a)
                == old.txs_of(a),
            new.txs_of(old.accounts@[k].account@) == new.accounts@[k].txs@,
    {
        let key = old.accounts@[k].account@;
        assert(new.accounts@[k].account@ == key);
        assert(new.has(key));
        let jn = new.slot(key);
        assert(old.accounts@[jn].account@ == key);
        assert forall|a: Seq<char>| a != key implies #[trigger] new.txs_of(a) == old.txs_of(a) by {
            if old.has(a) {
                let j = old.slot(a);
                assert(new.accounts@[j].account@ == a);
                assert(new.has(a));
                let j2 = new.slot(a);
                assert(old.accounts@[j2].account@ == a);
            } else {
                if new.has(a) {
                    let j2 = new.slot(a);
                    assert(old.accounts@[j2].account@ == a);
                }
            }
        }
    }

    /// A ledger in which no account has records.
    pub fn new() -> (r: Ledger)
        ensures
            r.wf(),
            r.paired(),
            forall|a: Seq<char>| #[trigger] r.txs_of(a) == Seq::<Tx>::empty(),
    {
        Ledger { accounts: Vec::new() }
    }

    fn find(&self, account: &String) -> (r: Option<usize>)
        requires
            self.wf(),
        ensures
            r matches Some(k) ==> k < self.accounts@.len() && self.accounts@[k as int].account@
                == account@,
            r is None ==> !self.has(account@),
    {
        let mut j: usize = 0;
        while j < self.accounts.len()
            invariant
                j <= self.accounts@.len(),
                forall|i: int| 0 <= i < j ==> #[trigger] self.accounts@[i].account@ != account@,
            decreases self.accounts@.len() - j,
        {
            if self.accounts[j].account == *account {
                return Some(j);
            }
            j = j + 1;
        }
        None
    }

    /// How many records `account` has: the position its next record gets.
    pub fn len_of(&self, account: &String) -> (r: u32)
        requires
            self.wf(),
        ensures
            r == self.txs_of(account@).len(),
    {
        match self.find(account) {
            Some(k) => {
                proof {
                    self.lemma_slot(k as int);
                }
                self.accounts[k].txs.len() as u32
            },
            None => 0,
        }
    }

    /// Adds `tx` at the end of the sequence of `account`, at the position
    /// that it returns: the length the sequence had.
    pub fn append(&mut self, account: &String, tx: Tx) -> (r: u32)
        requires
            old(self).wf(),
            old(self).txs_of(account@).len() < u32::MAX,
        ensures
            final(self).wf(),
            r == old(self).txs_of(account@).len(),
            final(self).txs_of(account@) == old(self).txs_of(account@).push(
                Tx { position: r, ..tx },
            ),
            forall|a: Seq<char>| a != account@ ==> #[trigger] final(self).txs_of(a) == old(
                self,
            ).txs_of(a),
    {
        let ghost prev = *self;
        match self.find(account) {
            Some(k) => {
                proof {
                    prev.lemma_slot(k as int);
                }
                let pos = self.accounts[k].txs.len() as u32;
                let mut t = tx;
                t.position = pos;
                self.accounts[k].txs.push(t);
                proof {
                    assert forall|j: int, i: int|
                        0 <= j < self.accounts@.len() && 0 <= i < self.accounts@[j].txs@.len()
                            implies #[trigger] self.accounts@[j].txs@[i].position == i by {
                        if j != k {
                            assert(self.accounts@[j] == prev.accounts@[j]);
                        } else if i < pos {
                            assert(self.accounts@[j].txs@[i] == prev.accounts@[j].txs@[i]);
                        }
                    }
                    assert forall|j: int| 0 <= j < self.accounts@.len() implies #[trigger] self.accounts@[j].txs@.len() <= u32::MAX by {
                        if j != k {
                            assert(self.accounts@[j] == prev.accounts@[j]);
                        }
                    }
                    assert forall|j1: int, j2: int|
                        0 <= j1 < self.accounts@.len() && 0 <= j2 < self.accounts@.len()
                            && #[trigger] self.accounts@[j1].account@
                            == #[trigger] self.accounts@[j2].account@ implies j1 == j2 by {
                        assert(self.accounts@[j1].account@ == prev.accounts@[j1].account@);
                        assert(self.accounts@[j2].account@ == prev.accounts@[j2].account@);
                    }
                    Ledger::lemma_frame(prev, *self, k as int);
                }
                pos
            },
            None => {
                let mut t = tx;
                t.position = 0;
                let mut txs: Vec<Tx> = Vec::new();
                txs.push(t);
                self.accounts.push(AccountTxs { account: account.clone(), txs });
                proof {
                    let n = prev.accounts@.len() as int;
                    assert(self.accounts@[n].account@ == account@);
                    assert forall|j: int| 0 <= j < n implies self.accounts@[j] == prev.accounts@[j] by {}
                    assert forall|j1: int, j2: int|
                        0 <= j1 < self.accounts@.len() && 0 <= j2 < self.accounts@.len()
                            && #[trigger] self.accounts@[j1].account@
                            == #[trigger] self.accounts@[j2].account@ implies j1 == j2 by {
                        if j1 < n && j2 == n {
                            assert(prev.accounts@[j1].account@ == account@);
                        }
                        if j2 < n && j1 == n {
                            assert(prev.accounts@[j2].account@ == account@);
                        }
                    }
                    assert forall|j: int, i: int|
                        0 <= j < self.accounts@.len() && 0 <= i < self.accounts@[j].txs@.len()
                            implies #[trigger] self.accounts@[j].txs@[i].position == i by {
                        if j < n {
                            assert(self.accounts@[j] == prev.accounts@[j]);
                        }
                    }
                    assert forall|j: int| 0 <= j < self.accounts@.len() implies #[trigger] self.accounts@[j].txs@.len() <= u32::MAX by {
                        if j < n {
                            assert(self.accounts@[j] == prev.accounts@[j]);
                        }
                    }
                    self.lemma_slot(n);
                    assert(self.txs_of(account@) =~= prev.txs_of(account@).push(Tx { position: 0, ..tx }));
                    assert forall|a: Seq<char>| a != account@ implies #[trigger] self.txs_of(a)
                        == prev.txs_of(a) by {
                        if prev.has(a) {
                            let j = prev.slot(a);
                            prev.lemma_slot(j);
                            assert(self.accounts@[j] == prev.accounts@[j]);
                            self.lemma_slot(j);
                        } else if self.has(a) {
                            let j = self.slot(a);
                            assert(j != n);
                            assert(self.accounts@[j] == prev.accounts@[j]);
                        }
                    }
                }
                0
            },
        }
    }

    /// The record at `position` of `account`; `OutOfBounds` where there is
    /// none.
    pub fn get(&self, account: &String, position: u32) -> (r: Result<&Tx, PayError>)
        requires
            self.wf(),
        ensures
            r is Ok <==> position < self.txs_of(account@).len(),
            r matches Ok(t) ==> *t == self.txs_of(account@)[position as int],
            r matches Err(e) ==> e == PayError::OutOfBounds,
    {
        match self.find(account) {
            Some(k) => {
                proof {
                    self.lemma_slot(k as int);
                }
                if (position as usize) < self.accounts[k].txs.len() {
                    Ok(&self.accounts[k].txs[position as usize])
                } else {
                    Err(PayError::OutOfBounds)
                }
            },
            None => Err(PayError::OutOfBounds),
        }
    }

    /// Replaces, in the sequence of `account`, the record at `tx.position`
    /// by `tx`; `OutOfBounds`, with nothing changed, where there is none.
    pub fn set(&mut self, account: &String, tx: Tx) -> (r: Result<(), PayError>)
        requires
            old(self).wf(),
        ensures
            final(self).wf(),
            r is Ok <==> tx.position < old(self).txs_of(account@).len(),
            r is Ok ==> final(self).txs_of(account@) == old(self).txs_of(account@).update(
                tx.position as int,
                tx,
            ),
            r is Err ==> r == Err::<(), PayError>(PayError::OutOfBounds) && *final(self) == *old(
                self,
            ),
            forall|a: Seq<char>| a != account@ ==> #[trigger] final(self).txs_of(a) == old(
                self,
            ).txs_of(a),
    {
        let ghost prev = *self;
        match self.find(account) {
            Some(k) => {
                proof {
                    prev.lemma_slot(k as int);
                }
                let pos = tx.position;
                if (pos as usize) < self.accounts[k].txs.len() {
                    self.accounts[k].txs.set(pos as usize, tx);
                    proof {
                        self.lemma_keeps_wf(prev, k as int);
                        Ledger::lemma_frame(prev, *self, k as int);
                    }
                    Ok(())
                } else {
                    Err(PayError::OutOfBounds)
                }
            },
            None => Err(PayError::OutOfBounds),
        }
    }

    /// Sets the status of the record at `position` of `account`;
    /// `OutOfBounds`, with nothing changed, where there is none.
    pub fn set_status(&mut self, account: &String, position: u32, status: TxStatus) -> (r: Result<
        (),
        PayError,
    >)
        requires
            old(self).wf(),
        ensures
            final(self).wf(),
            r is Ok <==> position < old(self).txs_of(account@).len(),
            r is Ok ==> final(self).txs_of(account@) == old(self).txs_of(account@).update(
                position as int,
                old(self).txs_of(account@)[position as int].with_status(status),
            ),
            r is Err ==> r == Err::<(), PayError>(PayError::OutOfBounds) && *final(self) == *old(
                self,
            ),
            forall|a: Seq<char>| a != account@ ==> #[trigger] final(self).txs_of(a) == old(
                self,
            ).txs_of(a),
    {
        let ghost prev = *self;
        match self.find(account) {
            Some(k) => {
                proof {
                    prev.lemma_slot(k as int);
                }
                if (position as usize) < self.accounts[k].txs.len() {
                    self.accounts[k].txs[position as usize].status = status;
                    proof {
                        assert(self.accounts@[k as int].txs@ =~= prev.accounts@[k as int].txs@.update(
                            position as int,
                            prev.accounts@[k as int].txs@[position as int].with_status(status),
                        ));
                        self.lemma_keeps_wf(prev, k as int);
                        Ledger::lemma_frame(prev, *self, k as int);
                    }
                    Ok(())
                } else {
                    Err(PayError::OutOfBounds)
                }
            },
            None => Err(PayError::OutOfBounds),
        }
    }

    /// Changing, in slot `k`, records in place, each kept at its position,
    /// keeps the ledger well formed.
    proof fn lemma_keeps_wf(self, prev: Ledger, k: int)
        requires
            prev.wf(),
            0 <= k < prev.accounts@.len(),
            self.accounts@.len() == prev.accounts@.len(),
            forall|j: int| 0 <= j < prev.accounts@.len() && j != k ==> #[trigger] self.accounts@[j] == prev.accounts@[j],
            self.accounts@[k].account == prev.accounts@[k].account,
            self.accounts@[k].txs@.len() == prev.accounts@[k].txs@.len(),
            forall|i: int| 0 <= i < self.accounts@[k].txs@.len() ==> #[trigger] self.accounts@[k].txs@[i].position == i,
        ensures
            self.wf(),
            forall|j: int|
                0 <= j < prev.accounts@.len() ==> #[trigger] self.accounts@[j].account@
                    == prev.accounts@[j].account@,
            forall|j: int| 0 <= j < prev.accounts@.len() && j != k ==> #[trigger] self.accounts@[j].txs@
                == prev.accounts@[j].txs@,
    {
        assert forall|j: int| 0 <= j < self.accounts@.len() implies #[trigger] self.accounts@[j].account@ == prev.accounts@[j].account@ by {
            if j != k {
                assert(self.accounts@[j] == prev.accounts@[j]);
            }
        }
        assert forall|j: int, i: int|
            0 <= j < self.accounts@.len() && 0 <= i < self.accounts@[j].txs@.len()
                implies #[trigger] self.accounts@[j].txs@[i].position == i by {
            if j != k {
                assert(self.accounts@[j] == prev.accounts@[j]);
            }
        }
        assert forall|j: int| 0 <= j < self.accounts@.len() implies #[trigger] self.accounts@[j].txs@.len() <= u32::MAX by {
            if j != k {
                assert(self.accounts@[j] == prev.accounts@[j]);
            }
        }
        assert forall|j1: int, j2: int|
            0 <= j1 < self.accounts@.len() && 0 <= j2 < self.accounts@.len()
                && #[trigger] self.accounts@[j1].account@ == #[trigger] self.accounts@[j2].account@
                implies j1 == j2 by {
            assert(self.accounts@[j1].account@ == prev.accounts@[j1].account@);
            assert(self.accounts@[j2].account@ == prev.accounts@[j2].account@);
        }
    }

    /// Up to `page_size` records of `account`, most recent first, after
    /// skipping the `page * page_size` most recent ones; with the number of
    /// records the account has.
    pub fn list(&self, account: &String, page: u32, page_size: u32) -> (r: (Vec<Tx>, u64))
        requires
            self.wf(),
        ensures
            r.1 == self.txs_of(account@).len(),
            r.0@ == page_of(self.txs_of(account@), page as int, page_size as int),
    {
        let total = self.len_of(account);
        proof {
            lemma_page_product_fits(page, page_size);
        }
        let skip: u64 = page as u64 * page_size as u64;
        let mut out: Vec<Tx> = Vec::new();
        let ghost s = self.txs_of(account@);
        let ghost want = page_of(s, page as int, page_size as int);
        if skip < total as u64 {
            let count: u64 = if (total as u64 - skip) < page_size as u64 {
                total as u64 - skip
            } else {
                page_size as u64
            };
            assert(want.len() == count);
            let mut k: u64 = 0;
            while k < count
                invariant
                    skip < total,
                    total == s.len(),
                    count == want.len(),
                    skip + count <= total,
                    k <= count,
                    s == self.txs_of(account@),
                    want == page_of(s, page as int, page_size as int),
                    skip == page * page_size,
                    self.wf(),
                    out@ == want.subrange(0, k as int),
                decreases count - k,
            {
                let pos = (total as u64 - 1 - (skip + k)) as u32;
                let got = self.get(account, pos);
                if let Ok(t) = got {
                    out.push(t.duplicate());
                }
                proof {
                    assert(out@ =~= want.subrange(0, k + 1));
                }
                k = k + 1;
            }
            assert(want.subrange(0, count as int) =~= want);
        } else {
            assert(want =~= Seq::<Tx>::empty());
        }
        (out, total as u64)
    }
}

proof fn lemma_page_product_fits(page: u32, page_size: u32)
    ensures
        page * page_size <= u64::MAX,
{
    assert(page * page_size <= u32::MAX * u32::MAX) by (nonlinear_arith)
        requires
            page <= u32::MAX,
            page_size <= u32::MAX,
    ;
}

/// The page of `s` that `list` returns: up to `size` records, newest first,
/// after the `page * size` newest.
pub open spec fn page_of(s: Seq<Tx>, page: int, size: int) -> Seq<Tx> {
    let skip = page * size;
    let count = if s.len() <= skip {
        0
    } else if s.len() - skip < size {
        s.len() - skip
    } else {
        size
    };
    Seq::new(count as nat, |k: int| s[s.len() - 1 - (skip + k)])
}

/// The account under which the other half of `t`, kept under `a`, stands.
pub open spec fn mirror_account(t: Tx, a: Seq<char>) -> Seq<char> {
    if t.from@ == a {
        t.to@
    } else {
        t.from@
    }
}

/// Two halves carry the same terms: they differ at most in their positions.
pub open spec fn same_terms(x: Tx, y: Tx) -> bool {
    x == (Tx { position: x.position, other_storage_position: x.other_storage_position, ..y })
}

impl Ledger {
    /// The record at `i` of `a` and the record it points to are the two
    /// halves of one pair: between two distinct participants, each under
    /// one of them, pointing at each other, with the same terms.
    pub open spec fn pair_at(self, a: Seq<char>, i: int) -> bool {
        let t = self.txs_of(a)[i];
        let m = mirror_account(t, a);
        &&& t.from@ != t.to@
        &&& (t.from@ == a || t.to@ == a)
        &&& t.other_storage_position < self.txs_of(m).len()
        &&& self.txs_of(m)[t.other_storage_position as int].other_storage_position == i
        &&& same_terms(self.txs_of(m)[t.other_storage_position as int], t)
    }

    /// Every record is one half of a pair.
    pub open spec fn paired(self) -> bool {
        forall|a: Seq<char>, i: int| 0 <= i < self.txs_of(a).len() ==> #[trigger] self.pair_at(a, i)
    }

    /// Growing sequences at their ends keeps the pairs that were there.
    pub(crate) proof fn lemma_extends(old: Ledger, new: Ledger, a: Seq<char>, i: int)
        requires
            forall|b: Seq<char>| #[trigger] new.txs_of(b).len() >= old.txs_of(b).len(),
            forall|b: Seq<char>, j: int|
                0 <= j < old.txs_of(b).len() ==> #[trigger] new.txs_of(b)[j] == old.txs_of(b)[j],
            0 <= i < old.txs_of(a).len(),
            old.pair_at(a, i),
        ensures
            new.pair_at(a, i),
    {
        let t = old.txs_of(a)[i];
        let m = mirror_account(t, a);
        assert(new.txs_of(a)[i] == t);
        assert(new.txs_of(m).len() >= old.txs_of(m).len());
        assert(new.txs_of(m)[t.other_storage_position as int] == old.txs_of(m)[t.other_storage_position as int]);
    }
}

impl Ledger {
    /// `new` is `self` with the two halves of a pair with the terms of `t`
    /// added: one at the end of the sequence of `t.from`, one at the end of
    /// the sequence of `t.to`, each pointing at the other.
    pub open spec fn pair_added(self, new: Ledger, t: Tx) -> bool {
        let pf = self.txs_of(t.from@).len() as u32;
        let pt = self.txs_of(t.to@).len() as u32;
        &&& new.txs_of(t.from@) == self.txs_of(t.from@).push(
            (Tx { position: pf, other_storage_position: pt, ..t }),
        )
        &&& new.txs_of(t.to@) == self.txs_of(t.to@).push(
            (Tx { position: pt, other_storage_position: pf, ..t }),
        )
        &&& forall|b: Seq<char>|
            b != t.from@ && b != t.to@ ==> #[trigger] new.txs_of(b) == self.txs_of(b)
    }
}

/// `s` with the status of its record at `p` set to `status` where `here`
/// holds; `s` itself otherwise.
pub open spec fn status_set(s: Seq<Tx>, here: bool, p: int, status: TxStatus) -> Seq<Tx> {
    if here {
        s.update(p, s[p].with_status(status))
    } else {
        s
    }
}

impl Ledger {
    /// The record at `p` of `a`.
    pub open spec fn rec(self, a: Seq<char>, p: int) -> Tx {
        self.txs_of(a)[p]
    }

    /// The account under which the other half of the record at `p` of `a`
    /// stands.
    pub open spec fn mirror_acct(self, a: Seq<char>, p: int) -> Seq<char> {
        mirror_account(self.rec(a, p), a)
    }

    /// The record that the one at `p` of `a` points to.
    pub open spec fn mirror_rec(self, a: Seq<char>, p: int) -> Tx {
        self.txs_of(self.mirror_acct(a, p))[self.rec(a, p).other_storage_position as int]
    }

    /// Both the record at `p` of `a` and the one it points to exist.
    pub open spec fn holds_pair(self, a: Seq<char>, p: int) -> bool {
        &&& 0 <= p < self.txs_of(a).len()
        &&& self.rec(a, p).other_storage_position < self.txs_of(self.mirror_acct(a, p)).len()
    }

    /// `new` is `self` with the status of the record at `p` of `a`, and of
    /// the record it points to, set to `status`; nothing else changed.
    pub open spec fn pair_status_set(self, new: Ledger, a: Seq<char>, p: int, status: TxStatus) -> bool {
        let m = self.mirror_acct(a, p);
        let q = self.rec(a, p).other_storage_position as int;
        forall|b: Seq<char>| #[trigger] new.txs_of(b) == status_set(
            status_set(self.txs_of(b), b == a, p, status),
            b == m,
            q,
            status,
        )
    }
}

/// The account under which the other half of `t`, kept under `a`, stands.
pub fn mirror_of<'a>(t: &'a Tx, a: &String) -> (r: &'a String)
    ensures
        r@ == mirror_account(*t, a@),
{
    if t.from == *a {
        &t.to
    } else {
        &t.from
    }
}

/// Sets the status of the record at `position` of `account` and of the
/// record it points to, which stands at `other` of `mirror`.
pub(crate) fn set_pair_status(
    ledger: &mut Ledger,
    account: &String,
    position: u32,
    mirror: &String,
    other: u32,
    status: TxStatus,
)
    requires
        old(ledger).wf(),
        old(ledger).holds_pair(account@, position as int),
        mirror@ == old(ledger).mirror_acct(account@, position as int),
        other == old(ledger).rec(account@, position as int).other_storage_position,
    ensures
        final(ledger).wf(),
        old(ledger).pair_status_set(*final(ledger), account@, position as int, status),
        old(ledger).paired() ==> final(ledger).paired(),
{
    let ghost prev = *ledger;
    let _ = ledger.set_status(account, position, status);
    let ghost mid = *ledger;
    let _ = ledger.set_status(mirror, other, status);
    proof {
        let new = *ledger;
        let a = account@;
        let p = position as int;
        let m = mirror@;
        let q = other as int;
        assert forall|b: Seq<char>| #[trigger] new.txs_of(b) == status_set(
            status_set(prev.txs_of(b), b == a, p, status),
            b == m,
            q,
            status,
        ) by {
            if b == a {
                assert(mid.txs_of(b) == status_set(prev.txs_of(b), true, p, status));
            } else {
                assert(mid.txs_of(b) == prev.txs_of(b));
            }
        }
        if prev.paired() {
            assert forall|b: Seq<char>, i: int| 0 <= i < new.txs_of(b).len() implies #[trigger] new.pair_at(b, i) by {
                lemma_pair_status_set(prev, new, a, p, status, b, i);
            }
        }
    }
}

/// Setting the status of both halves of one pair keeps every pair.
proof fn lemma_pair_status_set(
    old: Ledger,
    new: Ledger,
    a: Seq<char>,
    p: int,
    status: TxStatus,
    b: Seq<char>,
    i: int,
)
    requires
        old.paired(),
        old.holds_pair(a, p),
        old.pair_status_set(new, a, p, status),
        0 <= i < new.txs_of(b).len(),
    ensures
        new.pair_at(b, i),
{
    let m = old.mirror_acct(a, p);
    let q = old.rec(a, p).other_storage_position as int;
    assert(old.pair_at(a, p));
    assert(new.txs_of(b) == status_set(status_set(old.txs_of(b), b == a, p, status), b == m, q, status));
    assert(old.pair_at(b, i));
    let t = old.txs_of(b)[i];
    let mb = mirror_account(t, b);
    let qb = t.other_storage_position as int;
    assert(new.txs_of(mb) == status_set(status_set(old.txs_of(mb), mb == a, p, status), mb == m, q, status));
    let changed_here = (b == a && i == p) || (b == m && i == q);
    let changed_there = (mb == a && qb == p) || (mb == m && qb == q);
    let ta = old.txs_of(a)[p];
    let tm = old.txs_of(m)[q];
    assert(old.pair_at(m, q));
    if changed_here {
        assert(changed_there);
    }
    if changed_there {
        if mb == a && qb == p {
            assert(mirror_account(ta, a) == b);
        } else {
            assert(mirror_account(tm, m) == b);
        }
        assert(changed_here);
    }
    assert(new.txs_of(b)[i].from == t.from);
    assert(new.txs_of(b)[i].to == t.to);
    assert(new.txs_of(mb).len() == old.txs_of(mb).len());
}

/// In a ledger where every record is half of a pair, the record at `i` of
/// `a` points at a record under the other participant that points back at
/// it, carries the same terms (status, amount, fee, token, description,
/// class, participants) and differs only in its positions.
pub proof fn lemma_pair_halves(l: Ledger, a: Seq<char>, i: int)
    requires
        l.paired(),
        0 <= i < l.txs_of(a).len(),
    ensures
        l.holds_pair(a, i),
        l.mirror_acct(a, i) != a,
        l.mirror_rec(a, i).other_storage_position == i,
        l.mirror_acct(l.mirror_acct(a, i), l.rec(a, i).other_storage_position as int) == a,
        same_terms(l.mirror_rec(a, i), l.rec(a, i)),
        l.mirror_rec(a, i).status == l.rec(a, i).status,
        l.mirror_rec(a, i).amount == l.rec(a, i).amount,
        l.mirror_rec(a, i).fee == l.rec(a, i).fee,
        l.mirror_rec(a, i).token == l.rec(a, i).token,
        l.mirror_rec(a, i).class == l.rec(a, i).class,
{
    assert(l.pair_at(a, i));
}

/// The two halves that one `store_txs` adds point at each other: the half
/// under `from` at the half under `to` and back, with the same terms.
pub proof fn lemma_new_pair_points_both_ways(old: Ledger, new: Ledger, t: Tx)
    requires
        old.wf(),
        old.pair_added(new, t),
        t.from@ != t.to@,
    ensures
        ({
            let pf = old.txs_of(t.from@).len() as int;
            let pt = old.txs_of(t.to@).len() as int;
            &&& new.rec(t.from@, pf).other_storage_position == pt
            &&& new.rec(t.to@, pt).other_storage_position == pf
            &&& new.mirror_acct(t.from@, pf) == t.to@
            &&& new.mirror_acct(t.to@, pt) == t.from@
            &&& same_terms(new.rec(t.from@, pf), new.rec(t.to@, pt))
        }),
{
    old.lemma_positions(t.from@);
    old.lemma_positions(t.to@);
}

} // verus!
