//! The persisted ledger: numbered account slots, their rotation order and the
//! active slot.

use std::collections::BTreeMap;
use vstd::prelude::*;

use crate::text::{parse_u32, parsed_u32};

verus! {

broadcast use vstd::laws_cmp::group_laws_cmp;

/// How an account authenticates.
#[derive(Clone, Copy, Debug, PartialEq, Eq, Structural)]
pub enum AuthKind {
    /// Session material that the host application refreshes; identity lives in its config.
    Oauth,
    /// A fixed long-lived token exported to shells.
    Token,
}

/// One managed account.
#[derive(Debug)]
pub struct AccountEntry {
    pub email: String,
    pub uuid: String,
    pub added: String,
    pub auth_kind: AuthKind,
}

/// What an [`AccountEntry`] holds, as mathematical values.
pub struct SlotModel {
    pub email: Seq<char>,
    pub uuid: Seq<char>,
    pub added: Seq<char>,
    pub auth_kind: AuthKind,
}

impl View for AccountEntry {
    type V = SlotModel;

    open spec fn view(&self) -> SlotModel {
        SlotModel {
            email: self.email@,
            uuid: self.uuid@,
            added: self.added@,
            auth_kind: self.auth_kind,
        }
    }
}

impl AccountEntry {
    /// A copy of this entry.
    pub fn duplicate(&self) -> (r: AccountEntry)
        ensures
            r == *self,
    {
        AccountEntry {
            email: self.email.clone(),
            uuid: self.uuid.clone(),
            added: self.added.clone(),
            auth_kind: self.auth_kind,
        }
    }
}

/// The ledger as mathematical values.
pub struct LedgerModel {
    pub active: Option<u32>,
    pub last_updated: Seq<char>,
    pub order: Seq<u32>,
    pub slots: Map<u32, SlotModel>,
}

/// The first id of `order` whose slot carries `email`.
pub open spec fn first_with_email(
    order: Seq<u32>,
    slots: Map<u32, SlotModel>,
    email: Seq<char>,
) -> Option<u32>
    decreases order.len(),
{
    if order.len() == 0 {
        None
    } else if slots[order[0]].email == email {
        Some(order[0])
    } else {
        first_with_email(order.drop_first(), slots, email)
    }
}

/// The largest id of `order`, or 0 when it is empty.
pub open spec fn top_id(order: Seq<u32>) -> nat
    decreases order.len(),
{
    if order.len() == 0 {
        0
    } else {
        let rest = top_id(order.drop_last());
        if order.last() as nat > rest {
            order.last() as nat
        } else {
            rest
        }
    }
}

/// `order` without `id`.
pub open spec fn order_without(order: Seq<u32>, id: u32) -> Seq<u32>
    decreases order.len(),
{
    if order.len() == 0 {
        order
    } else {
        let rest = order_without(order.drop_last(), id);
        if order.last() != id {
            rest.push(order.last())
        } else {
            rest
        }
    }
}

/// Index of `id` in `order`, or 0 when absent.
pub open spec fn position_or_zero(order: Seq<u32>, id: u32) -> int {
    if order.contains(id) {
        order.index_of(id)
    } else {
        0
    }
}

impl LedgerModel {
    /// The ledger's invariant: rotation order and slot map hold the same ids,
    /// the order has no duplicates, and the active id, if any, is managed.
    pub open spec fn wf(self) -> bool {
        &&& self.order.no_duplicates()
        &&& forall|n: u32| #[trigger] self.slots.contains_key(n) <==> self.order.contains(n)
        &&& (self.active matches Some(a) ==> self.slots.contains_key(a))
    }

    /// The ledger with no slots.
    pub open spec fn empty() -> LedgerModel {
        LedgerModel {
            active: None,
            last_updated: Seq::empty(),
            order: Seq::empty(),
            slots: Map::empty(),
        }
    }

    pub open spec fn has_email(self, email: Seq<char>) -> bool {
        exists|n: u32| #[trigger] self.slots.contains_key(n) && self.slots[n].email == email
    }

    pub open spec fn find_email(self, email: Seq<char>) -> Option<u32> {
        first_with_email(self.order, self.slots, email)
    }

    /// The id a new slot gets: one more than the largest id, if that fits.
    pub open spec fn next_id(self) -> Option<u32> {
        if top_id(self.order) < u32::MAX {
            Some((top_id(self.order) + 1) as u32)
        } else {
            None
        }
    }

    /// An identifier names a slot by number when it parses as one, else by label.
    pub open spec fn resolve(self, identifier: Seq<char>) -> Option<u32> {
        match parsed_u32(identifier) {
            Some(n) => if self.slots.contains_key(n) {
                Some(n)
            } else {
                None
            },
            None => self.find_email(identifier),
        }
    }

    /// The ledger after registering `slot` under `id` as the active account.
    pub open spec fn with_slot(self, id: u32, slot: SlotModel, now: Seq<char>) -> LedgerModel {
        LedgerModel {
            active: Some(id),
            last_updated: now,
            order: self.order.push(id),
            slots: self.slots.insert(id, slot),
        }
    }

    /// The ledger after forgetting slot `id`; the active pointer is cleared if it named `id`.
    pub open spec fn without_slot(self, id: u32, now: Seq<char>) -> LedgerModel {
        LedgerModel {
            active: if self.active == Some(id) {
                None
            } else {
                self.active
            },
            last_updated: now,
            order: order_without(self.order, id),
            slots: self.slots.remove(id),
        }
    }

    /// The ledger after making `id` active.
    pub open spec fn with_active(self, id: u32, now: Seq<char>) -> LedgerModel {
        LedgerModel { active: Some(id), last_updated: now, ..self }
    }

    /// The id that follows `id` in rotation order, wrapping past the end; an id
    /// that is not in the order counts as the first.
    pub open spec fn successor(self, id: u32) -> u32
        recommends
            self.order.len() > 0,
    {
        self.order[(position_or_zero(self.order, id) + 1) % (self.order.len() as int)]
    }
}

/// Facts about the largest id.
pub proof fn lemma_top_id(order: Seq<u32>)
    ensures
        forall|i: int| 0 <= i < order.len() ==> order[i] <= top_id(order),
        order.len() > 0 ==> order.contains(top_id(order) as u32),
        top_id(order) <= u32::MAX,
    decreases order.len(),
{
    if order.len() > 0 {
        let rest = order.drop_last();
        lemma_top_id(rest);
        assert forall|i: int| 0 <= i < order.len() implies order[i] <= top_id(order) by {
            if i < order.len() - 1 {
                assert(order[i] == rest[i]);
            }
        }
        if rest.len() == 0 {
            assert(order[0] == order.last());
        } else if order.last() as nat <= top_id(rest) {
            let j = choose|j: int| 0 <= j < rest.len() && rest[j] == top_id(rest) as u32;
            assert(order[j] == rest[j]);
        } else {
            assert(order[order.len() - 1] == order.last());
        }
    }
}

/// Registering an unused id keeps the ledger's invariant.
pub proof fn lemma_with_slot_wf(l: LedgerModel, id: u32, slot: SlotModel, now: Seq<char>)
    requires
        l.wf(),
        !l.slots.contains_key(id),
    ensures
        l.with_slot(id, slot, now).wf(),
{
    let n2 = l.with_slot(id, slot, now);
    assert(!l.order.contains(id));
    assert forall|n: u32| #[trigger] n2.slots.contains_key(n) <==> n2.order.contains(n) by {
        if n != id && l.order.contains(n) {
            let j = choose|j: int| 0 <= j < l.order.len() && l.order[j] == n;
            assert(n2.order[j] == n);
        }
        if n2.order.contains(n) && n != id {
            let j = choose|j: int| 0 <= j < n2.order.len() && n2.order[j] == n;
            assert(l.order[j] == n);
        }
        if n == id {
            assert(n2.order[n2.order.len() - 1] == id);
        }
    }
    assert forall|i: int, j: int|
        0 <= i < n2.order.len() && 0 <= j < n2.order.len() && i != j implies n2.order[i]
        != n2.order[j] by {
        if i == n2.order.len() - 1 {
            assert(l.order[j] == n2.order[j]);
        } else if j == n2.order.len() - 1 {
            assert(l.order[i] == n2.order[i]);
        }
    }
}

/// Forgetting an id keeps the ledger's invariant.
pub proof fn lemma_without_slot_wf(l: LedgerModel, id: u32, now: Seq<char>)
    requires
        l.wf(),
    ensures
        l.without_slot(id, now).wf(),
{
    lemma_order_without(l.order, id);
}

/// What removing `id` from an order without duplicates keeps.
pub proof fn lemma_order_without(order: Seq<u32>, id: u32)
    requires
        order.no_duplicates(),
    ensures
        order_without(order, id).no_duplicates(),
        forall|x: u32| #[trigger]
            order_without(order, id).contains(x) <==> (order.contains(x) && x != id),
    decreases order.len(),
{
    if order.len() > 0 {
        let rest = order.drop_last();
        assert(rest.no_duplicates());
        lemma_order_without(rest, id);
        let last = order.last();
        assert(order =~= rest.push(last));
        assert(!rest.contains(last)) by {
            if rest.contains(last) {
                let j = choose|j: int| 0 <= j < rest.len() && rest[j] == last;
                assert(order[j] == order[order.len() - 1]);
            }
        }
        let w = order_without(rest, id);
        let nw = order_without(order, id);
        assert forall|x: u32| #[trigger] nw.contains(x) <==> (order.contains(x) && x != id) by {
            if nw.contains(x) {
                let k = choose|k: int| 0 <= k < nw.len() && nw[k] == x;
                if last != id && k == nw.len() - 1 {
                    assert(order[order.len() - 1] == x);
                } else {
                    assert(w[k] == x);
                    assert(w.contains(x));
                    let j = choose|j: int| 0 <= j < rest.len() && rest[j] == x;
                    assert(order[j] == x);
                }
            }
            if order.contains(x) && x != id {
                let j = choose|j: int| 0 <= j < order.len() && order[j] == x;
                if j == order.len() - 1 {
                    assert(nw[nw.len() - 1] == x);
                } else {
                    assert(rest[j] == x);
                    assert(w.contains(x));
                    let k = choose|k: int| 0 <= k < w.len() && w[k] == x;
                    assert(nw[k] == x);
                }
            }
        }
        if last != id {
            let w = order_without(rest, id);
            let nw = order_without(order, id);
            assert(!w.contains(last));
            assert forall|i: int, j: int| 0 <= i < nw.len() && 0 <= j < nw.len() && i != j
                implies nw[i] != nw[j] by {
                if i == nw.len() - 1 {
                    assert(w[j] == nw[j]);
                } else if j == nw.len() - 1 {
                    assert(w[i] == nw[i]);
                } else {
                    assert(w[i] == nw[i] && w[j] == nw[j]);
                }
            }
        }
    }
}

/// The ledger: which slots exist, their rotation order, and which is active.
#[derive(Debug)]
pub struct SequenceFile {
    pub active_account_number: Option<u32>,
    pub last_updated: String,
    pub sequence: Vec<u32>,
    pub accounts: BTreeMap<u32, AccountEntry>,
}

impl View for SequenceFile {
    type V = LedgerModel;

    open spec fn view(&self) -> LedgerModel {
        LedgerModel {
            active: self.active_account_number,
            last_updated: self.last_updated@,
            order: self.sequence@,
            slots: self.accounts@.map_values(|e: AccountEntry| e@),
        }
    }
}

impl SequenceFile {
    pub open spec fn wf(&self) -> bool {
        self@.wf()
    }

    /// The ledger of a first run: no slots, nothing active.
    pub fn new() -> (r: SequenceFile)
        ensures
            r@ == LedgerModel::empty(),
            r.wf(),
    {
        let r = SequenceFile {
            active_account_number: None,
            last_updated: String::new(),
            sequence: Vec::new(),
            accounts: BTreeMap::new(),
        };
        assert(r@.slots =~= Map::empty());
        r
    }

    /// The entry of slot `num`, if it exists.
    pub fn entry(&self, num: u32) -> (r: Option<&AccountEntry>)
        ensures
            match r {
                Some(e) => self@.slots.contains_key(num) && e@ == self@.slots[num],
                None => !self@.slots.contains_key(num),
            },
    {
        self.accounts.get(&num)
    }

    /// One more than the largest slot id; `None` when the largest id is `u32::MAX`.
    pub fn next_account_number(&self) -> (r: Option<u32>)
        requires
            self.wf(),
        ensures
            r == self@.next_id(),
            r matches Some(n) ==> {
                &&& forall|k: u32| #[trigger] self@.slots.contains_key(k) ==> k < n
                &&& (n == 1 || self@.slots.contains_key((n - 1) as u32))
            },
            r is None ==> self@.slots.contains_key(u32::MAX),
    {
        let mut top: u32 = 0;
        let mut i: usize = 0;
        while i < self.sequence.len()
            invariant
                i <= self.sequence.len(),
                top == top_id(self.sequence@.subrange(0, i as int)),
            decreases self.sequence.len() - i,
        {
            assert(self.sequence@.subrange(0, i + 1).drop_last() =~= self.sequence@.subrange(
                0,
                i as int,
            ));
            if self.sequence[i] > top {
                top = self.sequence[i];
            }
            i = i + 1;
        }
        assert(self.sequence@.subrange(0, i as int) =~= self.sequence@);
        proof {
            lemma_top_id(self.sequence@);
        }
        if top < u32::MAX {
            Some(top + 1)
        } else {
            None
        }
    }

    /// The first slot in rotation order whose label is `email`.
    pub fn find_by_email(&self, email: &str) -> (r: Option<u32>)
        requires
            self.wf(),
        ensures
            r == self@.find_email(email@),
            r matches Some(n) ==> self@.slots.contains_key(n) && self@.slots[n].email == email@,
            r is None <==> !self@.has_email(email@),
    {
        let mut i: usize = 0;
        assert(self.sequence@.subrange(0, self.sequence.len() as int) =~= self.sequence@);
        while i < self.sequence.len()
            invariant
                self.wf(),
                i <= self.sequence.len(),
                self@.find_email(email@) == first_with_email(
                    self.sequence@.subrange(i as int, self.sequence.len() as int),
                    self@.slots,
                    email@,
                ),
                forall|j: int|
                    0 <= j < i ==> self@.slots[#[trigger] self.sequence@[j]].email != email@,
            decreases self.sequence.len() - i,
        {
            let n = self.sequence[i];
            let ghost tail = self.sequence@.subrange(i as int, self.sequence.len() as int);
            assert(tail.drop_first() =~= self.sequence@.subrange(
                i + 1,
                self.sequence.len() as int,
            ));
            assert(self@.order.contains(n));
            assert(self@.slots.contains_key(n));
            assert(self.accounts@.contains_key(n));
            let e = self.accounts.get(&n).unwrap();
            assert(self@.slots[n] == e@);
            assert(tail[0] == n);
            if e.email == email.to_string() {
                assert(self@.slots.contains_key(n) && self@.slots[n].email == email@);
                return Some(n);
            }
            i = i + 1;
        }
        assert(self.sequence@.subrange(i as int, self.sequence.len() as int) =~= Seq::empty());
        proof {
            assert forall|n: u32| #[trigger] self@.slots.contains_key(n) implies self@.slots[n].email
                != email@ by {
                assert(self@.order.contains(n));
                let j = choose|j: int| 0 <= j < self.sequence@.len() && self.sequence@[j] == n;
            }
        }
        None
    }

    /// Whether some slot is labelled `email`.
    pub fn account_exists(&self, email: &str) -> (r: bool)
        requires
            self.wf(),
        ensures
            r == self@.has_email(email@),
    {
        self.find_by_email(email).is_some()
    }

    /// Resolves an identifier: a number names the slot of that id (which must
    /// exist); anything else is matched against labels.
    pub fn resolve(&self, identifier: &str) -> (r: Option<u32>)
        requires
            self.wf(),
        ensures
            r == self@.resolve(identifier@),
            r matches Some(n) ==> self@.slots.contains_key(n),
    {
        match parse_u32(identifier) {
            Some(num) => {
                if self.accounts.contains_key(&num) {
                    Some(num)
                } else {
                    None
                }
            },
            None => self.find_by_email(identifier),
        }
    }
}

impl SequenceFile {
    /// Registers `entry` under the unused id `num`, appends it to the rotation
    /// and makes it active.
    pub fn register(&mut self, num: u32, entry: AccountEntry, now: String)
        requires
            old(self).wf(),
            !old(self)@.slots.contains_key(num),
        ensures
            final(self)@ == old(self)@.with_slot(num, entry@, now@),
            final(self).wf(),
    {
        let ghost old_model = self@;
        let ghost e = entry@;
        self.accounts.insert(num, entry);
        self.sequence.push(num);
        self.active_account_number = Some(num);
        self.last_updated = now;
        proof {
            assert(self@.slots =~= old_model.slots.insert(num, e));
            assert(self@ =~= old_model.with_slot(num, e, now@));
            lemma_with_slot_wf(old_model, num, e, now@);
        }
    }

    /// Forgets slot `num`: it leaves the map and the rotation, and the active
    /// pointer is cleared if it named `num`.
    pub fn forget(&mut self, num: u32, now: String)
        requires
            old(self).wf(),
        ensures
            final(self)@ == old(self)@.without_slot(num, now@),
            final(self).wf(),
    {
        let ghost old_model = self@;
        let mut kept: Vec<u32> = Vec::new();
        let mut i: usize = 0;
        while i < self.sequence.len()
            invariant
                i <= self.sequence.len(),
                kept@ == order_without(self.sequence@.subrange(0, i as int), num),
            decreases self.sequence.len() - i,
        {
            assert(self.sequence@.subrange(0, i + 1).drop_last() =~= self.sequence@.subrange(
                0,
                i as int,
            ));
            if self.sequence[i] != num {
                kept.push(self.sequence[i]);
            }
            i = i + 1;
        }
        assert(self.sequence@.subrange(0, i as int) =~= self.sequence@);
        self.sequence = kept;
        self.accounts.remove(&num);
        if self.active_account_number == Some(num) {
            self.active_account_number = None;
        }
        self.last_updated = now;
        proof {
            assert(self@.slots =~= old_model.slots.remove(num));
            assert(self@ =~= old_model.without_slot(num, now@));
            lemma_without_slot_wf(old_model, num, now@);
        }
    }

    /// Makes the existing slot `num` active.
    pub fn activate(&mut self, num: u32, now: String)
        requires
            old(self).wf(),
            old(self)@.slots.contains_key(num),
        ensures
            final(self)@ == old(self)@.with_active(num, now@),
            final(self).wf(),
    {
        self.active_account_number = Some(num);
        self.last_updated = now;
    }

    /// The id after `num` in rotation order, wrapping past the end; an id that
    /// is not in the rotation counts as the first.
    pub fn successor(&self, num: u32) -> (r: u32)
        requires
            self.wf(),
            self.sequence.len() > 0,
        ensures
            r == self@.successor(num),
            self@.slots.contains_key(r),
    {
        let mut pos: usize = 0;
        let mut i: usize = 0;
        while i < self.sequence.len()
            invariant
                i <= self.sequence.len(),
                forall|j: int| 0 <= j < i ==> self.sequence@[j] != num,
            ensures
                i <= self.sequence.len(),
                forall|j: int| 0 <= j < i ==> self.sequence@[j] != num,
                i < self.sequence.len() ==> self.sequence@[i as int] == num,
            decreases self.sequence.len() - i,
        {
            if self.sequence[i] == num {
                break;
            }
            i = i + 1;
        }
        if i < self.sequence.len() {
            pos = i;
            proof {
                assert(self@.order[i as int] == num);
                assert(self@.order.contains(num));
                let k = self@.order.index_of(num);
                assert(self@.order.no_duplicates());
                assert(k == i as int);
            }
        } else {
            assert(!self@.order.contains(num));
        }
        let r = self.sequence[(pos + 1) % self.sequence.len()];
        proof {
            let idx = (pos + 1) % (self.sequence.len() as int);
            assert(self@.order[idx] == r);
            assert(self@.order.contains(r));
        }
        r
    }
}

} // verus!
