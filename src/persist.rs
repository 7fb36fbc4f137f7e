//! The ledger as stored: slot ids written as decimal keys. Loading checks the
//! ledger's invariant and never repairs a malformed ledger.

use std::collections::BTreeMap;
use vstd::prelude::*;

use crate::ledger::{AccountEntry, LedgerModel, SequenceFile, SlotModel};
use crate::text::{decimal, decimal_of, parse_u32, parsed_u32};

verus! {

broadcast use vstd::laws_cmp::group_laws_cmp;

/// The stored form of a ledger: the slot map is keyed by decimal ids.
#[derive(Debug)]
pub struct LedgerParts {
    pub active_account_number: Option<u32>,
    pub last_updated: String,
    pub sequence: Vec<u32>,
    pub accounts: Vec<(String, AccountEntry)>,
}

/// [`LedgerParts`] as mathematical values.
pub struct PartsModel {
    pub active: Option<u32>,
    pub last_updated: Seq<char>,
    pub sequence: Seq<u32>,
    pub keys: Seq<Seq<char>>,
    pub entries: Seq<SlotModel>,
}

impl View for LedgerParts {
    type V = PartsModel;

    open spec fn view(&self) -> PartsModel {
        PartsModel {
            active: self.active_account_number,
            last_updated: self.last_updated@,
            sequence: self.sequence@,
            keys: self.accounts@.map_values(|p: (String, AccountEntry)| p.0@),
            entries: self.accounts@.map_values(|p: (String, AccountEntry)| p.1@),
        }
    }
}

/// Why a stored ledger was refused.
#[derive(Clone, Copy, Debug, PartialEq, Eq, Structural)]
pub enum LedgerError {
    /// The stored ledger is malformed: a key is not an id, an id repeats, or
    /// the rotation order and the slot map disagree.
    InvalidState,
}

/// The id that key `i` names.
pub open spec fn key_id(m: PartsModel, i: int) -> u32 {
    match parsed_u32(m.keys[i]) {
        Some(n) => n,
        None => 0,
    }
}

impl PartsModel {
    /// Whether the stored ledger is well formed.
    pub open spec fn valid(self) -> bool {
        &&& self.keys.len() == self.entries.len()
        &&& forall|i: int| 0 <= i < self.keys.len() ==> (#[trigger] parsed_u32(self.keys[i])) is Some
        &&& forall|i: int, j: int|
            0 <= i < self.keys.len() && 0 <= j < self.keys.len() && i != j ==> key_id(self, i)
                != key_id(self, j)
        &&& self.sequence.no_duplicates()
        &&& forall|n: u32| #[trigger]
            self.sequence.contains(n) <==> exists|i: int|
                0 <= i < self.keys.len() && #[trigger] key_id(self, i) == n
        &&& (self.active matches Some(a) ==> self.sequence.contains(a))
    }

    /// The ledger a well-formed stored ledger describes.
    pub open spec fn ledger(self) -> LedgerModel {
        LedgerModel {
            active: self.active,
            last_updated: self.last_updated,
            order: self.sequence,
            slots: Map::new(
                |n: u32| self.sequence.contains(n),
                |n: u32|
                    self.entries[choose|i: int| 0 <= i < self.keys.len() && key_id(self, i) == n],
            ),
        }
    }
}

/// The stored form of a ledger: keys in rotation order.
pub open spec fn parts_of(l: LedgerModel) -> PartsModel {
    PartsModel {
        active: l.active,
        last_updated: l.last_updated,
        sequence: l.order,
        keys: l.order.map_values(|n: u32| decimal_of(n as nat)),
        entries: l.order.map_values(|n: u32| l.slots[n]),
    }
}

fn contains_id(v: &Vec<u32>, x: u32) -> (r: bool)
    ensures
        r == v@.contains(x),
{
    let mut i: usize = 0;
    while i < v.len()
        invariant
            i <= v.len(),
            forall|j: int| 0 <= j < i ==> v@[j] != x,
        decreases v.len() - i,
    {
        if v[i] == x {
            assert(v@[i as int] == x);
            return true;
        }
        i = i + 1;
    }
    false
}

fn no_repeats(v: &Vec<u32>) -> (r: bool)
    ensures
        r == v@.no_duplicates(),
{
    let mut i: usize = 0;
    while i < v.len()
        invariant
            i <= v.len(),
            forall|a: int, b: int| 0 <= a < b < i ==> v@[a] != v@[b],
        decreases v.len() - i,
    {
        let mut j: usize = 0;
        while j < i
            invariant
                i < v.len(),
                j <= i,
                forall|a: int, b: int| 0 <= a < b < i ==> v@[a] != v@[b],
                forall|a: int| 0 <= a < j ==> v@[a] != v@[i as int],
            decreases i - j,
        {
            if v[j] == v[i] {
                return false;
            }
            j = j + 1;
        }
        i = i + 1;
    }
    true
}

/// Builds a ledger from its stored form, refusing a malformed one.
pub fn from_parts(parts: &LedgerParts) -> (r: Result<SequenceFile, LedgerError>)
    ensures
        r is Ok <==> parts@.valid(),
        r matches Ok(l) ==> l@ == parts@.ledger() && l.wf(),
{
    let ghost m = parts@;
    let mut map: BTreeMap<u32, AccountEntry> = BTreeMap::new();
    let mut i: usize = 0;
    while i < parts.accounts.len()
        invariant
            m == parts@,
            i <= parts.accounts.len(),
            forall|j: int| 0 <= j < i ==> (#[trigger] parsed_u32(m.keys[j])) is Some,
            forall|a: int, b: int| 0 <= a < i && 0 <= b < i && a != b ==> key_id(m, a) != key_id(m, b),
            forall|n: u32| #[trigger] map@.contains_key(n) <==> exists|j: int| 0 <= j < i && #[trigger] key_id(m, j) == n,
            forall|j: int| 0 <= j < i ==> (#[trigger] map@[key_id(m, j)])@ == m.entries[j],
        decreases parts.accounts.len() - i,
    {
        let key = &parts.accounts[i].0;
        assert(m.keys[i as int] == key@);
        let id = match parse_u32(key.as_str()) {
            Some(n) => n,
            None => return Err(LedgerError::InvalidState),
        };
        assert(key_id(m, i as int) == id);
        if map.contains_key(&id) {
            proof {
                let j = choose|j: int| 0 <= j < i && #[trigger] key_id(m, j) == id;
                assert(key_id(m, j) == key_id(m, i as int));
            }
            return Err(LedgerError::InvalidState);
        }
        let ghost old_map = map@;
        map.insert(id, parts.accounts[i].1.duplicate());
        proof {
            assert(key_id(m, i as int) == id);
            assert forall|n: u32| #[trigger] map@.contains_key(n) <==> exists|j: int| 0 <= j < i + 1 && #[trigger] key_id(m, j) == n by {
                if n == id {
                    assert(key_id(m, i as int) == n);
                }
                if exists|j: int| 0 <= j < i + 1 && #[trigger] key_id(m, j) == n {
                    let j = choose|j: int| 0 <= j < i + 1 && #[trigger] key_id(m, j) == n;
                    if j < i {
                        assert(old_map.contains_key(n));
                    }
                }
            }
            assert forall|j: int| 0 <= j < i + 1 implies (#[trigger] map@[key_id(m, j)])@ == m.entries[j] by {
                if j < i {
                    assert(old_map.contains_key(key_id(m, j)));
                }
            }
        }
        i = i + 1;
    }
    if !no_repeats(&parts.sequence) {
        return Err(LedgerError::InvalidState);
    }
    let mut k: usize = 0;
    while k < parts.sequence.len()
        invariant
            m == parts@,
            k <= parts.sequence.len(),
            forall|a: int| 0 <= a < k ==> map@.contains_key(#[trigger] parts.sequence@[a]),
            forall|n: u32| #[trigger] map@.contains_key(n) <==> exists|j: int| 0 <= j < parts.accounts.len() && #[trigger] key_id(m, j) == n,
        decreases parts.sequence.len() - k,
    {
        if !map.contains_key(&parts.sequence[k]) {
            proof {
                let n = parts.sequence@[k as int];
                assert(m.sequence.contains(n));
            }
            return Err(LedgerError::InvalidState);
        }
        k = k + 1;
    }
    let mut j: usize = 0;
    while j < parts.accounts.len()
        invariant
            m == parts@,
            j <= parts.accounts.len(),
            i == parts.accounts.len(),
            forall|a: int| 0 <= a < j ==> m.sequence.contains(#[trigger] key_id(m, a)),
            forall|j: int| 0 <= j < i ==> (#[trigger] parsed_u32(m.keys[j])) is Some,
        decreases parts.accounts.len() - j,
    {
        assert(m.keys[j as int] == parts.accounts[j as int].0@);
        assert(parsed_u32(m.keys[j as int]) is Some);
        let id = parse_u32(parts.accounts[j].0.as_str()).unwrap();
        assert(key_id(m, j as int) == id);
        if !contains_id(&parts.sequence, id) {
            return Err(LedgerError::InvalidState);
        }
        j = j + 1;
    }
    match parts.active_account_number {
        Some(a) => {
            if !contains_id(&parts.sequence, a) {
                return Err(LedgerError::InvalidState);
            }
        },
        None => {},
    }
    let l = SequenceFile {
        active_account_number: parts.active_account_number,
        last_updated: parts.last_updated.clone(),
        sequence: parts.sequence.clone(),
        accounts: map,
    };
    proof {
        assert(l.sequence@ == m.sequence);
        assert forall|n: u32| #[trigger] m.sequence.contains(n) <==> exists|i: int|
                0 <= i < m.keys.len() && #[trigger] key_id(m, i) == n by {
            if m.sequence.contains(n) {
                let a = choose|a: int| 0 <= a < m.sequence.len() && m.sequence[a] == n;
                assert(map@.contains_key(parts.sequence@[a]));
            }
        }
        assert(m.valid());
        assert(l@.slots =~= m.ledger().slots) by {
            assert forall|n: u32| #[trigger] l@.slots.contains_key(n) implies l@.slots[n] == m.ledger().slots[n] by {
                let c = choose|c: int| 0 <= c < m.keys.len() && key_id(m, c) == n;
                assert(map@[key_id(m, c)]@ == m.entries[c]);
            }
        }
        assert(l@ =~= m.ledger());
    }
    Ok(l)
}

/// Loads a ledger: nothing stored is a first run and gives the empty ledger;
/// a stored ledger is checked (see [`from_parts`]).
pub fn load(stored: Option<LedgerParts>) -> (r: Result<SequenceFile, LedgerError>)
    ensures
        stored is None ==> (r matches Ok(l) && l@ == LedgerModel::empty()),
        stored matches Some(p) ==> (r is Ok <==> p@.valid()),
        stored matches Some(p) ==> (r matches Ok(l) ==> l@ == p@.ledger()),
        r matches Ok(l) ==> l.wf(),
{
    match stored {
        None => Ok(SequenceFile::new()),
        Some(p) => from_parts(&p),
    }
}

impl SequenceFile {
    /// The stored form of this ledger: keys in rotation order.
    pub fn to_parts(&self) -> (r: LedgerParts)
        requires
            self.wf(),
        ensures
            r@ == parts_of(self@),
    {
        let mut accounts: Vec<(String, AccountEntry)> = Vec::new();
        let mut i: usize = 0;
        while i < self.sequence.len()
            invariant
                self.wf(),
                i <= self.sequence.len(),
                accounts@.len() == i,
                forall|j: int|
                    0 <= j < i ==> (#[trigger] accounts@[j]).0@ == decimal_of(self.sequence@[j] as nat)
                        && accounts@[j].1@ == self@.slots[self.sequence@[j]],
            decreases self.sequence.len() - i,
        {
            let n = self.sequence[i];
            assert(self@.order.contains(n));
            assert(self@.slots.contains_key(n));
            let e = self.entry(n).unwrap();
            accounts.push((decimal(n), e.duplicate()));
            i = i + 1;
        }
        let r = LedgerParts {
            active_account_number: self.active_account_number,
            last_updated: self.last_updated.clone(),
            sequence: self.sequence.clone(),
            accounts,
        };
        assert(r@.keys =~= parts_of(self@).keys);
        assert(r@.entries =~= parts_of(self@).entries);
        r
    }
}

/// Storing a ledger and loading it back gives the same ledger: the same slot
/// map, rotation order, active pointer and timestamp.
pub proof fn lemma_round_trip(l: LedgerModel)
    requires
        l.wf(),
    ensures
        parts_of(l).valid(),
        parts_of(l).ledger() == l,
{
    let m = parts_of(l);
    assert forall|i: int| 0 <= i < m.keys.len() implies key_id(m, i) == l.order[i] && (#[trigger] parsed_u32(m.keys[i])) is Some by {
        crate::text::lemma_parse_decimal(l.order[i]);
    }
    assert forall|i: int, j: int|
        0 <= i < m.keys.len() && 0 <= j < m.keys.len() && i != j implies key_id(m, i) != key_id(m, j) by {
        assert(key_id(m, i) == l.order[i]);
        assert(key_id(m, j) == l.order[j]);
    }
    assert forall|n: u32| #[trigger] m.sequence.contains(n) <==> exists|i: int|
            0 <= i < m.keys.len() && #[trigger] key_id(m, i) == n by {
        if m.sequence.contains(n) {
            let i = choose|i: int| 0 <= i < l.order.len() && l.order[i] == n;
            assert(key_id(m, i) == n);
        }
        if exists|i: int| 0 <= i < m.keys.len() && #[trigger] key_id(m, i) == n {
            let i = choose|i: int| 0 <= i < m.keys.len() && #[trigger] key_id(m, i) == n;
            assert(key_id(m, i) == l.order[i]);
        }
    }
    assert(m.ledger().slots =~= l.slots) by {
        assert forall|n: u32| #[trigger] m.ledger().slots.contains_key(n) <==> l.slots.contains_key(n) by {}
        assert forall|n: u32| #[trigger] l.slots.contains_key(n) implies m.ledger().slots[n] == l.slots[n] by {
            assert(l.order.contains(n));
            let c = choose|c: int| 0 <= c < m.keys.len() && key_id(m, c) == n;
            assert(key_id(m, c) == l.order[c]);
        }
    }
    assert(m.ledger() =~= l);
}

} // verus!
