//! Properties that relate several operations, proved over their specifications.

use vstd::prelude::*;

use crate::engine::{
    add_spec, live_email, remove_spec, rotation_spec, status_spec, switch_spec, token_add_spec,
    AddModel, EngineError, Rotation, StatusView, StepModel, SwitchModel,
};
use crate::json::json_valid;
use crate::ledger::{
    first_with_email, lemma_with_slot_wf, lemma_without_slot_wf, AuthKind, LedgerModel, SlotModel,
};
use crate::store::{atomic_spec, StoreError};

verus! {

/// With no slot of `order` labelled `email`, the search finds nothing.
pub proof fn lemma_no_label_no_match(order: Seq<u32>, slots: Map<u32, SlotModel>, email: Seq<char>)
    requires
        forall|i: int| 0 <= i < order.len() ==> slots[#[trigger] order[i]].email != email,
    ensures
        first_with_email(order, slots, email) is None,
    decreases order.len(),
{
    if order.len() > 0 {
        assert forall|i: int| 0 <= i < order.drop_first().len() implies slots[
            #[trigger] order.drop_first()[i]
        ].email != email by {
            assert(order.drop_first()[i] == order[i + 1]);
        }
        lemma_no_label_no_match(order.drop_first(), slots, email);
    }
}

/// When the search finds nothing, no slot of `order` is labelled `email`.
pub proof fn lemma_no_match_no_label(order: Seq<u32>, slots: Map<u32, SlotModel>, email: Seq<char>)
    requires
        first_with_email(order, slots, email) is None,
    ensures
        forall|i: int| 0 <= i < order.len() ==> slots[#[trigger] order[i]].email != email,
    decreases order.len(),
{
    if order.len() > 0 {
        lemma_no_match_no_label(order.drop_first(), slots, email);
        assert forall|i: int| 0 <= i < order.len() implies slots[#[trigger] order[i]].email
            != email by {
            if i > 0 {
                assert(order[i] == order.drop_first()[i - 1]);
            }
        }
    }
}

/// Appending an id whose slot is the only one labelled `email` makes the
/// search find that id.
proof fn lemma_match_appended(
    order: Seq<u32>,
    slots: Map<u32, SlotModel>,
    id: u32,
    email: Seq<char>,
)
    requires
        forall|i: int| 0 <= i < order.len() ==> slots[#[trigger] order[i]].email != email,
        slots[id].email == email,
    ensures
        first_with_email(order.push(id), slots, email) == Some(id),
    decreases order.len(),
{
    if order.len() > 0 {
        assert(order.push(id).drop_first() =~= order.drop_first().push(id));
        assert forall|i: int| 0 <= i < order.drop_first().len() implies slots[
            #[trigger] order.drop_first()[i]
        ].email != email by {
            assert(order.drop_first()[i] == order[i + 1]);
        }
        lemma_match_appended(order.drop_first(), slots, id, email);
        assert(order.push(id)[0] == order[0]);
    } else {
        assert(order.push(id)[0] == id);
    }
}

/// Adding is idempotent: once the live account has been added, adding it again
/// (whatever the live credentials and the time) changes nothing and reports the
/// slot it was given.
pub proof fn lemma_add_idempotent(
    l: LedgerModel,
    config: Option<Seq<char>>,
    creds: Option<Seq<char>>,
    now: Seq<char>,
    creds2: Option<Seq<char>>,
    now2: Seq<char>,
)
    requires
        l.wf(),
        add_spec(l, config, creds, now).0 is Added,
    ensures
        ({
            let (first, l2) = add_spec(l, config, creds, now);
            let num = first->Added_0;
            add_spec(l2, config, creds2, now2) == (AddModel::AlreadyManaged(num), l2)
        }),
{
    let (first, l2) = add_spec(l, config, creds, now);
    let num = first->Added_0;
    let email = live_email(config)->0;
    lemma_no_match_no_label(l.order, l.slots, email);
    assert forall|i: int| 0 <= i < l.order.len() implies l2.slots[#[trigger] l.order[i]].email
        != email by {
        let n = l.order[i];
        assert(l.order.contains(n));
        assert(l.slots.contains_key(n));
        crate::engine::lemma_next_id_unused(l);
        assert(n != num);
    }
    lemma_match_appended(l.order, l2.slots, num, email);
    assert(l2.slots.contains_key(num));
}

/// Rotation wraps: from the last slot of the rotation, the next is the first.
pub proof fn lemma_rotation_wraps(l: LedgerModel, config: Option<Seq<char>>)
    requires
        l.wf(),
        l.order.len() >= 2,
    ensures
        l.successor(l.order.last()) == l.order[0],
        l.active == Some(l.order.last()) ==> rotation_spec(l, config) == Ok::<
            Rotation,
            EngineError,
        >(Rotation::Next { num: l.order[0] }),
{
    let last = l.order.last();
    let k = l.order.len() - 1;
    assert(l.order[k] == last);
    assert(l.order.contains(last));
    let j = l.order.index_of(last);
    assert(j == k);
    vstd::arithmetic::div_mod::lemma_mod_self_0(l.order.len() as int);
    assert(k + 1 == l.order.len() as int);
}

/// Switching away from an OAUTH slot first copies the live credentials,
/// unchanged, into that slot's backup, and leaves the target active.
pub proof fn lemma_switch_snapshots_live(
    l: LedgerModel,
    target: u32,
    config: Option<Seq<char>>,
    live_creds: Option<Seq<char>>,
    backup_creds: Option<Seq<char>>,
    backup_config: Option<Seq<char>>,
    now: Seq<char>,
)
    requires
        l.wf(),
        switch_spec(l, target, config, live_creds, backup_creds, backup_config, now).0 is Switched,
    ensures
        ({
            let (r, l2) = switch_spec(
                l,
                target,
                config,
                live_creds,
                backup_creds,
                backup_config,
                now,
            );
            let from = r->Switched_0;
            let steps = r->Switched_2;
            &&& l2.active == Some(target)
            &&& l2.slots == l.slots
            &&& l2.order == l.order
            &&& (l.slots[from].auth_kind == AuthKind::Oauth ==> steps[0]
                == StepModel::SaveCredentialBackup {
                slot: from,
                label: l.slots[from].email,
                blob: live_creds->0,
            })
        }),
{
}

/// Removal never touches live storage, and once the active slot is gone while
/// no other slot carries the live label, status reports the live account as
/// logged in without a slot.
pub proof fn lemma_remove_keeps_live(
    l: LedgerModel,
    num: u32,
    now: Seq<char>,
    config: Option<Seq<char>>,
    env_token_set: bool,
)
    requires
        l.wf(),
        l.slots.contains_key(num),
    ensures
        ({
            let (r, l2) = remove_spec(l, num, now);
            &&& r is Ok
            &&& forall|i: int| 0 <= i < r->Ok_0.len() ==> !(#[trigger] r->Ok_0[i]).touches_live()
            &&& l2.wf()
            &&& (l.active == Some(num) && live_email(config) is Some && !l2.has_email(
                live_email(config)->0,
            )) ==> status_spec(l2, config, env_token_set) == StatusView::UnmanagedLive
        }),
{
    let (r, l2) = remove_spec(l, num, now);
    crate::ledger::lemma_order_without(l.order, num);
    assert forall|n: u32| #[trigger] l2.slots.contains_key(n) <==> l2.order.contains(n) by {}
    if l.active == Some(num) && live_email(config) is Some && !l2.has_email(live_email(config)->0) {
        let e = live_email(config)->0;
        assert forall|i: int| 0 <= i < l2.order.len() implies l2.slots[#[trigger] l2.order[i]].email
            != e by {
            let n = l2.order[i];
            assert(l2.order.contains(n));
            assert(l2.slots.contains_key(n));
        }
        lemma_no_label_no_match(l2.order, l2.slots, e);
    }
}

/// A write whose content is not JSON is refused, so the destination is never touched.
pub proof fn lemma_invalid_json_never_written(path: Seq<char>, content: Seq<char>, pid: u32)
    requires
        !json_valid(content),
    ensures
        atomic_spec(path, content, pid) == Err::<crate::store::OpModel, StoreError>(
            StoreError::InvalidJson,
        ),
{
}

/// Every operation keeps the ledger's invariant: the ids of the rotation order
/// are the keys of the slot map, without duplicates, and the active id is one
/// of them.
pub proof fn lemma_operations_keep_invariant(
    l: LedgerModel,
    config: Option<Seq<char>>,
    live_creds: Option<Seq<char>>,
    target: u32,
    backup_creds: Option<Seq<char>>,
    backup_config: Option<Seq<char>>,
    num: u32,
    token: Seq<char>,
    label: Seq<char>,
    now: Seq<char>,
)
    requires
        l.wf(),
    ensures
        add_spec(l, config, live_creds, now).1.wf(),
        switch_spec(l, target, config, live_creds, backup_creds, backup_config, now).1.wf(),
        remove_spec(l, num, now).1.wf(),
        token_add_spec(l, token, label, config, now).1.wf(),
{
    crate::engine::lemma_next_id_unused(l);
    if let Some(id) = l.next_id() {
        let e = live_email(config);
        if let Some(email) = e {
            let uuid = match crate::engine::live_uuid(config) {
                Some(u) => u,
                None => Seq::empty(),
            };
            lemma_with_slot_wf(
                l,
                id,
                SlotModel { email, uuid, added: now, auth_kind: AuthKind::Oauth },
                now,
            );
        }
        lemma_with_slot_wf(
            l,
            id,
            SlotModel { email: label, uuid: Seq::empty(), added: now, auth_kind: AuthKind::Token },
            now,
        );
    }
    lemma_without_slot_wf(l, num, now);
}

} // verus!
