//! What a proposal can ask for, and what carrying it out means.

use vstd::prelude::*;
use crate::account::AccountId;
use crate::error::ZeitDAOError;
use crate::runtime::{call_views, remark_call, transfer_call, RuntimeCall, RuntimeCallView};

verus! {

/// An action that can be proposed.
#[derive(Debug, PartialEq)]
pub enum DAOAction {
    /// Leave the proposal's data on chain as a remark.
    RemarkWithEvent,
    /// Split the amount evenly among the current members, one transfer each.
    /// What does not divide evenly stays with the engine.
    DistributeBalance(u128),
    /// Append the account to the members.
    AddMember(AccountId),
    /// Remove every entry of the account from the members.
    RemoveMember(AccountId),
    /// Carry out the actions one after the other, all or none.
    Batch(Vec<DAOAction>),
}

/// What a `DAOAction` asks for.
pub enum DAOActionView {
    RemarkWithEvent,
    DistributeBalance(u128),
    AddMember(AccountId),
    RemoveMember(AccountId),
    Batch(Seq<DAOActionView>),
}

impl View for DAOAction {
    type V = DAOActionView;

    open spec fn view(&self) -> DAOActionView
        decreases self,
    {
        match self {
            DAOAction::RemarkWithEvent => DAOActionView::RemarkWithEvent,
            DAOAction::DistributeBalance(amount) => DAOActionView::DistributeBalance(*amount),
            DAOAction::AddMember(who) => DAOActionView::AddMember(*who),
            DAOAction::RemoveMember(who) => DAOActionView::RemoveMember(*who),
            DAOAction::Batch(items) => DAOActionView::Batch(
                Seq::new(
                    items@.len(),
                    |i: int|
                        if 0 <= i < items@.len() {
                            items@[i]@
                        } else {
                            DAOActionView::RemarkWithEvent
                        },
                ),
            ),
        }
    }
}

/// The view of a batch holds the views of its items, in order.
pub proof fn lemma_batch_view(items: Vec<DAOAction>)
    ensures
        DAOAction::Batch(items)@ is Batch,
        DAOAction::Batch(items)@->Batch_0.len() == items@.len(),
        forall|i: int|
            0 <= i < items@.len() ==> (#[trigger] DAOAction::Batch(items)@->Batch_0[i])
                == items@[i]@,
{
    reveal_with_fuel(<DAOAction as View>::view, 2);
}

impl Clone for DAOAction {
    fn clone(&self) -> (copy: DAOAction)
        ensures
            copy@ == self@,
        decreases self,
    {
        match self {
            DAOAction::RemarkWithEvent => DAOAction::RemarkWithEvent,
            DAOAction::DistributeBalance(amount) => DAOAction::DistributeBalance(*amount),
            DAOAction::AddMember(who) => DAOAction::AddMember(*who),
            DAOAction::RemoveMember(who) => DAOAction::RemoveMember(*who),
            DAOAction::Batch(items) => {
                let mut copies: Vec<DAOAction> = Vec::new();
                let mut i: usize = 0;
                while i < items.len()
                    invariant
                        *self == DAOAction::Batch(*items),
                        i <= items.len(),
                        copies.len() == i,
                        forall|j: int| 0 <= j < i ==> copies@[j]@ == items@[j]@,
                    decreases items.len() - i,
                {
                    proof {
                        assert(decreases_to!(*self => self->Batch_0));
                    }
                    copies.push(items[i].clone());
                    i += 1;
                }
                let copy = DAOAction::Batch(copies);
                assert(copy@ == self@) by {
                    assert(copy@->Batch_0 =~= self@->Batch_0);
                }
                copy
            },
        }
    }
}

/// A proposed action together with its raw argument.
#[derive(Debug, PartialEq)]
pub struct StorableRuntimeAction {
    pub selector: DAOAction,
    pub data: Vec<u8>,
}

/// What a `StorableRuntimeAction` asks for.
pub struct StorableRuntimeActionView {
    pub selector: DAOActionView,
    pub data: Seq<u8>,
}

impl View for StorableRuntimeAction {
    type V = StorableRuntimeActionView;

    open spec fn view(&self) -> StorableRuntimeActionView {
        StorableRuntimeActionView { selector: self.selector@, data: self.data@ }
    }
}

impl Clone for StorableRuntimeAction {
    fn clone(&self) -> (copy: StorableRuntimeAction)
        ensures
            copy@ == self@,
    {
        StorableRuntimeAction { selector: self.selector.clone(), data: self.data.clone() }
    }
}

/// What carrying out an action comes to: the members afterwards, and the
/// requests to submit to the runtime, in order.
pub struct Dispatched {
    pub members: Seq<AccountId>,
    pub calls: Seq<RuntimeCallView>,
}

/// One transfer of `share` to each of `members`, in their order.
pub open spec fn share_calls(members: Seq<AccountId>, share: u128) -> Seq<RuntimeCallView> {
    Seq::new(members.len(), |i: int| transfer_call(members[i], share))
}

/// Holds of every account but `who`.
pub open spec fn other_than(who: AccountId) -> spec_fn(AccountId) -> bool {
    |m: AccountId| m != who
}

/// `members` without every entry of `who`, the rest in order.
pub open spec fn without(members: Seq<AccountId>, who: AccountId) -> Seq<AccountId> {
    members.filter(other_than(who))
}

/// What carrying out `action` with the argument `data` comes to, starting
/// from `members`, or why it cannot be carried out.
pub open spec fn dispatch(action: DAOActionView, data: Seq<u8>, members: Seq<AccountId>) -> Result<
    Dispatched,
    ZeitDAOError,
>
    decreases action,
{
    match action {
        DAOActionView::RemarkWithEvent => Ok(
            Dispatched { members, calls: seq![remark_call(data)] },
        ),
        DAOActionView::DistributeBalance(amount) => if members.len() == 0 {
            Err(ZeitDAOError::UnsupportedAction)
        } else {
            Ok(
                Dispatched {
                    members,
                    calls: share_calls(members, (amount as nat / members.len()) as u128),
                },
            )
        },
        DAOActionView::AddMember(who) => Ok(
            Dispatched { members: members.push(who), calls: Seq::empty() },
        ),
        DAOActionView::RemoveMember(who) => Ok(
            Dispatched { members: without(members, who), calls: Seq::empty() },
        ),
        DAOActionView::Batch(items) => dispatch_from(items, 0, data, members),
    }
}

/// What carrying out `items[from..]` one after the other comes to: each item
/// starts from the members that the one before it left, the requests follow
/// each other, and the first item that cannot be carried out fails the whole.
pub open spec fn dispatch_from(
    items: Seq<DAOActionView>,
    from: int,
    data: Seq<u8>,
    members: Seq<AccountId>,
) -> Result<Dispatched, ZeitDAOError>
    decreases items, items.len() - from,
{
    if 0 <= from < items.len() {
        match dispatch(items[from], data, members) {
            Err(e) => Err(e),
            Ok(first) => after(first.calls, dispatch_from(items, from + 1, data, first.members)),
        }
    } else {
        Ok(Dispatched { members, calls: Seq::empty() })
    }
}

/// `rest` with the requests `calls` put before its own.
pub open spec fn after(calls: Seq<RuntimeCallView>, rest: Result<Dispatched, ZeitDAOError>) -> Result<
    Dispatched,
    ZeitDAOError,
> {
    match rest {
        Err(e) => Err(e),
        Ok(d) => Ok(Dispatched { members: d.members, calls: calls + d.calls }),
    }
}

/// Whether `r` is `expected`, read through the views.
pub open spec fn dispatched_as(
    r: Result<(Vec<AccountId>, Vec<RuntimeCall>), ZeitDAOError>,
    expected: Result<Dispatched, ZeitDAOError>,
) -> bool {
    match expected {
        Err(e) => r == Err::<(Vec<AccountId>, Vec<RuntimeCall>), ZeitDAOError>(e),
        Ok(d) => r matches Ok((members, calls)) && members@ == d.members && call_views(calls@)
            == d.calls,
    }
}

impl DAOAction {
    /// Carries the action out on `members`: returns the members afterwards
    /// and the requests to submit to the runtime, in order, or the reason
    /// why the action cannot be carried out.
    pub fn dispatch(&self, data: &Vec<u8>, members: Vec<AccountId>) -> (r: Result<
        (Vec<AccountId>, Vec<RuntimeCall>),
        ZeitDAOError,
    >)
        ensures
            dispatched_as(r, dispatch(self@, data@, members@)),
        decreases self,
    {
        match self {
            DAOAction::RemarkWithEvent => {
                let mut calls: Vec<RuntimeCall> = Vec::new();
                calls.push(RuntimeCall::remark(data));
                assert(call_views(calls@) =~= seq![remark_call(data@)]);
                Ok((members, calls))
            },
            DAOAction::DistributeBalance(amount) => {
                if members.len() == 0 {
                    return Err(ZeitDAOError::UnsupportedAction);
                }
                let share: u128 = *amount / (members.len() as u128);
                let mut calls: Vec<RuntimeCall> = Vec::new();
                let mut i: usize = 0;
                while i < members.len()
                    invariant
                        i <= members.len(),
                        calls.len() == i,
                        forall|j: int| 0 <= j < i ==> calls@[j]@ == transfer_call(members@[j], share),
                    decreases members.len() - i,
                {
                    calls.push(RuntimeCall::transfer(members[i], share));
                    i += 1;
                }
                assert(call_views(calls@) =~= share_calls(members@, share));
                Ok((members, calls))
            },
            DAOAction::AddMember(who) => {
                let mut members = members;
                members.push(*who);
                let calls: Vec<RuntimeCall> = Vec::new();
                assert(call_views(calls@) =~= Seq::empty());
                Ok((members, calls))
            },
            DAOAction::RemoveMember(who) => {
                let kept = remove_all(&members, who);
                let calls: Vec<RuntimeCall> = Vec::new();
                assert(call_views(calls@) =~= Seq::empty());
                Ok((kept, calls))
            },
            DAOAction::Batch(items) => {
                let ghost start = members@;
                let ghost views = self@->Batch_0;
                let mut current = members;
                let mut calls: Vec<RuntimeCall> = Vec::new();
                let mut i: usize = 0;
                proof {
                    lemma_batch_view(*items);
                    assert(call_views(calls@) =~= Seq::empty());
                    if let Ok(d) = dispatch_from(views, 0, data@, start) {
                        assert(Seq::<RuntimeCallView>::empty() + d.calls =~= d.calls);
                    }
                }
                while i < items.len()
                    invariant
                        *self == DAOAction::Batch(*items),
                        start == members@,
                        views.len() == items@.len(),
                        forall|j: int| 0 <= j < views.len() ==> views[j] == items@[j]@,
                        i <= items.len(),
                        dispatch(self@, data@, start) == after(
                            call_views(calls@),
                            dispatch_from(views, i as int, data@, current@),
                        ),
                    decreases items.len() - i,
                {
                    proof {
                        assert(decreases_to!(*self => self->Batch_0));
                    }
                    let ghost before = call_views(calls@);
                    let ghost at = current@;
                    match items[i].dispatch(data, current) {
                        Err(e) => {
                            return Err(e);
                        },
                        Ok((next, mut more)) => {
                            let ghost first = dispatch(views[i as int], data@, at)->Ok_0;
                            let ghost added = more@;
                            calls.append(&mut more);
                            current = next;
                            proof {
                                assert(call_views(calls@) =~= before + call_views(added));
                                let rest = dispatch_from(views, i as int + 1, data@, next@);
                                if let Ok(d) = rest {
                                    assert((before + first.calls) + d.calls =~= before + (
                                    first.calls + d.calls));
                                }
                            }
                        },
                    }
                    i += 1;
                }
                assert(call_views(calls@) + Seq::<RuntimeCallView>::empty() =~= call_views(calls@));
                Ok((current, calls))
            },
        }
    }
}

/// A copy of `members` without every entry of `who`, the rest in order.
pub fn remove_all(members: &Vec<AccountId>, who: &AccountId) -> (kept: Vec<AccountId>)
    ensures
        kept@ == without(members@, *who),
{
    let mut kept: Vec<AccountId> = Vec::new();
    let mut i: usize = 0;
    proof {
        reveal(Seq::filter);
        assert(members@.take(0) =~= Seq::empty());
    }
    while i < members.len()
        invariant
            i <= members.len(),
            kept@ == without(members@.take(i as int), *who),
        decreases members.len() - i,
    {
        proof {
            assert(members@.take(i as int).push(members@[i as int]) =~= members@.take(i as int + 1));
            members@.take(i as int).lemma_filter_push(members@[i as int], other_than(*who));
        }
        if members[i] != *who {
            kept.push(members[i]);
        }
        i += 1;
    }
    assert(members@.take(i as int) =~= members@);
    kept
}

} // verus!
