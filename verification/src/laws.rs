//! What holds of the engine in every state.

use vstd::prelude::*;
use crate::account::AccountId;
use crate::action::{
    dispatch, dispatch_from, other_than, without, DAOActionView, StorableRuntimeActionView,
};
use crate::error::{EnvError, ZeitDAOError};
use crate::state::{voted_aye, DaoState};

verus! {

/// A new engine has the members it was made with, in their order, and
/// neither a proposal nor a vote changes them or the quorum.
pub proof fn law_members_kept(
    quorum: u32,
    members: Seq<AccountId>,
    s: DaoState,
    caller: AccountId,
    action: StorableRuntimeActionView,
    id: u32,
    aye: bool,
)
    ensures
        DaoState::init(quorum, members).members == members,
        DaoState::init(quorum, members).quorum == quorum,
        s.propose(caller, action).members == s.members,
        s.propose(caller, action).quorum == s.quorum,
        s.vote(caller, id, aye).members == s.members,
        s.vote(caller, id, aye).quorum == s.quorum,
{
}

/// A proposal by an account that is no member is refused and changes nothing.
pub proof fn law_propose_members_only(
    s: DaoState,
    caller: AccountId,
    action: StorableRuntimeActionView,
)
    requires
        !s.is_member(caller),
    ensures
        s.propose_result(caller) == Err::<u32, ZeitDAOError>(ZeitDAOError::OnlyMemberAllowed),
        s.propose(caller, action) == s,
{
}

/// Indices are dense and start at zero: the first proposal of a new engine
/// gets index 0, and each accepted proposal gets the index after the one
/// before it, whoever of the members makes it.
pub proof fn law_propose_indices(
    quorum: u32,
    members: Seq<AccountId>,
    s: DaoState,
    first: AccountId,
    second: AccountId,
    action: StorableRuntimeActionView,
)
    requires
        s.is_member(first),
        s.is_member(second),
        s.proposals.len() < u32::MAX,
    ensures
        members.contains(first) ==> DaoState::init(quorum, members).propose_result(first) == Ok::<
            u32,
            ZeitDAOError,
        >(0),
        s.propose_result(first) == Ok::<u32, ZeitDAOError>(s.proposals.len() as u32),
        s.propose(first, action).propose_result(second) == Ok::<u32, ZeitDAOError>(
            (s.proposals.len() + 1) as u32,
        ),
        s.propose(first, action).proposals[s.proposals.len() as int].action == action,
        !s.propose(first, action).proposals[s.proposals.len() as int].executed,
{
}

/// The log only grows at its end: a proposal, a vote and an execution leave
/// every logged action at its index.
pub proof fn law_log_append_only(
    s: DaoState,
    caller: AccountId,
    action: StorableRuntimeActionView,
    id: u32,
    aye: bool,
    submitted: Result<(), EnvError>,
    i: int,
)
    requires
        0 <= i < s.proposals.len(),
    ensures
        s.propose(caller, action).proposals[i] == s.proposals[i],
        s.vote(caller, id, aye).proposals == s.proposals,
        s.execute(id, submitted).proposals.len() == s.proposals.len(),
        s.execute(id, submitted).proposals[i].action == s.proposals[i].action,
{
}

/// A member's vote on an index that the log does not have is refused with
/// `ProposalDoesNotExist`, and changes nothing.
pub proof fn law_vote_out_of_range(s: DaoState, caller: AccountId, id: u32, aye: bool)
    requires
        s.is_member(caller),
        id >= s.proposals.len(),
    ensures
        s.vote_result(caller, id) == Err::<(), ZeitDAOError>(ZeitDAOError::ProposalDoesNotExist),
        s.vote(caller, id, aye) == s,
{
}

/// A vote by an account that is no member is refused, whatever the index,
/// and changes nothing.
pub proof fn law_vote_members_only(s: DaoState, caller: AccountId, id: u32, aye: bool)
    requires
        !s.is_member(caller),
    ensures
        s.vote_result(caller, id) == Err::<(), ZeitDAOError>(ZeitDAOError::OnlyMemberAllowed),
        s.vote(caller, id, aye) == s,
{
}

/// Voting again overwrites: after two votes of one member on one proposal
/// the engine is as if only the second had been cast. So an aye followed by a
/// nay counts as a nay, and the same vote twice is the vote once.
pub proof fn law_revote_overwrites(s: DaoState, caller: AccountId, id: u32, earlier: bool, later: bool)
    ensures
        s.vote(caller, id, earlier).vote(caller, id, later) == s.vote(caller, id, later),
        s.vote(caller, id, earlier).vote(caller, id, later).tally(id) == s.vote(
            caller,
            id,
            later,
        ).tally(id),
        s.vote_result(caller, id) is Ok ==> voted_aye(s.vote(caller, id, later).ballots, id)(caller)
            == later,
{
    assert(s.ballots.insert((caller, id), earlier).insert((caller, id), later) =~= s.ballots.insert(
        (caller, id),
        later,
    ));
}

/// A vote touches the ballot of the caller on that proposal and no other.
pub proof fn law_vote_is_local(
    s: DaoState,
    caller: AccountId,
    id: u32,
    aye: bool,
    other: AccountId,
    other_id: u32,
)
    requires
        other != caller || other_id != id,
    ensures
        s.vote(caller, id, aye).ballots.contains_key((other, other_id)) == s.ballots.contains_key(
            (other, other_id),
        ),
        s.vote(caller, id, aye).ballots[(other, other_id)] == s.ballots[(other, other_id)],
{
}

/// Adding a member makes the account a member; removing a member afterwards
/// leaves no entry of the account. Neither submits a request.
pub proof fn law_add_then_remove_member(members: Seq<AccountId>, who: AccountId, data: Seq<u8>)
    ensures
        dispatch(DAOActionView::AddMember(who), data, members) is Ok,
        dispatch(DAOActionView::AddMember(who), data, members)->Ok_0.members == members.push(who),
        dispatch(DAOActionView::AddMember(who), data, members)->Ok_0.members.contains(who),
        dispatch(DAOActionView::AddMember(who), data, members)->Ok_0.calls.len() == 0,
        dispatch(DAOActionView::RemoveMember(who), data, members) is Ok,
        !dispatch(DAOActionView::RemoveMember(who), data, members)->Ok_0.members.contains(who),
        dispatch(DAOActionView::RemoveMember(who), data, members)->Ok_0.calls.len() == 0,
        forall|m: AccountId|
            m != who ==> (#[trigger] dispatch(
                DAOActionView::RemoveMember(who),
                data,
                members,
            )->Ok_0.members.contains(m)) == members.contains(m),
{
    assert(members.push(who)[members.len() as int] == who);
    lemma_without(members, who);
}

/// Executing an approved proposal to add a member appends the account to
/// the members; executing one to remove a member leaves no entry of the
/// account, and every other member in place.
pub proof fn law_membership_actions(s: DaoState, id: u32, who: AccountId, other: AccountId)
    requires
        s.execute_result(id, Ok(())) is Ok,
        other != who,
    ensures
        s.proposals[id as int].action.selector == DAOActionView::AddMember(who) ==> s.execute(
            id,
            Ok(()),
        ).members == s.members.push(who) && s.execute(id, Ok(())).is_member(who),
        s.proposals[id as int].action.selector == DAOActionView::RemoveMember(who) ==> !s.execute(
            id,
            Ok(()),
        ).is_member(who) && s.execute(id, Ok(())).is_member(other) == s.is_member(other),
{
    assert(s.members.push(who)[s.members.len() as int] == who);
    lemma_without(s.members, who);
}

/// The quorum decides: a logged proposal that was not executed yet is
/// refused with `NotEnoughVotesApproved` exactly when the ayes of the
/// current members are fewer than the quorum, whoever asks and however the
/// submission went.
pub proof fn law_quorum_decides(s: DaoState, id: u32, submitted: Result<(), EnvError>)
    requires
        s.has_proposal(id),
        !s.proposals[id as int].executed,
    ensures
        s.execute_result(id, submitted) == Err::<(), ZeitDAOError>(
            ZeitDAOError::NotEnoughVotesApproved,
        ) <==> s.tally(id) < s.quorum,
{
    lemma_dispatch_errors(
        s.proposals[id as int].action.selector,
        s.proposals[id as int].action.data,
        s.members,
    );
}

/// Carrying out an action fails, if at all, with `UnsupportedAction`.
pub proof fn lemma_dispatch_errors(action: DAOActionView, data: Seq<u8>, members: Seq<AccountId>)
    ensures
        dispatch(action, data, members) matches Err(e) ==> e == ZeitDAOError::UnsupportedAction,
    decreases action,
{
    if let DAOActionView::Batch(items) = action {
        lemma_dispatch_from_errors(items, 0, data, members);
    }
}

/// Carrying out a run of actions fails, if at all, with `UnsupportedAction`.
pub proof fn lemma_dispatch_from_errors(
    items: Seq<DAOActionView>,
    from: int,
    data: Seq<u8>,
    members: Seq<AccountId>,
)
    ensures
        dispatch_from(items, from, data, members) matches Err(e) ==> e
            == ZeitDAOError::UnsupportedAction,
    decreases items, items.len() - from,
{
    if 0 <= from < items.len() {
        lemma_dispatch_errors(items[from], data, members);
        if let Ok(first) = dispatch(items[from], data, members) {
            lemma_dispatch_from_errors(items, from + 1, data, first.members);
        }
    }
}

/// `without` keeps exactly the entries of the other accounts.
pub proof fn lemma_without(members: Seq<AccountId>, who: AccountId)
    ensures
        !without(members, who).contains(who),
        forall|m: AccountId| m != who ==> without(members, who).contains(m) == members.contains(m),
{
    let keep = other_than(who);
    let kept = without(members, who);
    assert forall|m: AccountId| m != who implies kept.contains(m) == members.contains(m) by {
        if members.contains(m) {
            let i = choose|i: int| 0 <= i < members.len() && members[i] == m;
            assert(keep(members[i]));
            members.lemma_filter_contains(keep, i);
        }
        if kept.contains(m) {
            members.lemma_filter_contains_rev(keep, m);
        }
    }
    if kept.contains(who) {
        let i = choose|i: int| 0 <= i < kept.len() && kept[i] == who;
        members.lemma_filter_pred(keep, i);
    }
}

/// The tally goes by the members as they are now: it never exceeds their
/// number, a new member's earlier aye counts at once, and removing a member
/// drops the member's ayes and nothing else.
pub proof fn law_tally_follows_members(s: DaoState, id: u32, who: AccountId)
    ensures
        s.tally(id) <= s.members.len(),
        (DaoState { members: s.members.push(who), ..s }).tally(id) == s.tally(id) + if voted_aye(
            s.ballots,
            id,
        )(who) {
            1nat
        } else {
            0nat
        },
        (DaoState { members: without(s.members, who), ..s }).tally(id) <= s.tally(id),
        !voted_aye(s.ballots, id)(who) ==> (DaoState {
            members: without(s.members, who),
            ..s
        }).tally(id) == s.tally(id),
{
    let aye = voted_aye(s.ballots, id);
    s.members.lemma_filter_len(aye);
    s.members.lemma_filter_push(who, aye);
    lemma_ayes_without(s.members, aye, who);
}

/// Among `members` without `who` there are as many for whom `aye` holds as
/// among `members`, less the entries of `who` where it holds for `who`.
pub proof fn lemma_ayes_without(members: Seq<AccountId>, aye: spec_fn(AccountId) -> bool, who: AccountId)
    ensures
        without(members, who).filter(aye).len() <= members.filter(aye).len(),
        !aye(who) ==> without(members, who).filter(aye).len() == members.filter(aye).len(),
    decreases members.len(),
{
    reveal(Seq::filter);
    if members.len() > 0 {
        let rest = members.drop_last();
        let last = members.last();
        assert(rest.push(last) =~= members);
        lemma_ayes_without(rest, aye, who);
        rest.lemma_filter_push(last, other_than(who));
        rest.lemma_filter_push(last, aye);
        without(rest, who).lemma_filter_push(last, aye);
    }
}

/// A proposal is executed at most once: after a successful execution every
/// further one is refused with `AlreadyExecuted`, however the submission
/// went, and changes nothing.
pub proof fn law_execute_once(
    s: DaoState,
    id: u32,
    submitted: Result<(), EnvError>,
    again: Result<(), EnvError>,
)
    requires
        s.execute_result(id, submitted) is Ok,
    ensures
        s.execute(id, submitted).execute_result(id, again) == Err::<(), ZeitDAOError>(
            ZeitDAOError::AlreadyExecuted,
        ),
        s.execute(id, submitted).execute(id, again) == s.execute(id, submitted),
{
}

/// A failed execution changes nothing, and no execution changes the quorum,
/// the ballots or what a logged proposal asks for.
pub proof fn law_execute_all_or_nothing(s: DaoState, id: u32, submitted: Result<(), EnvError>)
    ensures
        s.execute_result(id, submitted) is Err ==> s.execute(id, submitted) == s,
        s.execute(id, submitted).quorum == s.quorum,
        s.execute(id, submitted).ballots == s.ballots,
        s.execute_result(id, submitted) is Ok ==> s.tally(id) >= s.quorum,
        s.execute_result(id, submitted) is Ok ==> submitted is Ok,
{
}

} // verus!
