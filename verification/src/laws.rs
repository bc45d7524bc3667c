//! What holds of every command, stated over the outcomes that the entry
//! points promise.

use vstd::prelude::*;
use cosmwasm_std::{Empty, Response};
use crate::contract::{
    add_members_outcome,
    added_events,
    added_summary,
    carries,
    execute_outcome,
    leave_outcome,
    refill_outcome,
    take_outcome,
};
use crate::error::{ContractError, ErrorKind};
use crate::msg::ExecuteMsg;
use crate::registry::{all_new, lemma_append_all_new, lemma_without_absent, lemma_without_members};
use crate::state::{AuthorityView, Category, MachineItems, Store};

verus! {

/// Taking one item of a category that is in stock lowers the count of that
/// category by one and changes no other count, nor who holds authority.
pub proof fn lemma_take_one_in_stock(
    pre: Store,
    items: MachineItems,
    category: Category,
    post: Store,
    result: Result<Response<Empty>, ContractError>,
)
    requires
        pre.machine == Some(items),
        items.count_of(category) > 0,
        take_outcome(pre, category, 1, post, result),
    ensures
        result is Ok,
        post.machine is Some,
        post.machine->0.count_of(category) == items.count_of(category) - 1,
        forall|other: Category|
            other != category ==> #[trigger] post.machine->0.count_of(other) == items.count_of(
                other,
            ),
        post.authority == pre.authority,
{
}

/// Taking from a category of which none is left fails for want of stock
/// and changes nothing.
pub proof fn lemma_take_out_of_stock(
    pre: Store,
    items: MachineItems,
    category: Category,
    post: Store,
    result: Result<Response<Empty>, ContractError>,
)
    requires
        pre.machine == Some(items),
        items.count_of(category) == 0,
        take_outcome(pre, category, 1, post, result),
    ensures
        result is Err,
        result->Err_0.kind_of() == ErrorKind::InsufficientStock,
        post == pre,
{
}

/// Asking for an item by a name that stands for no category fails as an
/// unknown category and changes nothing, whatever the store holds.
pub proof fn lemma_unknown_category(
    pre: Store,
    sender: Seq<char>,
    name: String,
    post: Store,
    result: Result<Response<Empty>, ContractError>,
)
    requires
        Category::named(name@) is None,
        execute_outcome(pre, sender, ExecuteMsg::GetItem { category: name }, post, result),
    ensures
        result is Err,
        result->Err_0.kind_of() == ErrorKind::UnknownCategory,
        post == pre,
{
}

/// A refill by a principal with authority is all or nothing. Where every
/// count can take the number, every count goes up by it at once. Where some
/// count cannot, the refill fails as an overflow and no count changes.
pub proof fn lemma_refill_all_or_nothing(
    pre: Store,
    authority: AuthorityView,
    items: MachineItems,
    sender: Seq<char>,
    number: u64,
    post: Store,
    result: Result<Response<Empty>, ContractError>,
)
    requires
        pre@.authority == Some(authority),
        authority.permits(sender),
        pre.machine == Some(items),
        refill_outcome(pre, sender, number, post, result),
    ensures
        items.can_refill(number) ==> {
            &&& result is Ok
            &&& post.machine is Some
            &&& forall|category: Category| #[trigger]
                post.machine->0.count_of(category) == items.count_of(category) + number
            &&& post.authority == pre.authority
        },
        !items.can_refill(number) ==> {
            &&& result is Err
            &&& result->Err_0.kind_of() == ErrorKind::RefillOverflow
            &&& post == pre
        },
{
    if items.can_refill(number) {
        assert(post.machine == Some(items.raised_by(number)));
        assert forall|category: Category| #[trigger]
            post.machine->0.count_of(category) == items.count_of(category) + number by {
            assert(items.count_of(category) + number <= u64::MAX);
        }
    }
}

/// A refill by a principal without authority fails as unauthorized and
/// changes nothing, whether or not the counts could have taken the number.
pub proof fn lemma_refill_needs_authority(
    pre: Store,
    authority: AuthorityView,
    sender: Seq<char>,
    number: u64,
    post: Store,
    result: Result<Response<Empty>, ContractError>,
)
    requires
        pre@.authority == Some(authority),
        !authority.permits(sender),
        refill_outcome(pre, sender, number, post, result),
    ensures
        result is Err,
        result->Err_0.kind_of() == ErrorKind::Unauthorized,
        post == pre,
{
}

/// Adding administrators on behalf of a principal who is not on the list
/// fails as unauthorized and changes nothing.
pub proof fn lemma_add_members_needs_membership(
    pre: Store,
    list: Seq<Seq<char>>,
    sender: Seq<char>,
    candidates: Seq<Seq<char>>,
    post: Store,
    result: Result<Response<Empty>, ContractError>,
)
    requires
        pre@.authority == Some(AuthorityView::Admins(list)),
        !list.contains(sender),
        add_members_outcome(pre, sender, candidates, post, result),
    ensures
        result is Err,
        result->Err_0.kind_of() == ErrorKind::Unauthorized,
        post == pre,
{
}

/// Adding candidates who are all new, on behalf of a member, succeeds: the
/// candidates stand at the end of the list in their order, behind the
/// members that were there, the counts stay, and the response reports each
/// candidate and their number. A list that named nobody twice still does.
pub proof fn lemma_add_members_appends(
    pre: Store,
    list: Seq<Seq<char>>,
    sender: Seq<char>,
    candidates: Seq<Seq<char>>,
    post: Store,
    result: Result<Response<Empty>, ContractError>,
)
    requires
        pre@.authority == Some(AuthorityView::Admins(list)),
        list.contains(sender),
        all_new(list, candidates),
        add_members_outcome(pre, sender, candidates, post, result),
    ensures
        result is Ok,
        carries(result->Ok_0, added_events(candidates), added_summary(candidates.len())),
        post@.authority == Some(AuthorityView::Admins(list + candidates)),
        (list + candidates).take(list.len() as int) == list,
        (list + candidates).skip(list.len() as int) == candidates,
        post.machine == pre.machine,
        pre.wf() ==> post.wf(),
{
    if pre.wf() {
        lemma_append_all_new(list, candidates);
    }
}

/// Adding a candidate who is on the list already, or the same candidate
/// twice, fails on behalf of a member as already existing, and appends
/// nobody.
pub proof fn lemma_add_members_rejects_known(
    pre: Store,
    list: Seq<Seq<char>>,
    sender: Seq<char>,
    candidates: Seq<Seq<char>>,
    post: Store,
    result: Result<Response<Empty>, ContractError>,
)
    requires
        pre@.authority == Some(AuthorityView::Admins(list)),
        list.contains(sender),
        !all_new(list, candidates),
        add_members_outcome(pre, sender, candidates, post, result),
    ensures
        result is Err,
        result->Err_0.kind_of() == ErrorKind::AlreadyExists,
        post == pre,
{
}

/// Leaving on behalf of a principal who holds no authority is no failure
/// and changes nothing: the list and the counts are what they were.
pub proof fn lemma_leave_by_non_member(
    pre: Store,
    authority: AuthorityView,
    sender: Seq<char>,
    post: Store,
    result: Result<Response<Empty>, ContractError>,
)
    requires
        pre@.authority == Some(authority),
        !authority.permits(sender),
        leave_outcome(pre, sender, post, result),
    ensures
        result is Ok,
        post@ == pre@,
{
    match authority {
        AuthorityView::Owner(_) => {},
        AuthorityView::Admins(list) => {
            lemma_without_absent(list, sender);
        },
    }
}

/// Leaving on behalf of a member takes that member off the list and keeps
/// everybody else; afterwards the member holds no authority.
pub proof fn lemma_leave_by_member(
    pre: Store,
    list: Seq<Seq<char>>,
    sender: Seq<char>,
    post: Store,
    result: Result<Response<Empty>, ContractError>,
)
    requires
        pre@.authority == Some(AuthorityView::Admins(list)),
        leave_outcome(pre, sender, post, result),
    ensures
        result is Ok,
        post@.authority is Some,
        !post@.authority->0.permits(sender),
        forall|other: Seq<char>|
            other != sender ==> (#[trigger] post@.authority->0.permits(other) <==> list.contains(
                other,
            )),
        post.machine == pre.machine,
        pre.wf() ==> post.wf(),
{
    lemma_without_members(list, sender);
}

/// A command that fails leaves the store exactly as it was.
pub proof fn lemma_failure_changes_nothing(
    pre: Store,
    sender: Seq<char>,
    msg: ExecuteMsg,
    post: Store,
    result: Result<Response<Empty>, ContractError>,
)
    requires
        execute_outcome(pre, sender, msg, post, result),
        result is Err,
    ensures
        post == pre,
{
}

/// No command touches what it is not about: taking and refilling leave the
/// authority alone, and the registry commands leave the counts alone.
pub proof fn lemma_commands_keep_apart(
    pre: Store,
    sender: Seq<char>,
    msg: ExecuteMsg,
    post: Store,
    result: Result<Response<Empty>, ContractError>,
)
    requires
        execute_outcome(pre, sender, msg, post, result),
    ensures
        (msg is GetItem || msg is Refill) ==> post.authority == pre.authority,
        (msg is AddMembers || msg is Leave) ==> post.machine == pre.machine,
{
}

} // verus!
