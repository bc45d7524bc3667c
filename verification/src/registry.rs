//! The access registry: the list of administrators, which its members
//! extend and leave. The list keeps its order and names nobody twice.

use vstd::prelude::*;
use crate::error::ContractError;
use crate::state::{principals, Authority};

verus! {

/// Whether every candidate can join the list: none is on it, and none
/// occurs twice among the candidates.
pub open spec fn all_new(list: Seq<Seq<char>>, candidates: Seq<Seq<char>>) -> bool {
    &&& candidates.no_duplicates()
    &&& forall|i: int| 0 <= i < candidates.len() ==> !list.contains(#[trigger] candidates[i])
}

/// The list without every entry that equals `who`, the others in their
/// order.
pub open spec fn without(list: Seq<Seq<char>>, who: Seq<char>) -> Seq<Seq<char>>
    decreases list.len(),
{
    if list.len() == 0 {
        list
    } else if list.last() == who {
        without(list.drop_last(), who)
    } else {
        without(list.drop_last(), who).push(list.last())
    }
}

/// What leaving does to the members: `who` is gone, everybody else stays,
/// and a list that named nobody twice still names nobody twice.
pub proof fn lemma_without_members(list: Seq<Seq<char>>, who: Seq<char>)
    ensures
        !without(list, who).contains(who),
        forall|other: Seq<char>|
            other != who ==> (#[trigger] without(list, who).contains(other) <==> list.contains(
                other,
            )),
        without(list, who).len() <= list.len(),
        list.no_duplicates() ==> without(list, who).no_duplicates(),
    decreases list.len(),
{
    let out = without(list, who);
    if list.len() > 0 {
        let front = list.drop_last();
        let rest = without(front, who);
        lemma_without_members(front, who);
        assert forall|other: Seq<char>| other != who implies (#[trigger] out.contains(other)
            <==> list.contains(other)) by {
            if list.contains(other) {
                let j = choose|j: int| 0 <= j < list.len() && list[j] == other;
                if j < front.len() {
                    assert(front[j] == other);
                    assert(rest.contains(other));
                    let i = choose|i: int| 0 <= i < rest.len() && rest[i] == other;
                    assert(out[i] == other);
                } else {
                    assert(out[out.len() - 1] == other);
                }
            }
            if out.contains(other) {
                assert(rest.contains(other) || list.last() == other);
            }
        }
        if list.no_duplicates() && list.last() != who {
            assert forall|i: int, j: int|
                0 <= i < out.len() && 0 <= j < out.len() && i != j implies out[i] != out[j] by {
                if i == rest.len() {
                    assert(rest.contains(rest[j]));
                } else if j == rest.len() {
                    assert(rest.contains(rest[i]));
                }
            }
        }
    }
}

/// Leaving a list that one is not on changes nothing.
pub proof fn lemma_without_absent(list: Seq<Seq<char>>, who: Seq<char>)
    requires
        !list.contains(who),
    ensures
        without(list, who) == list,
    decreases list.len(),
{
    if list.len() > 0 {
        assert(!list.drop_last().contains(who));
        lemma_without_absent(list.drop_last(), who);
    }
}

/// In a list that names nobody twice, leaving takes out the one entry of
/// the member and keeps the others in place.
pub proof fn lemma_without_removes_one(list: Seq<Seq<char>>, at: int)
    requires
        list.no_duplicates(),
        0 <= at < list.len(),
    ensures
        without(list, list[at]) == list.remove(at),
    decreases list.len(),
{
    let front = list.drop_last();
    if at == list.len() - 1 {
        assert(!front.contains(list[at]));
        lemma_without_absent(front, list[at]);
    } else {
        lemma_without_removes_one(front, at);
    }
}

/// Appending candidates that are all new keeps a list free of repetition.
pub proof fn lemma_append_all_new(list: Seq<Seq<char>>, candidates: Seq<Seq<char>>)
    requires
        list.no_duplicates(),
        all_new(list, candidates),
    ensures
        (list + candidates).no_duplicates(),
{
    let all = list + candidates;
    assert forall|i: int, j: int| 0 <= i < all.len() && 0 <= j < all.len() && i != j implies all[i]
        != all[j] by {
        if i < list.len() <= j {
            assert(!list.contains(candidates[j - list.len()]));
        } else if j < list.len() <= i {
            assert(!list.contains(candidates[i - list.len()]));
        }
    }
}

/// Whether one of the first `end` entries of the list is `who`.
fn found_before(list: &Vec<String>, end: usize, who: &String) -> (found: bool)
    requires
        end <= list.len(),
    ensures
        found == principals(list@).take(end as int).contains(who@),
{
    let ghost names = principals(list@).take(end as int);
    let mut i: usize = 0;
    while i < end
        invariant
            i <= end <= list.len(),
            names == principals(list@).take(end as int),
            forall|k: int| 0 <= k < i ==> names[k] != who@,
        decreases end - i,
    {
        if list[i] == *who {
            assert(names[i as int] == who@);
            return true;
        }
        i += 1;
    }
    false
}

/// Whether the list names `who`.
pub fn contains(list: &Vec<String>, who: &String) -> (found: bool)
    ensures
        found == principals(list@).contains(who@),
{
    assert(principals(list@).take(list.len() as int) =~= principals(list@));
    found_before(list, list.len(), who)
}

/// Whether every candidate can join the list.
pub(crate) fn check_all_new(list: &Vec<String>, candidates: &Vec<String>) -> (ok: bool)
    ensures
        ok == all_new(principals(list@), principals(candidates@)),
{
    let ghost names = principals(list@);
    let ghost fresh = principals(candidates@);
    let mut i: usize = 0;
    while i < candidates.len()
        invariant
            i <= candidates.len(),
            names == principals(list@),
            fresh == principals(candidates@),
            forall|k: int| 0 <= k < i ==> !names.contains(#[trigger] fresh[k]),
            forall|k: int, m: int| 0 <= m < k < i ==> fresh[m] != fresh[k],
        decreases candidates.len() - i,
    {
        if contains(list, &candidates[i]) {
            assert(names.contains(fresh[i as int]));
            return false;
        }
        if found_before(candidates, i, &candidates[i]) {
            assert(fresh.take(i as int).contains(fresh[i as int]));
            return false;
        }
        assert forall|m: int| 0 <= m < i implies fresh[m] != fresh[i as int] by {
            assert(fresh.take(i as int)[m] == fresh[m]);
        }
        i += 1;
    }
    true
}

/// Appends the candidates to the list, in their order, on behalf of
/// `caller`. Only a member may do so, and only where every candidate is
/// new: otherwise the list stays as it was.
pub fn add_members(list: &mut Vec<String>, caller: &String, candidates: &Vec<String>) -> (result:
    Result<(), ContractError>)
    ensures
        match result {
            Ok(_) => {
                &&& principals(old(list)@).contains(caller@)
                &&& all_new(principals(old(list)@), principals(candidates@))
                &&& principals(final(list)@) == principals(old(list)@) + principals(candidates@)
            },
            Err(ContractError::Unauthorized { sender }) => {
                &&& !principals(old(list)@).contains(caller@)
                &&& sender@ == caller@
                &&& *final(list) == *old(list)
            },
            Err(ContractError::AlreadyExists {  }) => {
                &&& principals(old(list)@).contains(caller@)
                &&& !all_new(principals(old(list)@), principals(candidates@))
                &&& *final(list) == *old(list)
            },
            Err(_) => false,
        },
        principals(old(list)@).no_duplicates() ==> principals(final(list)@).no_duplicates(),
{
    if !contains(list, caller) {
        return Err(ContractError::Unauthorized { sender: caller.clone() });
    }
    if !check_all_new(list, candidates) {
        return Err(ContractError::AlreadyExists {  });
    }
    let mut i: usize = 0;
    while i < candidates.len()
        invariant
            i <= candidates.len(),
            principals(list@) == principals(old(list)@) + principals(candidates@).take(i as int),
        decreases candidates.len() - i,
    {
        let ghost before = principals(list@);
        list.push(candidates[i].clone());
        assert(principals(list@) =~= before.push(candidates[i as int]@));
        assert(principals(candidates@).take(i + 1) =~= principals(candidates@).take(
            i as int,
        ).push(candidates[i as int]@));
        assert(principals(list@) =~= principals(old(list)@) + principals(candidates@).take(
            i + 1,
        ));
        i += 1;
    }
    proof {
        assert(principals(candidates@).take(candidates.len() as int) =~= principals(
            candidates@,
        ));
        if principals(old(list)@).no_duplicates() {
            lemma_append_all_new(principals(old(list)@), principals(candidates@));
        }
    }
    Ok(())
}

/// Takes `caller` off the list. Leaving a list that one is not on changes
/// nothing; there is no failure.
pub fn leave(list: &mut Vec<String>, caller: &String)
    ensures
        principals(final(list)@) == without(principals(old(list)@), caller@),
        !principals(old(list)@).contains(caller@) ==> principals(final(list)@) == principals(
            old(list)@,
        ),
        principals(old(list)@).no_duplicates() ==> principals(final(list)@).no_duplicates(),
{
    let mut kept: Vec<String> = Vec::new();
    let mut i: usize = 0;
    while i < list.len()
        invariant
            i <= list.len(),
            principals(kept@) == without(principals(list@).take(i as int), caller@),
        decreases list.len() - i,
    {
        assert(principals(list@).take(i + 1).drop_last() =~= principals(list@).take(i as int));
        if list[i] != *caller {
            kept.push(list[i].clone());
        }
        i += 1;
    }
    proof {
        assert(principals(list@).take(list.len() as int) =~= principals(list@));
        lemma_without_members(principals(list@), caller@);
        if !principals(list@).contains(caller@) {
            lemma_without_absent(principals(list@), caller@);
        }
    }
    *list = kept;
}

impl Authority {
    /// Whether `who` may perform privileged operations: the owner, or a
    /// member of the administrator list.
    pub fn permits(&self, who: &String) -> (ok: bool)
        ensures
            ok == self@.permits(who@),
    {
        match self {
            Authority::Owner(owner) => {
                assert(seq![owner@].contains(who@) <==> owner@ == who@) by {
                    if owner@ == who@ {
                        assert(seq![owner@][0] == who@);
                    }
                }
                *owner == *who
            },
            Authority::Admins(list) => contains(list, who),
        }
    }

    /// The principals who hold authority, in order.
    pub fn members(&self) -> (list: Vec<String>)
        ensures
            principals(list@) == self@.members(),
    {
        let mut out: Vec<String> = Vec::new();
        match self {
            Authority::Owner(owner) => {
                out.push(owner.clone());
            },
            Authority::Admins(list) => {
                let mut i: usize = 0;
                while i < list.len()
                    invariant
                        i <= list.len(),
                        principals(out@) == principals(list@).take(i as int),
                    decreases list.len() - i,
                {
                    let ghost before = principals(out@);
                    out.push(list[i].clone());
                    assert(principals(out@) =~= before.push(list[i as int]@));
                    i += 1;
                }
            },
        }
        out
    }
}

} // verus!
