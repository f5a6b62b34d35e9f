//! Which dialog a session's input queue asks for.
use vstd::prelude::*;

use crate::protocol::ATTENTION_CREDENTIALS;

verus! {

/// The dialog to show.
#[derive(Clone, Copy, Debug, PartialEq, Eq, Structural)]
pub enum AuthDispatch {
    /// User name and password.
    Credentials,
    /// A challenge or one-time code.
    Challenge,
}

/// The queue holds a slot of the credentials type in group `group`.
pub open spec fn queued(type_groups: Seq<(u32, u32)>, group: u32) -> bool {
    type_groups.contains((ATTENTION_CREDENTIALS, group))
}

/// A static, dynamic or pending challenge is queued.
pub open spec fn challenge_queued(type_groups: Seq<(u32, u32)>) -> bool {
    queued(type_groups, 4) || queued(type_groups, 5) || queued(type_groups, 6)
}

/// The dialog for the pairs of the input queue.
pub open spec fn dialog_for(type_groups: Seq<(u32, u32)>) -> Option<AuthDispatch> {
    if challenge_queued(type_groups) {
        Some(AuthDispatch::Challenge)
    } else if queued(type_groups, 1) {
        Some(AuthDispatch::Credentials)
    } else {
        None
    }
}

/// Picks the dialog for the `(type, group)` pairs of the input queue. Only
/// slots of the credentials type count; a challenge goes before user name and
/// password.
pub fn dispatch_from_groups(type_groups: &[(u32, u32)]) -> (r: Option<AuthDispatch>)
    ensures
        r == (if challenge_queued(type_groups@) {
            Some(AuthDispatch::Challenge)
        } else if queued(type_groups@, 1) {
            Some(AuthDispatch::Credentials)
        } else {
            None
        }),
        r == dialog_for(type_groups@),
{
    let mut has_credentials = false;
    let mut i: usize = 0;
    while i < type_groups.len()
        invariant
            i <= type_groups.len(),
            has_credentials == queued(type_groups@.take(i as int), 1),
            !challenge_queued(type_groups@.take(i as int)),
        decreases type_groups.len() - i,
    {
        let (kind, group) = type_groups[i];
        let ghost before = type_groups@.take(i as int);
        let ghost after = type_groups@.take(i as int + 1);
        proof {
            assert(after =~= before.push((kind, group)));
            assert(after[i as int] == (kind, group));
            assert forall|p: (u32, u32)| after.contains(p) == (before.contains(p) || p == (
                kind,
                group,
            )) by {
                if before.contains(p) {
                    let j = choose|j: int| 0 <= j < before.len() && before[j] == p;
                    assert(after[j] == p);
                }
                if after.contains(p) {
                    let j = choose|j: int| 0 <= j < after.len() && after[j] == p;
                    if j < i {
                        assert(before[j] == p);
                    }
                }
            }
        }
        if kind == ATTENTION_CREDENTIALS {
            if group == 4 || group == 5 || group == 6 {
                proof {
                    assert(type_groups@[i as int] == (kind, group));
                }
                return Some(AuthDispatch::Challenge);
            }
            if group == 1 {
                has_credentials = true;
            }
        }
        i = i + 1;
    }
    assert(type_groups@.take(i as int) =~= type_groups@);
    if has_credentials {
        Some(AuthDispatch::Credentials)
    } else {
        None
    }
}

/// A challenge is queued just when a slot of the credentials type stands in
/// one of the three groups for challenges; slots of other types never count.
pub proof fn law_queued_by_type_and_group(type_groups: Seq<(u32, u32)>, group: u32)
    ensures
        queued(type_groups, group) <==> exists|i: int|
            0 <= i < type_groups.len() && (#[trigger] type_groups[i]).0 == 1 && type_groups[i].1
                == group,
        challenge_queued(type_groups) <==> exists|i: int|
            0 <= i < type_groups.len() && (#[trigger] type_groups[i]).0 == 1 && 4
                <= type_groups[i].1 <= 6,
{
    assert forall|g: u32| queued(type_groups, g) <==> exists|i: int|
        0 <= i < type_groups.len() && (#[trigger] type_groups[i]).0 == 1 && type_groups[i].1
            == g by {
        if queued(type_groups, g) {
            let i = choose|i: int| 0 <= i < type_groups.len() && type_groups[i] == (1u32, g);
            assert(type_groups[i].0 == 1);
        }
        if exists|i: int|
            0 <= i < type_groups.len() && (#[trigger] type_groups[i]).0 == 1 && type_groups[i].1
                == g {
            let i = choose|i: int|
                0 <= i < type_groups.len() && (#[trigger] type_groups[i]).0 == 1
                    && type_groups[i].1 == g;
            assert(type_groups[i] == (1u32, g));
        }
    }
    assert(queued(type_groups, 4) || queued(type_groups, 5) || queued(type_groups, 6)
        <==> challenge_queued(type_groups));
    if exists|i: int|
        0 <= i < type_groups.len() && (#[trigger] type_groups[i]).0 == 1 && 4 <= type_groups[i].1
            <= 6 {
        let i = choose|i: int|
            0 <= i < type_groups.len() && (#[trigger] type_groups[i]).0 == 1 && 4
                <= type_groups[i].1 <= 6;
        let g = type_groups[i].1;
        assert(queued(type_groups, g));
        assert(g == 4 || g == 5 || g == 6);
    }
}

/// A queued challenge is asked for before anything else, user name and
/// password only without one, and a queue with neither asks for nothing.
pub proof fn law_challenge_goes_first(type_groups: Seq<(u32, u32)>)
    ensures
        dialog_for(type_groups) == Some(AuthDispatch::Challenge) <==> exists|i: int|
            0 <= i < type_groups.len() && (#[trigger] type_groups[i]).0 == 1 && 4
                <= type_groups[i].1 <= 6,
        dialog_for(type_groups) == Some(AuthDispatch::Credentials) <==> (exists|i: int|
            0 <= i < type_groups.len() && (#[trigger] type_groups[i]).0 == 1 && type_groups[i].1
                == 1) && !(exists|i: int|
            0 <= i < type_groups.len() && (#[trigger] type_groups[i]).0 == 1 && 4
                <= type_groups[i].1 <= 6),
{
    law_queued_by_type_and_group(type_groups, 1);
}

} // verus!
