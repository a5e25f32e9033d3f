use crate::state::{User, UserView, user_views};
use vstd::prelude::*;

verus! {

/// Index of the first entry with the lowest score among the first `n` entries.
pub open spec fn worst_upto(s: Seq<UserView>, n: int) -> int
    decreases n,
{
    if n <= 1 {
        0
    } else {
        let i = worst_upto(s, n - 1);
        if s[n - 1].score < s[i].score {
            n - 1
        } else {
            i
        }
    }
}

/// Index of the entry that is evicted when a better one arrives: the first with the lowest score.
pub open spec fn worst_index(s: Seq<UserView>) -> int {
    worst_upto(s, s.len() as int)
}

/// `score` is strictly higher than every score held, and something is held.
pub open spec fn beats_all(s: Seq<UserView>, score: u16) -> bool {
    s.len() > 0 && forall|j: int| 0 <= j < s.len() ==> s[j].score < score
}

/// The candidate enters the board: there is room, or it beats the worst entry.
pub open spec fn admits(s: Seq<UserView>, cap: nat, u: UserView) -> bool {
    s.len() < cap || (s.len() > 0 && s[worst_index(s)].score < u.score)
}

/// The board after a submission by an administrator.
pub open spec fn submitted(s: Seq<UserView>, cap: nat, u: UserView) -> Seq<UserView> {
    if s.len() < cap {
        s.push(u)
    } else if admits(s, cap, u) {
        s.update(worst_index(s), u)
    } else {
        s
    }
}

/// A submission to a full board that beats every entry held earns the prize pool.
pub open spec fn crowns(s: Seq<UserView>, cap: nat, u: UserView) -> bool {
    s.len() >= cap && beats_all(s, u.score)
}

pub proof fn lemma_worst_upto(s: Seq<UserView>, n: int)
    requires
        1 <= n <= s.len(),
    ensures
        0 <= worst_upto(s, n) < n,
        forall|j: int| 0 <= j < n ==> s[worst_upto(s, n)].score <= #[trigger] s[j].score,
    decreases n,
{
    if n > 1 {
        lemma_worst_upto(s, n - 1);
    }
}

/// The evicted entry is held and has the lowest score.
pub proof fn lemma_worst_index(s: Seq<UserView>)
    requires
        s.len() > 0,
    ensures
        0 <= worst_index(s) < s.len(),
        forall|j: int| 0 <= j < s.len() ==> s[worst_index(s)].score <= #[trigger] s[j].score,
{
    lemma_worst_upto(s, s.len() as int);
}

/// Finds the entry a better candidate replaces.
pub fn find_worst(entries: &Vec<User>) -> (r: usize)
    requires
        entries.len() > 0,
    ensures
        r == worst_index(user_views(entries@)),
        r < entries.len(),
{
    let ghost s = user_views(entries@);
    let mut w: usize = 0;
    let mut i: usize = 1;
    while i < entries.len()
        invariant
            s == user_views(entries@),
            1 <= i <= entries.len(),
            w == worst_upto(s, i as int),
            w < i,
        decreases entries.len() - i,
    {
        if entries[i].score.0 < entries[w].score.0 {
            w = i;
        }
        i = i + 1;
    }
    w
}

} // verus!
