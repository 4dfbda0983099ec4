use std::collections::HashMap;
use vstd::prelude::*;

use crate::config::BlacklistedItems;
use crate::parse::same_text;

verus! {

broadcast use vstd::std_specs::hash::group_hash_axioms;

/// A collected window: handle, desktop index, title and class.
pub type WinRecord = (u32, u32, String, String);

/// How many single letters are available as hints ('a' to 'z').
pub const HINT_LETTERS: usize = 26;

/// Whether the picker lists `w` under the desktop filter and the excluded classes.
pub open spec fn shown(w: WinRecord, desktop: Option<u32>, blacklist: Seq<Seq<char>>) -> bool {
    &&& match desktop {
        Some(d) => d == w.1,
        None => true,
    }
    &&& !blacklist.contains(w.3@)
}

/// Indices, among the first `n` records, of those the picker lists, in record order.
pub open spec fn visible_upto(
    wins: Seq<WinRecord>,
    desktop: Option<u32>,
    blacklist: Seq<Seq<char>>,
    n: nat,
) -> Seq<usize>
    decreases n,
{
    if n == 0 {
        Seq::empty()
    } else {
        let prev = visible_upto(wins, desktop, blacklist, (n - 1) as nat);
        if shown(wins[n - 1], desktop, blacklist) {
            prev.push((n - 1) as usize)
        } else {
            prev
        }
    }
}

/// Indices of the records that the picker lists, in record order.
pub open spec fn visible(
    wins: Seq<WinRecord>,
    desktop: Option<u32>,
    blacklist: Seq<Seq<char>>,
) -> Seq<usize> {
    visible_upto(wins, desktop, blacklist, wins.len())
}

/// How many of `n` listed windows get a letter.
pub open spec fn hint_count(n: nat) -> nat {
    if n < HINT_LETTERS {
        n
    } else {
        HINT_LETTERS as nat
    }
}

/// Letter offset `k` (0 for 'a') maps to the handle of the `k`-th listed window.
pub open spec fn hint_map(wins: Seq<WinRecord>, vis: Seq<usize>) -> Map<u8, u32> {
    Map::new(
        |k: u8| (k as int) < hint_count(vis.len()),
        |k: u8| wins[vis[k as int] as int].0,
    )
}

/// Whether `class` is one of the excluded classes.
pub fn is_blacklisted(class: &String, blacklist: &BlacklistedItems) -> (r: bool)
    ensures
        r == blacklist.classes().contains(class@),
{
    let mut i: usize = 0;
    while i < blacklist.item.len()
        invariant
            i <= blacklist.item@.len(),
            forall|j: int| 0 <= j < i ==> blacklist.item@[j].class@ != class@,
        decreases blacklist.item@.len() - i,
    {
        if same_text(blacklist.item[i].class.as_str(), class.as_str()) {
            assert(blacklist.classes()[i as int] == class@);
            return true;
        }
        i += 1;
    }
    assert forall|j: int| 0 <= j < blacklist.classes().len() implies blacklist.classes()[j]
        != class@ by {
        assert(blacklist.item@[j].class@ != class@);
    }
    false
}

/// Whether the picker lists `w`.
pub fn is_shown(w: &WinRecord, desktop: Option<u32>, blacklist: &BlacklistedItems) -> (r: bool)
    ensures
        r == shown(*w, desktop, blacklist.classes()),
{
    let on_desktop = match desktop {
        Some(d) => d == w.1,
        None => true,
    };
    on_desktop && !is_blacklisted(&w.3, blacklist)
}

/// Lists the windows the picker shows and gives the first ones a letter each.
///
/// The first result holds indices into `wins`, in their order; the second maps a
/// letter offset (0 for 'a') to a window handle. Windows past the last letter are
/// listed without a letter.
pub fn assign(wins: &Vec<WinRecord>, desktop: Option<u32>, blacklist: &BlacklistedItems) -> (r: (
    Vec<usize>,
    HashMap<u8, u32>,
))
    ensures
        r.0@ == visible(wins@, desktop, blacklist.classes()),
        r.1@ == hint_map(wins@, r.0@),
{
    let ghost bl = blacklist.classes();
    let mut vis: Vec<usize> = Vec::new();
    let mut hints: HashMap<u8, u32> = HashMap::new();
    assert(hints@ =~= hint_map(wins@, vis@));
    let mut i: usize = 0;
    while i < wins.len()
        invariant
            i <= wins@.len(),
            bl == blacklist.classes(),
            vis@ == visible_upto(wins@, desktop, bl, i as nat),
            hints@ == hint_map(wins@, vis@),
            vis@.len() <= i,
        decreases wins@.len() - i,
    {
        let ghost prev = vis@;
        let show = is_shown(&wins[i], desktop, blacklist);
        assert(visible_upto(wins@, desktop, bl, (i + 1) as nat) == if show {
            prev.push(i)
        } else {
            prev
        });
        if show {
            let ghost old_vis = vis@;
            let ghost old_hints = hints@;
            if vis.len() < HINT_LETTERS {
                let letter = vis.len() as u8;
                hints.insert(letter, wins[i].0);
            }
            vis.push(i);
            assert(hints@ =~= hint_map(wins@, vis@)) by {
                assert forall|k: u8| (k as int) < hint_count(old_vis.len()) implies vis@[k as int]
                    == old_vis[k as int] by {}
            }
        }
        i += 1;
    }
    (vis, hints)
}

proof fn lemma_visible_upto(
    wins: Seq<WinRecord>,
    desktop: Option<u32>,
    blacklist: Seq<Seq<char>>,
    n: nat,
)
    requires
        n <= wins.len(),
        wins.len() <= usize::MAX,
    ensures
        ({
            let v = visible_upto(wins, desktop, blacklist, n);
            &&& v.len() <= n
            &&& forall|k: int| 0 <= k < v.len() ==> v[k] < n && shown(wins[v[k] as int], desktop, blacklist)
            &&& forall|k1: int, k2: int| 0 <= k1 < k2 < v.len() ==> v[k1] < v[k2]
            &&& forall|j: int|
                0 <= j < n && shown(wins[j], desktop, blacklist) ==> v.len() > 0 && v[0] <= j
        }),
    decreases n,
{
    if n > 0 {
        lemma_visible_upto(wins, desktop, blacklist, (n - 1) as nat);
    }
}

proof fn lemma_letter_set(c: nat)
    requires
        c <= HINT_LETTERS,
    ensures
        Set::new(|k: u8| (k as int) < c).finite(),
        Set::new(|k: u8| (k as int) < c).len() == c,
    decreases c,
{
    if c == 0 {
        assert(Set::new(|k: u8| (k as int) < c) =~= Set::<u8>::empty());
    } else {
        lemma_letter_set((c - 1) as nat);
        assert(Set::new(|k: u8| (k as int) < c) =~= Set::new(|k: u8| (k as int) < c - 1).insert(
            (c - 1) as u8,
        ));
    }
}

/// The picker lists no more windows than were collected, and lists them in the
/// order in which they were collected, each one a window that passes the filters.
pub proof fn visible_is_ordered_sublist(
    wins: Seq<WinRecord>,
    desktop: Option<u32>,
    blacklist: Seq<Seq<char>>,
)
    requires
        wins.len() <= usize::MAX,
    ensures
        ({
            let v = visible(wins, desktop, blacklist);
            &&& v.len() <= wins.len()
            &&& forall|k: int|
                0 <= k < v.len() ==> v[k] < wins.len() && shown(wins[v[k] as int], desktop, blacklist)
            &&& forall|k1: int, k2: int| 0 <= k1 < k2 < v.len() ==> v[k1] < v[k2]
        }),
{
    lemma_visible_upto(wins, desktop, blacklist, wins.len());
}

/// As many letters are handed out as there are listed windows, up to the size of
/// the alphabet; when the collected handles are distinct, no two letters name the
/// same window; and 'a' names the first collected window that passes the filters.
pub proof fn hint_map_is_sound(
    wins: Seq<WinRecord>,
    desktop: Option<u32>,
    blacklist: Seq<Seq<char>>,
)
    requires
        wins.len() <= usize::MAX,
    ensures
        ({
            let v = visible(wins, desktop, blacklist);
            let m = hint_map(wins, v);
            &&& m.dom().finite()
            &&& m.len() == hint_count(v.len())
            &&& (forall|i: int, j: int|
                0 <= i < j < wins.len() ==> wins[i].0 != wins[j].0) ==> (forall|a: u8, b: u8|
                m.contains_key(a) && m.contains_key(b) && a != b ==> m[a] != m[b])
            &&& v.len() > 0 ==> {
                &&& m.contains_key(0)
                &&& m[0] == wins[v[0] as int].0
                &&& shown(wins[v[0] as int], desktop, blacklist)
                &&& forall|j: int| 0 <= j < v[0] ==> !shown(wins[j], desktop, blacklist)
            }
        }),
{
    let v = visible(wins, desktop, blacklist);
    let m = hint_map(wins, v);
    lemma_visible_upto(wins, desktop, blacklist, wins.len());
    lemma_letter_set(hint_count(v.len()));
    assert(m.dom() =~= Set::new(|k: u8| (k as int) < hint_count(v.len())));
    if forall|i: int, j: int| 0 <= i < j < wins.len() ==> wins[i].0 != wins[j].0 {
        assert forall|a: u8, b: u8|
            m.contains_key(a) && m.contains_key(b) && a != b implies m[a] != m[b] by {
            if a < b {
                assert(v[a as int] < v[b as int]);
            } else {
                assert(v[b as int] < v[a as int]);
            }
        }
    }
}

/// Given the same records, filter and excluded classes, the listing and the
/// letters are the same.
pub proof fn assign_is_deterministic(
    wins: Seq<WinRecord>,
    desktop: Option<u32>,
    blacklist: Seq<Seq<char>>,
    vis1: Seq<usize>,
    hints1: Map<u8, u32>,
    vis2: Seq<usize>,
    hints2: Map<u8, u32>,
)
    requires
        vis1 == visible(wins, desktop, blacklist),
        hints1 == hint_map(wins, vis1),
        vis2 == visible(wins, desktop, blacklist),
        hints2 == hint_map(wins, vis2),
    ensures
        vis1 == vis2,
        hints1 == hints2,
{
}

} // verus!
