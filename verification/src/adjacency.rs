//! The adjacency list of the trust graph of a system, as data and as lines of
//! text. Edges are held from the side of the target: the row of a node lists
//! the nodes that reference it.

use crate::model::{names, valid_membership, FbasModel};
use crate::text::{append_decimal, decimal, texts};
use vstd::prelude::*;

verus! {

/// The sources below `upto` that reference `target`, ascending.
pub open spec fn sources(members: Seq<Seq<usize>>, target: int, upto: nat) -> Seq<usize>
    decreases upto,
{
    if upto == 0 {
        Seq::empty()
    } else {
        let below = sources(members, target, (upto - 1) as nat);
        if names(members, upto - 1, target) {
            below.push((upto - 1) as usize)
        } else {
            below
        }
    }
}

/// The row of `target` in the adjacency list. Its first entry is the
/// identifier of `target` itself, which names the row. Behind it stands every
/// node that references `target`, in ascending order and once each, `target`
/// too where it references itself.
pub open spec fn list_row(members: Seq<Seq<usize>>, target: int) -> Seq<usize> {
    seq![target as usize] + sources(members, target, members.len())
}

/// The adjacency list of a membership: one row per node, in ascending order
/// of the identifiers.
pub open spec fn list_rows(members: Seq<Seq<usize>>) -> Seq<Seq<usize>> {
    Seq::new(members.len(), |target: int| list_row(members, target))
}

/// A sequence with each run of equal neighbours collapsed to one element.
/// Elements that are equal but not adjacent both stay.
pub open spec fn collapse(s: Seq<usize>) -> Seq<usize>
    decreases s.len(),
{
    if s.len() <= 1 {
        s
    } else if s[s.len() - 1] == s[s.len() - 2] {
        collapse(s.drop_last())
    } else {
        collapse(s.drop_last()).push(s.last())
    }
}

/// Identifiers joined by single spaces.
pub open spec fn spaced(ids: Seq<usize>) -> Seq<char>
    decreases ids.len(),
{
    if ids.len() == 0 {
        Seq::empty()
    } else if ids.len() == 1 {
        decimal(ids[0] as nat)
    } else {
        spaced(ids.drop_last()) + seq![' '] + decimal(ids.last() as nat)
    }
}

/// The lines of an adjacency list: each row joined by single spaces.
pub open spec fn list_lines(rows: Seq<Seq<usize>>) -> Seq<Seq<char>> {
    Seq::new(rows.len(), |i: int| spaced(rows[i]))
}

/// The rows of a vector of rows, each by its view.
pub open spec fn id_rows(v: Seq<Vec<usize>>) -> Seq<Seq<usize>> {
    Seq::new(v.len(), |i: int| v[i]@)
}

/// Among the first `k` references of `source` there is one to `target`.
spec fn named_within(members: Seq<Seq<usize>>, target: int, source: int, k: int) -> bool {
    exists|j: int| 0 <= j < k && #[trigger] members[source][j] == target
}

/// What the insertion pass has appended to the row of `target` once every
/// source below `source` is done and the first `k` references of `source`
/// have been walked: one entry per reference, repeated ones included.
spec fn appended(members: Seq<Seq<usize>>, target: int, source: int, k: int) -> Seq<usize>
    decreases source, k,
{
    if k > 0 {
        let before = appended(members, target, source, k - 1);
        if members[source][k - 1] == target {
            before.push(source as usize)
        } else {
            before
        }
    } else if source > 0 {
        appended(members, target, source - 1, members[source - 1].len() as int)
    } else {
        Seq::empty()
    }
}

/// Collapsing keeps the last element.
proof fn lemma_collapse_last(s: Seq<usize>)
    ensures
        collapse(s).len() == 0 <==> s.len() == 0,
        s.len() > 0 ==> collapse(s).last() == s.last(),
    decreases s.len(),
{
    if s.len() > 1 {
        lemma_collapse_last(s.drop_last());
    }
}

/// Collapsing what the insertion pass appended leaves each source once, in
/// ascending order: the entries of one source are adjacent, because the pass
/// walks the sources one after the other.
proof fn lemma_collapse_appended(members: Seq<Seq<usize>>, target: int, source: int, k: int)
    requires
        0 <= source <= members.len(),
        0 <= k,
        source < members.len() ==> k <= members[source].len(),
        source == members.len() ==> k == 0,
        members.len() <= usize::MAX,
    ensures
        forall|i: int|
            0 <= i < appended(members, target, source, k).len() ==> #[trigger] appended(
                members,
                target,
                source,
                k,
            )[i] <= source,
        named_within(members, target, source, k) <==> (appended(members, target, source, k).len()
            > 0 && appended(members, target, source, k).last() == source),
        collapse(appended(members, target, source, k)) == if named_within(
            members,
            target,
            source,
            k,
        ) {
            sources(members, target, source as nat).push(source as usize)
        } else {
            sources(members, target, source as nat)
        },
    decreases source, k,
{
    if k > 0 {
        let before = appended(members, target, source, k - 1);
        lemma_collapse_appended(members, target, source, k - 1);
        lemma_collapse_last(before);
        if members[source][k - 1] == target {
            // the new entry opens the run of `source` or joins it
            assert(appended(members, target, source, k).drop_last() =~= before);
        }
    } else if source > 0 {
        let last_k = members[source - 1].len() as int;
        lemma_collapse_appended(members, target, source - 1, last_k);
        assert(named_within(members, target, source - 1, last_k) == names(
            members,
            source - 1,
            target,
        ));
    }
}

/// Appends `value` to row `target` and leaves the other rows as they are.
fn push_to_row(rows: &mut Vec<Vec<usize>>, target: usize, value: usize)
    requires
        target < old(rows)@.len(),
    ensures
        final(rows)@.len() == old(rows)@.len(),
        final(rows)@[target as int]@ == old(rows)@[target as int]@.push(value),
        forall|t: int|
            0 <= t < old(rows)@.len() && t != target ==> #[trigger] final(rows)@[t] == old(
                rows,
            )@[t],
{
    rows[target].push(value);
}

/// Collapses each run of equal neighbours behind the first entry of a row.
/// The first entry names the row and always stays.
fn collapse_row(row: &Vec<usize>) -> (out: Vec<usize>)
    ensures
        out@ == if row@.len() == 0 {
            Seq::<usize>::empty()
        } else {
            seq![row@[0]] + collapse(row@.skip(1))
        },
{
    let mut out: Vec<usize> = Vec::new();
    if row.len() == 0 {
        return out;
    }
    out.push(row[0]);
    let mut i: usize = 1;
    while i < row.len()
        invariant
            1 <= i <= row@.len(),
            out@ == seq![row@[0]] + collapse(row@.skip(1).take(i - 1)),
        decreases row@.len() - i,
    {
        proof {
            let seen = row@.skip(1).take(i - 1);
            let next = row@.skip(1).take(i as int);
            assert(next.drop_last() =~= seen);
        }
        if i == 1 || row[i] != row[i - 1] {
            out.push(row[i]);
        }
        i += 1;
    }
    assert(row@.skip(1).take(row@.len() - 1) =~= row@.skip(1));
    out
}

/// Builds the adjacency list of a model. Each row starts out holding the
/// identifier of its node. Then, source by source in ascending order, each
/// reference appends the source to the row of the node it references, and
/// at last the runs that repeated references left are collapsed.
pub fn adjacency_list(model: &FbasModel) -> (rows: Vec<Vec<usize>>)
    requires
        model.wf(),
    ensures
        id_rows(rows@) == list_rows(model.members()),
{
    let n: usize = model.node_count();
    let ghost members = model.members();
    let mut raw: Vec<Vec<usize>> = Vec::new();
    let mut t: usize = 0;
    while t < n
        invariant
            t <= n,
            raw@.len() == t,
            forall|i: int| 0 <= i < t ==> (#[trigger] raw@[i])@ == seq![i as usize],
        decreases n - t,
    {
        let mut row: Vec<usize> = Vec::new();
        row.push(t);
        raw.push(row);
        t += 1;
    }
    let mut source: usize = 0;
    while source < n
        invariant
            model.wf(),
            members == model.members(),
            n == members.len(),
            source <= n,
            raw@.len() == n,
            forall|i: int|
                0 <= i < n ==> (#[trigger] raw@[i])@ == seq![i as usize] + appended(
                    members,
                    i,
                    source as int,
                    0,
                ),
        decreases n - source,
    {
        let links: &Vec<usize> = model.quorum_members(source);
        let mut k: usize = 0;
        while k < links.len()
            invariant
                model.wf(),
                members == model.members(),
                n == members.len(),
                source < n,
                links@ == members[source as int],
                k <= links@.len(),
                raw@.len() == n,
                forall|i: int|
                    0 <= i < n ==> (#[trigger] raw@[i])@ == seq![i as usize] + appended(
                        members,
                        i,
                        source as int,
                        k as int,
                    ),
            decreases links@.len() - k,
        {
            let target: usize = links[k];
            let ghost before = raw@;
            push_to_row(&mut raw, target, source);
            proof {
                assert forall|i: int| 0 <= i < n implies (#[trigger] raw@[i])@ == seq![i as usize]
                    + appended(members, i, source as int, k + 1) by {
                    assert(before[i]@ == seq![i as usize] + appended(
                        members,
                        i,
                        source as int,
                        k as int,
                    ));
                    if i == target {
                        assert(raw@[i]@ =~= seq![i as usize] + appended(
                            members,
                            i,
                            source as int,
                            k + 1,
                        ));
                    }
                }
            }
            k += 1;
        }
        source += 1;
    }
    let mut rows: Vec<Vec<usize>> = Vec::new();
    let mut t: usize = 0;
    while t < n
        invariant
            n == members.len(),
            t <= n,
            raw@.len() == n,
            rows@.len() == t,
            forall|i: int|
                0 <= i < n ==> (#[trigger] raw@[i])@ == seq![i as usize] + appended(
                    members,
                    i,
                    n as int,
                    0,
                ),
            forall|i: int| 0 <= i < t ==> (#[trigger] rows@[i])@ == list_row(members, i),
        decreases n - t,
    {
        let row: Vec<usize> = collapse_row(&raw[t]);
        proof {
            lemma_collapse_appended(members, t as int, n as int, 0);
            assert(raw@[t as int]@.skip(1) =~= appended(members, t as int, n as int, 0));
        }
        rows.push(row);
        t += 1;
    }
    rows
}

/// Renders an adjacency list: each row on one line, its identifiers joined
/// by single spaces.
pub fn render_list(rows: &Vec<Vec<usize>>) -> (lines: Vec<String>)
    ensures
        texts(lines@) == list_lines(id_rows(rows@)),
{
    let mut lines: Vec<String> = Vec::new();
    let mut t: usize = 0;
    while t < rows.len()
        invariant
            t <= rows@.len(),
            lines@.len() == t,
            forall|i: int| 0 <= i < t ==> (#[trigger] lines@[i])@ == spaced(rows@[i]@),
        decreases rows@.len() - t,
    {
        let row: &Vec<usize> = &rows[t];
        let mut line: String = String::new();
        let mut i: usize = 0;
        while i < row.len()
            invariant
                i <= row@.len(),
                line@ == spaced(row@.take(i as int)),
            decreases row@.len() - i,
        {
            if i > 0 {
                proof {
                    reveal_strlit(" ");
                }
                line.append(" ");
            }
            append_decimal(&mut line, row[i]);
            proof {
                let next = row@.take(i + 1);
                assert(next.drop_last() =~= row@.take(i as int));
            }
            i += 1;
        }
        assert(row@.take(row@.len() as int) =~= row@);
        lines.push(line);
        t += 1;
    }
    lines
}

/// The adjacency list of a model as lines of text, one line per node in
/// ascending order of the identifiers.
pub fn generate_adjacency_list(model: &FbasModel) -> (lines: Vec<String>)
    requires
        model.wf(),
    ensures
        texts(lines@) == list_lines(list_rows(model.members())),
{
    let rows: Vec<Vec<usize>> = adjacency_list(model);
    render_list(&rows)
}

/// The sources of a target are identifiers below the bound, strictly
/// ascending, and exactly the nodes below the bound that reference it.
pub proof fn lemma_sources(members: Seq<Seq<usize>>, target: int, upto: nat)
    requires
        upto <= usize::MAX,
    ensures
        forall|i: int|
            0 <= i < sources(members, target, upto).len() ==> #[trigger] sources(
                members,
                target,
                upto,
            )[i] < upto,
        forall|i: int, j: int|
            0 <= i < j < sources(members, target, upto).len() ==> sources(members, target, upto)[i]
                < sources(members, target, upto)[j],
        forall|s: int|
            0 <= s < upto ==> (names(members, s, target) <==> sources(
                members,
                target,
                upto,
            ).contains(s as usize)),
    decreases upto,
{
    if upto > 0 {
        let below = sources(members, target, (upto - 1) as nat);
        let all = sources(members, target, upto);
        lemma_sources(members, target, (upto - 1) as nat);
        assert forall|s: int| 0 <= s < upto implies (names(members, s, target) <==> all.contains(
            s as usize,
        )) by {
            if names(members, upto - 1, target) {
                // `all` is `below` with `upto - 1` behind it
                assert(all.last() == upto - 1);
                if s < upto - 1 && below.contains(s as usize) {
                    let i = choose|i: int| 0 <= i < below.len() && below[i] == s as usize;
                    assert(all[i] == s);
                }
                if s < upto - 1 && all.contains(s as usize) {
                    let i = choose|i: int| 0 <= i < all.len() && all[i] == s as usize;
                    assert(below[i] == s);
                }
            }
        }
    }
}

/// Each node that references `target` stands in the row of `target` exactly
/// once behind the leading identifier, however often it references it, and
/// no other node stands there.
pub proof fn lemma_neighbors_once(members: Seq<Seq<usize>>, target: int)
    requires
        valid_membership(members),
        0 <= target < members.len(),
    ensures
        list_row(members, target)[0] == target,
        list_row(members, target).skip(1).no_duplicates(),
        forall|s: int|
            0 <= s < members.len() ==> (names(members, s, target) <==> list_row(
                members,
                target,
            ).skip(1).contains(s as usize)),
        forall|i: int|
            1 <= i < list_row(members, target).len() ==> #[trigger] list_row(members, target)[i]
                < members.len(),
{
    let neighbors = sources(members, target, members.len());
    lemma_sources(members, target, members.len());
    assert(list_row(members, target).skip(1) =~= neighbors);
    assert forall|i: int| 1 <= i < list_row(members, target).len() implies #[trigger] list_row(
        members,
        target,
    )[i] < members.len() by {
        assert(list_row(members, target)[i] == neighbors[i - 1]);
    }
}

} // verus!
