//! The accounts that a transaction's message names, grouped as the
//! message's header counts them, and the limits within which a legacy
//! message can be compiled and serialized.

use vstd::prelude::*;
use crate::bytes::same_address;
use crate::instruction::{ix_view, meta_view, AccountMetaData, InstructionData};

verus! {

/// The instructions of a transaction as plain values.
pub open spec fn ix_views(ixs: Seq<InstructionData>) -> Seq<
    (Seq<u8>, Seq<(Seq<u8>, bool, bool)>, Seq<u8>),
> {
    ixs.map_values(|ix: InstructionData| ix_view(ix))
}

/// The accounts that a transaction names, in order: the fee payer, a
/// writable signer, then for each instruction its program, with no role,
/// and its accounts with their roles.
pub open spec fn named_accounts(
    payer: Seq<u8>,
    ixs: Seq<(Seq<u8>, Seq<(Seq<u8>, bool, bool)>, Seq<u8>)>,
) -> Seq<(Seq<u8>, bool, bool)>
    decreases ixs.len(),
{
    if ixs.len() == 0 {
        seq![(payer, true, true)]
    } else {
        named_accounts(payer, ixs.drop_last()) + seq![(ixs.last().0, false, false)]
            + ixs.last().1
    }
}

/// Whether `m` names the key `k`.
pub open spec fn names_key(m: Seq<(Seq<u8>, bool, bool)>, k: Seq<u8>) -> bool {
    exists|i: int| 0 <= i < m.len() && (#[trigger] m[i]).0 == k
}

/// Whether `m` names the key `k` as a signer.
pub open spec fn key_signs(m: Seq<(Seq<u8>, bool, bool)>, k: Seq<u8>) -> bool {
    exists|i: int| 0 <= i < m.len() && (#[trigger] m[i]).0 == k && m[i].1
}

/// Whether `m` names the key `k` as writable.
pub open spec fn key_writes(m: Seq<(Seq<u8>, bool, bool)>, k: Seq<u8>) -> bool {
    exists|i: int| 0 <= i < m.len() && (#[trigger] m[i]).0 == k && m[i].2
}

/// The distinct keys that `m` names.
pub open spec fn message_keys(m: Seq<(Seq<u8>, bool, bool)>) -> Set<Seq<u8>> {
    Set::new(|k: Seq<u8>| names_key(m, k))
}

/// The distinct keys that sign.
pub open spec fn signer_keys(m: Seq<(Seq<u8>, bool, bool)>) -> Set<Seq<u8>> {
    Set::new(|k: Seq<u8>| key_signs(m, k))
}

/// The distinct keys that sign and are nowhere writable.
pub open spec fn readonly_signer_keys(m: Seq<(Seq<u8>, bool, bool)>) -> Set<Seq<u8>> {
    Set::new(|k: Seq<u8>| key_signs(m, k) && !key_writes(m, k))
}

/// The distinct keys that neither sign nor are writable anywhere.
pub open spec fn readonly_unsigned_keys(m: Seq<(Seq<u8>, bool, bool)>) -> Set<Seq<u8>> {
    Set::new(|k: Seq<u8>| names_key(m, k) && !key_signs(m, k) && !key_writes(m, k))
}

/// Whether a legacy message of the instructions `ixs` with the fee payer
/// `payer` can be compiled and serialized: each of the three header counts
/// (signers, read-only signers, read-only non-signers) fits a `u8`, and the
/// keys, the instructions, and each instruction's accounts and data each
/// number at most `u16::MAX`, the limit of their compact length prefix.
pub open spec fn message_fits(
    payer: Seq<u8>,
    ixs: Seq<(Seq<u8>, Seq<(Seq<u8>, bool, bool)>, Seq<u8>)>,
) -> bool {
    let m = named_accounts(payer, ixs);
    &&& signer_keys(m).len() <= 255
    &&& readonly_signer_keys(m).len() <= 255
    &&& readonly_unsigned_keys(m).len() <= 255
    &&& message_keys(m).len() <= 0xffff
    &&& ixs.len() <= 0xffff
    &&& forall|i: int| #![auto] 0 <= i < ixs.len() ==> ixs[i].1.len() <= 0xffff && ixs[i].2.len() <= 0xffff
}

/// An account with its roles, as plain values.
pub open spec fn entry_view(e: ([u8; 32], bool, bool)) -> (Seq<u8>, bool, bool) {
    (e.0@, e.1, e.2)
}

/// Accounts with their roles, as plain values.
pub open spec fn entries_view(v: Seq<([u8; 32], bool, bool)>) -> Seq<(Seq<u8>, bool, bool)> {
    v.map_values(|e: ([u8; 32], bool, bool)| entry_view(e))
}

proof fn lemma_push_entry(m: Seq<(Seq<u8>, bool, bool)>, e: (Seq<u8>, bool, bool), k: Seq<u8>)
    ensures
        names_key(m.push(e), k) == (names_key(m, k) || e.0 == k),
        key_signs(m.push(e), k) == (key_signs(m, k) || (e.0 == k && e.1)),
        key_writes(m.push(e), k) == (key_writes(m, k) || (e.0 == k && e.2)),
{
    let n = m.push(e);
    if names_key(m, k) {
        let i = choose|i: int| 0 <= i < m.len() && (#[trigger] m[i]).0 == k;
        assert(n[i] == m[i]);
    }
    if key_signs(m, k) {
        let i = choose|i: int| 0 <= i < m.len() && (#[trigger] m[i]).0 == k && m[i].1;
        assert(n[i] == m[i]);
    }
    if key_writes(m, k) {
        let i = choose|i: int| 0 <= i < m.len() && (#[trigger] m[i]).0 == k && m[i].2;
        assert(n[i] == m[i]);
    }
    if e.0 == k {
        assert(n[m.len() as int] == e);
    }
    if names_key(n, k) {
        let i = choose|i: int| 0 <= i < n.len() && (#[trigger] n[i]).0 == k;
        if i < m.len() {
            assert(n[i] == m[i]);
        }
    }
    if key_signs(n, k) {
        let i = choose|i: int| 0 <= i < n.len() && (#[trigger] n[i]).0 == k && n[i].1;
        if i < m.len() {
            assert(n[i] == m[i]);
        }
    }
    if key_writes(n, k) {
        let i = choose|i: int| 0 <= i < n.len() && (#[trigger] n[i]).0 == k && n[i].2;
        if i < m.len() {
            assert(n[i] == m[i]);
        }
    }
}

/// The accounts that the transaction of `ixs` with the fee payer `payer`
/// names, in order.
fn named_account_list(payer: &[u8; 32], ixs: &Vec<InstructionData>) -> (v: Vec<([u8; 32], bool, bool)>)
    ensures
        entries_view(v@) == named_accounts(payer@, ix_views(ixs@)),
{
    let mut v: Vec<([u8; 32], bool, bool)> = vec![(*payer, true, true)];
    assert(ix_views(ixs@.subrange(0, 0)) =~= Seq::empty());
    assert(entries_view(v@) =~= seq![(payer@, true, true)]);
    let mut i: usize = 0;
    while i < ixs.len()
        invariant
            i <= ixs@.len(),
            entries_view(v@) == named_accounts(
                payer@,
                ix_views(ixs@.subrange(0, i as int)),
            ),
        decreases ixs@.len() - i,
    {
        let ix = &ixs[i];
        let ghost base = entries_view(v@);
        v.push((ix.program_id, false, false));
        assert(entries_view(v@) =~= base + seq![
            (ix.program_id@, false, false),
        ]);
        let mut j: usize = 0;
        while j < ix.accounts.len()
            invariant
                j <= ix.accounts@.len(),
                entries_view(v@) == base + seq![
                    (ix.program_id@, false, false),
                ] + ix.accounts@.subrange(0, j as int).map_values(|m: AccountMetaData| meta_view(m)),
            decreases ix.accounts@.len() - j,
        {
            let m = ix.accounts[j];
            let ghost before = entries_view(v@);
            v.push((m.pubkey, m.is_signer, m.is_writable));
            assert(entries_view(v@) =~= before.push(meta_view(m)));
            assert(ix.accounts@.subrange(0, j + 1).map_values(|m: AccountMetaData| meta_view(m))
                =~= ix.accounts@.subrange(0, j as int).map_values(|m: AccountMetaData| meta_view(m)).push(
                meta_view(m),
            ));
            assert(entries_view(v@) =~= base + seq![
                (ix.program_id@, false, false),
            ] + ix.accounts@.subrange(0, j + 1).map_values(|m: AccountMetaData| meta_view(m)));
            j = j + 1;
        }
        assert(ix.accounts@.subrange(0, j as int) =~= ix.accounts@);
        let ghost next = ix_views(ixs@.subrange(0, i + 1));
        assert(next.drop_last() =~= ix_views(ixs@.subrange(0, i as int)));
        assert(next.last() == ix_view(ixs@[i as int]));
        i = i + 1;
    }
    assert(ixs@.subrange(0, ixs@.len() as int) =~= ixs@);
    v
}

/// The index of the entry of `keys` whose key is `k`, if any.
fn find_key(keys: &Vec<([u8; 32], bool, bool)>, k: &[u8; 32]) -> (r: Option<usize>)
    ensures
        match r {
            Some(p) => p < keys@.len() && keys@[p as int].0@ == k@,
            None => forall|q: int| 0 <= q < keys@.len() ==> (#[trigger] keys@[q]).0@ != k@,
        },
{
    let mut p: usize = 0;
    while p < keys.len()
        invariant
            p <= keys@.len(),
            forall|q: int| 0 <= q < p ==> (#[trigger] keys@[q]).0@ != k@,
        decreases keys@.len() - p,
    {
        if same_address(&keys[p].0, k) {
            return Some(p);
        }
        p = p + 1;
    }
    None
}

/// The distinct keys that `list` names, each once, with the roles that
/// `list` gives it anywhere.
fn distinct_keys(list: &Vec<([u8; 32], bool, bool)>) -> (keys: Vec<([u8; 32], bool, bool)>)
    ensures
        forall|a: int, b: int|
            #![trigger keys@[a], keys@[b]]
            0 <= a < b < keys@.len() ==> keys@[a].0@ != keys@[b].0@,
        forall|k: Seq<u8>|
            #![trigger names_key(entries_view(list@), k)]
            names_key(entries_view(list@), k) <==> exists|j: int|
                0 <= j < keys@.len() && (#[trigger] keys@[j]).0@ == k,
        forall|j: int|
            #![trigger keys@[j]]
            0 <= j < keys@.len() ==> keys@[j].1 == key_signs(
                entries_view(list@),
                keys@[j].0@,
            ) && keys@[j].2 == key_writes(
                entries_view(list@),
                keys@[j].0@,
            ),
{
    let ghost m = entries_view(list@);
    let mut keys: Vec<([u8; 32], bool, bool)> = Vec::new();
    let mut n: usize = 0;
    while n < list.len()
        invariant
            n <= list@.len(),
            m == entries_view(list@),
            forall|a: int, b: int|
                #![trigger keys@[a], keys@[b]]
                0 <= a < b < keys@.len() ==> keys@[a].0@ != keys@[b].0@,
            forall|k: Seq<u8>|
                #![trigger names_key(m.subrange(0, n as int), k)]
                names_key(m.subrange(0, n as int), k) <==> exists|j: int|
                    0 <= j < keys@.len() && (#[trigger] keys@[j]).0@ == k,
            forall|j: int|
                #![trigger keys@[j]]
                0 <= j < keys@.len() ==> keys@[j].1 == key_signs(m.subrange(0, n as int), keys@[j].0@)
                    && keys@[j].2 == key_writes(m.subrange(0, n as int), keys@[j].0@),
        decreases list@.len() - n,
    {
        let e = list[n];
        let ghost prev = m.subrange(0, n as int);
        let ghost ev = entry_view(e);
        let ghost old_keys = keys@;
        assert(m[n as int] == ev);
        assert(m.subrange(0, n + 1) =~= prev.push(ev));
        assert forall|k: Seq<u8>|
            #![trigger names_key(prev.push(ev), k)]
            #![trigger key_signs(prev.push(ev), k)]
            #![trigger key_writes(prev.push(ev), k)]
            names_key(prev.push(ev), k) == (names_key(prev, k) || ev.0 == k) && key_signs(
                prev.push(ev),
                k,
            ) == (key_signs(prev, k) || (ev.0 == k && ev.1)) && key_writes(prev.push(ev), k) == (
            key_writes(prev, k) || (ev.0 == k && ev.2)) by {
            lemma_push_entry(prev, ev, k);
        }
        match find_key(&keys, &e.0) {
            Some(p) => {
                let old_entry = keys[p];
                keys.set(p, (old_entry.0, old_entry.1 || e.1, old_entry.2 || e.2));
                assert forall|k: Seq<u8>|
                    #![trigger names_key(prev.push(ev), k)]
                    names_key(prev.push(ev), k) <==> exists|j: int|
                        0 <= j < keys@.len() && (#[trigger] keys@[j]).0@ == k by {
                    if names_key(prev.push(ev), k) {
                        if names_key(prev, k) {
                            let j = choose|j: int| 0 <= j < old_keys.len() && (#[trigger] old_keys[j]).0@ == k;
                            assert(keys@[j].0@ == k);
                        } else {
                            assert(keys@[p as int].0@ == k);
                        }
                    }
                    if exists|j: int| 0 <= j < keys@.len() && (#[trigger] keys@[j]).0@ == k {
                        let j = choose|j: int| 0 <= j < keys@.len() && (#[trigger] keys@[j]).0@ == k;
                        assert(old_keys[j].0@ == k);
                    }
                }
                assert forall|j: int|
                    #![trigger keys@[j]]
                    0 <= j < keys@.len() implies keys@[j].1 == key_signs(prev.push(ev), keys@[j].0@)
                        && keys@[j].2 == key_writes(prev.push(ev), keys@[j].0@) by {
                    if j != p {
                        assert(old_keys[j].0@ != old_keys[p as int].0@) by {
                            if j < p {
                                assert(old_keys[j].0@ != old_keys[p as int].0@);
                            } else {
                                assert(old_keys[p as int].0@ != old_keys[j].0@);
                            }
                        }
                        assert(keys@[j] == old_keys[j]);
                    }
                }
            },
            None => {
                keys.push(e);
                assert forall|k: Seq<u8>|
                    #![trigger names_key(prev.push(ev), k)]
                    names_key(prev.push(ev), k) <==> exists|j: int|
                        0 <= j < keys@.len() && (#[trigger] keys@[j]).0@ == k by {
                    if names_key(prev.push(ev), k) {
                        if names_key(prev, k) {
                            let j = choose|j: int| 0 <= j < old_keys.len() && (#[trigger] old_keys[j]).0@ == k;
                            assert(keys@[j].0@ == k);
                        } else {
                            assert(keys@[old_keys.len() as int].0@ == k);
                        }
                    }
                    if exists|j: int| 0 <= j < keys@.len() && (#[trigger] keys@[j]).0@ == k {
                        let j = choose|j: int| 0 <= j < keys@.len() && (#[trigger] keys@[j]).0@ == k;
                        if j < old_keys.len() {
                            assert(old_keys[j].0@ == k);
                        }
                    }
                }
                assert forall|j: int|
                    #![trigger keys@[j]]
                    0 <= j < keys@.len() implies keys@[j].1 == key_signs(prev.push(ev), keys@[j].0@)
                        && keys@[j].2 == key_writes(prev.push(ev), keys@[j].0@) by {
                    if j < old_keys.len() {
                        assert(keys@[j] == old_keys[j]);
                        assert(old_keys[j].0@ != e.0@);
                        if key_signs(prev, ev.0) {
                            let i = choose|i: int| 0 <= i < prev.len() && (#[trigger] prev[i]).0 == ev.0 && prev[i].1;
                            assert(names_key(prev, ev.0));
                        }
                    } else {
                        assert(!names_key(prev, ev.0)) by {
                            if names_key(prev, ev.0) {
                                let jj = choose|jj: int| 0 <= jj < old_keys.len() && (#[trigger] old_keys[jj]).0@ == ev.0;
                            }
                        }
                        if key_signs(prev, ev.0) {
                            let i = choose|i: int| 0 <= i < prev.len() && (#[trigger] prev[i]).0 == ev.0 && prev[i].1;
                            assert(names_key(prev, ev.0));
                        }
                        if key_writes(prev, ev.0) {
                            let i = choose|i: int| 0 <= i < prev.len() && (#[trigger] prev[i]).0 == ev.0 && prev[i].2;
                            assert(names_key(prev, ev.0));
                        }
                    }
                }
            },
        }
        n = n + 1;
    }
    assert(m.subrange(0, n as int) =~= m);
    keys
}

/// Whether roles (signer, writable) belong to a group of keys: 0 all, 1 the
/// signers, 2 the read-only signers, 3 the read-only non-signers.
pub open spec fn in_group(group: u8, signer: bool, writable: bool) -> bool {
    if group == 1 {
        signer
    } else if group == 2 {
        signer && !writable
    } else if group == 3 {
        !signer && !writable
    } else {
        true
    }
}

/// The keys of `keys` whose roles belong to `group`.
pub open spec fn group_keys(keys: Seq<([u8; 32], bool, bool)>, group: u8) -> Set<Seq<u8>> {
    Set::new(
        |k: Seq<u8>|
            exists|j: int|
                0 <= j < keys.len() && (#[trigger] keys[j]).0@ == k && in_group(group, keys[j].1, keys[j].2),
    )
}

/// The number of keys of `keys`, which are distinct, whose roles belong to
/// `group`.
fn group_size(keys: &Vec<([u8; 32], bool, bool)>, group: u8) -> (c: usize)
    requires
        forall|a: int, b: int|
            #![trigger keys@[a], keys@[b]]
            0 <= a < b < keys@.len() ==> keys@[a].0@ != keys@[b].0@,
    ensures
        c == group_keys(keys@, group).len(),
{
    let ghost mut g: Seq<Seq<u8>> = Seq::empty();
    let mut c: usize = 0;
    let mut j: usize = 0;
    while j < keys.len()
        invariant
            j <= keys@.len(),
            forall|a: int, b: int|
                #![trigger keys@[a], keys@[b]]
                0 <= a < b < keys@.len() ==> keys@[a].0@ != keys@[b].0@,
            c == g.len(),
            c <= j,
            g.no_duplicates(),
            forall|k: Seq<u8>|
                #![trigger g.contains(k)]
                g.contains(k) <==> exists|jj: int|
                    0 <= jj < j && (#[trigger] keys@[jj]).0@ == k && in_group(group, keys@[jj].1, keys@[jj].2),
        decreases keys@.len() - j,
    {
        let e = keys[j];
        let member = if group == 1 {
            e.1
        } else if group == 2 {
            e.1 && !e.2
        } else if group == 3 {
            !e.1 && !e.2
        } else {
            true
        };
        let ghost old_g = g;
        assert(member == in_group(group, e.1, e.2));
        assert(keys@[j as int] == e);
        if member {
            assert(!old_g.contains(e.0@)) by {
                if old_g.contains(e.0@) {
                    let jj = choose|jj: int|
                        0 <= jj < j && (#[trigger] keys@[jj]).0@ == e.0@ && in_group(group, keys@[jj].1, keys@[jj].2);
                    assert(keys@[jj].0@ != keys@[j as int].0@);
                }
            }
            proof {
                g = g.push(e.0@);
                assert forall|a: int, b: int| 0 <= a < b < g.len() implies g[a] != g[b] by {
                    if b == g.len() - 1 {
                        assert(old_g.contains(old_g[a]));
                    } else {
                        assert(old_g[a] != old_g[b]);
                    }
                }
            }
            c = c + 1;
        }
        assert forall|k: Seq<u8>|
            #![trigger g.contains(k)]
            g.contains(k) <==> exists|jj: int|
                0 <= jj < j + 1 && (#[trigger] keys@[jj]).0@ == k && in_group(group, keys@[jj].1, keys@[jj].2) by {
            if g.contains(k) {
                if old_g.contains(k) {
                    let jj = choose|jj: int|
                        0 <= jj < j && (#[trigger] keys@[jj]).0@ == k && in_group(group, keys@[jj].1, keys@[jj].2);
                } else {
                    assert(keys@[j as int].0@ == k);
                }
            }
            if exists|jj: int|
                0 <= jj < j + 1 && (#[trigger] keys@[jj]).0@ == k && in_group(group, keys@[jj].1, keys@[jj].2) {
                let jj = choose|jj: int|
                    0 <= jj < j + 1 && (#[trigger] keys@[jj]).0@ == k && in_group(group, keys@[jj].1, keys@[jj].2);
                if jj < j {
                    assert(old_g.contains(k));
                    assert(g.contains(k)) by {
                        if member {
                            let t = old_g.index_of(k);
                            assert(g[t] == k);
                        }
                    }
                } else {
                    assert(member);
                    assert(g.contains(e.0@)) by {
                        assert(g[g.len() - 1] == e.0@);
                    }
                }
            }
        }
        j = j + 1;
    }
    proof {
        assert(g.to_set() =~= group_keys(keys@, group)) by {
            assert forall|k: Seq<u8>| g.to_set().contains(k) == group_keys(keys@, group).contains(k) by {
                assert(g.to_set().contains(k) == g.contains(k));
            }
        }
        g.unique_seq_to_set();
    }
    c
}

proof fn lemma_roles_name(m: Seq<(Seq<u8>, bool, bool)>, k: Seq<u8>)
    ensures
        key_signs(m, k) ==> names_key(m, k),
        key_writes(m, k) ==> names_key(m, k),
{
    if key_signs(m, k) {
        let i = choose|i: int| 0 <= i < m.len() && (#[trigger] m[i]).0 == k && m[i].1;
        assert(m[i].0 == k);
    }
    if key_writes(m, k) {
        let i = choose|i: int| 0 <= i < m.len() && (#[trigger] m[i]).0 == k && m[i].2;
        assert(m[i].0 == k);
    }
}

/// Whether the legacy message of the instructions `ixs` with the fee payer
/// `payer` can be compiled and serialized.
pub fn message_fits_limits(payer: &[u8; 32], ixs: &Vec<InstructionData>) -> (b: bool)
    ensures
        b == message_fits(payer@, ix_views(ixs@)),
{
    let ghost views = ix_views(ixs@);
    let mut sizes_ok: bool = ixs.len() <= 0xffff;
    let mut i: usize = 0;
    while i < ixs.len()
        invariant
            i <= ixs@.len(),
            views == ix_views(ixs@),
            sizes_ok == (ixs@.len() <= 0xffff && forall|t: int|
                #![auto]
                0 <= t < i ==> views[t].1.len() <= 0xffff && views[t].2.len() <= 0xffff),
        decreases ixs@.len() - i,
    {
        assert(views[i as int] == ix_view(ixs@[i as int]));
        if ixs[i].accounts.len() > 0xffff || ixs[i].data.len() > 0xffff {
            sizes_ok = false;
        }
        i = i + 1;
    }
    let list = named_account_list(payer, ixs);
    let keys = distinct_keys(&list);
    let ghost m = named_accounts(payer@, views);
    proof {
        assert forall|g: u8| 0 <= g <= 3 implies #[trigger] group_keys(keys@, g) =~= (if g == 0 {
            message_keys(m)
        } else if g == 1 {
            signer_keys(m)
        } else if g == 2 {
            readonly_signer_keys(m)
        } else {
            readonly_unsigned_keys(m)
        }) by {
            assert forall|k: Seq<u8>| #[trigger] group_keys(keys@, g).contains(k) == (if g == 0 {
                message_keys(m)
            } else if g == 1 {
                signer_keys(m)
            } else if g == 2 {
                readonly_signer_keys(m)
            } else {
                readonly_unsigned_keys(m)
            }).contains(k) by {
                lemma_roles_name(m, k);
                if names_key(m, k) {
                    let j = choose|j: int| 0 <= j < keys@.len() && (#[trigger] keys@[j]).0@ == k;
                    assert(keys@[j].1 == key_signs(m, k) && keys@[j].2 == key_writes(m, k));
                }
                if group_keys(keys@, g).contains(k) {
                    let j = choose|j: int|
                        0 <= j < keys@.len() && (#[trigger] keys@[j]).0@ == k && in_group(g, keys@[j].1, keys@[j].2);
                    assert(names_key(m, k));
                    assert(keys@[j].1 == key_signs(m, k) && keys@[j].2 == key_writes(m, k));
                }
            }
        }
    }
    let all = group_size(&keys, 0);
    let signers = group_size(&keys, 1);
    let readonly_signers = group_size(&keys, 2);
    let readonly_unsigned = group_size(&keys, 3);
    assert(group_keys(keys@, 0) =~= message_keys(m));
    assert(group_keys(keys@, 1) =~= signer_keys(m));
    assert(group_keys(keys@, 2) =~= readonly_signer_keys(m));
    assert(group_keys(keys@, 3) =~= readonly_unsigned_keys(m));
    sizes_ok && signers <= 255 && readonly_signers <= 255 && readonly_unsigned <= 255 && all <= 0xffff
}

} // verus!
