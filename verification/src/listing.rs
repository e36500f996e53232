//! The order in which ledgers are shown: by display name without regard to
//! case, and by identifier where two names fold to the same text.

use vstd::prelude::*;
use vstd::string::*;
use vstd::utf8::*;
use crate::record::{ServiceState, ServiceStateView};
use crate::registry::Registry;
use crate::text::{byte_rank, lex_less, lowercase, to_lowercase, Rank};

verus! {

/// The bytes by which a display name is ordered: its lower-case form in
/// UTF-8.
pub open spec fn display_key(name: Seq<char>) -> Seq<u8> {
    encode_utf8(lowercase(name))
}

/// The pair of name key `ka` and identifier `ia` comes before the pair
/// `kb`, `ib`.
pub open spec fn key_before(ka: Seq<u8>, ia: Seq<u8>, kb: Seq<u8>, ib: Seq<u8>) -> bool {
    lex_less(ka, kb) || (ka == kb && lex_less(ia, ib))
}

/// Among `records`, the ledger under `a` is shown before the one under `b`.
pub open spec fn listed_before(
    records: Map<Seq<char>, ServiceStateView>,
    a: Seq<char>,
    b: Seq<char>,
) -> bool {
    key_before(
        display_key(records[a].name),
        encode_utf8(a),
        display_key(records[b].name),
        encode_utf8(b),
    )
}

/// `ids` lists every identifier of `records` once, each before its
/// successor in display order.
pub open spec fn is_listing(records: Map<Seq<char>, ServiceStateView>, ids: Seq<Seq<char>>) -> bool {
    &&& ids.no_duplicates()
    &&& forall|id: Seq<char>| ids.contains(id) <==> records.contains_key(id)
    &&& forall|k: int| 0 <= k < ids.len() - 1 ==> listed_before(records, #[trigger] ids[k], ids[k + 1])
}

/// `shown` holds the ledgers of `records` in the order of `ids`.
pub open spec fn shows(
    records: Map<Seq<char>, ServiceStateView>,
    ids: Seq<Seq<char>>,
    shown: Seq<ServiceState>,
) -> bool {
    &&& shown.len() == ids.len()
    &&& forall|k: int| 0 <= k < ids.len() ==> (#[trigger] shown[k])@ == records[ids[k]]
}

/// The entry at position `a` of `reg` is shown before the one at `b`.
pub open spec fn slot_before(reg: &Registry<ServiceState>, a: int, b: int) -> bool {
    key_before(
        display_key(reg.entries[a].value.name@),
        encode_utf8(reg.entries[a].id@),
        display_key(reg.entries[b].value.name@),
        encode_utf8(reg.entries[b].id@),
    )
}

/// Ranks one pair of name key and identifier against another.
fn pair_rank(ka: &[u8], ia: &[u8], kb: &[u8], ib: &[u8]) -> (r: Rank)
    ensures
        r == Rank::Before <==> key_before(ka@, ia@, kb@, ib@),
        r == Rank::After <==> key_before(kb@, ib@, ka@, ia@),
        r == Rank::Same <==> ka@ == kb@ && ia@ == ib@,
{
    match byte_rank(ka, kb) {
        Rank::Before => Rank::Before,
        Rank::After => Rank::After,
        Rank::Same => byte_rank(ia, ib),
    }
}

/// The name keys of all entries, position by position.
fn name_keys(reg: &Registry<ServiceState>) -> (keys: Vec<Vec<u8>>)
    ensures
        keys.len() == reg.entries.len(),
        forall|j: int|
            0 <= j < keys.len() ==> (#[trigger] keys[j])@ == display_key(
                reg.entries[j].value.name@,
            ),
{
    let mut keys: Vec<Vec<u8>> = Vec::new();
    let mut i: usize = 0;
    while i < reg.entries.len()
        invariant
            i <= reg.entries.len(),
            keys.len() == i,
            forall|j: int|
                0 <= j < i ==> (#[trigger] keys[j])@ == display_key(reg.entries[j].value.name@),
        decreases reg.entries.len() - i,
    {
        let folded = to_lowercase(reg.entries[i].value.name.as_str());
        keys.push(folded.as_str().as_bytes_vec());
        i += 1;
    }
    keys
}

/// What holds of the positions sorted so far: the first `i` positions of
/// the table, each once, each before its successor.
pub open spec fn sorted_prefix(reg: &Registry<ServiceState>, order: Seq<usize>, i: int) -> bool {
    &&& order.len() == i
    &&& forall|p: int| 0 <= p < i ==> 0 <= #[trigger] order[p] < i
    &&& forall|p: int, q: int| 0 <= p < q < i ==> order[p] != order[q]
    &&& forall|j: usize| j < i ==> #[trigger] order.contains(j)
    &&& forall|p: int| 0 <= p < i - 1 ==> slot_before(reg, #[trigger] order[p] as int, order[p + 1] as int)
}

proof fn lemma_distinct_slots(reg: &Registry<ServiceState>, a: int, b: int)
    requires
        reg.wf(),
        0 <= a < reg.entries.len(),
        0 <= b < reg.entries.len(),
        a != b,
    ensures
        encode_utf8(reg.entries[a].id@) != encode_utf8(reg.entries[b].id@),
{
    encode_utf8_decode_utf8(reg.entries[a].id@);
    encode_utf8_decode_utf8(reg.entries[b].id@);
    if a < b {
        assert(reg.entries[a].id@ != reg.entries[b].id@);
    } else {
        assert(reg.entries[b].id@ != reg.entries[a].id@);
    }
}

/// `after` is `before` with `x` put in at position `pos`.
pub open spec fn put_in(before: Seq<usize>, after: Seq<usize>, pos: int, x: usize) -> bool {
    &&& 0 <= pos <= before.len()
    &&& after.len() == before.len() + 1
    &&& after[pos] == x
    &&& forall|p: int| 0 <= p < pos ==> #[trigger] after[p] == before[p]
    &&& forall|p: int| pos < p <= before.len() ==> #[trigger] after[p] == before[p - 1]
}

proof fn lemma_put_in(before: Seq<usize>, pos: int, x: usize)
    requires
        0 <= pos <= before.len(),
    ensures
        put_in(before, before.insert(pos, x), pos, x),
{
}

proof fn lemma_inserted(
    reg: &Registry<ServiceState>,
    before: Seq<usize>,
    after: Seq<usize>,
    i: usize,
    pos: int,
)
    requires
        sorted_prefix(reg, before, i as int),
        put_in(before, after, pos, i),
        pos > 0 ==> slot_before(reg, before[pos - 1] as int, i as int),
        pos < i ==> slot_before(reg, i as int, before[pos] as int),
    ensures
        sorted_prefix(reg, after, i + 1),
{
    assert forall|p: int| 0 <= p < i + 1 implies 0 <= #[trigger] after[p] < i + 1 by {
        if p < pos {
            assert(after[p] == before[p]);
        } else if p > pos {
            assert(after[p] == before[p - 1]);
        }
    }
    assert forall|p: int, q: int| 0 <= p < q < i + 1 implies after[p] != after[q] by {
        let bp = if p < pos {
            p
        } else {
            p - 1
        };
        let bq = if q < pos {
            q
        } else {
            q - 1
        };
        if p != pos && q != pos {
            assert(after[p] == before[bp]);
            assert(after[q] == before[bq]);
        } else if p == pos {
            assert(after[q] == before[bq]);
        } else {
            assert(after[p] == before[bp]);
        }
    }
    assert forall|j: usize| j < i + 1 implies #[trigger] after.contains(j) by {
        if j == i {
            assert(after[pos] == j);
        } else {
            assert(before.contains(j));
            let p = choose|p: int| 0 <= p < before.len() && before[p] == j;
            if p < pos {
                assert(after[p] == j);
            } else {
                assert(after[p + 1] == j);
            }
        }
    }
    assert forall|p: int| 0 <= p < i implies slot_before(
        reg,
        #[trigger] after[p] as int,
        after[p + 1] as int,
    ) by {
        if p + 1 < pos {
            assert(after[p] == before[p]);
            assert(after[p + 1] == before[p + 1]);
        } else if p + 1 == pos {
            assert(after[p] == before[p]);
            assert(after[p + 1] == i);
        } else if p == pos {
            assert(after[p] == i);
            assert(after[p + 1] == before[p]);
        } else {
            assert(after[p] == before[p - 1]);
            assert(after[p + 1] == before[p]);
            assert(slot_before(reg, before[p - 1] as int, before[p - 1 + 1] as int));
        }
    }
}

/// The positions of all entries in display order.
fn display_order(reg: &Registry<ServiceState>) -> (order: Vec<usize>)
    requires
        reg.wf(),
    ensures
        sorted_prefix(reg, order@, reg.entries.len() as int),
{
    let keys = name_keys(reg);
    let n = reg.entries.len();
    let mut order: Vec<usize> = Vec::new();
    let mut i: usize = 0;
    while i < n
        invariant
            reg.wf(),
            n == reg.entries.len(),
            keys.len() == n,
            forall|j: int|
                0 <= j < n ==> (#[trigger] keys[j])@ == display_key(reg.entries[j].value.name@),
            i <= n,
            sorted_prefix(reg, order@, i as int),
        decreases n - i,
    {
        let mut pos: usize = 0;
        let mut found = false;
        while pos < i && !found
            invariant
                reg.wf(),
                n == reg.entries.len(),
                keys.len() == n,
                forall|j: int|
                    0 <= j < n ==> (#[trigger] keys[j])@ == display_key(
                        reg.entries[j].value.name@,
                    ),
                i < n,
                pos <= i,
                sorted_prefix(reg, order@, i as int),
                !found && pos > 0 ==> slot_before(reg, order[pos - 1] as int, i as int),
                found ==> pos < i && slot_before(reg, i as int, order[pos as int] as int),
                found && pos > 0 ==> slot_before(reg, order[pos - 1] as int, i as int),
            decreases i - pos + (if found { 0int } else { 1int }),
        {
            let at = order[pos];
            assert(0 <= order@[pos as int] < i);
            let r = pair_rank(
                keys[at].as_slice(),
                reg.entries[at].id.as_str().as_bytes(),
                keys[i].as_slice(),
                reg.entries[i].id.as_str().as_bytes(),
            );
            proof {
                lemma_distinct_slots(reg, at as int, i as int);
            }
            match r {
                Rank::Before => {
                    pos += 1;
                },
                _ => {
                    found = true;
                },
            }
        }
        let ghost before = order@;
        order.insert(pos, i);
        proof {
            lemma_put_in(before, pos as int, i);
            lemma_inserted(reg, before, order@, i, pos as int);
        }
        i += 1;
    }
    order
}

/// A copy of every ledger of `reg`, in display order.
pub fn sorted_snapshot(reg: &Registry<ServiceState>) -> (out: Vec<ServiceState>)
    requires
        reg.wf(),
    ensures
        exists|ids: Seq<Seq<char>>| is_listing(reg@, ids) && shows(reg@, ids, out@),
{
    let order = display_order(reg);
    let n = reg.entries.len();
    let mut out: Vec<ServiceState> = Vec::new();
    let ghost mut ids: Seq<Seq<char>> = Seq::empty();
    let mut p: usize = 0;
    while p < n
        invariant
            n == reg.entries.len(),
            sorted_prefix(reg, order@, n as int),
            p <= n,
            out.len() == p,
            ids.len() == p,
            forall|k: int| 0 <= k < p ==> #[trigger] ids[k] == reg.entries[order[k] as int].id@,
            forall|k: int| 0 <= k < p ==> (#[trigger] out[k])@ == reg.entries[order[k] as int].value@,
        decreases n - p,
    {
        let at = order[p];
        assert(0 <= order@[p as int] < n);
        out.push(reg.entries[at].value.clone());
        proof {
            ids = ids.push(reg.entries[at as int].id@);
        }
        p += 1;
    }
    proof {
        let records = reg@;
        assert forall|k: int| 0 <= k < n implies records.contains_key(#[trigger] ids[k])
            && records[ids[k]] == reg.entries[order[k] as int].value@ by {
            assert(0 <= order@[k] < n);
            reg.lemma_entry(order[k] as int);
        }
        assert forall|k: int, l: int| 0 <= k < l < ids.len() implies ids[k] != ids[l] by {
            assert(0 <= order@[k] < n);
            assert(0 <= order@[l] < n);
            assert(order@[k] != order@[l]);
            if order[k] < order[l] {
                assert(reg.entries[order[k] as int].id@ != reg.entries[order[l] as int].id@);
            } else {
                assert(reg.entries[order[l] as int].id@ != reg.entries[order[k] as int].id@);
            }
        }
        assert(ids.no_duplicates());
        assert forall|id: Seq<char>| ids.contains(id) <==> records.contains_key(id) by {
            if ids.contains(id) {
                let k = choose|k: int| 0 <= k < ids.len() && ids[k] == id;
                assert(records.contains_key(ids[k]));
            }
            if records.contains_key(id) {
                reg.lemma_slot(id);
                let j = reg.slot(id);
                assert(order@.contains(j as usize));
                let k = choose|k: int| 0 <= k < order@.len() && order@[k] == j as usize;
                assert(ids[k] == id);
            }
        }
        assert forall|k: int| 0 <= k < ids.len() - 1 implies listed_before(
            records,
            #[trigger] ids[k],
            ids[k + 1],
        ) by {
            assert(slot_before(reg, order@[k] as int, order@[k + 1] as int));
            assert(records[ids[k]] == reg.entries[order[k] as int].value@);
            assert(records[ids[k + 1]] == reg.entries[order[k + 1] as int].value@);
        }
        assert(is_listing(records, ids));
        assert(shows(records, ids, out@));
    }
    out
}

} // verus!
