//! Directory listings: the entries of one folder, their order and the search
//! filter over them.
use vstd::prelude::*;
use crate::text::Order;
use crate::text::lex_order;
use crate::text::lemma_lex_order_flip;
use crate::text::lemma_lex_order_trans;
use crate::text::lowered;
use crate::text::to_lowercase;
use crate::text::chars_of;
use crate::text::lex_compare;
use crate::text::contains_seq;
use crate::text::contains_chars;
use vstd::string::StrSliceExecFns;

verus! {

/// One entry of a folder listing, as the file system reported it.
/// `modified` is the modification time in nanoseconds relative to the Unix
/// epoch (negative before it), or `None` where the platform gives none.
#[derive(Debug)]
pub struct DirEntry {
    pub name: String,
    pub path: String,
    pub is_dir: bool,
    pub size: u64,
    pub modified: Option<i128>,
    pub extension: String,
}

/// The column a listing is ordered by.
#[derive(Clone, Copy, Debug, PartialEq, Eq, Structural)]
pub enum SortBy {
    Name,
    Size,
    Modified,
    Type,
}

/// Three-way comparison of integers.
pub open spec fn num_order(x: int, y: int) -> Order {
    if x < y {
        Order::Less
    } else if x > y {
        Order::Greater
    } else {
        Order::Equal
    }
}

/// Comparison of optional times: no time sorts before any time.
pub open spec fn time_order(x: Option<i128>, y: Option<i128>) -> Order {
    match (x, y) {
        (None, None) => Order::Equal,
        (None, Some(_)) => Order::Less,
        (Some(_), None) => Order::Greater,
        (Some(a), Some(b)) => num_order(a as int, b as int),
    }
}

/// The order of the listing: folders before files; then, by name or by type
/// (extension) alphabetically ignoring case, by size largest first, or by
/// modification time newest first.
pub open spec fn entry_order(by: SortBy, a: DirEntry, b: DirEntry) -> Order {
    if a.is_dir && !b.is_dir {
        Order::Less
    } else if !a.is_dir && b.is_dir {
        Order::Greater
    } else {
        match by {
            SortBy::Name => lex_order(lowered(a.name@), lowered(b.name@)),
            SortBy::Size => num_order(b.size as int, a.size as int),
            SortBy::Modified => time_order(b.modified, a.modified),
            SortBy::Type => lex_order(lowered(a.extension@), lowered(b.extension@)),
        }
    }
}

/// Swapping the two entries swaps `Less` and `Greater` and keeps `Equal`.
pub proof fn lemma_entry_order_flip(by: SortBy, a: DirEntry, b: DirEntry)
    ensures
        entry_order(by, a, b) == Order::Less <==> entry_order(by, b, a) == Order::Greater,
        entry_order(by, a, b) == Order::Equal <==> entry_order(by, b, a) == Order::Equal,
{
    lemma_lex_order_flip(lowered(a.name@), lowered(b.name@));
    lemma_lex_order_flip(lowered(a.extension@), lowered(b.extension@));
}

/// "Not after" is transitive, and strict as soon as one step is strict.
pub proof fn lemma_entry_order_trans(by: SortBy, a: DirEntry, b: DirEntry, c: DirEntry)
    requires
        entry_order(by, a, b) != Order::Greater,
        entry_order(by, b, c) != Order::Greater,
    ensures
        entry_order(by, a, c) != Order::Greater,
        entry_order(by, a, b) == Order::Less || entry_order(by, b, c) == Order::Less
            ==> entry_order(by, a, c) == Order::Less,
{
    if a.is_dir == b.is_dir && b.is_dir == c.is_dir {
        match by {
            SortBy::Name => {
                lemma_lex_order_trans(lowered(a.name@), lowered(b.name@), lowered(c.name@));
            },
            SortBy::Type => {
                lemma_lex_order_trans(
                    lowered(a.extension@),
                    lowered(b.extension@),
                    lowered(c.extension@),
                );
            },
            _ => {},
        }
    }
}

/// `s` is in listing order.
pub open spec fn sorted_by(by: SortBy, s: Seq<DirEntry>) -> bool {
    forall|i: int, j: int| 0 <= i < j < s.len() ==> entry_order(by, s[i], s[j]) != Order::Greater
}

/// `output[k]` is `input[p[k]]`, `p` takes every index once, and entries
/// that compare equal keep their relative order.
pub open spec fn stable_permutation(by: SortBy, input: Seq<DirEntry>, output: Seq<DirEntry>, p: Seq<int>) -> bool {
    &&& p.len() == input.len()
    &&& output.len() == input.len()
    &&& forall|k: int| 0 <= k < p.len() ==> 0 <= #[trigger] p[k] < input.len()
    &&& forall|i: int, j: int| 0 <= i < j < p.len() ==> p[i] != p[j]
    &&& forall|k: int| 0 <= k < p.len() ==> output[k] == input[#[trigger] p[k]]
    &&& forall|i: int, j: int| 0 <= i < j < p.len() && entry_order(by, output[i], output[j]) == Order::Equal
        ==> p[i] < p[j]
}

/// `output` is the stable sort of `input`: the same entries, in listing
/// order, with ties in their original order.
pub open spec fn is_stable_sort(by: SortBy, input: Seq<DirEntry>, output: Seq<DirEntry>) -> bool {
    &&& sorted_by(by, output)
    &&& exists|p: Seq<int>| stable_permutation(by, input, output, p)
}

/// An entry together with the key it is ordered by.
struct Keyed {
    is_dir: bool,
    text: Vec<char>,
    size: u64,
    modified: Option<i128>,
    entry: DirEntry,
}

spec fn key_fits(by: SortBy, k: Keyed) -> bool {
    &&& k.is_dir == k.entry.is_dir
    &&& k.size == k.entry.size
    &&& k.modified == k.entry.modified
    &&& by == SortBy::Name ==> k.text@ == lowered(k.entry.name@)
    &&& by == SortBy::Type ==> k.text@ == lowered(k.entry.extension@)
}

fn make_key(by: SortBy, entry: DirEntry) -> (k: Keyed)
    ensures
        key_fits(by, k),
        k.entry == entry,
{
    let text = match by {
        SortBy::Name => chars_of(to_lowercase(entry.name.as_str()).as_str()),
        SortBy::Type => chars_of(to_lowercase(entry.extension.as_str()).as_str()),
        _ => Vec::new(),
    };
    Keyed { is_dir: entry.is_dir, text, size: entry.size, modified: entry.modified, entry }
}

fn order_keyed(by: SortBy, a: &Keyed, b: &Keyed) -> (r: Order)
    requires
        key_fits(by, *a),
        key_fits(by, *b),
    ensures
        r == entry_order(by, a.entry, b.entry),
{
    if a.is_dir && !b.is_dir {
        return Order::Less;
    }
    if !a.is_dir && b.is_dir {
        return Order::Greater;
    }
    match by {
        SortBy::Name => lex_compare(&a.text, &b.text),
        SortBy::Type => lex_compare(&a.text, &b.text),
        SortBy::Size => {
            if b.size < a.size {
                Order::Less
            } else if b.size > a.size {
                Order::Greater
            } else {
                Order::Equal
            }
        },
        SortBy::Modified => match (b.modified, a.modified) {
            (None, None) => Order::Equal,
            (None, Some(_)) => Order::Less,
            (Some(_), None) => Order::Greater,
            (Some(x), Some(y)) => {
                if x < y {
                    Order::Less
                } else if x > y {
                    Order::Greater
                } else {
                    Order::Equal
                }
            },
        },
    }
}

spec fn entries_of(s: Seq<Keyed>) -> Seq<DirEntry> {
    s.map_values(|k: Keyed| k.entry)
}

/// Position of the first element of `out` that is not before `x`.
fn lower_bound(by: SortBy, out: &Vec<Keyed>, x: &Keyed) -> (pos: usize)
    requires
        key_fits(by, *x),
        forall|k: int| 0 <= k < out@.len() ==> key_fits(by, #[trigger] out@[k]),
        sorted_by(by, entries_of(out@)),
    ensures
        pos <= out@.len(),
        forall|k: int| 0 <= k < pos ==> entry_order(by, #[trigger] out@[k].entry, x.entry) == Order::Less,
        forall|k: int| pos <= k < out@.len() ==> entry_order(by, #[trigger] out@[k].entry, x.entry) != Order::Less,
{
    let mut lo: usize = 0;
    let mut hi: usize = out.len();
    while lo < hi
        invariant
            lo <= hi <= out@.len(),
            key_fits(by, *x),
            forall|k: int| 0 <= k < out@.len() ==> key_fits(by, #[trigger] out@[k]),
            sorted_by(by, entries_of(out@)),
            forall|k: int| 0 <= k < lo ==> entry_order(by, #[trigger] out@[k].entry, x.entry) == Order::Less,
            forall|k: int| hi <= k < out@.len() ==> entry_order(by, #[trigger] out@[k].entry, x.entry) != Order::Less,
        decreases hi - lo,
    {
        let mid = lo + (hi - lo) / 2;
        let o = order_keyed(by, &out[mid], x);
        proof {
            assert(entries_of(out@)[mid as int] == out@[mid as int].entry);
        }
        if o == Order::Less {
            proof {
                assert forall|k: int| 0 <= k <= mid implies entry_order(by, #[trigger] out@[k].entry, x.entry) == Order::Less by {
                    if k < mid {
                        assert(entries_of(out@)[k] == out@[k].entry);
                        lemma_entry_order_trans(by, out@[k].entry, out@[mid as int].entry, x.entry);
                    }
                }
            }
            lo = mid + 1;
        } else {
            proof {
                lemma_entry_order_flip(by, out@[mid as int].entry, x.entry);
                assert forall|k: int| mid <= k < out@.len() implies entry_order(by, #[trigger] out@[k].entry, x.entry) != Order::Less by {
                    if k > mid {
                        assert(entries_of(out@)[k] == out@[k].entry);
                        lemma_entry_order_trans(by, x.entry, out@[mid as int].entry, out@[k].entry);
                        lemma_entry_order_flip(by, out@[k].entry, x.entry);
                    }
                }
            }
            hi = mid;
        }
    }
    lo
}

/// Sorts a listing: folders first, then by `by`, keeping entries that compare
/// equal in the order they came in (a stable sort).
pub fn sort_listing(entries: Vec<DirEntry>, by: SortBy) -> (out: Vec<DirEntry>)
    ensures
        is_stable_sort(by, entries@, out@),
{
    let ghost input = entries@;
    let n = entries.len();
    let mut rest = entries;
    let mut keyed: Vec<Keyed> = Vec::new();
    let ghost mut p: Seq<int> = Seq::empty();
    // Elements are taken from the back, so each one came before all that are
    // already placed; it goes before any equal ones.
    while rest.len() > 0
        invariant
            n == input.len(),
            rest@ == input.take(rest@.len() as int),
            rest@.len() + keyed@.len() == n,
            forall|k: int| 0 <= k < keyed@.len() ==> key_fits(by, #[trigger] keyed@[k]),
            sorted_by(by, entries_of(keyed@)),
            stable_permutation_from(by, input, entries_of(keyed@), p, rest@.len() as int),
        decreases rest@.len(),
    {
        let ghost before = keyed@;
        let i = rest.len() - 1;
        let e = rest.pop().unwrap();
        proof {
            assert(e == input[i as int]);
        }
        let x = make_key(by, e);
        let pos = lower_bound(by, &keyed, &x);
        keyed.insert(pos, x);
        proof {
            let newp = p.insert(pos as int, i as int);
            assert(entries_of(keyed@) =~= entries_of(before).insert(pos as int, x.entry));
            insert_keeps_order(by, input, entries_of(before), p, i as int, pos as int, x.entry);
            p = newp;
            assert(rest@ =~= input.take(rest@.len() as int));
        }
    }
    let mut out: Vec<DirEntry> = Vec::new();
    let ghost sorted = entries_of(keyed@);
    let mut keyed_rev = keyed;
    // move the entries out in order
    let mut taken: Vec<DirEntry> = Vec::new();
    while keyed_rev.len() > 0
        invariant
            entries_of(keyed_rev@) + taken@.reverse() == sorted,
        decreases keyed_rev@.len(),
    {
        let ghost prev = keyed_rev@;
        let k = keyed_rev.pop().unwrap();
        taken.push(k.entry);
        proof {
            assert(entries_of(prev) =~= entries_of(keyed_rev@).push(k.entry));
            assert(taken@.reverse() =~= seq![k.entry] + taken@.drop_last().reverse());
            assert(entries_of(keyed_rev@) + taken@.reverse() =~= entries_of(prev) + taken@.drop_last().reverse());
        }
    }
    while taken.len() > 0
        invariant
            out@ + taken@.reverse() == sorted,
        decreases taken@.len(),
    {
        let ghost prev = taken@;
        let e = taken.pop().unwrap();
        out.push(e);
        proof {
            assert(prev.reverse() =~= seq![e] + taken@.reverse());
            assert(out@ + taken@.reverse() =~= out@.drop_last() + prev.reverse());
        }
    }
    proof {
        assert(out@ =~= sorted);
        assert(rest@.len() == 0);
        assert(stable_permutation(by, input, out@, p));
    }
    out
}

/// The invariant of the insertion loop: the placed entries are the stable
/// sort of `input[from..]`, with `p` mapping into `input`.
spec fn stable_permutation_from(by: SortBy, input: Seq<DirEntry>, output: Seq<DirEntry>, p: Seq<int>, from: int) -> bool {
    &&& 0 <= from <= input.len()
    &&& p.len() == input.len() - from
    &&& output.len() == p.len()
    &&& forall|k: int| 0 <= k < p.len() ==> from <= #[trigger] p[k] < input.len()
    &&& forall|i: int, j: int| 0 <= i < j < p.len() ==> p[i] != p[j]
    &&& forall|k: int| 0 <= k < p.len() ==> output[k] == input[#[trigger] p[k]]
    &&& forall|i: int, j: int| 0 <= i < j < p.len() && entry_order(by, output[i], output[j]) == Order::Equal
        ==> p[i] < p[j]
}

proof fn insert_keeps_order(by: SortBy, input: Seq<DirEntry>, out: Seq<DirEntry>, p: Seq<int>, i: int, pos: int, x: DirEntry)
    requires
        stable_permutation_from(by, input, out, p, i + 1),
        sorted_by(by, out),
        0 <= i < input.len(),
        x == input[i],
        0 <= pos <= out.len(),
        forall|k: int| 0 <= k < pos ==> entry_order(by, #[trigger] out[k], x) == Order::Less,
        forall|k: int| pos <= k < out.len() ==> entry_order(by, #[trigger] out[k], x) != Order::Less,
    ensures
        stable_permutation_from(by, input, out.insert(pos, x), p.insert(pos, i), i),
        sorted_by(by, out.insert(pos, x)),
{
    let o2 = out.insert(pos, x);
    let p2 = p.insert(pos, i);
    assert forall|a: int, b: int| 0 <= a < b < o2.len() implies entry_order(by, o2[a], o2[b]) != Order::Greater by {
        if a == pos {
            lemma_entry_order_flip(by, out[b - 1], x);
        } else if b == pos {
            lemma_entry_order_flip(by, out[a], x);
        } else {
            let a0 = if a < pos { a } else { a - 1 };
            let b0 = if b < pos { b } else { b - 1 };
            assert(o2[a] == out[a0] && o2[b] == out[b0]);
        }
    }
    assert forall|a: int, b: int| 0 <= a < b < p2.len() && entry_order(by, o2[a], o2[b]) == Order::Equal implies p2[a] < p2[b] by {
        if a == pos {
            assert(p2[b] == p[b - 1]);
        } else if b == pos {
            assert(o2[a] == out[a]);
            lemma_entry_order_flip(by, out[a], x);
        } else {
            let a0 = if a < pos { a } else { a - 1 };
            let b0 = if b < pos { b } else { b - 1 };
            assert(o2[a] == out[a0] && o2[b] == out[b0]);
            assert(p2[a] == p[a0] && p2[b] == p[b0]);
        }
    }
    assert forall|a: int, b: int| 0 <= a < b < p2.len() implies p2[a] != p2[b] by {
        if a == pos {
            assert(p2[b] == p[b - 1]);
        } else if b == pos {
            assert(p2[a] == p[a]);
        } else {
            let a0 = if a < pos { a } else { a - 1 };
            let b0 = if b < pos { b } else { b - 1 };
            assert(p2[a] == p[a0] && p2[b] == p[b0]);
        }
    }
    assert forall|k: int| 0 <= k < p2.len() implies i <= #[trigger] p2[k] < input.len() && o2[k] == input[p2[k]] by {
        if k < pos {
            assert(p2[k] == p[k]);
        } else if k > pos {
            assert(p2[k] == p[k - 1]);
        }
    }
}

// ─── hidden entries ─────────────────────────────────────────────────────────

/// A hidden entry: its name starts with a dot.
pub open spec fn is_hidden(e: DirEntry) -> bool {
    e.name@.len() > 0 && e.name@[0] == '.'
}

/// Whether an entry is listed with the given setting for hidden entries.
pub open spec fn is_listed(show_hidden: bool, e: DirEntry) -> bool {
    show_hidden || !is_hidden(e)
}

/// The entries of `s` that are listed, in order.
pub open spec fn listed(show_hidden: bool, s: Seq<DirEntry>) -> Seq<DirEntry>
    decreases s.len(),
{
    if s.len() == 0 {
        s
    } else if is_listed(show_hidden, s[0]) {
        seq![s[0]] + listed(show_hidden, s.drop_first())
    } else {
        listed(show_hidden, s.drop_first())
    }
}

fn hidden_name(e: &DirEntry) -> (r: bool)
    ensures
        r == is_hidden(*e),
{
    e.name.unicode_len() > 0 && e.name.get_char(0) == '.'
}

/// Drops hidden entries unless they are to be shown.
pub fn keep_listed(entries: Vec<DirEntry>, show_hidden: bool) -> (out: Vec<DirEntry>)
    ensures
        out@ == listed(show_hidden, entries@),
{
    let ghost input = entries@;
    let mut rest = entries;
    let mut kept_rev: Vec<DirEntry> = Vec::new();
    // kept_rev holds the listed entries of what was taken, last first
    while rest.len() > 0
        invariant
            rest@.len() <= input.len(),
            rest@ == input.take(rest@.len() as int),
            listed(show_hidden, input) == listed(show_hidden, rest@) + kept_rev@.reverse(),
        decreases rest@.len(),
    {
        let ghost before = rest@;
        let ghost before_kept = kept_rev@;
        let e = rest.pop().unwrap();
        proof {
            lemma_listed_push(show_hidden, rest@, e);
            assert(before =~= rest@.push(e));
        }
        if show_hidden || !hidden_name(&e) {
            kept_rev.push(e);
            proof {
                assert(kept_rev@.reverse() =~= seq![e] + before_kept.reverse());
            }
        }
        proof {
            assert(input.take(rest@.len() as int) =~= before.drop_last());
        }
    }
    proof {
        assert(listed(show_hidden, rest@) =~= Seq::<DirEntry>::empty());
    }
    let out = reverse_vec(kept_rev);
    proof {
        assert(out@ =~= listed(show_hidden, input));
    }
    out
}

proof fn lemma_listed_push(show_hidden: bool, s: Seq<DirEntry>, e: DirEntry)
    ensures
        listed(show_hidden, s.push(e)) == listed(show_hidden, s) + (if is_listed(show_hidden, e) {
            seq![e]
        } else {
            Seq::empty()
        }),
    decreases s.len(),
{
    if s.len() == 0 {
        assert(s.push(e) =~= seq![e]);
        assert(seq![e].drop_first() =~= Seq::<DirEntry>::empty());
        let em = Seq::<DirEntry>::empty();
        assert(listed(show_hidden, em) == em);
        assert(listed(show_hidden, s) == em);
        assert(seq![e][0] == e);
        if is_listed(show_hidden, e) {
            assert(listed(show_hidden, seq![e]) == seq![e] + listed(show_hidden, em));
            assert(listed(show_hidden, seq![e]) =~= seq![e]);
            assert(s + seq![e] =~= seq![e]);
        } else {
            assert(listed(show_hidden, seq![e]) == listed(show_hidden, em));
            assert(s + em =~= em);
        }
    } else {
        assert(s.push(e).drop_first() =~= s.drop_first().push(e));
        lemma_listed_push(show_hidden, s.drop_first(), e);
        assert(s.push(e)[0] == s[0]);
        if is_listed(show_hidden, s[0]) {
            assert(listed(show_hidden, s.push(e)) =~= seq![s[0]] + listed(show_hidden, s.drop_first().push(e)));
        }
    }
}

/// The elements of `v` in reverse order.
pub fn reverse_vec<T>(v: Vec<T>) -> (out: Vec<T>)
    ensures
        out@ == v@.reverse(),
{
    let ghost input = v@;
    let mut rest = v;
    let mut out: Vec<T> = Vec::new();
    while rest.len() > 0
        invariant
            input == rest@ + out@.reverse(),
        decreases rest@.len(),
    {
        let ghost before = rest@;
        let x = rest.pop().unwrap();
        out.push(x);
        proof {
            assert(out@.reverse() =~= seq![x] + out@.drop_last().reverse());
            assert(before =~= rest@ + seq![x]);
            assert(input =~= rest@ + out@.reverse());
        }
    }
    assert(input =~= out@.reverse());
    assert(out@ =~= out@.reverse().reverse());
    out
}

// ─── search ─────────────────────────────────────────────────────────────────

/// Entry `i` is shown for the search `query`: the query is empty, or the
/// entry's name contains it, ignoring case.
pub open spec fn is_shown(entries: Seq<DirEntry>, query: Seq<char>, i: int) -> bool {
    query.len() == 0 || contains_seq(lowered(entries[i].name@), lowered(query))
}

/// `r` lists, in increasing order, exactly the indices of the shown entries.
pub open spec fn is_filter_result(entries: Seq<DirEntry>, query: Seq<char>, r: Seq<usize>) -> bool {
    &&& forall|k: int| 0 <= k < r.len() ==> (#[trigger] r[k]) < entries.len() && is_shown(entries, query, r[k] as int)
    &&& forall|a: int, b: int| 0 <= a < b < r.len() ==> r[a] < r[b]
    &&& forall|i: int| 0 <= i < entries.len() && is_shown(entries, query, i) ==> exists|k: int| 0 <= k < r.len() && r[k] == i
}

/// The indices of the entries shown for a search, in listing order.
pub fn filter_indices(entries: &Vec<DirEntry>, query: &str) -> (r: Vec<usize>)
    ensures
        is_filter_result(entries@, query@, r@),
{
    let mut r: Vec<usize> = Vec::new();
    let empty = query.unicode_len() == 0;
    let q = chars_of(to_lowercase(query).as_str());
    let mut i: usize = 0;
    while i < entries.len()
        invariant
            i <= entries@.len(),
            empty == (query@.len() == 0),
            q@ == lowered(query@),
            forall|k: int| 0 <= k < r@.len() ==> (#[trigger] r@[k]) < i && is_shown(entries@, query@, r@[k] as int),
            forall|a: int, b: int| 0 <= a < b < r@.len() ==> r@[a] < r@[b],
            forall|j: int| 0 <= j < i && is_shown(entries@, query@, j) ==> exists|k: int| 0 <= k < r@.len() && r@[k] == j,
        decreases entries@.len() - i,
    {
        let shown = if empty {
            true
        } else {
            let name = chars_of(to_lowercase(entries[i].name.as_str()).as_str());
            contains_chars(&name, &q)
        };
        let ghost before = r@;
        if shown {
            r.push(i);
            proof {
                assert(r@[r@.len() - 1] == i);
                assert forall|j: int| 0 <= j < i + 1 && is_shown(entries@, query@, j) implies exists|k: int| 0 <= k < r@.len() && r@[k] == j by {
                    if j < i {
                        let k = choose|k: int| 0 <= k < before.len() && before[k] == j;
                        assert(r@[k] == j);
                    } else {
                        assert(r@[r@.len() - 1] == j);
                    }
                }
            }
        }
        i = i + 1;
    }
    r
}
} // verus!
