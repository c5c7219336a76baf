//! Properties of the library as a whole, each stated over the same spec
//! functions the operations' contracts use, and proved.
use vstd::prelude::*;
use vstd::utf8::encode_utf8;
use crate::text::Order;
use crate::text::decimal;
use crate::text::is_prefix;
use crate::text::trimmed_of;
use crate::text::lossy_text;
use crate::listing::DirEntry;
use crate::listing::SortBy;
use crate::listing::entry_order;
use crate::listing::sorted_by;
use crate::listing::listed;
use crate::listing::is_hidden;
use crate::listing::is_filter_result;
use crate::format::size_label;
use crate::format::f64_value;
use crate::format::f64_spacing;
use crate::format::div_round_even;
use crate::format::unit_index;
use crate::format::unit_name;
use crate::format::pow1024;
use crate::paths::crumb_paths;
use crate::paths::parent_of;
use crate::lan::peer_name_of;
use crate::lan::peer_prefix;
use crate::lan::discover_text;
use crate::lan::strip_nul;
use crate::lan::LanPeer;
use crate::lan::peer_added;
use crate::explorer::ExplorerView;
use crate::explorer::history_consistent;
use crate::explorer::moved_to;
use crate::explorer::went_back;
use crate::explorer::went_forward;
use crate::explorer::can_back;
use crate::explorer::can_forward;
use crate::explorer::alive_notices;
use crate::explorer::is_alive;
use crate::explorer::menu_outcome;
use crate::explorer::MenuAction;
use crate::explorer::navigated;
use crate::hash::fnv_fold;
use crate::hash::fnv_spec;
use crate::text::ascii_text;
use crate::text::ascii_lower;
use crate::text::ascii_lower_char;
use crate::text::lowered;
use crate::listing::is_shown;
use crate::labels::file_icon;
use crate::explorer::FileOperation;
use crate::explorer::EffectView;
use crate::explorer::RenameView;
use crate::explorer::delete_target_of;
use crate::explorer::rename_outcome;
use crate::explorer::row_open_outcome;
use crate::explorer::same_folder;
use crate::explorer::first_position;
use crate::explorer::paste_outcome;
use crate::explorer::PasteView;
use crate::paths::file_name_of;
use crate::explorer::LanView;
use crate::format::share_link_text;
use crate::paths::joined;
use crate::commands::WindowCommand;
use crate::commands::WindowOp;
use crate::commands::WindowDone;
use crate::commands::PlanView;
use crate::commands::plan_of;

verus! {

/// In a sorted listing every folder comes before every file.
pub proof fn law_folders_first(by: SortBy, s: Seq<DirEntry>, i: int, j: int)
    requires
        sorted_by(by, s),
        0 <= i < j < s.len(),
        s[j].is_dir,
    ensures
        s[i].is_dir,
{
    if !s[i].is_dir {
        assert(entry_order(by, s[i], s[j]) == Order::Greater);
    }
}

/// Unless hidden entries are shown, no listed entry is hidden.
pub proof fn law_hidden_not_listed(s: Seq<DirEntry>)
    ensures
        forall|k: int| 0 <= k < listed(false, s).len() ==> !is_hidden(#[trigger] listed(false, s)[k]),
    decreases s.len(),
{
    if s.len() > 0 {
        law_hidden_not_listed(s.drop_first());
        let rest = listed(false, s.drop_first());
        if !is_hidden(s[0]) {
            assert forall|k: int| 0 <= k < listed(false, s).len() implies !is_hidden(#[trigger] listed(false, s)[k]) by {
                if k > 0 {
                    assert(listed(false, s)[k] == rest[k - 1]);
                }
            }
        }
    }
}

/// With an empty search every entry is shown, in listing order.
pub proof fn law_empty_search_shows_all(entries: Seq<DirEntry>, r: Seq<usize>)
    requires
        is_filter_result(entries, Seq::empty(), r),
    ensures
        r.len() == entries.len(),
        forall|k: int| 0 <= k < r.len() ==> r[k] == k,
{
    // every index is shown, so r holds each index once, in increasing order
    assert forall|k: int| 0 <= k < r.len() implies r[k] >= k by {
        lemma_increasing_at_least(r, k);
    }
    assert forall|k: int| 0 <= k < r.len() implies r[k] <= k by {
        lemma_increasing_at_most(entries, r, k);
    }
    if r.len() < entries.len() {
        let n = r.len() as int;
        assert(crate::listing::is_shown(entries, Seq::empty(), n));
        let k = choose|k: int| 0 <= k < r.len() && r[k] == n;
        assert(r[k] <= k);
    }
    if r.len() > entries.len() {
        let k = entries.len() as int;
        assert(r[k] >= k);
    }
}

proof fn lemma_increasing_at_least(r: Seq<usize>, k: int)
    requires
        forall|a: int, b: int| 0 <= a < b < r.len() ==> r[a] < r[b],
        0 <= k < r.len(),
    ensures
        r[k] >= k,
    decreases k,
{
    if k > 0 {
        lemma_increasing_at_least(r, k - 1);
    }
}

proof fn lemma_increasing_at_most(entries: Seq<DirEntry>, r: Seq<usize>, k: int)
    requires
        is_filter_result(entries, Seq::empty(), r),
        0 <= k < r.len(),
    ensures
        r[k] <= k,
    decreases k,
{
    if k > 0 {
        lemma_increasing_at_most(entries, r, k - 1);
    }
    if r[k] > k {
        // the index just after r[k - 1] (or 0) is shown, so it is in r, but
        // nothing in r lies strictly between r[k - 1] and r[k]
        let m: int = k;
        assert(crate::listing::is_shown(entries, Seq::empty(), m));
        assert(m < entries.len()) by {
            assert(r[k] < entries.len());
        }
        let j = choose|j: int| 0 <= j < r.len() && r[j] == m;
        if j < k {
            lemma_increasing_at_least(r, k);
            if k > 0 {
                assert(r[j] <= r[k - 1] || j == k - 1) by {
                    if j < k - 1 {
                        assert(r[j] < r[k - 1]);
                    }
                }
            }
            assert(r[j] <= k - 1);
        } else if j > k {
            assert(r[j] > r[k]);
        }
    }
}

/// Sizes under one kilobyte are shown as whole bytes: "N B".
pub proof fn law_small_sizes_in_bytes(bytes: nat)
    requires
        bytes < 1024,
    ensures
        size_label(bytes) == decimal(bytes) + " "@ + unit_name(0),
{
    assert(f64_spacing(bytes) == 1);
    assert(div_round_even(bytes, 1) == bytes);
    assert(f64_value(bytes) == bytes);
    reveal_with_fuel(pow1024, 2);
    assert(unit_index(bytes, 0) == 0);
}

/// The breadcrumb trail ends with the folder itself.
pub proof fn law_breadcrumbs_end_at_folder(p: Seq<char>)
    ensures
        crumb_paths(p).len() >= 1,
        crumb_paths(p).last() == p,
    decreases p.len(),
{
    match parent_of(p) {
        Some(q) => if 0 < q.len() < p.len() {
            law_breadcrumbs_end_at_folder(q);
        },
        None => {},
    }
}

/// A peer's answer to discovery is read back as its host name, trimmed.
pub proof fn law_peer_reply_round_trip(hostname: Seq<char>)
    ensures
        peer_name_of(encode_utf8(peer_prefix() + hostname)) == Some(trimmed_of(hostname)),
{
    let text = peer_prefix() + hostname;
    vstd::utf8::encode_utf8_decode_utf8(text);
    vstd::utf8::encode_utf8_valid_utf8(text);
    assert(lossy_text(encode_utf8(text)) == text);
    assert(text.take(peer_prefix().len() as int) =~= peer_prefix());
    assert(text.skip(peer_prefix().len() as int) =~= hostname);
}

/// Moving keeps the history consistent with the folder shown, and so do
/// going back and forward.
pub proof fn law_navigation_keeps_history(v: ExplorerView, path: Seq<char>)
    requires
        history_consistent(v),
    ensures
        history_consistent(moved_to(v, path)),
        can_back(v) ==> history_consistent(went_back(v)),
        can_forward(v) ==> history_consistent(went_forward(v)),
{
}

/// Going back after moving to a folder returns to the folder left, and
/// going forward from there returns to the new folder.
pub proof fn law_back_undoes_move(v: ExplorerView, path: Seq<char>)
    requires
        history_consistent(v),
    ensures
        can_back(moved_to(v, path)),
        went_back(moved_to(v, path)).current_path == v.current_path,
        can_forward(went_back(moved_to(v, path))),
        went_forward(went_back(moved_to(v, path))) == moved_to(v, path),
{
    let m = moved_to(v, path);
    assert(m.history[v.history_index as int] == v.history[v.history_index as int]);
}

/// Going forward undoes going back, and going back undoes going forward.
pub proof fn law_back_forward_inverse(v: ExplorerView)
    requires
        history_consistent(v),
    ensures
        can_back(v) ==> can_forward(went_back(v)) && went_forward(went_back(v)) == v,
        can_forward(v) ==> can_back(went_forward(v)) && went_back(went_forward(v)) == v,
{
}

/// After the clock advances, every notice still shown is younger than five
/// seconds.
pub proof fn law_expired_notices_dropped(s: Seq<crate::explorer::NoticeView>, now: nat)
    ensures
        forall|k: int| 0 <= k < alive_notices(s, now).len() ==> is_alive(#[trigger] alive_notices(s, now)[k], now),
    decreases s.len(),
{
    if s.len() > 0 {
        law_expired_notices_dropped(s.drop_last(), now);
        let rest = alive_notices(s.drop_last(), now);
        if is_alive(s.last(), now) {
            assert forall|k: int| 0 <= k < alive_notices(s, now).len() implies is_alive(#[trigger] alive_notices(s, now)[k], now) by {
                if k < rest.len() {
                    assert(alive_notices(s, now)[k] == rest[k]);
                }
            }
        }
    }
}

/// Choosing an entry of the context menu always closes it.
pub proof fn law_menu_closes_on_choice(v: ExplorerView, action: MenuAction, clicked_outside: bool, frame: nat)
    ensures
        menu_outcome(v, Some(action), clicked_outside, frame).0.menu is None,
{
}


/// No two peers in the list share an address.
pub open spec fn distinct_addrs(s: Seq<LanPeer>) -> bool {
    forall|i: int, j: int| 0 <= i < j < s.len() ==> s[i].addr@ != s[j].addr@
}

/// Meeting a peer never puts two peers with one address in the list.
pub proof fn law_peers_stay_distinct(peers: Seq<LanPeer>, peer: LanPeer)
    requires
        distinct_addrs(peers),
    ensures
        distinct_addrs(peer_added(peers, peer)),
{
    let r = peer_added(peers, peer);
    assert forall|i: int, j: int| 0 <= i < j < r.len() implies r[i].addr@ != r[j].addr@ by {
        if j == peers.len() {
            assert(r[j] == peer);
            assert(r[i] == peers[i]);
        }
    }
}

/// A discovery request is recognised as one.
pub proof fn law_discover_request_recognised()
    ensures
        is_prefix(discover_text(), strip_nul(lossy_text(encode_utf8(discover_text())))),
{
    let t = discover_text();
    vstd::utf8::encode_utf8_decode_utf8(t);
    vstd::utf8::encode_utf8_valid_utf8(t);
    assert(lossy_text(encode_utf8(t)) == t);
    reveal_strlit("ANVEL_DISCOVER");
    assert(t.len() == 14);
    assert(t[0] == 'A');
    assert(t[13] == 'R');
    assert(strip_nul(t) == t);
    assert(t.take(14) =~= t);
}


// ─── share-link hash ────────────────────────────────────────────────────────

proof fn lemma_fnv_fold_concat(h: u64, a: Seq<u8>, b: Seq<u8>)
    ensures
        fnv_fold(h, a + b) == fnv_fold(fnv_fold(h, a), b),
    decreases b.len(),
{
    if b.len() == 0 {
        assert(a + b =~= a);
    } else {
        assert((a + b).drop_last() =~= a + b.drop_last());
        assert((a + b).last() == b.last());
        lemma_fnv_fold_concat(h, a, b.drop_last());
    }
}

proof fn lemma_encode_utf8_concat(a: Seq<char>, b: Seq<char>)
    ensures
        encode_utf8(a + b) == encode_utf8(a) + encode_utf8(b),
    decreases a.len(),
{
    if a.len() == 0 {
        assert(a + b =~= b);
        assert(encode_utf8(a) + encode_utf8(b) =~= encode_utf8(b));
    } else {
        assert((a + b).drop_first() =~= a.drop_first() + b);
        assert((a + b)[0] == a[0]);
        lemma_encode_utf8_concat(a.drop_first(), b);
        assert(encode_utf8(a + b) =~= encode_utf8(a) + encode_utf8(b));
    }
}

/// Hashing a concatenation continues the hash of the first part over the
/// bytes of the second, for byte sequences and for the UTF-8 bytes of texts.
pub proof fn law_hash_of_concatenation(a: Seq<u8>, b: Seq<u8>, s: Seq<char>, t: Seq<char>)
    ensures
        fnv_spec(a + b) == fnv_fold(fnv_spec(a), b),
        fnv_spec(encode_utf8(s + t)) == fnv_fold(fnv_spec(encode_utf8(s)), encode_utf8(t)),
{
    lemma_fnv_fold_concat(crate::hash::FNV_OFFSET, a, b);
    lemma_encode_utf8_concat(s, t);
    lemma_fnv_fold_concat(crate::hash::FNV_OFFSET, encode_utf8(s), encode_utf8(t));
}

// ─── navigation ─────────────────────────────────────────────────────────────

/// Moving to the folder already shown changes nothing, and moving twice to
/// one folder leaves the state that moving once does.
pub proof fn law_navigation_idempotent(v: ExplorerView, path: Seq<char>)
    ensures
        navigated(v, v.current_path) == v,
        navigated(navigated(v, path), path) == navigated(v, path),
{
}

// ─── case of ASCII text ─────────────────────────────────────────────────────

proof fn lemma_ascii_lower_idempotent(s: Seq<char>)
    requires
        ascii_text(s),
    ensures
        ascii_text(ascii_lower(s)),
        ascii_lower(ascii_lower(s)) == ascii_lower(s),
        lowered(ascii_lower(s)) == ascii_lower(s),
{
    assert forall|i: int| 0 <= i < s.len() implies (ascii_lower(s)[i] as u32) < 128 by {
        assert(ascii_lower(s)[i] == ascii_lower_char(s[i]));
    }
    assert(ascii_lower(ascii_lower(s)) =~= ascii_lower(s));
}

/// For ASCII text, lowering is the same for texts that differ only in the
/// case of their letters: both lower to the small-letter form.
pub proof fn law_lowered_ignores_ascii_case(a: Seq<char>, b: Seq<char>)
    requires
        ascii_text(a),
        ascii_text(b),
        ascii_lower(a) == ascii_lower(b),
    ensures
        lowered(a) == lowered(b),
        lowered(a) == lowered(ascii_lower(a)),
{
    lemma_ascii_lower_idempotent(a);
}

/// A search with an ASCII query shows the same entries whatever the case of
/// the query's letters.
pub proof fn law_search_ignores_ascii_case(entries: Seq<DirEntry>, q1: Seq<char>, q2: Seq<char>, i: int)
    requires
        ascii_text(q1),
        ascii_text(q2),
        ascii_lower(q1) == ascii_lower(q2),
    ensures
        is_shown(entries, q1, i) == is_shown(entries, q2, i),
{
    assert(q1.len() == ascii_lower(q1).len());
    assert(q2.len() == ascii_lower(q2).len());
}

/// Two files whose ASCII extensions differ only in case get the same icon.
pub proof fn law_icon_ignores_ascii_case(a: DirEntry, b: DirEntry)
    requires
        !a.is_dir,
        !b.is_dir,
        ascii_text(a.extension@),
        ascii_text(b.extension@),
        ascii_lower(a.extension@) == ascii_lower(b.extension@),
    ensures
        file_icon(a) == file_icon(b),
{
}


// ─── acting on the entries shown ────────────────────────────────────────────

/// Copy and Cut in the context menu put the menu's entry on the clipboard
/// for that very operation, and say so in a notice naming the entry: Copy
/// never leaves a Cut behind (which would move the file on paste), and Cut
/// never leaves a Copy.
pub proof fn law_menu_clipboard_operation(v: ExplorerView, clicked_outside: bool, frame: nat)
    requires
        v.menu is Some,
        v.menu->0.entry_idx < v.entries.len(),
    ensures
        ({
            let e = v.entries[v.menu->0.entry_idx as int];
            let copied = menu_outcome(v, Some(MenuAction::Copy), clicked_outside, frame).0;
            let cut = menu_outcome(v, Some(MenuAction::Cut), clicked_outside, frame).0;
            &&& copied.clipboard == Some((e.path@, FileOperation::Copy))
            &&& copied.notices.last().message == "Copied \""@ + e.name@ + "\""@
            &&& copied.notices.len() == v.notices.len() + 1
            &&& cut.clipboard == Some((e.path@, FileOperation::Cut))
            &&& cut.notices.last().message == "Cut \""@ + e.name@ + "\""@
            &&& cut.notices.len() == v.notices.len() + 1
            &&& copied.current_path == v.current_path && cut.current_path == v.current_path
        }),
{
}

/// The entry to delete is the one shown on the selected row, with its own
/// path, name and kind: a folder is reported as a folder (and removed as
/// one), a file as a file. Without such a row there is nothing to delete.
pub proof fn law_delete_target_is_selected_entry(v: ExplorerView)
    ensures
        ({
            match v.selected {
                Some(row) => if row < v.filtered.len() && v.filtered[row as int] < v.entries.len() {
                    let e = v.entries[v.filtered[row as int] as int];
                    delete_target_of(v) == Some((e.path@, e.is_dir, e.name@))
                } else {
                    delete_target_of(v) is None
                },
                None => delete_target_of(v) is None,
            }
        }),
{
}

/// Renaming row `row` acts on the entry shown on that row (the search may
/// hide others): it is moved, within its folder, to the new name. An empty
/// name or a row without an entry moves nothing.
pub proof fn law_rename_moves_shown_entry(v: ExplorerView, row: usize, new_name: Seq<char>)
    ensures
        new_name.len() == 0 ==> rename_outcome(v, row, new_name) is Skip,
        !(row < v.filtered.len() && v.filtered[row as int] < v.entries.len())
            ==> rename_outcome(v, row, new_name) is Skip,
        new_name.len() > 0 && row < v.filtered.len() && v.filtered[row as int] < v.entries.len() ==> ({
            let e = v.entries[v.filtered[row as int] as int];
            match parent_of(e.path@) {
                Some(p) => rename_outcome(v, row, new_name) == (RenameView::Move { from: e.path@, to: joined(p, new_name) }),
                None => rename_outcome(v, row, new_name) is NoParent,
            }
        }),
{
}

/// Opening (double-clicking) row `row` acts on the entry shown there: a file
/// is opened and the folder shown stays; a folder other than the one shown
/// becomes the folder shown and is read. A row without an entry does
/// nothing.
pub proof fn law_open_row_acts_on_shown_entry(v: ExplorerView, row: usize)
    ensures
        !(row < v.filtered.len() && v.filtered[row as int] < v.entries.len()) ==> row_open_outcome(v, row) == (v, EffectView::Nothing),
        row < v.filtered.len() && v.filtered[row as int] < v.entries.len() ==> ({
            let e = v.entries[v.filtered[row as int] as int];
            let (after, effect) = row_open_outcome(v, row);
            &&& !e.is_dir ==> after == v && effect == EffectView::OpenFile(e.path@)
            &&& e.is_dir && same_folder(e.path@, v.current_path) ==> after == v && effect == EffectView::Nothing
            &&& e.is_dir && !same_folder(e.path@, v.current_path) ==> {
                &&& after.current_path == e.path@
                &&& after.history == v.history.take(v.history_index + 1int).push(e.path@)
                &&& after.entries == v.entries
                &&& effect == EffectView::Reload
            }
        }),
{
}

/// `k` is where `x` first occurs in `s`.
pub open spec fn first_at(s: Seq<usize>, x: usize, k: int) -> bool {
    &&& 0 <= k < s.len()
    &&& s[k] == x
    &&& forall|j: int| 0 <= j < k ==> s[j] != x
}

proof fn lemma_first_position(s: Seq<usize>, x: usize)
    ensures
        first_position(s, x) matches Some(k) ==> first_at(s, x, k as int),
        first_position(s, x) is None ==> forall|j: int| 0 <= j < s.len() ==> s[j] != x,
    decreases s.len(),
{
    if s.len() > 0 && s[0] != x {
        lemma_first_position(s.drop_first(), x);
        assert forall|j: int| 0 < j < s.len() implies s[j] == s.drop_first()[j - 1] by {}
    }
}

proof fn lemma_first_at_is_first_position(s: Seq<usize>, x: usize, k: int)
    requires
        first_at(s, x, k),
    ensures
        first_position(s, x) == Some(k as nat),
{
    lemma_first_position(s, x);
    match first_position(s, x) {
        Some(k2) => {
            if (k2 as int) < k {
                assert(s[k2 as int] == x);
            } else if (k2 as int) > k {
                assert(s[k] == x);
            }
        },
        None => {
            assert(s[k] == x);
        },
    }
}

/// Open and Properties in the context menu act on the menu's entry and close
/// the menu: a file is opened (the folder shown stays), a folder other than
/// the one shown is moved to and read; Properties shows the entry's path.
pub proof fn law_menu_open_and_properties(v: ExplorerView, clicked_outside: bool, frame: nat)
    requires
        v.menu is Some,
        v.menu->0.entry_idx < v.entries.len(),
    ensures
        ({
            let e = v.entries[v.menu->0.entry_idx as int];
            let open = menu_outcome(v, Some(MenuAction::Open), clicked_outside, frame);
            let props = menu_outcome(v, Some(MenuAction::Properties), clicked_outside, frame);
            &&& !e.is_dir ==> open.1 == EffectView::OpenFile(e.path@) && open.0.current_path == v.current_path
            &&& e.is_dir && !same_folder(e.path@, v.current_path) ==> open.1 == EffectView::Reload && open.0.current_path == e.path@
            &&& props.0.properties == Some(e.path@) && props.1 == EffectView::Nothing
            &&& open.0.menu is None && props.0.menu is None
        }),
{
}

/// Sharing from the context menu acts on the menu's entry: over the LAN, a
/// file is offered and peers are looked for, a folder is refused with a
/// notice; a share link is made from the entry's name.
pub proof fn law_menu_share(v: ExplorerView, clicked_outside: bool, frame: nat)
    requires
        v.menu is Some,
        v.menu->0.entry_idx < v.entries.len(),
    ensures
        ({
            let e = v.entries[v.menu->0.entry_idx as int];
            let lan = menu_outcome(v, Some(MenuAction::ShareLan), clicked_outside, frame);
            let link = menu_outcome(v, Some(MenuAction::ShareLink), clicked_outside, frame);
            &&& !e.is_dir ==> lan.0.lan_file == Some(e.path@) && lan.0.lan == LanView::Discovering
                && lan.1 == EffectView::StartDiscovery(e.path@)
            &&& e.is_dir ==> lan.0.lan_file == v.lan_file && lan.1 == EffectView::Nothing
                && lan.0.notices.len() == v.notices.len() + 1
            &&& link.1 == EffectView::CopyText(share_link_text(e.name@))
            &&& lan.0.menu is None && link.0.menu is None
        }),
{
}

/// Rename in the context menu selects the row the menu's entry is first
/// shown on and starts renaming that row from the entry's own name.
pub proof fn law_menu_rename(v: ExplorerView, clicked_outside: bool, frame: nat, k: int)
    requires
        v.menu is Some,
        v.menu->0.entry_idx < v.entries.len(),
        first_at(v.filtered, v.menu->0.entry_idx, k),
    ensures
        ({
            let e = v.entries[v.menu->0.entry_idx as int];
            let ren = menu_outcome(v, Some(MenuAction::Rename), clicked_outside, frame);
            &&& ren.0.renaming == Some((k as usize, e.name@))
            &&& ren.0.selected == Some(k as usize)
            &&& ren.0.menu is None
            &&& ren.1 == EffectView::Nothing
        }),
{
    lemma_first_at_is_first_position(v.filtered, v.menu->0.entry_idx, k);
}

/// Delete in the context menu selects the row the menu's entry is first
/// shown on and asks to delete the entry with its own path, name and kind.
pub proof fn law_menu_delete(v: ExplorerView, clicked_outside: bool, frame: nat, k: int)
    requires
        v.filtered.len() <= usize::MAX,
        v.menu is Some,
        v.menu->0.entry_idx < v.entries.len(),
        first_at(v.filtered, v.menu->0.entry_idx, k),
    ensures
        ({
            let e = v.entries[v.menu->0.entry_idx as int];
            let del = menu_outcome(v, Some(MenuAction::Delete), clicked_outside, frame);
            &&& del.0.selected == Some(k as usize)
            &&& del.1 == EffectView::Delete(Some((e.path@, e.is_dir, e.name@)))
            &&& del.0.menu is None
        }),
{
    let idx = v.menu->0.entry_idx;
    let out = menu_outcome(v, Some(MenuAction::Delete), clicked_outside, frame);
    lemma_first_at_is_first_position(v.filtered, idx, k);
    assert(out.0.selected == Some(k as usize));
    assert(out.0.filtered == v.filtered && out.0.entries == v.entries);
    assert(out.1 == EffectView::Delete(delete_target_of(out.0)));
    law_delete_target_is_selected_entry(out.0);
}

/// Pasting puts the clipboard's file into the folder shown under its own
/// name, with the clipboard's operation: a copy stays on the clipboard (and
/// can be pasted again), a cut is taken off it. An empty clipboard pastes
/// nothing.
pub proof fn law_paste_uses_clipboard(v: ExplorerView)
    ensures
        v.clipboard is None ==> paste_outcome(v) == (v, PasteView::Nothing),
        v.clipboard matches Some((src, op)) ==> ({
            let (after, step) = paste_outcome(v);
            match file_name_of(src) {
                Some(name) => {
                    &&& step == (PasteView::Go { source: src, dest: joined(v.current_path, name), op })
                    &&& op == FileOperation::Copy ==> after.clipboard == v.clipboard
                    &&& op == FileOperation::Cut ==> after.clipboard is None
                    &&& after.current_path == v.current_path
                },
                None => after == v && step == PasteView::Unnamed,
            }
        }),
{
}

// ─── window commands ────────────────────────────────────────────────────────

/// The window operation that carries out a command on an existing window.
pub open spec fn operation_for(cmd: WindowCommand) -> WindowOp {
    match cmd {
        WindowCommand::Open => WindowOp::Focus,
        WindowCommand::Close => WindowOp::Close,
        WindowCommand::Toggle => WindowOp::Close,
        WindowCommand::Hide => WindowOp::Hide,
        WindowCommand::Show => WindowOp::Show,
        WindowCommand::Minimize => WindowOp::Minimize,
        WindowCommand::Maximize => WindowOp::Maximize,
        WindowCommand::Unmaximize => WindowOp::Unmaximize,
        WindowCommand::Resize => WindowOp::Resize,
        WindowCommand::Move => WindowOp::Move,
    }
}

/// The operation whose success an answer reports.
pub open spec fn reported_operation(d: WindowDone) -> WindowOp {
    match d {
        WindowDone::AlreadyOpen => WindowOp::Focus,
        WindowDone::Opened => WindowOp::Create,
        WindowDone::Toggled => WindowOp::Create,
        WindowDone::Closed => WindowOp::Close,
        WindowDone::ToggledOff => WindowOp::Close,
        WindowDone::Hidden => WindowOp::Hide,
        WindowDone::Shown => WindowOp::Show,
        WindowDone::Minimized => WindowOp::Minimize,
        WindowDone::Maximized => WindowOp::Maximize,
        WindowDone::Unmaximized => WindowOp::Unmaximize,
    }
}

/// A command on an existing window first carries out its own operation, and
/// its answer reports that operation (resizing and moving answer with the
/// new geometry instead); only showing also focuses and only opening also
/// shows. A command that creates the window when none exists does only that;
/// any other command on a missing window fails as not found.
pub proof fn law_window_plan_does_the_command(cmd: WindowCommand, exists: bool)
    ensures
        exists ==> (match plan_of(cmd, exists) {
            PlanView::Run { steps, done } => {
                &&& 1 <= steps.len() <= 2
                &&& steps[0] == operation_for(cmd)
                &&& (steps.len() == 2) == (cmd == WindowCommand::Show || cmd == WindowCommand::Open)
                &&& (done is None) == (cmd == WindowCommand::Resize || cmd == WindowCommand::Move)
                &&& (match done {
                    Some(d) => reported_operation(d) == steps[0],
                    None => true,
                })
            },
            PlanView::NotFound => false,
        }),
        !exists && (cmd == WindowCommand::Open || cmd == WindowCommand::Toggle) ==> (match plan_of(cmd, exists) {
            PlanView::Run { steps, done } => steps == seq![WindowOp::Create] && (match done {
                Some(d) => reported_operation(d) == WindowOp::Create,
                None => false,
            }),
            PlanView::NotFound => false,
        }),
        !exists && !(cmd == WindowCommand::Open || cmd == WindowCommand::Toggle) ==> plan_of(cmd, exists) is NotFound,
{
}

} // verus!
