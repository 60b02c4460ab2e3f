//! Clipboard history: which clipboard writes are kept, how long the kept
//! text may be, which entries the store drops when it is full, and how
//! entries are listed.
//!
//! The store itself is an embedded database on disk, kept by the
//! application; these functions make its decisions.
use vstd::prelude::*;

use crate::order::{as_ints, desc_order, is_desc_order, nums_distinct, sort_desc};
use crate::text::trim;

verus! {

/// One clipboard history entry.
#[derive(Debug, Clone, PartialEq, Eq)]
pub struct ClipboardEntry {
    /// Position of the entry in the store; later writes have larger numbers.
    pub seq: u64,
    /// Milliseconds since the epoch when the entry was recorded.
    pub timestamp: u64,
    pub source: String,
    pub text: String,
}

pub struct EntryView {
    pub seq: u64,
    pub timestamp: u64,
    pub source: Seq<char>,
    pub text: Seq<char>,
}

impl View for ClipboardEntry {
    type V = EntryView;

    open spec fn view(&self) -> EntryView {
        EntryView { seq: self.seq, timestamp: self.timestamp, source: self.source@, text: self.text@ }
    }
}

/// What `std::str::from_utf8` returns for a byte string: its characters
/// when the bytes are valid UTF-8.
pub uninterp spec fn utf8_decode(bytes: Seq<u8>) -> Option<Seq<char>>;

/// Calls `std::str::from_utf8`; the result is named, not described.
#[verifier::external_body]
fn decode_utf8(bytes: &[u8]) -> (r: Option<String>)
    ensures
        match r {
            None => utf8_decode(bytes@) is None,
            Some(s) => utf8_decode(bytes@) == Some(s@),
        },
{
    std::str::from_utf8(bytes).ok().map(|s| s.to_string())
}

/// The text a clipboard write is kept as: valid UTF-8, trimmed, and not
/// empty after trimming.
pub open spec fn clipboard_text_spec(content: Seq<u8>) -> Option<Seq<char>> {
    match utf8_decode(content) {
        Some(s) => if trim(s).len() == 0 {
            None
        } else {
            Some(trim(s))
        },
        None => None,
    }
}

/// The text to keep for a clipboard write, or `None` when the write is not
/// UTF-8 or only whitespace.
pub fn clipboard_text(content: &[u8]) -> (r: Option<String>)
    ensures
        match r {
            Some(t) => clipboard_text_spec(content@) == Some(t@),
            None => clipboard_text_spec(content@) is None,
        },
{
    let decoded = match decode_utf8(content) {
        Some(s) => s,
        None => return None,
    };
    let t = crate::text::trim_chars(&crate::text::chars_of(decoded.as_str()));
    if t.len() == 0 {
        None
    } else {
        Some(crate::text::string_of(&t))
    }
}

/// Bytes a character takes in UTF-8.
pub open spec fn utf8_len(c: char) -> int {
    if (c as u32) < 0x80 {
        1
    } else if (c as u32) < 0x800 {
        2
    } else if (c as u32) < 0x10000 {
        3
    } else {
        4
    }
}

/// Bytes a text takes in UTF-8.
pub open spec fn byte_len(s: Seq<char>) -> int
    decreases s.len(),
{
    if s.len() == 0 {
        0
    } else {
        byte_len(s.drop_last()) + utf8_len(s.last())
    }
}

/// Whether a text can be cut to `max` bytes: it is no longer than that, or
/// `max` bytes end exactly after a character.
pub open spec fn cuttable(s: Seq<char>, max: int) -> bool {
    byte_len(s) <= max || exists|k: int| 0 <= k <= s.len() && #[trigger] byte_len(s.take(k)) == max
}

proof fn lemma_byte_len_prefix_grows(s: Seq<char>, i: int, j: int)
    requires
        0 <= i < j <= s.len(),
    ensures
        byte_len(s.take(i)) < byte_len(s.take(j)),
    decreases j - i,
{
    assert(s.take(j).drop_last() =~= s.take(j - 1));
    if i < j - 1 {
        lemma_byte_len_prefix_grows(s, i, j - 1);
    }
}

fn utf8_len_exec(c: char) -> (r: usize)
    ensures
        r == utf8_len(c),
{
    let n = c as u32;
    if n < 0x80 {
        1
    } else if n < 0x800 {
        2
    } else if n < 0x10000 {
        3
    } else {
        4
    }
}

/// Whether `text` can be cut to `max_bytes` without splitting a character.
pub fn fits_at_char_boundary(text: &str, max_bytes: usize) -> (r: bool)
    ensures
        r == cuttable(text@, max_bytes as int),
{
    let v = crate::text::chars_of(text);
    let mut used: usize = 0;
    let mut i: usize = 0;
    while i < v.len()
        invariant
            i <= v.len(),
            v@ == text@,
            used == byte_len(v@.take(i as int)),
            used <= max_bytes,
            forall|k: int| 0 <= k < i ==> #[trigger] byte_len(v@.take(k)) < max_bytes,
        decreases v.len() - i,
    {
        if used == max_bytes {
            assert(byte_len(v@.take(i as int)) == max_bytes as int);
            return true;
        }
        let w = utf8_len_exec(v[i]);
        assert(v@.take(i + 1).drop_last() =~= v@.take(i as int));
        if w > max_bytes - used {
            proof {
                assert forall|k: int| 0 <= k <= v@.len() implies #[trigger] byte_len(v@.take(k))
                    != max_bytes by {
                    if k > i + 1 {
                        lemma_byte_len_prefix_grows(v@, i + 1, k);
                    }
                }
                if i + 1 < v@.len() {
                    lemma_byte_len_prefix_grows(v@, i + 1, v@.len() as int);
                }
                assert(v@.take(v@.len() as int) =~= v@);
            }
            return false;
        }
        used = used + w;
        i = i + 1;
    }
    assert(v@.take(v@.len() as int) =~= v@);
    true
}

/// The longest start of `text` that takes at most `max_bytes` bytes in
/// UTF-8; the cut falls between characters, so a character that would
/// cross the limit is left out whole.
pub fn truncate_to_bytes(text: &str, max_bytes: usize) -> (r: String)
    ensures
        r@ == text@.take(r@.len() as int),
        byte_len(r@) <= max_bytes,
        r@.len() == text@.len() || byte_len(text@.take(r@.len() + 1 as int)) > max_bytes,
        vstd::utf8::encode_utf8(r@).len() <= max_bytes,
        r@.len() == text@.len() || vstd::utf8::encode_utf8(text@.take(r@.len() + 1 as int)).len()
            > max_bytes,
{
    let v = crate::text::chars_of(text);
    let mut used: usize = 0;
    let mut i: usize = 0;
    while i < v.len()
        invariant
            i <= v.len(),
            v@ == text@,
            used == byte_len(v@.take(i as int)),
            used <= max_bytes,
        decreases v.len() - i,
    {
        let w = utf8_len_exec(v[i]);
        assert(v@.take(i + 1).drop_last() =~= v@.take(i as int));
        if w > max_bytes - used {
            let r = crate::text::slice_chars(&v, 0, i);
            assert(r@ =~= v@.take(i as int));
            proof {
                law_byte_len_is_utf8_length(v@.take(i as int));
                law_byte_len_is_utf8_length(v@.take(i + 1));
            }
            return crate::text::string_of(&r);
        }
        used = used + w;
        i = i + 1;
    }
    assert(v@.take(v@.len() as int) =~= v@);
    proof {
        law_byte_len_is_utf8_length(v@);
    }
    crate::text::string_of(&v)
}

/// How many entries the store keeps: the configured number, at least one.
pub fn effective_max_entries(configured: usize) -> (r: u64)
    ensures
        r == if configured >= 1 {
            configured as int
        } else {
            1
        },
{
    if configured >= 1 {
        configured as u64
    } else {
        1
    }
}

/// The key for the next entry of a store that holds `keys`: one past the
/// largest key, or 0 for an empty store, so that a new entry never takes
/// the key of one still kept and sorts after all of them. `None` when the
/// largest possible key is already in use.
pub fn next_clipboard_seq(keys: &Vec<u64>) -> (r: Option<u64>)
    ensures
        match r {
            Some(n) => {
                &&& forall|i: int| 0 <= i < keys.len() ==> keys@[i] < n
                &&& keys.len() == 0 ==> n == 0
                &&& keys.len() > 0 ==> exists|i: int| 0 <= i < keys.len() && keys@[i] + 1 == n
            },
            None => exists|i: int| 0 <= i < keys.len() && keys@[i] == u64::MAX,
        },
{
    if keys.len() == 0 {
        return Some(0);
    }
    let mut best: u64 = keys[0];
    let mut at: usize = 0;
    let mut i: usize = 1;
    while i < keys.len()
        invariant
            1 <= i <= keys.len(),
            at < i,
            keys@[at as int] == best,
            forall|j: int| 0 <= j < i ==> keys@[j] <= best,
        decreases keys.len() - i,
    {
        if keys[i] > best {
            best = keys[i];
            at = i;
        }
        i = i + 1;
    }
    if best == u64::MAX {
        None
    } else {
        assert(keys@[at as int] + 1 == best + 1);
        Some(best + 1)
    }
}

/// The oldest keys beyond the limit, from keys in ascending order.
pub open spec fn prune_spec(keys: Seq<u64>, max_entries: u64) -> Seq<u64> {
    if keys.len() > max_entries {
        keys.take(keys.len() - max_entries)
    } else {
        Seq::empty()
    }
}

/// The keys to drop after an insert, given the store's keys in ascending
/// order: the oldest ones beyond the limit.
pub fn keys_to_prune(keys: &Vec<u64>, max_entries: u64) -> (r: Vec<u64>)
    ensures
        r@ == prune_spec(keys@, max_entries),
        r@ == if keys.len() > max_entries {
            keys@.take(keys.len() - max_entries)
        } else {
            Seq::empty()
        },
{
    let mut r: Vec<u64> = Vec::new();
    if (keys.len() as u64) <= max_entries {
        return r;
    }
    let drop = keys.len() - max_entries as usize;
    let mut i: usize = 0;
    while i < drop
        invariant
            i <= drop,
            drop <= keys.len(),
            r@ == keys@.take(i as int),
        decreases drop - i,
    {
        r.push(keys[i]);
        assert(keys@.take(i + 1) =~= keys@.take(i as int).push(keys@[i as int]));
        i = i + 1;
    }
    r
}

pub open spec fn entry_seqs(rows: Seq<ClipboardEntry>) -> Seq<u64> {
    rows.map_values(|e: ClipboardEntry| e.seq)
}

/// Up to `limit` of `rows`, newest (largest sequence number) first.
pub open spec fn newest_first_spec(rows: Seq<ClipboardEntry>, limit: int) -> Seq<EntryView> {
    let o = desc_order(entry_seqs(rows));
    let n = if rows.len() < limit {
        rows.len() as int
    } else {
        limit
    };
    Seq::new(n as nat, |i: int| rows[o[i]]@)
}

fn copy_entry(e: &ClipboardEntry) -> (r: ClipboardEntry)
    ensures
        r@ == e@,
{
    ClipboardEntry {
        seq: e.seq,
        timestamp: e.timestamp,
        source: crate::text::string_of(&crate::text::chars_of(e.source.as_str())),
        text: crate::text::string_of(&crate::text::chars_of(e.text.as_str())),
    }
}

/// Up to `limit` entries, newest first. The entries come from one store,
/// so no two share a sequence number.
pub fn newest_first(rows: &Vec<ClipboardEntry>, limit: usize) -> (r: Vec<ClipboardEntry>)
    requires
        nums_distinct(entry_seqs(rows@)),
    ensures
        r@.map_values(|e: ClipboardEntry| e@) == newest_first_spec(rows@, limit as int),
        is_desc_order(entry_seqs(rows@), desc_order(entry_seqs(rows@))),
        forall|i: int, j: int| 0 <= i < j < r.len() ==> (#[trigger] r@[i]).seq > (#[trigger] r@[j]).seq,
{
    let mut seqs: Vec<u64> = Vec::new();
    let mut i: usize = 0;
    while i < rows.len()
        invariant
            i <= rows.len(),
            seqs@ == entry_seqs(rows@).take(i as int),
        decreases rows.len() - i,
    {
        seqs.push(rows[i].seq);
        assert(seqs@ =~= entry_seqs(rows@).take(i + 1));
        i = i + 1;
    }
    assert(seqs@ =~= entry_seqs(rows@));
    let order = sort_desc(&seqs);
    let n = if rows.len() < limit {
        rows.len()
    } else {
        limit
    };
    let mut out: Vec<ClipboardEntry> = Vec::new();
    let mut k: usize = 0;
    while k < n
        invariant
            k <= n,
            n <= rows.len(),
            order.len() == rows.len(),
            as_ints(order@) == desc_order(entry_seqs(rows@)),
            is_desc_order(entry_seqs(rows@), as_ints(order@)),
            out@.map_values(|e: ClipboardEntry| e@) =~= Seq::new(
                k as nat,
                |i: int| rows@[desc_order(entry_seqs(rows@))[i]]@,
            ),
        decreases n - k,
    {
        assert(as_ints(order@)[k as int] == order@[k as int] as int);
        let e = copy_entry(&rows[order[k]]);
        let ghost before = out@;
        out.push(e);
        assert(out@.map_values(|e: ClipboardEntry| e@) =~= before.map_values(|e: ClipboardEntry| e@).push(e@));
        k = k + 1;
    }
    proof {
        let o = desc_order(entry_seqs(rows@));
        assert forall|i: int, j: int| 0 <= i < j < out.len() implies (#[trigger] out@[i]).seq > (
        #[trigger] out@[j]).seq by {
            assert(out@.map_values(|e: ClipboardEntry| e@)[i] == out@[i]@);
            assert(out@.map_values(|e: ClipboardEntry| e@)[j] == out@[j]@);
            assert(entry_seqs(rows@)[o[i]] > entry_seqs(rows@)[o[j]]);
        }
    }
    out
}

/// A character takes as many bytes as its UTF-8 encoding: one below
/// U+0080, two below U+0800, three below U+10000, four above.
pub proof fn law_utf8_len_is_encoding_length(c: char)
    ensures
        utf8_len(c) == vstd::utf8::encode_scalar(c as u32).len(),
        (c as u32) < 0x80 ==> utf8_len(c) == 1,
        0x80 <= (c as u32) < 0x800 ==> utf8_len(c) == 2,
        0x800 <= (c as u32) < 0x10000 ==> utf8_len(c) == 3,
        0x10000 <= (c as u32) ==> utf8_len(c) == 4,
{
    vstd::utf8::char_is_scalar(c);
}

proof fn lemma_encode_push(a: Seq<char>, c: char)
    ensures
        vstd::utf8::encode_utf8(a.push(c)) == vstd::utf8::encode_utf8(a) + vstd::utf8::encode_scalar(
            c as u32,
        ),
    decreases a.len(),
{
    if a.len() == 0 {
        assert(a.push(c).drop_first() =~= Seq::<char>::empty());
        assert(a.push(c)[0] == c);
        assert(vstd::utf8::encode_utf8(Seq::<char>::empty()) =~= Seq::<u8>::empty());
        assert(vstd::utf8::encode_utf8(a.push(c)) =~= vstd::utf8::encode_scalar(c as u32));
        assert(vstd::utf8::encode_utf8(a) =~= Seq::<u8>::empty());
        assert(vstd::utf8::encode_utf8(a) + vstd::utf8::encode_scalar(c as u32)
            =~= vstd::utf8::encode_scalar(c as u32));
    } else {
        assert(a.push(c).drop_first() =~= a.drop_first().push(c));
        assert(a.push(c)[0] == a[0]);
        lemma_encode_push(a.drop_first(), c);
        assert(vstd::utf8::encode_utf8(a.push(c)) =~= vstd::utf8::encode_utf8(a)
            + vstd::utf8::encode_scalar(c as u32));
    }
}

/// The byte length of a text is the length of its UTF-8 encoding, as
/// `str::len` counts it.
pub proof fn law_byte_len_is_utf8_length(s: Seq<char>)
    ensures
        byte_len(s) == vstd::utf8::encode_utf8(s).len(),
    decreases s.len(),
{
    if s.len() > 0 {
        law_byte_len_is_utf8_length(s.drop_last());
        law_utf8_len_is_encoding_length(s.last());
        lemma_encode_push(s.drop_last(), s.last());
        assert(s.drop_last().push(s.last()) =~= s);
    }
}

/// Pruning drops the oldest entries: from keys in ascending order, exactly
/// as many as exceed the limit, each older than every key kept, and none
/// when the store is within its limit.
pub proof fn law_prune_drops_oldest(keys: Seq<u64>, max_entries: u64, i: int, j: int)
    requires
        forall|a: int, b: int| 0 <= a < b < keys.len() ==> keys[a] < keys[b],
    ensures
        ({
            let dropped = prune_spec(keys, max_entries);
            &&& dropped.len() == if keys.len() > max_entries {
                keys.len() - max_entries
            } else {
                0
            }
            &&& keys.len() - dropped.len() <= max_entries
            &&& (0 <= i < dropped.len() && dropped.len() <= j < keys.len()) ==> dropped[i]
                < keys[j]
            &&& 0 <= i < dropped.len() ==> dropped[i] == keys[i]
        }),
{
    if keys.len() > max_entries {
        let dropped = keys.take(keys.len() - max_entries);
        if 0 <= i < dropped.len() {
            assert(dropped[i] == keys[i]);
        }
    }
}

} // verus!
