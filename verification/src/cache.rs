//! A cache of values kept in files, one file `<key>.json` per key under a base
//! directory, each entry with the time it expires. The files themselves are
//! read and written by the application; here stand the rules: where a key is
//! kept, when an entry is stale, which files hold keys, and what becomes of a
//! list once some of its items are dropped.
use vstd::prelude::*;
use crate::text::{chars_of, concat, concat3, contains_sub, has_suffix, occurs_in, seq_ends_with, string_from_chars, sub_chars};

verus! {

/// A cache rooted at a directory.
#[derive(Debug, Clone)]
pub struct FileCache {
    pub base_path: String,
}

/// A cached value and the time, in seconds since the Unix epoch, after which
/// it is stale.
#[derive(Debug, Clone)]
pub struct CacheEntry<T> {
    pub value: T,
    pub expires_at: u64,
}

/// The extension of the files of the cache.
pub open spec fn json_ext() -> Seq<char> {
    ".json"@
}

/// The path of the file of `key` under `base`, joined as `PathBuf::push` does
/// on Unix: a name that starts with `/` replaces the base, and a separator is
/// added only where the base is not empty and does not already end with one.
pub open spec fn spec_file_path(base: Seq<char>, key: Seq<char>) -> Seq<char> {
    let name = key + json_ext();
    if name[0] == '/' {
        name
    } else if base.len() == 0 || base.last() == '/' {
        base + name
    } else {
        base + "/"@ + name
    }
}

/// `s` with every trailing repetition of `suffix` removed, as
/// `str::trim_end_matches` gives it.
pub open spec fn trim_end_all(s: Seq<char>, suffix: Seq<char>) -> Seq<char>
    decreases s.len(),
{
    if suffix.len() > 0 && has_suffix(s, suffix) {
        trim_end_all(s.subrange(0, s.len() - suffix.len()), suffix)
    } else {
        s
    }
}

/// The key that a file of the cache holds: its name ends with `.json`, and
/// the key is the name without its trailing `.json` repetitions.
pub open spec fn spec_key_of_file_name(name: Seq<char>) -> Option<Seq<char>> {
    if has_suffix(name, json_ext()) {
        Some(trim_end_all(name, json_ext()))
    } else {
        None
    }
}

/// The items of `s` whose flag in `keep` is set, in order.
pub open spec fn retained<T>(s: Seq<T>, keep: Seq<bool>) -> Seq<T>
    decreases s.len(),
{
    if s.len() == 0 {
        Seq::empty()
    } else {
        let rest = retained(s.drop_last(), keep);
        if keep[s.len() - 1] {
            rest.push(s.last())
        } else {
            rest
        }
    }
}

/// What becomes of a cached list once filtered.
#[derive(Debug, Clone)]
pub enum ListUpdate<T> {
    /// Nothing was dropped: the entry stays as it is.
    Unchanged,
    /// Everything was dropped: the entry is deleted.
    Delete,
    /// Some items were dropped: the entry is written again with the others.
    Replace(Vec<T>),
}

/// What becomes of the list `s` when the items whose flag in `keep` is
/// cleared are dropped.
pub open spec fn spec_list_update<T>(s: Seq<T>, keep: Seq<bool>) -> Option<Seq<T>> {
    let kept = retained(s, keep);
    if kept.len() == s.len() {
        None
    } else {
        Some(kept)
    }
}

impl FileCache {
    /// The current time, in seconds since the Unix epoch.
    ///
    /// Trusted: reads `std::time::SystemTime::now` and its duration since
    /// `UNIX_EPOCH`, in whole seconds; a clock set before the epoch reads 0.
    /// It depends on the clock: nothing is said of its value.
    #[verifier::external_body]
    fn now() -> (r: u64) {
        std::time::SystemTime::now()
            .duration_since(std::time::UNIX_EPOCH)
            .map(|d| d.as_secs())
            .unwrap_or(0)
    }

    /// A cache rooted at `base_path`.
    pub fn new(base_path: &str) -> (r: Self)
        ensures
            r.base_path@ == base_path@,
    {
        FileCache { base_path: base_path.to_string() }
    }

    /// The path of the file that holds `key`.
    pub fn file_path(&self, key: &str) -> (r: String)
        ensures
            r@ == spec_file_path(self.base_path@, key@),
    {
        let name = concat(key, ".json");
        let n = chars_of(name.as_str());
        let b = chars_of(self.base_path.as_str());
        proof {
            reveal_strlit(".json");
        }
        assert(n@.len() > 0);
        if n[0] == '/' {
            name
        } else if b.len() == 0 || b[b.len() - 1] == '/' {
            concat(self.base_path.as_str(), name.as_str())
        } else {
            concat3(self.base_path.as_str(), "/", name.as_str())
        }
    }
}

/// The expiry of an entry written at `now` to live `ttl_secs` seconds.
pub fn expiry(now: u64, ttl_secs: u64) -> (r: u64)
    requires
        now + ttl_secs <= u64::MAX,
    ensures
        r == now + ttl_secs,
{
    now + ttl_secs
}

/// Whether an entry that expires at `expires_at` is stale at `now`: only
/// once the time is past its expiry.
pub fn is_expired(now: u64, expires_at: u64) -> (r: bool)
    ensures
        r == (now > expires_at),
{
    now > expires_at
}

/// The value of an entry read at `now`, unless it is stale.
pub open spec fn spec_fresh_value<T>(entry: CacheEntry<T>, now: u64) -> Option<T> {
    if now > entry.expires_at {
        None
    } else {
        Some(entry.value)
    }
}

/// A value written at `written_at` to live `ttl_secs` seconds is read back
/// until its expiry, and not after.
pub proof fn law_cached_value_read_back<T>(value: T, written_at: u64, ttl_secs: u64, read_at: u64)
    requires
        written_at + ttl_secs <= u64::MAX,
    ensures
        read_at <= written_at + ttl_secs ==> spec_fresh_value(
            CacheEntry { value, expires_at: (written_at + ttl_secs) as u64 },
            read_at,
        ) == Some(value),
        read_at > written_at + ttl_secs ==> spec_fresh_value(
            CacheEntry { value, expires_at: (written_at + ttl_secs) as u64 },
            read_at,
        ) is None,
{
}

/// Filtering with every flag set keeps the list as it is.
pub proof fn law_keeping_all_keeps_the_list<T>(s: Seq<T>, keep: Seq<bool>)
    requires
        keep.len() == s.len(),
        forall|i: int| 0 <= i < keep.len() ==> keep[i],
    ensures
        retained(s, keep) == s,
        spec_list_update(s, keep) is None,
    decreases s.len(),
{
    if s.len() > 0 {
        law_keeping_all_keeps_the_list(s.drop_last(), keep.drop_last());
        lemma_retained_prefix(s.drop_last(), keep);
        assert(s.drop_last().push(s.last()) =~= s);
    }
}

/// What is kept of a list depends on the flags of its own items only.
pub proof fn lemma_retained_prefix<T>(s: Seq<T>, keep: Seq<bool>)
    requires
        s.len() <= keep.len(),
    ensures
        retained(s, keep) == retained(s, keep.subrange(0, s.len() as int)),
    decreases s.len(),
{
    if s.len() > 0 {
        lemma_retained_prefix(s.drop_last(), keep);
        lemma_retained_prefix(s.drop_last(), keep.subrange(0, s.len() as int));
        assert(keep.subrange(0, s.len() as int).subrange(0, s.len() - 1) =~= keep.subrange(0, s.len() - 1));
    }
}

/// The value of an entry read at `now`, unless it is stale.
pub fn fresh_value<T>(entry: CacheEntry<T>, now: u64) -> (r: Option<T>)
    ensures
        r == spec_fresh_value(entry, now),
{
    if is_expired(now, entry.expires_at) {
        None
    } else {
        Some(entry.value)
    }
}

/// The key that a file of the cache holds, if its name is that of one.
pub fn key_of_file_name(name: &str) -> (r: Option<String>)
    ensures
        match spec_key_of_file_name(name@) {
            Some(k) => r matches Some(x) && x@ == k,
            None => r is None,
        },
{
    let s = chars_of(name);
    let ext = chars_of(".json");
    proof {
        reveal_strlit(".json");
    }
    if !seq_ends_with(&s, &ext) {
        return None;
    }
    let mut end: usize = s.len();
    let mut cur = sub_chars(&s, 0, end);
    assert(s@.subrange(0, s@.len() as int) =~= s@);
    loop
        invariant
            ext@ == json_ext(),
            ext@.len() == 5,
            end <= s@.len(),
            cur@ == s@.subrange(0, end as int),
            trim_end_all(cur@, json_ext()) == trim_end_all(s@, json_ext()),
        ensures
            !has_suffix(cur@, json_ext()),
            trim_end_all(cur@, json_ext()) == trim_end_all(s@, json_ext()),
        decreases end,
    {
        if !seq_ends_with(&cur, &ext) {
            break;
        }
        let ghost prev = cur@;
        assert(trim_end_all(prev, json_ext()) == trim_end_all(prev.subrange(0, prev.len() - 5), json_ext()));
        end = end - ext.len();
        cur = sub_chars(&s, 0, end);
        assert(cur@ =~= prev.subrange(0, prev.len() - 5));
    }
    Some(string_from_chars(&cur))
}

/// Whether the file `name` is among those that a partial key `partial`
/// designates: those whose name contains it.
pub fn file_name_matches(name: &str, partial: &str) -> (r: bool)
    ensures
        r == occurs_in(name@, partial@),
{
    contains_sub(name, partial)
}

/// What becomes of the cached list `list` when the items whose flag in `keep`
/// is cleared are dropped: unchanged when none is, deleted when all are, and
/// written again with the others otherwise.
pub fn filter_list_update<T>(list: Vec<T>, keep: &Vec<bool>) -> (r: ListUpdate<T>)
    requires
        keep@.len() == list@.len(),
    ensures
        match spec_list_update(list@, keep@) {
            None => r is Unchanged,
            Some(kept) => if kept.len() == 0 {
                r is Delete
            } else {
                r matches ListUpdate::Replace(v) && v@ == kept
            },
        },
{
    let original_len = list.len();
    let mut list = list;
    let ghost s = list@;
    let mut rest: Vec<T> = Vec::new();
    // Items are taken from the back and pushed onto `rest`, so `rest` holds
    // the tail of the list reversed; they are then kept front to back.
    while list.len() > 0
        invariant
            s.len() == original_len,
            list@ == s.subrange(0, list@.len() as int),
            rest@.len() + list@.len() == s.len(),
            forall|k: int| 0 <= k < rest@.len() ==> rest@[k] == s[s.len() - 1 - k],
        decreases list@.len(),
    {
        let x = list.pop().unwrap();
        rest.push(x);
        assert(list@ =~= s.subrange(0, list@.len() as int));
    }
    let mut kept: Vec<T> = Vec::new();
    let mut i: usize = 0;
    while rest.len() > 0
        invariant
            s.len() == original_len,
            keep@.len() == s.len(),
            i <= s.len(),
            rest@.len() + i == s.len(),
            forall|k: int| 0 <= k < rest@.len() ==> rest@[k] == s[s.len() - 1 - k],
            kept@ == retained(s.subrange(0, i as int), keep@),
        decreases rest@.len(),
    {
        let x = rest.pop().unwrap();
        assert(x == s[i as int]);
        assert(s.subrange(0, i as int) =~= s.subrange(0, i + 1).drop_last());
        if keep[i] {
            kept.push(x);
        }
        i = i + 1;
    }
    assert(s.subrange(0, s.len() as int) =~= s);
    proof {
        lemma_retained_len(s, keep@);
    }
    if kept.len() == original_len {
        ListUpdate::Unchanged
    } else if kept.len() == 0 {
        ListUpdate::Delete
    } else {
        ListUpdate::Replace(kept)
    }
}

/// Filtering never lengthens a list.
pub proof fn lemma_retained_len<T>(s: Seq<T>, keep: Seq<bool>)
    ensures
        retained(s, keep).len() <= s.len(),
    decreases s.len(),
{
    if s.len() > 0 {
        lemma_retained_len(s.drop_last(), keep);
    }
}


/// The value of an entry read now, unless it is stale.
pub fn read_now<T>(entry: CacheEntry<T>) -> (r: Option<T>)
    ensures
        exists|now: u64| r == #[trigger] spec_fresh_value(entry, now),
{
    let now = FileCache::now();
    let r = fresh_value(entry, now);
    assert(r == spec_fresh_value(entry, now));
    r
}

/// An entry that expires at `expires_at` is stale at `now`.
pub open spec fn stale_at(now: u64, expires_at: u64) -> bool {
    now > expires_at
}

/// Whether an entry that expires at `expires_at` is stale now.
pub fn is_expired_now(expires_at: u64) -> (r: bool)
    ensures
        exists|now: u64| r == #[trigger] stale_at(now, expires_at),
{
    let now = FileCache::now();
    let r = is_expired(now, expires_at);
    assert(r == stale_at(now, expires_at));
    r
}

/// The expiry of an entry written at `now` to live `ttl_secs` seconds; none
/// when it would pass the end of the clock's range.
pub open spec fn spec_expiry_at(now: u64, ttl_secs: u64) -> Option<u64> {
    if now + ttl_secs <= u64::MAX {
        Some((now + ttl_secs) as u64)
    } else {
        None
    }
}

/// The expiry of an entry written now to live `ttl_secs` seconds; none when
/// it would pass the end of the clock's range.
pub fn expiry_from_now(ttl_secs: u64) -> (r: Option<u64>)
    ensures
        exists|now: u64| r == #[trigger] spec_expiry_at(now, ttl_secs),
{
    let now = FileCache::now();
    let r = if now > u64::MAX - ttl_secs {
        None
    } else {
        Some(expiry(now, ttl_secs))
    };
    assert(r == spec_expiry_at(now, ttl_secs));
    r
}

} // verus!
