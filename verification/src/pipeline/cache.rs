//! Keys and entries of the perceptual-hash cache.
//!
//! An entry stores `score:label` for compactness: the textual score, a
//! colon, then the label.
use vstd::prelude::*;

verus! {

/// `s` holds no colon.
pub open spec fn colon_free(s: Seq<char>) -> bool {
    forall|i: int| 0 <= i < s.len() ==> s[i] != ':'
}

/// The cache key of an image: the configured prefix followed by its hash.
pub open spec fn cache_key(prefix: Seq<char>, phash: Seq<char>) -> Seq<char> {
    prefix + phash
}

/// The cache entry that records `score_text` and `label`.
pub open spec fn cache_value(score_text: Seq<char>, label: Seq<char>) -> Seq<char> {
    score_text + seq![':'] + label
}

/// `i` is the position of the first colon of `s`.
pub open spec fn is_first_colon(s: Seq<char>, i: int) -> bool {
    0 <= i < s.len() && s[i] == ':' && colon_free(s.take(i))
}

/// A cache entry split at its first colon, as `str::split_once(':')`
/// splits it: the text before the colon and the text after it; `None`
/// where the entry holds no colon.
pub open spec fn split_entry(s: Seq<char>) -> Option<(Seq<char>, Seq<char>)> {
    if exists|i: int| is_first_colon(s, i) {
        let i = choose|i: int| is_first_colon(s, i);
        Some((s.take(i), s.skip(i + 1)))
    } else {
        None
    }
}

/// The first colon of a string is unique.
proof fn lemma_first_colon_unique(s: Seq<char>, i: int, j: int)
    requires
        is_first_colon(s, i),
        is_first_colon(s, j),
    ensures
        i == j,
{
    if i < j {
        assert(s.take(j)[i] == s[i]);
    } else if j < i {
        assert(s.take(i)[j] == s[j]);
    }
}

/// Builds the cache key for an image hash.
pub fn make_cache_key(prefix: &str, phash: &str) -> (r: String)
    ensures
        r@ == cache_key(prefix@, phash@),
{
    let mut key = prefix.to_owned();
    key.append(phash);
    key
}

/// Builds the cache entry that records a score (as text) and a label.
pub fn make_cache_value(score_text: &str, label: &str) -> (r: String)
    ensures
        r@ == cache_value(score_text@, label@),
{
    let mut value = score_text.to_owned();
    value.append(":");
    value.append(label);
    proof {
        reveal_strlit(":");
    }
    value
}

/// Splits a cache entry at its first colon.
pub fn split_cache_entry(entry: &str) -> (r: Option<(String, String)>)
    ensures
        match split_entry(entry@) {
            Some((a, b)) => r matches Some((x, y)) && x@ == a && y@ == b,
            None => r is None,
        },
{
    let n = entry.unicode_len();
    let mut i: usize = 0;
    while i < n
        invariant
            n == entry@.len(),
            i <= n,
            colon_free(entry@.take(i as int)),
        decreases n - i,
    {
        if entry.get_char(i) == ':' {
            proof {
                assert(is_first_colon(entry@, i as int));
                let j = choose|j: int| is_first_colon(entry@, j);
                lemma_first_colon_unique(entry@, i as int, j);
            }
            let before = entry.substring_char(0, i).to_owned();
            let after = entry.substring_char(i + 1, n).to_owned();
            proof {
                assert(entry@.subrange(0, i as int) =~= entry@.take(i as int));
                assert(entry@.subrange(i + 1, n as int) =~= entry@.skip(i + 1));
            }
            return Some((before, after));
        }
        proof {
            assert(entry@.take(i + 1) =~= entry@.take(i as int).push(entry@[i as int]));
        }
        i = i + 1;
    }
    proof {
        assert(entry@.take(n as int) =~= entry@);
        if exists|j: int| is_first_colon(entry@, j) {
            let j = choose|j: int| is_first_colon(entry@, j);
            assert(entry@.take(n as int)[j] == entry@[j]);
        }
    }
    None
}

/// What a cache read gives back of a cache write: an entry written for a
/// score and a label splits back into that score and that label, whenever
/// the score's text holds no colon (the text of a number never does).
pub proof fn lemma_cache_value_reads_back(score_text: Seq<char>, label: Seq<char>)
    requires
        colon_free(score_text),
    ensures
        split_entry(cache_value(score_text, label)) == Some((score_text, label)),
{
    let v = cache_value(score_text, label);
    let i = score_text.len() as int;
    assert(v.take(i) =~= score_text);
    assert(is_first_colon(v, i));
    let j = choose|j: int| is_first_colon(v, j);
    lemma_first_colon_unique(v, i, j);
    assert(v.skip(i + 1) =~= label);
}

/// The cache key of a hash is the prefix followed by the whole hash: the
/// hash can be read back from the key, so distinct hashes under one prefix
/// never share a cache entry.
pub proof fn lemma_cache_key_holds_whole_hash(prefix: Seq<char>, phash: Seq<char>, other: Seq<char>)
    ensures
        cache_key(prefix, phash).len() == prefix.len() + phash.len(),
        cache_key(prefix, phash).take(prefix.len() as int) == prefix,
        cache_key(prefix, phash).skip(prefix.len() as int) == phash,
        phash != other ==> cache_key(prefix, phash) != cache_key(prefix, other),
{
    let k = cache_key(prefix, phash);
    assert(k.take(prefix.len() as int) =~= prefix);
    assert(k.skip(prefix.len() as int) =~= phash);
    assert(cache_key(prefix, other).skip(prefix.len() as int) =~= other);
}

/// The cache entry of a score and a label is the score's text, one colon,
/// then the label.
pub proof fn lemma_cache_value_layout(score_text: Seq<char>, label: Seq<char>)
    ensures
        cache_value(score_text, label).len() == score_text.len() + 1 + label.len(),
        cache_value(score_text, label).take(score_text.len() as int) == score_text,
        cache_value(score_text, label)[score_text.len() as int] == ':',
        cache_value(score_text, label).skip(score_text.len() as int + 1) == label,
{
    let v = cache_value(score_text, label);
    assert(v.take(score_text.len() as int) =~= score_text);
    assert(v.skip(score_text.len() as int + 1) =~= label);
}

} // verus!
