//! Character-level helpers on strings.

use vstd::prelude::*;

verus! {

/// True when `p` stands at the start of `s`.
pub open spec fn has_prefix(s: Seq<char>, p: Seq<char>) -> bool {
    p.len() <= s.len() && s.subrange(0, p.len() as int) == p
}

/// Tells whether `s` begins with `prefix`.
pub fn starts_with(s: &str, prefix: &str) -> (b: bool)
    ensures
        b == has_prefix(s@, prefix@),
{
    let n = prefix.unicode_len();
    if n > s.unicode_len() {
        return false;
    }
    str_eq(s.substring_char(0, n), prefix)
}

/// Appends a copy of `s` to the words of `v`.
pub fn push_str(v: &mut Vec<String>, s: &str)
    ensures
        final(v).deep_view() == old(v).deep_view().push(s@),
{
    let owned = String::from_str(s);
    v.push(owned);
    proof {
        assert(v.deep_view() =~= old(v).deep_view().push(s@));
    }
}

/// Appends `s` to the words of `v`.
pub fn push_string(v: &mut Vec<String>, s: String)
    ensures
        final(v).deep_view() == old(v).deep_view().push(s@),
{
    v.push(s);
    proof {
        assert(v.deep_view() =~= old(v).deep_view().push(s@));
    }
}

/// A vector with no words in it.
pub fn no_words() -> (v: Vec<String>)
    ensures
        v.deep_view() == Seq::<Seq<char>>::empty(),
{
    let v: Vec<String> = Vec::new();
    proof {
        assert(v.deep_view() =~= Seq::<Seq<char>>::empty());
    }
    v
}

/// Tells whether two strings hold the same characters.
pub fn str_eq(a: &str, b: &str) -> (r: bool)
    ensures
        r == (a@ == b@),
{
    String::from_str(a) == String::from_str(b)
}

/// True when `i` is the first position at which `key` stands in `keys`.
pub open spec fn is_first_at<T>(keys: Seq<T>, key: T, i: int) -> bool {
    &&& 0 <= i < keys.len()
    &&& keys[i] == key
    &&& forall|j: int| 0 <= j < i ==> keys[j] != key
}

/// True when `i` is the last position at which `key` stands in `keys`.
pub open spec fn is_last_at<T>(keys: Seq<T>, key: T, i: int) -> bool {
    &&& 0 <= i < keys.len()
    &&& keys[i] == key
    &&& forall|j: int| i < j < keys.len() ==> keys[j] != key
}

/// True when `key` stands nowhere in `keys`.
pub open spec fn is_absent<T>(keys: Seq<T>, key: T) -> bool {
    forall|j: int| 0 <= j < keys.len() ==> keys[j] != key
}

/// The first position at which `key` stands in `keys`, if it stands there at
/// all.
pub open spec fn index_of<T>(keys: Seq<T>, key: T) -> Option<int> {
    if exists|i: int| is_first_at(keys, key, i) {
        Some(choose|i: int| is_first_at(keys, key, i))
    } else {
        None
    }
}

/// The last position at which `key` stands in `keys`, if it stands there at
/// all.
pub open spec fn last_index_of<T>(keys: Seq<T>, key: T) -> Option<int> {
    if exists|i: int| is_last_at(keys, key, i) {
        Some(choose|i: int| is_last_at(keys, key, i))
    } else {
        None
    }
}

/// A first position is the first position.
pub proof fn lemma_index_of_found<T>(keys: Seq<T>, key: T, i: int)
    requires
        is_first_at(keys, key, i),
    ensures
        index_of(keys, key) == Some(i),
{
    let c = choose|c: int| is_first_at(keys, key, c);
    assert(is_first_at(keys, key, c));
    if c < i {
        assert(keys[c] != key);
    } else if i < c {
        assert(keys[i] != key);
    }
}

/// A last position is the last position.
pub proof fn lemma_last_index_of_found<T>(keys: Seq<T>, key: T, i: int)
    requires
        is_last_at(keys, key, i),
    ensures
        last_index_of(keys, key) == Some(i),
{
    let c = choose|c: int| is_last_at(keys, key, c);
    assert(is_last_at(keys, key, c));
    if c < i {
        assert(keys[i] != key);
    } else if i < c {
        assert(keys[c] != key);
    }
}

/// A key that stands nowhere has no first and no last position.
pub proof fn lemma_index_of_absent<T>(keys: Seq<T>, key: T)
    requires
        is_absent(keys, key),
    ensures
        index_of(keys, key) is None,
        last_index_of(keys, key) is None,
{
    if exists|i: int| is_first_at(keys, key, i) {
        let c = choose|c: int| is_first_at(keys, key, c);
        assert(keys[c] != key);
    }
    if exists|i: int| is_last_at(keys, key, i) {
        let c = choose|c: int| is_last_at(keys, key, c);
        assert(keys[c] != key);
    }
}

/// What `last_index_of` returns is a last position.
pub proof fn lemma_last_index_of_sound<T>(keys: Seq<T>, key: T)
    ensures
        last_index_of(keys, key) matches Some(i) ==> is_last_at(keys, key, i),
{
}

/// What `index_of` returns is a first position, and `None` means absence.
pub proof fn lemma_index_of_sound<T>(keys: Seq<T>, key: T)
    ensures
        match index_of(keys, key) {
            Some(i) => is_first_at(keys, key, i),
            None => is_absent(keys, key),
        },
{
    if exists|i: int| is_first_at(keys, key, i) {
    } else {
        lemma_absent_or_first(keys, key, keys.len() as int);
    }
}

/// Among the first `n` keys, `key` is absent or has a first position.
proof fn lemma_absent_or_first<T>(keys: Seq<T>, key: T, n: int)
    requires
        0 <= n <= keys.len(),
    ensures
        (forall|j: int| 0 <= j < n ==> keys[j] != key) || exists|i: int|
            is_first_at(keys, key, i),
    decreases n,
{
    if n > 0 {
        lemma_absent_or_first(keys, key, n - 1);
        if forall|j: int| 0 <= j < n - 1 ==> keys[j] != key {
            if keys[n - 1] == key {
                assert(is_first_at(keys, key, n - 1));
            }
        }
    }
}

/// The first position of `c` in `s`, if there is one, counted in
/// characters.
pub fn find_char(s: &str, c: char) -> (r: Option<usize>)
    ensures
        match r {
            Some(i) => index_of(s@, c) == Some(i as int),
            None => index_of(s@, c) is None,
        },
{
    let n = s.unicode_len();
    let mut i: usize = 0;
    let mut found: Option<usize> = None;
    for x in it: s.chars()
        invariant
            it.seq() == s@,
            n == s@.len(),
            i == it.index(),
            i <= n,
            match found {
                Some(k) => is_first_at(s@, c, k as int),
                None => forall|j: int| 0 <= j < i ==> s@[j] != c,
            },
    {
        if found.is_none() && x == c {
            found = Some(i);
        }
        i += 1;
    }
    proof {
        match found {
            Some(k) => lemma_index_of_found(s@, c, k as int),
            None => lemma_index_of_absent(s@, c),
        }
    }
    found
}

/// The last position of `c` among the first `end` characters of `s`, if
/// there is one.
pub fn rfind_char(s: &str, end: usize, c: char) -> (r: Option<usize>)
    requires
        end <= s@.len(),
    ensures
        match r {
            Some(i) => last_index_of(s@.take(end as int), c) == Some(i as int),
            None => last_index_of(s@.take(end as int), c) is None,
        },
{
    let ghost head = s@.take(end as int);
    let n = s.unicode_len();
    let mut i: usize = 0;
    let mut found: Option<usize> = None;
    for x in it: s.chars()
        invariant
            it.seq() == s@,
            n == s@.len(),
            end <= n,
            head == s@.take(end as int),
            i == it.index(),
            i <= n,
            match found {
                Some(k) => k < end && k < i && s@[k as int] == c && forall|j: int|
                    k < j < i && j < end ==> s@[j] != c,
                None => forall|j: int| 0 <= j < i && j < end ==> s@[j] != c,
            },
    {
        if i < end && x == c {
            found = Some(i);
        }
        i += 1;
    }
    proof {
        match found {
            Some(k) => {
                assert(head[k as int] == c);
                assert forall|j: int| k < j < head.len() implies head[j] != c by {
                    assert(head[j] == s@[j]);
                }
                lemma_last_index_of_found(head, c, k as int);
            },
            None => {
                assert forall|j: int| 0 <= j < head.len() implies head[j] != c by {
                    assert(head[j] == s@[j]);
                }
                lemma_index_of_absent(head, c);
            },
        }
    }
    found
}

/// `parts` written one after the other with `sep` between neighbours.
pub open spec fn joined(parts: Seq<Seq<char>>, sep: Seq<char>) -> Seq<char>
    decreases parts.len(),
{
    if parts.len() == 0 {
        Seq::empty()
    } else if parts.len() == 1 {
        parts[0]
    } else {
        joined(parts.drop_last(), sep) + sep + parts.last()
    }
}

/// The words of `tokens` with `sep` between neighbours.
pub fn join_words(tokens: &Vec<String>, sep: &str) -> (r: String)
    ensures
        r@ == joined(tokens.deep_view(), sep@),
{
    let mut out = String::new();
    let mut i: usize = 0;
    let ghost words = tokens.deep_view();
    while i < tokens.len()
        invariant
            i <= tokens.len(),
            words == tokens.deep_view(),
            out@ == joined(words.take(i as int), sep@),
        decreases tokens.len() - i,
    {
        proof {
            let before = words.take(i as int);
            let after = words.take(i + 1);
            assert(after.drop_last() =~= before);
            assert(after.last() == tokens@[i as int]@);
            assert(before.len() == 0 ==> out@ =~= Seq::<char>::empty());
        }
        if i > 0 {
            out.append(sep);
        }
        out.append(tokens[i].as_str());
        proof {
            if i == 0 {
                assert(out@ =~= tokens@[0]@);
            }
        }
        i += 1;
    }
    proof {
        assert(words.take(tokens.len() as int) =~= words);
    }
    out
}

} // verus!
