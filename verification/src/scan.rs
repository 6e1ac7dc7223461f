//! Byte-level scanning primitives used by the handshake parser: first
//! occurrence of a byte, of a CRLF pair, and of the blank-line terminator
//! that ends an opening-handshake head, together with subrange copying,
//! ASCII case folding and leading-whitespace trimming.
use vstd::prelude::*;

verus! {

/// Carriage return, the first byte of a line terminator.
pub const CR: u8 = 13;

/// Line feed, the second byte of a line terminator.
pub const LF: u8 = 10;

/// True when a CRLF pair sits at index `i` of `s`.
pub open spec fn is_crlf_at(s: Seq<u8>, i: int) -> bool {
    &&& 0 <= i
    &&& i + 2 <= s.len()
    &&& s[i] == CR
    &&& s[i + 1] == LF
}

/// True when the handshake terminator CRLF CRLF sits at index `i` of `s`.
pub open spec fn is_term_at(s: Seq<u8>, i: int) -> bool {
    &&& 0 <= i
    &&& i + 4 <= s.len()
    &&& s[i] == CR
    &&& s[i + 1] == LF
    &&& s[i + 2] == CR
    &&& s[i + 3] == LF
}

/// Index of the first occurrence of `b` in `s` at or after `i`.
pub open spec fn find_byte_from(s: Seq<u8>, b: u8, i: int) -> Option<int>
    decreases s.len() - i,
{
    if i < 0 || i >= s.len() {
        None
    } else if s[i] == b {
        Some(i)
    } else {
        find_byte_from(s, b, i + 1)
    }
}

/// Index of the first occurrence of `b` in `s`.
pub open spec fn find_byte(s: Seq<u8>, b: u8) -> Option<int> {
    find_byte_from(s, b, 0)
}

/// Index of the first CRLF pair in `s` at or after `i`.
pub open spec fn find_crlf_from(s: Seq<u8>, i: int) -> Option<int>
    decreases s.len() - i,
{
    if i < 0 || i + 2 > s.len() {
        None
    } else if is_crlf_at(s, i) {
        Some(i)
    } else {
        find_crlf_from(s, i + 1)
    }
}

/// Index of the first CRLF pair in `s`.
pub open spec fn find_crlf(s: Seq<u8>) -> Option<int> {
    find_crlf_from(s, 0)
}

/// Index of the first handshake terminator in `s` at or after `i`.
pub open spec fn find_term_from(s: Seq<u8>, i: int) -> Option<int>
    decreases s.len() - i,
{
    if i < 0 || i + 4 > s.len() {
        None
    } else if is_term_at(s, i) {
        Some(i)
    } else {
        find_term_from(s, i + 1)
    }
}

/// Index of the first handshake terminator in `s`.
pub open spec fn find_term(s: Seq<u8>) -> Option<int> {
    find_term_from(s, 0)
}

/// The result of `find_byte_from` is the first hit at or after `i`.
pub proof fn lemma_find_byte_from(s: Seq<u8>, b: u8, i: int)
    requires
        0 <= i,
    ensures
        match find_byte_from(s, b, i) {
            Some(t) => i <= t < s.len() && s[t] == b && (forall|k: int|
                i <= k < t ==> s[k] != b),
            None => forall|k: int| i <= k < s.len() ==> s[k] != b,
        },
    decreases s.len() - i,
{
    if i < s.len() && s[i] != b {
        lemma_find_byte_from(s, b, i + 1);
    }
}

/// The result of `find_crlf_from` is the first CRLF pair at or after `i`.
pub proof fn lemma_find_crlf_from(s: Seq<u8>, i: int)
    requires
        0 <= i,
    ensures
        match find_crlf_from(s, i) {
            Some(t) => i <= t && is_crlf_at(s, t) && (forall|k: int|
                i <= k < t ==> !is_crlf_at(s, k)),
            None => forall|k: int| i <= k ==> !is_crlf_at(s, k),
        },
    decreases s.len() - i,
{
    if i + 2 <= s.len() && !is_crlf_at(s, i) {
        lemma_find_crlf_from(s, i + 1);
    }
}

/// The result of `find_term_from` is the first terminator at or after `i`.
pub proof fn lemma_find_term_from(s: Seq<u8>, i: int)
    requires
        0 <= i,
    ensures
        match find_term_from(s, i) {
            Some(t) => i <= t && is_term_at(s, t) && (forall|k: int|
                i <= k < t ==> !is_term_at(s, k)),
            None => forall|k: int| i <= k ==> !is_term_at(s, k),
        },
    decreases s.len() - i,
{
    if i + 4 <= s.len() && !is_term_at(s, i) {
        lemma_find_term_from(s, i + 1);
    }
}

/// First occurrence of `b` in `v`, as executable code.
pub fn scan_byte(v: &Vec<u8>, b: u8) -> (r: Option<usize>)
    ensures
        match r {
            Some(t) => find_byte(v@, b) == Some(t as int),
            None => find_byte(v@, b) is None,
        },
{
    let mut j: usize = 0;
    while j < v.len()
        invariant
            0 <= j <= v@.len(),
            find_byte_from(v@, b, 0) == find_byte_from(v@, b, j as int),
        decreases v@.len() - j,
    {
        if v[j] == b {
            return Some(j);
        }
        j = j + 1;
    }
    None
}

/// First CRLF pair in `v`, as executable code.
pub fn scan_crlf(v: &Vec<u8>) -> (r: Option<usize>)
    ensures
        match r {
            Some(t) => find_crlf(v@) == Some(t as int),
            None => find_crlf(v@) is None,
        },
{
    if v.len() < 2 {
        return None;
    }
    let mut j: usize = 0;
    while j <= v.len() - 2
        invariant
            v@.len() >= 2,
            0 <= j <= v@.len() - 1,
            find_crlf_from(v@, 0) == find_crlf_from(v@, j as int),
        decreases v@.len() - j,
    {
        if v[j] == CR && v[j + 1] == LF {
            return Some(j);
        }
        j = j + 1;
    }
    None
}

/// First handshake terminator in `v`, as executable code.
pub fn scan_term(v: &Vec<u8>) -> (r: Option<usize>)
    ensures
        match r {
            Some(t) => find_term(v@) == Some(t as int),
            None => find_term(v@) is None,
        },
{
    if v.len() < 4 {
        return None;
    }
    let mut j: usize = 0;
    while j <= v.len() - 4
        invariant
            v@.len() >= 4,
            0 <= j <= v@.len() - 3,
            find_term_from(v@, 0) == find_term_from(v@, j as int),
        decreases v@.len() - j,
    {
        if v[j] == CR && v[j + 1] == LF && v[j + 2] == CR && v[j + 3] == LF {
            return Some(j);
        }
        j = j + 1;
    }
    None
}

/// Copy of the bytes of `v` from `from` (inclusive) to `to` (exclusive).
pub fn subvec(v: &Vec<u8>, from: usize, to: usize) -> (r: Vec<u8>)
    requires
        from <= to <= v@.len(),
    ensures
        r@ == v@.subrange(from as int, to as int),
{
    let mut r: Vec<u8> = Vec::new();
    let mut j: usize = from;
    while j < to
        invariant
            from <= j <= to <= v@.len(),
            r@ == v@.subrange(from as int, j as int),
        decreases to - j,
    {
        r.push(v[j]);
        proof {
            assert(r@ =~= v@.subrange(from as int, j + 1 as int));
        }
        j = j + 1;
    }
    r
}

/// ASCII lower-casing of one byte.
pub open spec fn lower(c: u8) -> u8 {
    if 65 <= c <= 90 {
        (c + 32) as u8
    } else {
        c
    }
}

/// ASCII lower-casing of a byte sequence.
pub open spec fn lower_seq(s: Seq<u8>) -> Seq<u8> {
    s.map_values(|c: u8| lower(c))
}

/// ASCII lower-casing of one byte, as executable code.
pub fn lower_byte(c: u8) -> (r: u8)
    ensures
        r == lower(c),
{
    if 65 <= c && c <= 90 {
        c + 32
    } else {
        c
    }
}

/// ASCII lower-casing of a byte vector, as executable code.
pub fn lower_vec(v: &Vec<u8>) -> (r: Vec<u8>)
    ensures
        r@ == lower_seq(v@),
{
    let mut r: Vec<u8> = Vec::new();
    let mut j: usize = 0;
    while j < v.len()
        invariant
            0 <= j <= v@.len(),
            r@ == lower_seq(v@.subrange(0, j as int)),
        decreases v@.len() - j,
    {
        r.push(lower_byte(v[j]));
        proof {
            assert(r@ =~= lower_seq(v@.subrange(0, j + 1 as int)));
        }
        j = j + 1;
    }
    proof {
        assert(v@.subrange(0, v@.len() as int) =~= v@);
    }
    r
}

/// Byte-for-byte equality of two vectors.
pub fn bytes_eq(a: &Vec<u8>, b: &Vec<u8>) -> (r: bool)
    ensures
        r == (a@ == b@),
{
    if a.len() != b.len() {
        proof {
            assert(a@ != b@);
        }
        return false;
    }
    let mut j: usize = 0;
    while j < a.len()
        invariant
            0 <= j <= a@.len(),
            a@.len() == b@.len(),
            forall|k: int| 0 <= k < j ==> a@[k] == b@[k],
        decreases a@.len() - j,
    {
        if a[j] != b[j] {
            return false;
        }
        j = j + 1;
    }
    proof {
        assert(a@ =~= b@);
    }
    true
}

/// True when `c` is linear whitespace (space or horizontal tab).
pub open spec fn is_lws(c: u8) -> bool {
    c == 32 || c == 9
}

/// `s` with its leading linear whitespace removed.
pub open spec fn trim_left(s: Seq<u8>) -> Seq<u8>
    decreases s.len(),
{
    if s.len() > 0 && is_lws(s[0]) {
        trim_left(s.drop_first())
    } else {
        s
    }
}

/// Trimming a sequence whose first `i` bytes are whitespace and whose byte
/// at `i`, if any, is not, keeps exactly the bytes from `i` on.
pub proof fn lemma_trim_left_at(s: Seq<u8>, i: int)
    requires
        0 <= i <= s.len(),
        forall|k: int| 0 <= k < i ==> is_lws(s[k]),
        i < s.len() ==> !is_lws(s[i]),
    ensures
        trim_left(s) == s.subrange(i, s.len() as int),
    decreases s.len(),
{
    if i == 0 {
        assert(s.subrange(0, s.len() as int) =~= s);
    } else {
        assert(is_lws(s[0]));
        lemma_trim_left_at(s.drop_first(), i - 1);
        assert(s.drop_first().subrange(i - 1, s.drop_first().len() as int) =~= s.subrange(
            i,
            s.len() as int,
        ));
    }
}

/// `v` with its leading linear whitespace removed, as executable code.
pub fn trim_left_vec(v: &Vec<u8>) -> (r: Vec<u8>)
    ensures
        r@ == trim_left(v@),
{
    let mut j: usize = 0;
    while j < v.len() && (v[j] == 32 || v[j] == 9)
        invariant
            0 <= j <= v@.len(),
            forall|k: int| 0 <= k < j ==> is_lws(v@[k]),
        decreases v@.len() - j,
    {
        j = j + 1;
    }
    proof {
        lemma_trim_left_at(v@, j as int);
    }
    subvec(v, j, v.len())
}

} // verus!
