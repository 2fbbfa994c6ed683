//! Character-level string helpers shared by the configuration, API and TUI logic.

use vstd::prelude::*;
use vstd::string::StringExecFns;
use vstd::string::StringSliceAdditionalSpecFns;
use vstd::utf8::*;

verus! {

broadcast use vstd::string::group_string_axioms;

/// Copies the characters of `s` into a vector.
pub fn chars_of(s: &str) -> (v: Vec<char>)
    ensures
        v@ == s@,
{
    let mut v: Vec<char> = Vec::new();
    for c in it: s.chars()
        invariant
            v@ == it.seq().take(it.index()),
    {
        v.push(c);
    }
    v
}

/// Builds a `String` from a sequence of characters, through std's
/// `FromIterator<char>` for `String`, which appends the characters in order.
#[verifier::external_body]
pub fn string_of(chars: &[char]) -> (s: String)
    ensures
        s@ == chars@,
{
    chars.iter().collect::<String>()
}

/// Unicode `White_Space` property, the notion of whitespace that std's `trim` uses.
pub open spec fn is_white_space(c: char) -> bool {
    let u = c as u32;
    ||| 0x09 <= u <= 0x0D
    ||| u == 0x20
    ||| u == 0x85
    ||| u == 0xA0
    ||| u == 0x1680
    ||| 0x2000 <= u <= 0x200A
    ||| u == 0x2028
    ||| u == 0x2029
    ||| u == 0x202F
    ||| u == 0x205F
    ||| u == 0x3000
}

/// `s` without its leading whitespace.
pub open spec fn trim_start(s: Seq<char>) -> Seq<char>
    decreases s.len(),
{
    if s.len() > 0 && is_white_space(s[0]) {
        trim_start(s.drop_first())
    } else {
        s
    }
}

/// `s` without its trailing whitespace.
pub open spec fn trim_end(s: Seq<char>) -> Seq<char>
    decreases s.len(),
{
    if s.len() > 0 && is_white_space(s.last()) {
        trim_end(s.drop_last())
    } else {
        s
    }
}

/// `s` without leading and trailing whitespace.
pub open spec fn trimmed(s: Seq<char>) -> Seq<char> {
    trim_end(trim_start(s))
}

/// Decides the Unicode `White_Space` property for one character.
pub fn is_whitespace_char(c: char) -> (b: bool)
    ensures
        b == is_white_space(c),
{
    let u = c as u32;
    (0x09 <= u && u <= 0x0D) || u == 0x20 || u == 0x85 || u == 0xA0 || u == 0x1680 || (0x2000
        <= u && u <= 0x200A) || u == 0x2028 || u == 0x2029 || u == 0x202F || u == 0x205F || u
        == 0x3000
}

proof fn lemma_trim_start_step(s: Seq<char>, i: int)
    requires
        0 <= i < s.len(),
        is_white_space(s[i]),
    ensures
        trim_start(s.subrange(i, s.len() as int)) == trim_start(s.subrange(i + 1, s.len() as int)),
{
    assert(s.subrange(i, s.len() as int).drop_first() =~= s.subrange(i + 1, s.len() as int));
}

proof fn lemma_trim_end_step(s: Seq<char>, i: int, j: int)
    requires
        0 <= i < j <= s.len(),
        is_white_space(s[j - 1]),
    ensures
        trim_end(s.subrange(i, j)) == trim_end(s.subrange(i, j - 1)),
{
    assert(s.subrange(i, j).drop_last() =~= s.subrange(i, j - 1));
}

/// Copies `v[from..to]` into a new vector.
pub fn copy_range(v: &Vec<char>, from: usize, to: usize) -> (r: Vec<char>)
    requires
        from <= to <= v.len(),
    ensures
        r@ == v@.subrange(from as int, to as int),
{
    let mut r: Vec<char> = Vec::new();
    let mut k = from;
    while k < to
        invariant
            from <= k <= to <= v.len(),
            r@ == v@.subrange(from as int, k as int),
        decreases to - k,
    {
        r.push(v[k]);
        k = k + 1;
    }
    r
}

/// Removes leading and trailing whitespace, as std's `str::trim` does.
pub fn trim(s: &str) -> (r: String)
    ensures
        r@ == trimmed(s@),
{
    let v = chars_of(s);
    let n = v.len();
    let mut i: usize = 0;
    assert(v@.subrange(0, n as int) =~= v@);
    while i < n && is_whitespace_char(v[i])
        invariant
            i <= n == v@.len(),
            trim_start(v@) == trim_start(v@.subrange(i as int, n as int)),
        decreases n - i,
    {
        proof {
            lemma_trim_start_step(v@, i as int);
        }
        i = i + 1;
    }
    let ghost rest = v@.subrange(i as int, n as int);
    assert(trim_start(v@) == rest);
    let mut j: usize = n;
    assert(rest =~= v@.subrange(i as int, j as int));
    while j > i && is_whitespace_char(v[j - 1])
        invariant
            i <= j <= n == v@.len(),
            trim_end(rest) == trim_end(v@.subrange(i as int, j as int)),
        decreases j - i,
    {
        proof {
            lemma_trim_end_step(v@, i as int, j as int);
        }
        j = j - 1;
    }
    let out = copy_range(&v, i, j);
    string_of(out.as_slice())
}


/// Whether `s` begins with `prefix`, as std's `str::starts_with` with a string pattern.
pub fn starts_with(s: &str, prefix: &str) -> (b: bool)
    ensures
        b == prefix@.is_prefix_of(s@),
{
    let sv = chars_of(s);
    let pv = chars_of(prefix);
    if pv.len() > sv.len() {
        return false;
    }
    let mut k: usize = 0;
    while k < pv.len()
        invariant
            sv@ == s@,
            pv@ == prefix@,
            pv.len() <= sv.len(),
            k <= pv.len(),
            forall|m: int| 0 <= m < k ==> pv@[m] == sv@[m],
        decreases pv.len() - k,
    {
        if pv[k] != sv[k] {
            proof {
                if pv@.is_prefix_of(sv@) {
                    assert(pv@[k as int] == sv@.subrange(0, pv@.len() as int)[k as int]);
                }
            }
            return false;
        }
        k = k + 1;
    }
    true
}

/// `s` after removing `prefix` from its front as many times as it occurs there,
/// as std's `str::trim_start_matches` with a non-empty string pattern.
pub open spec fn strip_prefixes(s: Seq<char>, prefix: Seq<char>) -> Seq<char>
    recommends
        prefix.len() > 0,
    decreases s.len(),
{
    if prefix.len() > 0 && prefix.is_prefix_of(s) {
        strip_prefixes(s.skip(prefix.len() as int), prefix)
    } else {
        s
    }
}

/// Removes every leading occurrence of the non-empty `prefix` from `s`.
pub fn trim_start_matches(s: &str, prefix: &str) -> (r: String)
    requires
        prefix@.len() > 0,
    ensures
        r@ == strip_prefixes(s@, prefix@),
{
    let sv = chars_of(s);
    let pv = chars_of(prefix);
    let n = sv.len();
    let p = pv.len();
    let mut i: usize = 0;
    assert(sv@.subrange(0, n as int) =~= sv@);
    loop
        invariant
            i <= n == sv@.len(),
            p == pv@.len() > 0,
            strip_prefixes(sv@, pv@) == strip_prefixes(sv@.subrange(i as int, n as int), pv@),
        ensures
            i <= n,
            strip_prefixes(sv@, pv@) == sv@.subrange(i as int, n as int),
        decreases n - i,
    {
        let ghost rest = sv@.subrange(i as int, n as int);
        if p > n - i {
            assert(!pv@.is_prefix_of(rest));
            break;
        }
        let mut k: usize = 0;
        let mut matched = true;
        while k < p && matched
            invariant
                p == pv@.len(),
                i + p <= n == sv@.len(),
                k <= p,
                matched ==> forall|m: int| 0 <= m < k ==> pv@[m] == sv@[i + m],
                !matched ==> !pv@.is_prefix_of(rest),
                rest == sv@.subrange(i as int, n as int),
            decreases (p - k) as int + if matched { 1int } else { 0int },
        {
            if pv[k] != sv[i + k] {
                matched = false;
                assert(rest[k as int] == sv@[i + k]);
            } else {
                k = k + 1;
            }
        }
        if !matched {
            break;
        }
        assert(pv@ =~= rest.subrange(0, p as int)) by {
            assert(forall|m: int| 0 <= m < p ==> rest[m] == sv@[i + m]);
        }
        assert(rest.skip(p as int) =~= sv@.subrange(i + p, n as int));
        i = i + p;
    }
    let out = copy_range(&sv, i, n);
    string_of(out.as_slice())
}

/// `s` after removing every trailing `c`, as std's `str::trim_end_matches` with a char pattern.
pub open spec fn strip_trailing(s: Seq<char>, c: char) -> Seq<char>
    decreases s.len(),
{
    if s.len() > 0 && s.last() == c {
        strip_trailing(s.drop_last(), c)
    } else {
        s
    }
}

/// Removes every trailing occurrence of the character `c` from `s`.
pub fn trim_end_matches_char(s: &str, c: char) -> (r: String)
    ensures
        r@ == strip_trailing(s@, c),
{
    let sv = chars_of(s);
    let mut j = sv.len();
    assert(sv@.subrange(0, j as int) =~= sv@);
    while j > 0 && sv[j - 1] == c
        invariant
            j <= sv@.len(),
            strip_trailing(sv@, c) == strip_trailing(sv@.subrange(0, j as int), c),
        decreases j,
    {
        assert(sv@.subrange(0, j as int).drop_last() =~= sv@.subrange(0, j - 1));
        j = j - 1;
    }
    let out = copy_range(&sv, 0, j);
    string_of(out.as_slice())
}

/// The ASCII digit for `d < 10`.
pub open spec fn digit_char(d: nat) -> char {
    ((d + 48) as u32) as char
}

/// The decimal representation of `n`, without leading zeros.
pub open spec fn decimal(n: nat) -> Seq<char>
    decreases n,
{
    if n < 10 {
        seq![digit_char(n)]
    } else {
        decimal(n / 10).push(digit_char(n % 10))
    }
}

fn digit(d: u64) -> (c: char)
    requires
        d < 10,
    ensures
        c == digit_char(d as nat),
{
    if d == 0 {
        '0'
    } else if d == 1 {
        '1'
    } else if d == 2 {
        '2'
    } else if d == 3 {
        '3'
    } else if d == 4 {
        '4'
    } else if d == 5 {
        '5'
    } else if d == 6 {
        '6'
    } else if d == 7 {
        '7'
    } else if d == 8 {
        '8'
    } else {
        '9'
    }
}

/// Formats `n` in decimal, as `format!("{}", n)` does for an unsigned integer.
pub fn decimal_string(n: u64) -> (r: String)
    ensures
        r@ == decimal(n as nat),
{
    // `low` holds the low-order digits of `n`, least significant first
    let mut low: Vec<char> = Vec::new();
    let mut m = n;
    let ghost mut tail: Seq<char> = Seq::empty();
    while m >= 10
        invariant
            decimal(n as nat) == decimal(m as nat) + tail,
            tail.len() == low@.len(),
            forall|i: int| 0 <= i < tail.len() ==> tail[i] == low@[low@.len() - 1 - i],
        decreases m,
    {
        let d = m % 10;
        let c = digit(d);
        proof {
            let t2 = seq![c] + tail;
            assert(decimal(m as nat) == decimal((m / 10) as nat).push(c));
            assert(decimal((m / 10) as nat).push(c) + tail =~= decimal((m / 10) as nat) + t2);
            tail = t2;
        }
        low.push(c);
        m = m / 10;
    }
    let c = digit(m);
    proof {
        assert(decimal(m as nat) == seq![c]);
        tail = seq![c] + tail;
    }
    low.push(c);
    let mut out: Vec<char> = Vec::new();
    let mut k = low.len();
    while k > 0
        invariant
            k <= low@.len() == tail.len(),
            out@.len() == low@.len() - k,
            forall|i: int| 0 <= i < tail.len() ==> tail[i] == low@[low@.len() - 1 - i],
            forall|i: int| 0 <= i < out@.len() ==> out@[i] == tail[i],
        decreases k,
    {
        k = k - 1;
        out.push(low[k]);
    }
    assert(out@ =~= tail);
    string_of(out.as_slice())
}


/// Joining of a relative path onto the path `base`, both as the bytes the
/// operating system holds, as std's `Path::join` does on Unix: a `/` is inserted
/// unless `base` is empty or already ends with one.
pub open spec fn joined(base: Seq<u8>, rel: Seq<u8>) -> Seq<u8> {
    if base.len() > 0 && base.last() != 47u8 {
        base + seq![47u8] + rel
    } else {
        base + rel
    }
}

/// Appends the bytes `s` to `v`.
pub fn extend_bytes(v: &mut Vec<u8>, s: &[u8])
    ensures
        final(v)@ == old(v)@ + s@,
{
    let ghost start = v@;
    let mut k: usize = 0;
    while k < s.len()
        invariant
            k <= s@.len(),
            v@ == start + s@.subrange(0, k as int),
        decreases s.len() - k,
    {
        v.push(s[k]);
        k = k + 1;
    }
    assert(s@.subrange(0, s@.len() as int) =~= s@);
}

/// Joins the relative path `rel` onto the path `base`.
pub fn join_path(base: &[u8], rel: &str) -> (r: Vec<u8>)
    requires
        rel@.len() > 0,
        rel@[0] != '/',
    ensures
        r@ == joined(base@, encode_utf8(rel@)),
{
    let mut out: Vec<u8> = Vec::new();
    extend_bytes(&mut out, base);
    if base.len() > 0 && base[base.len() - 1] != 47u8 {
        out.push(47u8);
    }
    extend_bytes(&mut out, rel.as_bytes());
    assert(out@ =~= joined(base@, encode_utf8(rel@)));
    out
}

/// Concatenation of two strings.
pub fn concat(a: &str, b: &str) -> (r: String)
    ensures
        r@ == a@ + b@,
{
    let mut out = a.to_owned();
    out.append(b);
    out
}

/// Concatenation of three strings.
pub fn concat3(a: &str, b: &str, c: &str) -> (r: String)
    ensures
        r@ == a@ + b@ + c@,
{
    let mut out = a.to_owned();
    out.append(b);
    out.append(c);
    out
}


/// The first `n` bytes of the UTF-8 encoding of `s`, decoded again.
pub open spec fn spec_byte_prefix(s: Seq<char>, n: nat) -> Seq<char> {
    decode_utf8(encode_utf8(s).subrange(0, n as int))
}

/// `s[..n]` for a byte index `n` that falls on a character boundary.
pub fn byte_prefix(s: &str, n: usize) -> (r: String)
    requires
        is_char_boundary(s.spec_bytes(), n as int),
    ensures
        r@ == spec_byte_prefix(s@, n as nat),
        encode_utf8(r@) == encode_utf8(s@).subrange(0, n as int),
{
    broadcast use vstd::utf8::group_utf8_lib;

    let (head, _tail) = s.split_at(n);
    head.to_owned()
}

/// Appends one character, through std's `String::push`.
#[verifier::external_body]
pub fn push_char(s: &mut String, c: char)
    ensures
        final(s)@ == old(s)@.push(c),
{
    s.push(c)
}

/// Removes and returns the last character, through std's `String::pop`
/// (`None`, leaving the string as it is, when it is empty).
#[verifier::external_body]
pub fn pop_char(s: &mut String) -> (r: Option<char>)
    ensures
        old(s)@.len() == 0 ==> r is None && final(s)@ == old(s)@,
        old(s)@.len() > 0 ==> r == Some(old(s)@.last()) && final(s)@ == old(s)@.drop_last(),
{
    s.pop()
}

} // verus!
