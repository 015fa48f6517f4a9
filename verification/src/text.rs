//! Character-level string helpers with exact specifications.

use vstd::prelude::*;

verus! {

broadcast use vstd::string::group_string_axioms;

/// The characters of `s`, in order.
pub fn chars_of(s: &str) -> (v: Vec<char>)
    ensures
        v@ == s@,
{
    let mut v: Vec<char> = Vec::new();
    for c in it: s.chars()
        invariant
            it.seq() == s@,
            v@ == it.seq().take(it.index()),
    {
        v.push(c);
    }
    v
}

/// `String::push`: appends the character `c` to the end of `s`.
#[verifier::external_body]
fn push_char(s: &mut String, c: char)
    ensures
        final(s)@ == old(s)@.push(c),
{
    s.push(c);
}

/// The string of the characters of `v`, in order.
fn string_from_chars(v: &[char]) -> (s: String)
    ensures
        s@ == v@,
{
    let mut s = String::new();
    let mut i: usize = 0;
    while i < v.len()
        invariant
            i <= v.len(),
            s@ == v@.take(i as int),
        decreases v.len() - i,
    {
        push_char(&mut s, v[i]);
        proof {
            assert(v@.take(i + 1int) =~= v@.take(i as int).push(v@[i as int]));
        }
        i = i + 1;
    }
    proof {
        assert(v@.take(v.len() as int) =~= v@);
    }
    s
}

/// The pieces of `s` between occurrences of `sep`, as `str::split` yields
/// them: one more piece than there are separators, empty pieces included.
pub open spec fn split_spec(s: Seq<char>, sep: char) -> Seq<Seq<char>>
    decreases s.len(),
{
    if s.len() == 0 {
        seq![Seq::<char>::empty()]
    } else {
        let p = split_spec(s.drop_last(), sep);
        if s.last() == sep {
            p.push(Seq::<char>::empty())
        } else {
            p.update(p.len() - 1, p.last().push(s.last()))
        }
    }
}

/// `split_spec` never yields an empty list of pieces.
pub proof fn lemma_split_nonempty(s: Seq<char>, sep: char)
    ensures
        split_spec(s, sep).len() >= 1,
    decreases s.len(),
{
    if s.len() > 0 {
        lemma_split_nonempty(s.drop_last(), sep);
    }
}

/// Splits `s` at every occurrence of `sep`.
pub fn split_chars(s: &str, sep: char) -> (r: Vec<String>)
    ensures
        r@.map_values(|x: String| x@) == split_spec(s@, sep),
{
    let cs = chars_of(s);
    let mut done: Vec<String> = Vec::new();
    let mut cur: Vec<char> = Vec::new();
    let mut i: usize = 0;
    proof {
        assert(s@.take(0) =~= Seq::<char>::empty());
        assert(done@.map_values(|x: String| x@).push(cur@) =~= split_spec(s@.take(0), sep));
    }
    while i < cs.len()
        invariant
            cs@ == s@,
            i <= cs.len(),
            done@.map_values(|x: String| x@).push(cur@) == split_spec(s@.take(i as int), sep),
        decreases cs.len() - i,
    {
        let c = cs[i];
        let ghost pre = s@.take(i as int);
        proof {
            assert(s@.take(i + 1).drop_last() =~= pre);
            assert(s@.take(i + 1).last() == c);
        }
        if c == sep {
            let piece = string_from_chars(cur.as_slice());
            done.push(piece);
            cur = Vec::new();
            proof {
                assert(done@.map_values(|x: String| x@).push(cur@) =~= split_spec(pre, sep).push(
                    Seq::<char>::empty(),
                ));
            }
        } else {
            cur.push(c);
            proof {
                let p = split_spec(pre, sep);
                lemma_split_nonempty(pre, sep);
                assert(done@.map_values(|x: String| x@).push(cur@) =~= p.update(
                    p.len() - 1,
                    p.last().push(c),
                ));
            }
        }
        i = i + 1;
    }
    let last = string_from_chars(cur.as_slice());
    done.push(last);
    proof {
        assert(s@.take(cs.len() as int) =~= s@);
        assert(done@.map_values(|x: String| x@) =~= split_spec(s@, sep));
    }
    done
}

/// Holds of the non-empty character sequences.
pub open spec fn is_nonempty() -> spec_fn(Seq<char>) -> bool {
    |p: Seq<char>| p.len() > 0
}

/// The non-empty pieces of `s` between occurrences of `sep`.
pub open spec fn nonempty_pieces(s: Seq<char>, sep: char) -> Seq<Seq<char>> {
    split_spec(s, sep).filter(is_nonempty())
}

/// Filtering a prefix one element longer keeps that element exactly when it
/// is non-empty.
pub proof fn lemma_filter_nonempty_step(s: Seq<Seq<char>>, i: int)
    requires
        0 <= i < s.len(),
    ensures
        s.take(i + 1).filter(is_nonempty()) == (if s[i].len() > 0 {
            s.take(i).filter(is_nonempty()).push(s[i])
        } else {
            s.take(i).filter(is_nonempty())
        }),
{
    reveal_with_fuel(Seq::filter, 1);
    assert(s.take(i + 1).drop_last() =~= s.take(i));
}

/// The components of a slash-separated path: its non-empty pieces between `/`.
pub fn path_components(path: &str) -> (r: Vec<String>)
    ensures
        r@.map_values(|x: String| x@) == nonempty_pieces(path@, '/'),
{
    let all = split_chars(path, '/');
    let ghost pieces = split_spec(path@, '/');
    let mut r: Vec<String> = Vec::new();
    let mut i: usize = 0;
    proof {
        assert(pieces.take(0).filter(is_nonempty()) =~= Seq::<Seq<char>>::empty());
        assert(r@.map_values(|x: String| x@) =~= Seq::<Seq<char>>::empty());
    }
    while i < all.len()
        invariant
            all@.map_values(|x: String| x@) == pieces,
            i <= all.len(),
            r@.map_values(|x: String| x@) == pieces.take(i as int).filter(is_nonempty()),
        decreases all.len() - i,
    {
        proof {
            assert(all@.map_values(|x: String| x@)[i as int] == all@[i as int]@);
            assert(pieces.take(i + 1).drop_last() =~= pieces.take(i as int));
            assert(pieces.take(i + 1).last() == all@[i as int]@);
        }
        if all[i].as_str().unicode_len() > 0 {
            r.push(all[i].clone());
            proof {
                assert(pieces[i as int] == all@[i as int]@);
                assert(pieces[i as int].len() > 0);
                lemma_filter_nonempty_step(pieces, i as int);
                assert(r@.map_values(|x: String| x@) =~= pieces.take(i as int).filter(is_nonempty()).push(
                    all@[i as int]@,
                ));
            }
        } else {
            proof {
                assert(pieces[i as int] == all@[i as int]@);
                assert(pieces[i as int].len() == 0);
                lemma_filter_nonempty_step(pieces, i as int);
            }
        }
        i = i + 1;
    }
    proof {
        assert(pieces.take(all.len() as int) =~= pieces);
    }
    r
}

/// A line without the `'\r'` that ends it, if one does.
pub open spec fn strip_cr(l: Seq<char>) -> Seq<char> {
    if l.len() > 0 && l.last() == '\r' {
        l.drop_last()
    } else {
        l
    }
}

/// The lines of `s`, as `str::lines` yields them: the pieces between
/// `'\n'`, each without the `'\r'` of a `"\r\n"` that ends it, and without
/// the empty piece that a final line ending leaves.
pub open spec fn lines_spec(s: Seq<char>) -> Seq<Seq<char>> {
    let p = split_spec(s, '\n');
    let ended = p.drop_last().map_values(|l: Seq<char>| strip_cr(l));
    if p.last().len() == 0 {
        ended
    } else {
        ended.push(p.last())
    }
}

/// `l` without its last character, if that is a `'\r'`.
fn without_cr(l: &str) -> (r: String)
    ensures
        r@ == strip_cr(l@),
{
    let mut v = chars_of(l);
    let n = v.len();
    if n > 0 && v[n - 1] == '\r' {
        let ghost before = v@;
        v.pop();
        proof {
            assert(v@ =~= before.drop_last());
        }
    }
    string_from_chars(v.as_slice())
}

/// Splits `s` into lines.
pub fn lines_of(s: &str) -> (r: Vec<String>)
    ensures
        r@.map_values(|x: String| x@) == lines_spec(s@),
{
    let all = split_chars(s, '\n');
    let ghost p = split_spec(s@, '\n');
    proof {
        lemma_split_nonempty(s@, '\n');
    }
    let n = all.len();
    let mut r: Vec<String> = Vec::new();
    let mut i: usize = 0;
    while i + 1 < n
        invariant
            n == all.len(),
            n >= 1,
            all@.map_values(|x: String| x@) == p,
            i + 1 <= n,
            r@.map_values(|x: String| x@) == p.take(i as int).map_values(|l: Seq<char>| strip_cr(l)),
        decreases n - i,
    {
        proof {
            assert(all@.map_values(|x: String| x@)[i as int] == all@[i as int]@);
        }
        let line = without_cr(all[i].as_str());
        let ghost before = r@.map_values(|x: String| x@);
        let ghost lv = line@;
        r.push(line);
        proof {
            assert(r@.map_values(|x: String| x@) =~= before.push(lv));
            assert(lv == strip_cr(p[i as int]));
            assert(p.take(i + 1) =~= p.take(i as int).push(p[i as int]));
            assert(r@.map_values(|x: String| x@) =~= p.take(i + 1).map_values(
                |l: Seq<char>| strip_cr(l),
            ));
        }
        i = i + 1;
    }
    proof {
        assert(all@.map_values(|x: String| x@)[n - 1] == all@[n - 1]@);
        assert(p.take(n - 1) =~= p.drop_last());
    }
    if all[n - 1].as_str().unicode_len() > 0 {
        let ghost before = r@.map_values(|x: String| x@);
        r.push(all[n - 1].clone());
        proof {
            assert(r@.map_values(|x: String| x@) =~= before.push(p.last()));
        }
    }
    r
}

/// `char::is_whitespace`: the characters with Unicode's White_Space property.
pub open spec fn is_whitespace_spec(c: char) -> bool {
    let u = c as u32;
    ||| 0x9 <= u <= 0xd
    ||| u == 0x20
    ||| u == 0x85
    ||| u == 0xa0
    ||| u == 0x1680
    ||| 0x2000 <= u <= 0x200a
    ||| u == 0x2028
    ||| u == 0x2029
    ||| u == 0x202f
    ||| u == 0x205f
    ||| u == 0x3000
}

/// Whether `c` is a white-space character.
pub fn is_whitespace(c: char) -> (b: bool)
    ensures
        b == is_whitespace_spec(c),
{
    let u = c as u32;
    (0x9 <= u && u <= 0xd) || u == 0x20 || u == 0x85 || u == 0xa0 || u == 0x1680 || (0x2000 <= u
        && u <= 0x200a) || u == 0x2028 || u == 0x2029 || u == 0x202f || u == 0x205f || u == 0x3000
}

/// `s` without its leading white space.
pub open spec fn trim_start_spec(s: Seq<char>) -> Seq<char>
    decreases s.len(),
{
    if s.len() > 0 && is_whitespace_spec(s[0]) {
        trim_start_spec(s.drop_first())
    } else {
        s
    }
}

/// `s` without its trailing white space.
pub open spec fn trim_end_spec(s: Seq<char>) -> Seq<char>
    decreases s.len(),
{
    if s.len() > 0 && is_whitespace_spec(s.last()) {
        trim_end_spec(s.drop_last())
    } else {
        s
    }
}

/// `s` without leading and trailing white space, as `str::trim` gives it.
pub open spec fn trim_spec(s: Seq<char>) -> Seq<char> {
    trim_end_spec(trim_start_spec(s))
}

/// Removes leading and trailing white space.
pub fn trim(s: &str) -> (r: String)
    ensures
        r@ == trim_spec(s@),
{
    let cs = chars_of(s);
    let n = cs.len();
    let mut a: usize = 0;
    proof {
        assert(s@.subrange(0, n as int) =~= s@);
    }
    while a < n && is_whitespace(cs[a])
        invariant
            cs@ == s@,
            n == cs.len(),
            a <= n,
            trim_start_spec(s@) == trim_start_spec(s@.subrange(a as int, n as int)),
        decreases n - a,
    {
        proof {
            assert(s@.subrange(a as int, n as int).drop_first() =~= s@.subrange(a + 1, n as int));
        }
        a = a + 1;
    }
    let mut b: usize = n;
    proof {
        assert(trim_start_spec(s@) == s@.subrange(a as int, n as int));
    }
    while b > a && is_whitespace(cs[b - 1])
        invariant
            cs@ == s@,
            n == cs.len(),
            a <= b <= n,
            trim_spec(s@) == trim_end_spec(s@.subrange(a as int, b as int)),
        decreases b - a,
    {
        proof {
            assert(s@.subrange(a as int, b as int).drop_last() =~= s@.subrange(a as int, b - 1));
        }
        b = b - 1;
    }
    let mut kept: Vec<char> = Vec::new();
    let mut i: usize = a;
    while i < b
        invariant
            cs@ == s@,
            n == cs.len(),
            a <= i <= b <= n,
            kept@ == s@.subrange(a as int, i as int),
        decreases b - i,
    {
        kept.push(cs[i]);
        proof {
            assert(kept@ =~= s@.subrange(a as int, i + 1));
        }
        i = i + 1;
    }
    string_from_chars(kept.as_slice())
}

/// Whether `s` ends with `suffix`.
pub open spec fn ends_with_spec(s: Seq<char>, suffix: Seq<char>) -> bool {
    suffix.len() <= s.len() && s.subrange(s.len() - suffix.len(), s.len() as int) == suffix
}

/// Whether `s` ends with `suffix`.
pub fn ends_with(s: &str, suffix: &str) -> (b: bool)
    ensures
        b == ends_with_spec(s@, suffix@),
{
    let cs = chars_of(s);
    let xs = chars_of(suffix);
    if xs.len() > cs.len() {
        return false;
    }
    let off = cs.len() - xs.len();
    let mut i: usize = 0;
    while i < xs.len()
        invariant
            cs@ == s@,
            xs@ == suffix@,
            off == cs.len() - xs.len(),
            i <= xs.len(),
            forall|j: int| 0 <= j < i ==> cs@[off + j] == xs@[j],
        decreases xs.len() - i,
    {
        if cs[off + i] != xs[i] {
            proof {
                assert(s@.subrange(off as int, s@.len() as int)[i as int] != suffix@[i as int]);
            }
            return false;
        }
        i = i + 1;
    }
    proof {
        assert(s@.subrange(off as int, s@.len() as int) =~= suffix@);
    }
    true
}

/// The ASCII character of the decimal digit `d`.
pub open spec fn digit_char(d: nat) -> char {
    (48 + d) as char
}

/// The decimal representation of `n`, without leading zeros.
pub open spec fn decimal_spec(n: nat) -> Seq<char>
    decreases n,
{
    if n < 10 {
        seq![digit_char(n)]
    } else {
        decimal_spec(n / 10).push(digit_char(n % 10))
    }
}

fn push_decimal(n: u64, out: &mut Vec<char>)
    ensures
        final(out)@ == old(out)@ + decimal_spec(n as nat),
    decreases n,
{
    if n >= 10 {
        push_decimal(n / 10, out);
    }
    let d: u8 = (n % 10) as u8;
    out.push((48u8 + d) as char);
    proof {
        assert(decimal_spec(n as nat) == (if n < 10 {
            seq![digit_char(n as nat)]
        } else {
            decimal_spec((n / 10) as nat).push(digit_char((n % 10) as nat))
        }));
    }
}

/// The decimal representation of `n`, as `n.to_string()` writes it.
pub fn decimal(n: u64) -> (s: String)
    ensures
        s@ == decimal_spec(n as nat),
{
    let mut v: Vec<char> = Vec::new();
    push_decimal(n, &mut v);
    proof {
        assert(v@ =~= decimal_spec(n as nat));
    }
    string_from_chars(v.as_slice())
}

} // verus!
