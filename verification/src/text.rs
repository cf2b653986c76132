//! Character-level helpers shared by the parsing and rendering modules.

use vstd::prelude::*;

verus! {

use vstd::std_specs::iter::IteratorSpec;

broadcast use vstd::string::group_string_axioms;

/// The characters of `s`, in order, as a vector.
pub fn chars_of(s: &str) -> (r: Vec<char>)
    ensures
        r@ == s@,
{
    let mut r: Vec<char> = Vec::new();
    for c in it: s.chars()
        invariant
            it.seq() == s@,
            r@ == it.seq().subrange(0, it.index() as int),
    {
        r.push(c);
        assert(r@ =~= it.seq().subrange(0, it.index() + 1));
    }
    assert(r@ =~= s@);
    r
}

/// Whether two string slices hold the same characters.
pub fn str_eq(a: &str, b: &str) -> (r: bool)
    ensures
        r == (a@ == b@),
{
    let sa = a.to_owned();
    let sb = b.to_owned();
    sa == sb
}

/// `n` space characters.
pub open spec fn spaces(n: nat) -> Seq<char>
    decreases n,
{
    if n == 0 {
        Seq::empty()
    } else {
        spaces((n - 1) as nat).push(' ')
    }
}

/// Appends `n` spaces to `s`.
pub fn push_spaces(s: &mut String, n: usize)
    ensures
        final(s)@ == old(s)@ + spaces(n as nat),
{
    let ghost orig = s@;
    for i in 0..n
        invariant
            s@ == orig + spaces(i as nat),
    {
        s.append(" ");
        proof {
            reveal_strlit(" ");
            assert(" "@ =~= seq![' ']);
            assert(orig + spaces(i as nat) + " "@ =~= orig + spaces((i + 1) as nat));
        }
    }
}

/// The position of the first string in `v` that reads `s`, if any does.
pub fn index_of_str(v: &Vec<String>, s: &str) -> (r: Option<usize>)
    ensures
        match r {
            Some(i) => i < v@.len() && v@[i as int]@ == s@ && (forall|j: int|
                0 <= j < i ==> (#[trigger] v@[j])@ != s@),
            None => forall|j: int| 0 <= j < v@.len() ==> (#[trigger] v@[j])@ != s@,
        },
{
    for i in 0..v.len()
        invariant
            forall|j: int| 0 <= j < i ==> (#[trigger] v@[j])@ != s@,
    {
        if str_eq(v[i].as_str(), s) {
            return Some(i);
        }
    }
    None
}

/// The code point of `c` with an ASCII capital letter folded to lower case.
pub open spec fn lower_code(c: char) -> u32 {
    if 'A' as u32 <= c as u32 && c as u32 <= 'Z' as u32 {
        (c as u32 + 32) as u32
    } else {
        c as u32
    }
}

/// Whether `s` and `t` are equal up to ASCII case.
pub open spec fn eq_ignore_ascii_case(s: Seq<char>, t: Seq<char>) -> bool {
    s.len() == t.len() && forall|i: int| 0 <= i < s.len() ==> lower_code(s[i]) == lower_code(t[i])
}

/// Whether `c` has the Unicode white-space property: the set that
/// `str::trim` removes.
pub open spec fn is_white_space(c: char) -> bool {
    ||| c == '\u{0009}'
    ||| c == '\u{000a}'
    ||| c == '\u{000b}'
    ||| c == '\u{000c}'
    ||| c == '\u{000d}'
    ||| c == ' '
    ||| c == '\u{0085}'
    ||| c == '\u{00a0}'
    ||| c == '\u{1680}'
    ||| ('\u{2000}' as u32 <= c as u32 && c as u32 <= '\u{200a}' as u32)
    ||| c == '\u{2028}'
    ||| c == '\u{2029}'
    ||| c == '\u{202f}'
    ||| c == '\u{205f}'
    ||| c == '\u{3000}'
}

/// Whether `c` has the Unicode white-space property.
pub fn is_space_char(c: char) -> (r: bool)
    ensures
        r == is_white_space(c),
{
    let u = c as u32;
    u == 0x9 || u == 0xa || u == 0xb || u == 0xc || u == 0xd || u == 0x20 || u == 0x85
        || u == 0xa0 || u == 0x1680 || (0x2000 <= u && u <= 0x200a) || u == 0x2028 || u == 0x2029
        || u == 0x202f || u == 0x205f || u == 0x3000
}

/// `s` with white space removed from both ends, as `str::trim` trims.
pub open spec fn trimmed(s: Seq<char>) -> Seq<char>
    decreases s.len(),
{
    if s.len() == 0 {
        s
    } else if is_white_space(s[0]) {
        trimmed(s.drop_first())
    } else if is_white_space(s.last()) {
        trimmed(s.drop_last())
    } else {
        s
    }
}

/// The bounds of `s` without leading and trailing white space:
/// `trimmed(s@) == s@.subrange(start, end)`.
pub fn trim_bounds(s: &Vec<char>) -> (r: (usize, usize))
    ensures
        r.0 <= r.1 <= s@.len(),
        trimmed(s@) == s@.subrange(r.0 as int, r.1 as int),
{
    let mut start: usize = 0;
    let mut end: usize = s.len();
    proof {
        assert(s@.subrange(0, s@.len() as int) =~= s@);
    }
    while start < end && is_space_char(s[start])
        invariant
            start <= end <= s@.len(),
            trimmed(s@) == trimmed(s@.subrange(start as int, end as int)),
        decreases end - start,
    {
        proof {
            let sub = s@.subrange(start as int, end as int);
            assert(sub.drop_first() =~= s@.subrange(start as int + 1, end as int));
        }
        start = start + 1;
    }
    while end > start && is_space_char(s[end - 1])
        invariant
            start <= end <= s@.len(),
            trimmed(s@) == trimmed(s@.subrange(start as int, end as int)),
            start < end ==> !is_white_space(s@[start as int]),
        decreases end,
    {
        proof {
            let sub = s@.subrange(start as int, end as int);
            assert(sub.drop_last() =~= s@.subrange(start as int, end as int - 1));
        }
        end = end - 1;
    }
    proof {
        let sub = s@.subrange(start as int, end as int);
        if sub.len() > 0 {
            assert(!is_white_space(sub[0]));
            assert(!is_white_space(sub.last()));
        }
    }
    (start, end)
}

/// Compares `s[start..end]` to `t` up to ASCII case.
pub fn range_eq_ignore_case(s: &Vec<char>, start: usize, end: usize, t: &Vec<char>) -> (r: bool)
    requires
        start <= end <= s@.len(),
    ensures
        r == eq_ignore_ascii_case(s@.subrange(start as int, end as int), t@),
{
    let n = end - start;
    if n != t.len() {
        return false;
    }
    for i in 0..n
        invariant
            start <= end <= s@.len(),
            n == end - start,
            n == t@.len(),
            forall|j: int|
                0 <= j < i ==> lower_code(s@.subrange(start as int, end as int)[j]) == lower_code(
                    t@[j],
                ),
    {
        let a = s[start + i] as u32;
        let b = t[i] as u32;
        let la: u32 = if 'A' as u32 <= a && a <= 'Z' as u32 {
            a + 32
        } else {
            a
        };
        let lb: u32 = if 'A' as u32 <= b && b <= 'Z' as u32 {
            b + 32
        } else {
            b
        };
        if la != lb {
            return false;
        }
    }
    true
}

} // verus!
