use vstd::prelude::*;

verus! {

/// The whitespace characters stripped around a confirmation answer: the
/// Unicode White_Space set, as `str::trim` strips it.
pub open spec fn is_space_char(c: char) -> bool {
    let u = c as u32;
    (0x9 <= u <= 0xd) || u == 0x20 || u == 0x85 || u == 0xa0 || u == 0x1680 || (0x2000 <= u
        <= 0x200a) || u == 0x2028 || u == 0x2029 || u == 0x202f || u == 0x205f || u == 0x3000
}

/// The words that count as an affirmative answer, exactly.
pub open spec fn affirmative_word(w: Seq<char>) -> bool {
    w == "y"@ || w == "Y"@ || w == "yes"@ || w == "Yes"@ || w == "YES"@
}

/// An input line is affirmative when it is one of the affirmative words
/// surrounded by nothing but whitespace. Everything else, the empty line
/// included, is negative.
pub open spec fn is_affirmative_input(s: Seq<char>) -> bool {
    exists|i: int, j: int|
        0 <= i <= j <= s.len() && affirmative_word(#[trigger] s.subrange(i, j)) && (forall|k: int|
            0 <= k < i ==> is_space_char(s[k])) && (forall|k: int|
            j <= k < s.len() ==> is_space_char(s[k]))
}

fn is_space(c: char) -> (r: bool)
    ensures
        r == is_space_char(c),
{
    let u = c as u32;
    (0x9 <= u && u <= 0xd) || u == 0x20 || u == 0x85 || u == 0xa0 || u == 0x1680 || (0x2000 <= u
        && u <= 0x200a) || u == 0x2028 || u == 0x2029 || u == 0x202f || u == 0x205f || u == 0x3000
}

/// Decides whether one line read from the user counts as "yes".
pub fn is_affirmative(input: &str) -> (r: bool)
    ensures
        r == is_affirmative_input(input@),
{
    let n = input.unicode_len();
    let mut lo: usize = 0;
    loop
        invariant
            0 <= lo <= n,
            n == input@.len(),
            forall|k: int| 0 <= k < lo ==> is_space_char(input@[k]),
        ensures
            0 <= lo <= n,
            forall|k: int| 0 <= k < lo ==> is_space_char(input@[k]),
            lo == n || !is_space_char(input@[lo as int]),
        decreases n - lo,
    {
        if lo < n {
            if is_space(input.get_char(lo)) {
                lo = lo + 1;
            } else {
                break ;
            }
        } else {
            break ;
        }
    }
    let mut hi: usize = n;
    loop
        invariant
            lo <= hi <= n,
            n == input@.len(),
            forall|k: int| hi <= k < n ==> is_space_char(input@[k]),
        ensures
            lo <= hi <= n,
            forall|k: int| hi <= k < n ==> is_space_char(input@[k]),
            hi == lo || !is_space_char(input@[hi - 1]),
        decreases hi,
    {
        if hi > lo {
            if is_space(input.get_char(hi - 1)) {
                hi = hi - 1;
            } else {
                break ;
            }
        } else {
            break ;
        }
    }
    let affirmed: bool = if hi - lo == 1 {
        let c = input.get_char(lo);
        c == 'y' || c == 'Y'
    } else if hi - lo == 3 {
        let c0 = input.get_char(lo);
        let c1 = input.get_char(lo + 1);
        let c2 = input.get_char(lo + 2);
        (c0 == 'y' && c1 == 'e' && c2 == 's') || (c0 == 'Y' && c1 == 'e' && c2 == 's') || (c0 == 'Y'
            && c1 == 'E' && c2 == 'S')
    } else {
        false
    };
    proof {
        reveal_strlit("y");
        reveal_strlit("Y");
        reveal_strlit("yes");
        reveal_strlit("Yes");
        reveal_strlit("YES");
        let s = input@;
        let li = lo as int;
        let upper = hi as int;
        if affirmed {
            let w = s.subrange(li, upper);
            if upper - li == 1 {
                if s[li] == 'y' {
                    assert(w =~= "y"@);
                } else {
                    assert(w =~= "Y"@);
                }
            } else {
                if s[li] == 'y' {
                    assert(w =~= "yes"@);
                } else if s[li + 1] == 'e' {
                    assert(w =~= "Yes"@);
                } else {
                    assert(w =~= "YES"@);
                }
            }
            assert(is_affirmative_input(s));
        } else {
            if is_affirmative_input(s) {
                let (i, j): (int, int) = choose|i: int, j: int|
                    0 <= i <= j <= s.len() && affirmative_word(#[trigger] s.subrange(i, j)) && (
                    forall|k: int| 0 <= k < i ==> is_space_char(s[k])) && (forall|k: int|
                        j <= k < s.len() ==> is_space_char(s[k]));
                let w = s.subrange(i, j);
                assert(w.len() > 0 && !is_space_char(w[0]) && !is_space_char(w[w.len() - 1]));
                assert(i == li) by {
                    if i < li {
                        assert(is_space_char(s[i]));
                        assert(s[i] == w[0]);
                    }
                    if i > li {
                        assert(is_space_char(s[li]));
                    }
                }
                assert(j == upper) by {
                    if j < upper {
                        assert(is_space_char(s[upper - 1]));
                    }
                    if j > upper {
                        assert(s[j - 1] == w[w.len() - 1]);
                        assert(is_space_char(s[j - 1]));
                    }
                }
                assert(upper - li == w.len());
                assert(forall|k: int| 0 <= k < w.len() ==> w[k] == s[li + k]);
                if w == "y"@ || w == "Y"@ {
                    assert(w.len() == 1 && (s[li] == 'y' || s[li] == 'Y'));
                } else {
                    assert(w.len() == 3);
                    assert(s[li] == w[0] && s[li + 1] == w[1] && s[li + 2] == w[2]);
                }
                assert(false);
            }
        }
    }
    affirmed
}

} // verus!
