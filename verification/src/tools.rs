//! String helpers used across the crate's tooling: capitalization of a
//! word and conversion of a snake-case name to an upper camel-case one.
//! Letters outside the ASCII lowercase range are kept as they are.

use vstd::prelude::*;

verus! {

/// `c` with an ASCII lowercase letter replaced by its uppercase
/// counterpart; any other character is kept.
pub open spec fn to_upper_spec(c: char) -> char {
    match c {
        'a' => 'A',
        'b' => 'B',
        'c' => 'C',
        'd' => 'D',
        'e' => 'E',
        'f' => 'F',
        'g' => 'G',
        'h' => 'H',
        'i' => 'I',
        'j' => 'J',
        'k' => 'K',
        'l' => 'L',
        'm' => 'M',
        'n' => 'N',
        'o' => 'O',
        'p' => 'P',
        'q' => 'Q',
        'r' => 'R',
        's' => 'S',
        't' => 'T',
        'u' => 'U',
        'v' => 'V',
        'w' => 'W',
        'x' => 'X',
        'y' => 'Y',
        'z' => 'Z',
        _ => c,
    }
}

/// `s` with its first character uppercased.
pub open spec fn capitalize_spec(s: Seq<char>) -> Seq<char> {
    if s.len() == 0 {
        s
    } else {
        seq![to_upper_spec(s[0])] + s.drop_first()
    }
}

/// The length of the leading segment of `s` before its first underscore,
/// or the whole length when `s` holds none.
pub open spec fn seg_len(s: Seq<char>) -> int
    decreases s.len(),
{
    if s.len() == 0 {
        0
    } else if s[0] == '_' {
        0
    } else {
        1 + seg_len(s.drop_first())
    }
}

/// `s` split at its underscores, each segment capitalized, all joined.
pub open spec fn snake_to_upper_spec(s: Seq<char>) -> Seq<char>
    decreases s.len(),
{
    if s.len() == 0 {
        Seq::empty()
    } else {
        let k = seg_len(s);
        if 0 <= k < s.len() {
            capitalize_spec(s.take(k)) + snake_to_upper_spec(s.skip(k + 1))
        } else {
            capitalize_spec(s)
        }
    }
}

/// No leading, trailing or doubled underscore: every underscore stands
/// between two other characters.
pub open spec fn no_empty_segments(s: Seq<char>) -> bool {
    &&& s.len() >= 1
    &&& s[0] != '_'
    &&& forall|i: int| 0 <= i < s.len() && #[trigger] s[i] == '_'
        ==> i + 1 < s.len() && s[i + 1] != '_'
}

/// The uppercase counterpart of an ASCII lowercase letter, as a
/// one-character string; `None` for every other character.
fn upper_letter(c: char) -> (r: Option<&'static str>)
    ensures
        match r {
            Some(t) => t@ == seq![to_upper_spec(c)],
            None => to_upper_spec(c) == c,
        },
{
    proof {
        reveal_strlit("A");
        reveal_strlit("B");
        reveal_strlit("C");
        reveal_strlit("D");
        reveal_strlit("E");
        reveal_strlit("F");
        reveal_strlit("G");
        reveal_strlit("H");
        reveal_strlit("I");
        reveal_strlit("J");
        reveal_strlit("K");
        reveal_strlit("L");
        reveal_strlit("M");
        reveal_strlit("N");
        reveal_strlit("O");
        reveal_strlit("P");
        reveal_strlit("Q");
        reveal_strlit("R");
        reveal_strlit("S");
        reveal_strlit("T");
        reveal_strlit("U");
        reveal_strlit("V");
        reveal_strlit("W");
        reveal_strlit("X");
        reveal_strlit("Y");
        reveal_strlit("Z");
    }
    match c {
        'a' => Some("A"),
        'b' => Some("B"),
        'c' => Some("C"),
        'd' => Some("D"),
        'e' => Some("E"),
        'f' => Some("F"),
        'g' => Some("G"),
        'h' => Some("H"),
        'i' => Some("I"),
        'j' => Some("J"),
        'k' => Some("K"),
        'l' => Some("L"),
        'm' => Some("M"),
        'n' => Some("N"),
        'o' => Some("O"),
        'p' => Some("P"),
        'q' => Some("Q"),
        'r' => Some("R"),
        's' => Some("S"),
        't' => Some("T"),
        'u' => Some("U"),
        'v' => Some("V"),
        'w' => Some("W"),
        'x' => Some("X"),
        'y' => Some("Y"),
        'z' => Some("Z"),
        _ => None,
    }
}

/// Capitalizes the string: its first character is uppercased, the rest
/// kept.
pub fn capitalize(s: &str) -> (r: String)
    requires
        s@.len() >= 1,
    ensures
        r@ == capitalize_spec(s@),
{
    let c = s.get_char(0);
    match upper_letter(c) {
        Some(up) => {
            let rest = s.substring_char(1, s.unicode_len());
            let r = String::from_str(up).concat(rest);
            proof {
                assert(r@ =~= capitalize_spec(s@));
            }
            r
        },
        None => {
            let r = String::from_str(s);
            proof {
                assert(capitalize_spec(s@) =~= s@);
            }
            r
        },
    }
}

/// The scan conditions that pin the leading segment's length: no
/// underscore before `k`, and `k` is the whole length or an underscore's
/// place.
proof fn lemma_seg_len_scan(s: Seq<char>, k: int)
    requires
        0 <= k <= s.len(),
        forall|j: int| 0 <= j < k ==> s[j] != '_',
        k == s.len() || s[k] == '_',
    ensures
        seg_len(s) == k,
    decreases s.len(),
{
    if k > 0 {
        assert forall|j: int| 0 <= j < k - 1 implies s.drop_first()[j] != '_' by {
            assert(s.drop_first()[j] == s[j + 1]);
        }
        if k < s.len() {
            assert(s.drop_first()[k - 1] == s[k]);
        }
        lemma_seg_len_scan(s.drop_first(), k - 1);
    }
}

/// The place of the first underscore of `s`, or its length when it
/// holds none.
fn find_underscore(s: &str) -> (k: usize)
    ensures
        k <= s@.len(),
        forall|j: int| 0 <= j < k ==> s@[j] != '_',
        k == s@.len() || s@[k as int] == '_',
{
    let n = s.unicode_len();
    let mut k: usize = 0;
    while k < n
        invariant
            0 <= k <= n,
            n == s@.len(),
            forall|j: int| 0 <= j < k ==> s@[j] != '_',
        decreases n - k,
    {
        if s.get_char(k) == '_' {
            return k;
        }
        k += 1;
    }
    k
}

/// Converts a string from snake case to upper camel case.
pub fn snake_to_upper_case(snake: &str) -> (r: String)
    requires
        no_empty_segments(snake@),
    ensures
        r@ == snake_to_upper_spec(snake@),
    decreases snake@.len(),
{
    let n = snake.unicode_len();
    let k = find_underscore(snake);
    proof {
        lemma_seg_len_scan(snake@, k as int);
    }
    let seg = snake.substring_char(0, k);
    let cap = capitalize(seg);
    if k == n {
        cap
    } else {
        let rest = snake.substring_char(k + 1, n);
        proof {
            assert forall|i: int| 0 <= i < rest@.len() && #[trigger] rest@[i] == '_'
                implies i + 1 < rest@.len() && rest@[i + 1] != '_' by {
                assert(rest@[i] == snake@[k + 1 + i]);
                assert(snake@[k + 1 + i + 1] != '_');
                assert(k + 1 + i + 1 < snake@.len());
            }
            assert(rest@[0] == snake@[k + 1]);
            assert(rest@.len() >= 1);
        }
        let tail = snake_to_upper_case(rest);
        cap.concat(tail.as_str())
    }
}

} // verus!
