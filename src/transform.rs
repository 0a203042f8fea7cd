//! Rotation of a marker's icon through its CSS `transform` text.
//!
//! The mapping library has no rotation of its own, so the icon element's
//! `transform` style is rewritten: every whitespace-separated term that starts
//! with `rotate(` is replaced by the new rotation, and a transform without any
//! `rotate(` gets the rotation appended. The angle arrives already formatted
//! as text (`"45.2"`), in degrees.
use vstd::prelude::*;

verus! {

/// White space as `char::is_whitespace` has it: the Unicode `White_Space` set.
pub open spec fn is_space(c: char) -> bool {
    let u = c as u32;
    (0x09 <= u && u <= 0x0d) || u == 0x20 || u == 0x85 || u == 0xa0 || u == 0x1680 || (0x2000 <= u
        && u <= 0x200a) || u == 0x2028 || u == 0x2029 || u == 0x202f || u == 0x205f || u == 0x3000
}

/// The whitespace-separated words of `s`, in order, as `str::split_whitespace`
/// yields them: maximal non-empty runs of characters that are not white space.
pub open spec fn words(s: Seq<char>) -> Seq<Seq<char>>
    decreases s.len(),
{
    if s.len() == 0 {
        seq![]
    } else {
        let w = words(s.drop_last());
        let c = s.last();
        if is_space(c) {
            w
        } else if s.len() >= 2 && !is_space(s[s.len() - 2]) && w.len() > 0 {
            w.update(w.len() - 1, w.last().push(c))
        } else {
            w.push(seq![c])
        }
    }
}

/// `rotate(`
pub open spec fn rotate_prefix() -> Seq<char> {
    seq!['r', 'o', 't', 'a', 't', 'e', '(']
}

pub open spec fn starts_with_rotate(w: Seq<char>) -> bool {
    w.len() >= 7 && w.subrange(0, 7) == rotate_prefix()
}

/// Whether `rotate(` occurs anywhere in `s`.
pub open spec fn has_rotate(s: Seq<char>) -> bool {
    exists|i: int| 0 <= i && i + 7 <= s.len() && #[trigger] s.subrange(i, i + 7) == rotate_prefix()
}

/// The transform term `rotate(<angle>deg)`.
pub open spec fn rotate_term(angle: Seq<char>) -> Seq<char> {
    rotate_prefix() + angle + seq!['d', 'e', 'g', ')']
}

/// A word of the transform after the rotation is set: a rotation term is
/// replaced, any other term is kept.
pub open spec fn retarget(w: Seq<char>, angle: Seq<char>) -> Seq<char> {
    if starts_with_rotate(w) {
        rotate_term(angle)
    } else {
        w
    }
}

/// The words joined with one space between each two.
pub open spec fn join_spaced(ws: Seq<Seq<char>>) -> Seq<char>
    decreases ws.len(),
{
    if ws.len() == 0 {
        seq![]
    } else if ws.len() == 1 {
        ws[0]
    } else {
        join_spaced(ws.drop_last()) + seq![' '] + ws.last()
    }
}

/// The `transform` text once the rotation is `angle` degrees.
pub open spec fn rotated(transform: Seq<char>, angle: Seq<char>) -> Seq<char> {
    if has_rotate(transform) {
        join_spaced(words(transform).map_values(|w: Seq<char>| retarget(w, angle)))
    } else {
        transform + seq![' '] + rotate_term(angle)
    }
}

/// The value of the icon's rotation custom property: `<angle>deg`.
pub open spec fn degrees(angle: Seq<char>) -> Seq<char> {
    angle + seq!['d', 'e', 'g']
}

fn is_space_char(c: char) -> (r: bool)
    ensures
        r == is_space(c),
{
    let u = c as u32;
    (0x09 <= u && u <= 0x0d) || u == 0x20 || u == 0x85 || u == 0xa0 || u == 0x1680 || (0x2000 <= u
        && u <= 0x200a) || u == 0x2028 || u == 0x2029 || u == 0x202f || u == 0x205f || u == 0x3000
}

/// Whether `rotate(` stands in `t` at character index `i`.
fn rotate_at(t: &str, i: usize) -> (r: bool)
    requires
        i + 7 <= t@.len(),
        t@.len() <= usize::MAX,
    ensures
        r == (t@.subrange(i as int, i + 7) == rotate_prefix()),
{
    let pat = "rotate(";
    proof {
        reveal_strlit("rotate(");
    }
    assert(pat@ == rotate_prefix());
    let mut k: usize = 0;
    while k < 7
        invariant
            k <= 7,
            i + 7 <= t@.len(),
            t@.len() <= usize::MAX,
            pat@ == rotate_prefix(),
            forall|j: int| 0 <= j < k ==> t@[i + j] == rotate_prefix()[j],
        decreases 7 - k,
    {
        if t.get_char(i + k) != pat.get_char(k) {
            assert(t@.subrange(i as int, i + 7)[k as int] != rotate_prefix()[k as int]);
            return false;
        }
        k = k + 1;
    }
    assert(t@.subrange(i as int, i + 7) =~= rotate_prefix());
    true
}

fn contains_rotate(t: &str) -> (r: bool)
    ensures
        r == has_rotate(t@),
{
    let n = t.unicode_len();
    if n < 7 {
        return false;
    }
    let mut i: usize = 0;
    while i <= n - 7
        invariant
            n == t@.len(),
            n >= 7,
            i <= n - 6,
            forall|j: int| 0 <= j < i ==> #[trigger] t@.subrange(j, j + 7) != rotate_prefix(),
        decreases n - i,
    {
        if rotate_at(t, i) {
            return true;
        }
        i = i + 1;
    }
    false
}

/// The words of `t` as character spans `(start, end)` of `t`.
fn word_spans(t: &str) -> (spans: Vec<(usize, usize)>)
    ensures
        t@.len() <= usize::MAX,
        spans@.len() == words(t@).len(),
        forall|k: int|
            0 <= k < spans@.len() ==> {
                let (a, b) = #[trigger] spans@[k];
                a < b <= t@.len() && t@.subrange(a as int, b as int) == words(t@)[k]
            },
{
    let n = t.unicode_len();
    let mut spans: Vec<(usize, usize)> = Vec::new();
    let mut i: usize = 0;
    while i < n
        invariant
            n == t@.len(),
            i <= n,
            spans@.len() == words(t@.subrange(0, i as int)).len(),
            forall|k: int|
                0 <= k < spans@.len() ==> {
                    let (a, b) = #[trigger] spans@[k];
                    a < b <= i && t@.subrange(a as int, b as int) == words(
                        t@.subrange(0, i as int),
                    )[k]
                },
            (i > 0 && !is_space(t@[i - 1])) ==> spans@.len() > 0 && spans@.last().1 == i,
        decreases n - i,
    {
        let c = t.get_char(i);
        let ghost pre = t@.subrange(0, i as int);
        let ghost cur = t@.subrange(0, i + 1);
        assert(cur.drop_last() =~= pre);
        assert(cur.last() == c);
        if is_space_char(c) {
        } else if i > 0 && !is_space_char(t.get_char(i - 1)) {
            let last = spans.len() - 1;
            let (a, _) = spans[last];
            spans.set(last, (a, i + 1));
            assert(cur[cur.len() - 2] == t@[i - 1]);
            assert(t@.subrange(a as int, i + 1) =~= t@.subrange(a as int, i as int).push(c));
        } else {
            spans.push((i, i + 1));
            assert(t@.subrange(i as int, i + 1) =~= seq![c]);
            assert(i > 0 ==> cur[cur.len() - 2] == t@[i - 1]);
        }
        i = i + 1;
    }
    assert(t@.subrange(0, n as int) =~= t@);
    spans
}

/// The value of the icon's rotation custom property for a rotation of
/// `angle` degrees: the angle followed by `deg`.
pub fn rotation_property(angle: &str) -> (r: String)
    ensures
        r@ == degrees(angle@),
{
    let mut r = String::from_str(angle);
    proof {
        reveal_strlit("deg");
    }
    r.append("deg");
    assert(r@ =~= degrees(angle@));
    r
}

/// The icon's `transform` text once the rotation is `angle` degrees: each
/// term that starts with `rotate(` is replaced by `rotate(<angle>deg)` and the
/// other terms are kept, in order, separated by single spaces; where no
/// `rotate(` occurs, ` rotate(<angle>deg)` is appended to the text as it is.
pub fn rotation_transform(transform: &str, angle: &str) -> (r: String)
    ensures
        r@ == rotated(transform@, angle@),
{
    let ghost t = transform@;
    let ghost ms = words(t).map_values(|w: Seq<char>| retarget(w, angle@));
    proof {
        reveal_strlit("rotate(");
        reveal_strlit("deg)");
        reveal_strlit(" ");
    }
    if !contains_rotate(transform) {
        let mut r = String::from_str(transform);
        r.append(" ");
        r.append("rotate(");
        r.append(angle);
        r.append("deg)");
        assert(r@ =~= rotated(t, angle@));
        return r;
    }
    let spans = word_spans(transform);
    let mut out = String::new();
    let mut k: usize = 0;
    while k < spans.len()
        invariant
            k <= spans@.len(),
            t == transform@,
            t.len() <= usize::MAX,
            ms == words(t).map_values(|w: Seq<char>| retarget(w, angle@)),
            spans@.len() == words(t).len(),
            forall|j: int|
                0 <= j < spans@.len() ==> {
                    let (a, b) = #[trigger] spans@[j];
                    a < b <= t.len() && t.subrange(a as int, b as int) == words(t)[j]
                },
            out@ == join_spaced(ms.subrange(0, k as int)),
        decreases spans@.len() - k,
    {
        let (a, b) = spans[k];
        let ghost w = words(t)[k as int];
        assert(spans@[k as int] == (a, b));
        let ghost before = out@;
        proof {
            reveal_strlit("rotate(");
            reveal_strlit("deg)");
            reveal_strlit(" ");
        }
        if k > 0 {
            out.append(" ");
        }
        let rot = b - a >= 7 && rotate_at(transform, a);
        assert(rot == starts_with_rotate(w)) by {
            if b - a >= 7 {
                assert(w.subrange(0, 7) =~= t.subrange(a as int, a + 7));
            }
        }
        if rot {
            out.append("rotate(");
            out.append(angle);
            out.append("deg)");
        } else {
            out.append(transform.substring_char(a, b));
        }
        let ghost piece = ms[k as int];
        assert(piece == retarget(w, angle@));
        if k > 0 {
            assert(out@ =~= before + seq![' '] + piece);
        } else {
            assert(out@ =~= before + piece);
        }
        assert(ms.subrange(0, k + 1).drop_last() =~= ms.subrange(0, k as int));
        k = k + 1;
    }
    assert(ms.subrange(0, k as int) =~= ms);
    out
}

} // verus!
