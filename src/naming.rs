use vstd::prelude::*;
use vstd::string::*;

verus! {

/// Index of the last `.` in `s`, or -1 when there is none.
pub open spec fn last_dot(s: Seq<char>) -> int
    decreases s.len(),
{
    if s.len() == 0 {
        -1
    } else if s.last() == '.' {
        s.len() - 1
    } else {
        last_dot(s.drop_last())
    }
}

/// A file name without its extension: everything before the last `.`, unless
/// that `.` opens the name.
pub open spec fn stem_of(s: Seq<char>) -> Seq<char> {
    let k = last_dot(s);
    if k > 0 { s.take(k) } else { s }
}

/// The output file name for source base name `base` and extension `ext`:
/// the stem of `base`, or `ascii` when the stem is empty, then `.` and `ext`.
pub open spec fn output_name_spec(base: Seq<char>, ext: Seq<char>) -> Seq<char> {
    let st = stem_of(base);
    let stem = if st.len() == 0 { seq!['a', 's', 'c', 'i', 'i'] } else { st };
    stem + seq!['.'] + ext
}

/// The image output name for source base name `base`: the whole base name,
/// or `ascii` when it is empty, followed by `.png`.
pub open spec fn png_name_spec(base: Seq<char>) -> Seq<char> {
    let stem = if base.len() == 0 { seq!['a', 's', 'c', 'i', 'i'] } else { base };
    stem + seq!['.', 'p', 'n', 'g']
}

/// Derives the image output name from a source base name by appending
/// `.png`, keeping the source's own extension so the input is never
/// overwritten.
pub fn png_name(base: &str) -> (r: String)
    ensures
        r@ == png_name_spec(base@),
{
    let mut out: String = if base.unicode_len() == 0 {
        String::from_str("ascii")
    } else {
        String::from_str(base)
    };
    proof {
        reveal_strlit("ascii");
        reveal_strlit(".png");
    }
    out.append(".png");
    out
}

/// Derives an output file name from a source base name by replacing its
/// extension with `ext`.
pub fn output_name(base: &str, ext: &str) -> (r: String)
    ensures
        r@ == output_name_spec(base@, ext@),
{
    let n = base.unicode_len();
    let mut i: usize = n;
    assert(base@.take(n as int) == base@);
    while i > 0 && base.get_char(i - 1) != '.'
        invariant
            n == base@.len(),
            i <= n,
            last_dot(base@) == last_dot(base@.take(i as int)),
        decreases i,
    {
        let ghost t = base@.take(i as int);
        assert(t.drop_last() == base@.take(i - 1));
        i -= 1;
    }
    proof {
        if i == 0 {
            assert(base@.take(0).len() == 0);
        } else {
            let t = base@.take(i as int);
            assert(t.last() == '.');
        }
        assert(base@.take(n as int) == base@);
    }
    let stem: &str = if i > 1 {
        base.substring_char(0, i - 1)
    } else {
        base
    };
    let mut out: String = if stem.unicode_len() == 0 {
        String::from_str("ascii")
    } else {
        String::from_str(stem)
    };
    proof {
        reveal_strlit("ascii");
        reveal_strlit(".");
    }
    out.append(".");
    out.append(ext);
    out
}

} // verus!
