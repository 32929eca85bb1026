//! Filling `{}` placeholders of a command template.
use vstd::prelude::*;

verus! {

/// `t` with each `{}` replaced, left to right, by the next of `args`; a `{}`
/// left over once `args` is used up stays as it is.
pub open spec fn fill_spec(t: Seq<char>, args: Seq<Seq<char>>) -> Seq<char>
    decreases t.len(),
{
    if t.len() == 0 {
        Seq::empty()
    } else if t.len() >= 2 && t[0] == '{' && t[1] == '}' && args.len() > 0 {
        args[0] + fill_spec(t.skip(2), args.drop_first())
    } else {
        seq![t[0]] + fill_spec(t.skip(1), args)
    }
}

pub open spec fn views_of(args: Seq<&str>) -> Seq<Seq<char>> {
    args.map_values(|a: &str| a@)
}

/// Fills the placeholders of `t` with `args`.
pub fn fill(t: &str, args: &Vec<&str>) -> (r: String)
    ensures
        r@ == fill_spec(t@, views_of(args@)),
{
    let n = t.unicode_len();
    let ghost a = views_of(args@);
    let mut out = String::new();
    let mut i: usize = 0;
    let mut k: usize = 0;
    assert(t@.skip(0) =~= t@);
    assert(a.skip(0) =~= a);
    assert(out@ + fill_spec(t@.skip(0), a.skip(0)) =~= fill_spec(t@, a));
    while i < n
        invariant
            n == t@.len(),
            i <= n,
            k <= args@.len(),
            a == views_of(args@),
            out@ + fill_spec(t@.skip(i as int), a.skip(k as int)) == fill_spec(t@, a),
        decreases n - i,
    {
        let rest = Ghost(t@.skip(i as int));
        let c = t.get_char(i);
        assert(rest@[0] == c);
        let is_hole = if c == '{' && i + 1 < n && k < args.len() {
            t.get_char(i + 1) == '}'
        } else {
            false
        };
        if is_hole {
            assert(rest@[1] == '}');
            assert(a.skip(k as int)[0] == args@[k as int]@);
            assert(rest@.skip(2) =~= t@.skip(i + 2));
            assert(a.skip(k as int).drop_first() =~= a.skip(k + 1));
            let ghost before = out@;
            out.append(args[k]);
            assert(out@ + fill_spec(t@.skip(i + 2), a.skip(k + 1)) =~= before + (args@[k as int]@
                + fill_spec(t@.skip(i + 2), a.skip(k + 1))));
            i = i + 2;
            k = k + 1;
        } else {
            assert(rest@.skip(1) =~= t@.skip(i + 1));
            let one = t.substring_char(i, i + 1);
            assert(one@ =~= seq![c]);
            let ghost before = out@;
            out.append(one);
            assert(out@ + fill_spec(t@.skip(i + 1), a.skip(k as int)) =~= before + (seq![c]
                + fill_spec(t@.skip(i + 1), a.skip(k as int))));
            i = i + 1;
        }
    }
    assert(t@.skip(n as int) =~= Seq::<char>::empty());
    assert(out@ =~= out@ + fill_spec(t@.skip(n as int), a.skip(k as int)));
    out
}

} // verus!
