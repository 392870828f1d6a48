//! Rendering the generated implementations back to source text.
//!
//! Each [`AccessorImpl`] becomes one `impl` block: `Get<T>` with a `get`
//! that returns a reference to its slot, or `GetMut<T>` with a `get_mut`
//! that returns a mutable reference to it.  The exact text of every block —
//! down to the decimal digits of the slot position — is pinned by the spec
//! functions beside the exec code.

use vstd::prelude::*;
use vstd::string::StringExecFns;

use crate::model::{AccessorImpl, ImplModel, impl_views};

verus! {

/// The decimal digit character for `d`.
pub open spec fn digit_char(d: nat) -> char
    recommends
        d < 10,
{
    if d == 0 {
        '0'
    } else if d == 1 {
        '1'
    } else if d == 2 {
        '2'
    } else if d == 3 {
        '3'
    } else if d == 4 {
        '4'
    } else if d == 5 {
        '5'
    } else if d == 6 {
        '6'
    } else if d == 7 {
        '7'
    } else if d == 8 {
        '8'
    } else {
        '9'
    }
}

/// The decimal digits of `n`, most significant first, no leading zero
/// (a single `'0'` for zero itself).
pub open spec fn spec_decimal(n: nat) -> Seq<char>
    decreases n,
{
    if n < 10 {
        seq![digit_char(n)]
    } else {
        spec_decimal(n / 10).push(digit_char(n % 10))
    }
}

/// The single-character text of a decimal digit.
fn digit_str(d: usize) -> (r: &'static str)
    requires
        d < 10,
    ensures
        r@ == seq![digit_char(d as nat)],
{
    proof {
        reveal_strlit("0");
        reveal_strlit("1");
        reveal_strlit("2");
        reveal_strlit("3");
        reveal_strlit("4");
        reveal_strlit("5");
        reveal_strlit("6");
        reveal_strlit("7");
        reveal_strlit("8");
        reveal_strlit("9");
    }
    let r: &'static str = if d == 0 {
        "0"
    } else if d == 1 {
        "1"
    } else if d == 2 {
        "2"
    } else if d == 3 {
        "3"
    } else if d == 4 {
        "4"
    } else if d == 5 {
        "5"
    } else if d == 6 {
        "6"
    } else if d == 7 {
        "7"
    } else if d == 8 {
        "8"
    } else {
        "9"
    };
    proof {
        assert(r@ =~= seq![digit_char(d as nat)]);
    }
    r
}

/// Renders a slot position as its decimal digits.
pub fn render_position(n: usize) -> (r: String)
    ensures
        r@ == spec_decimal(n as nat),
    decreases n,
{
    if n < 10 {
        digit_str(n).to_owned()
    } else {
        let mut s = render_position(n / 10);
        s.append(digit_str(n % 10));
        proof {
            assert(spec_decimal((n / 10) as nat) + seq![digit_char((n % 10) as nat)]
                =~= spec_decimal((n / 10) as nat).push(digit_char((n % 10) as nat)));
        }
        s
    }
}

/// The source text of one generated implementation.
pub open spec fn spec_render_impl(m: ImplModel) -> Seq<char> {
    if m.mutable {
        "impl"@ + pad(m.generics) + " GetMut<"@ + m.target + "> for "@ + m.aggregate + pad(
            m.generics,
        ) + " { fn get_mut(&mut self) -> &mut "@ + m.target + " { &mut self."@ + spec_decimal(
            m.position as nat,
        ) + " } }"@
    } else {
        "impl"@ + pad(m.generics) + " Get<"@ + m.target + "> for "@ + m.aggregate + pad(m.generics)
            + " { fn get(&self) -> &"@ + m.target + " { &self."@ + spec_decimal(m.position as nat)
            + " } }"@
    }
}

/// A leading space before a parameter list, and nothing for an empty one.
pub open spec fn pad(g: Seq<char>) -> Seq<char> {
    if g.len() == 0 {
        g
    } else {
        " "@ + g
    }
}

/// Appends `generics` to `s` with a leading space, or nothing when the
/// parameter list is empty.
fn append_padded(s: &mut String, generics: &String)
    ensures
        final(s)@ == old(s)@ + pad(generics@),
{
    if !generics.as_str().is_empty() {
        s.append(" ");
        s.append(generics.as_str());
        proof {
            assert(old(s)@ + " "@ + generics@ =~= old(s)@ + pad(generics@));
        }
    } else {
        proof {
            assert(old(s)@ =~= old(s)@ + pad(generics@));
        }
    }
}

/// Renders one generated implementation as one `impl` block of source text.
pub fn render_impl(im: &AccessorImpl) -> (r: String)
    ensures
        r@ == spec_render_impl(im@),
{
    let mut s: String = String::new();
    s.append("impl");
    append_padded(&mut s, &im.generics);
    if im.mutable {
        s.append(" GetMut<");
        s.append(im.target.as_str());
        s.append("> for ");
        s.append(im.aggregate.as_str());
        append_padded(&mut s, &im.generics);
        s.append(" { fn get_mut(&mut self) -> &mut ");
        s.append(im.target.as_str());
        s.append(" { &mut self.");
        let digits = render_position(im.position);
        s.append(digits.as_str());
        s.append(" } }");
    } else {
        s.append(" Get<");
        s.append(im.target.as_str());
        s.append("> for ");
        s.append(im.aggregate.as_str());
        append_padded(&mut s, &im.generics);
        s.append(" { fn get(&self) -> &");
        s.append(im.target.as_str());
        s.append(" { &self.");
        let digits = render_position(im.position);
        s.append(digits.as_str());
        s.append(" } }");
    }
    proof {
        assert(s@ =~= spec_render_impl(im@));
    }
    s
}

/// The source text of a whole generated implementation set: the blocks in
/// order, one line each.
pub open spec fn spec_render_impls(ms: Seq<ImplModel>) -> Seq<char>
    decreases ms.len(),
{
    if ms.len() == 0 {
        Seq::empty()
    } else {
        spec_render_impls(ms.drop_last()) + spec_render_impl(ms.last()) + "\n"@
    }
}

/// Renders a whole generated implementation set, one `impl` block per line,
/// in generation order.
pub fn render_impls(impls: &Vec<AccessorImpl>) -> (r: String)
    ensures
        r@ == spec_render_impls(impl_views(impls@)),
{
    let ghost views = impl_views(impls@);
    let mut out: String = String::new();
    let mut k: usize = 0;
    while k < impls.len()
        invariant
            k <= impls@.len(),
            views == impl_views(impls@),
            views.len() == impls@.len(),
            out@ == spec_render_impls(views.take(k as int)),
        decreases impls@.len() - k,
    {
        let piece = render_impl(&impls[k]);
        out.append(piece.as_str());
        out.append("\n");
        k += 1;
        proof {
            assert(views.take(k as int).drop_last() =~= views.take(k as int - 1));
            assert(views.take(k as int).last() == impls@[k as int - 1]@);
            assert(out@ =~= spec_render_impls(views.take(k as int)));
        }
    }
    proof {
        assert(views.take(impls@.len() as int) =~= views);
    }
    out
}

} // verus!
