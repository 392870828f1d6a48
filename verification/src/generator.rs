//! The code generator.
//!
//! [`generate`] consumes an [`AggregateDef`] and plans the capability
//! implementations for it: one immutable accessor per field, in declaration
//! order, then one mutable accessor per field when the `typemap_mut` marker
//! is present.  A definition that is not a positional, unnamed-field
//! aggregate is rejected whole with a [`ShapeError`]; no partial plan is
//! produced.  Generation itself never rejects duplicate field types — two
//! fields of one type yield two implementations with the same key, and the
//! clash only surfaces at a call site — so [`find_duplicate_type`] is
//! offered besides, to detect the clash already at generation time.

use vstd::prelude::*;

use crate::model::{
    AccessorImpl, AggregateDef, DataShape, DefModel, FieldsShape, ShapeError, field_types,
    has_marker, impl_views, is_tuple_struct, mut_marker, pairwise_distinct, planned_impl,
    planned_impls, shape_error_of, string_views, wants_mut,
};

verus! {

/// True exactly when one of the attribute paths is the mutable-generation
/// marker `typemap_mut`.
pub fn has_mut_attr(attrs: &Vec<String>) -> (r: bool)
    ensures
        r == has_marker(string_views(attrs@)),
{
    let marker: String = "typemap_mut".to_owned();
    let mut k: usize = 0;
    while k < attrs.len()
        invariant
            k <= attrs@.len(),
            marker@ == mut_marker(),
            forall|i: int| 0 <= i < k ==> string_views(attrs@)[i] != mut_marker(),
        decreases attrs@.len() - k,
    {
        if marker.eq(&attrs[k]) {
            assert(string_views(attrs@)[k as int] == mut_marker());
            return true;
        }
        k += 1;
    }
    false
}

/// The code generator.
///
/// For a positional, unnamed-field aggregate the result is exactly the
/// planned implementations of the definition — one `Get` accessor per field,
/// in declaration order, then one `GetMut` accessor per field when the
/// mutable marker is present — so generation is a pure function of the
/// definition, in a stable order.  Every other shape is rejected whole with
/// the matching [`ShapeError`].
pub fn generate(def: &AggregateDef) -> (r: Result<Vec<AccessorImpl>, ShapeError>)
    ensures
        match r {
            Ok(impls) => is_tuple_struct(def@) && impl_views(impls@) == planned_impls(def@),
            Err(e) => !is_tuple_struct(def@) && e == shape_error_of(def@),
        },
{
    let fields: &Vec<String> = match &def.data {
        DataShape::Struct(FieldsShape::Tuple(ts)) => ts,
        DataShape::Struct(_) => {
            return Err(ShapeError::NotATupleStruct);
        },
        _ => {
            return Err(ShapeError::NotAStruct);
        },
    };
    let all_mut = has_mut_attr(&def.attrs);
    let n = fields.len();
    let mut impls: Vec<AccessorImpl> = Vec::new();
    let mut i: usize = 0;
    while i < n
        invariant
            i <= n,
            n == field_types(def@).len(),
            is_tuple_struct(def@),
            string_views(fields@) == field_types(def@),
            impl_views(impls@) =~= Seq::new(i as nat, |k: int| planned_impl(def@, k, false)),
        decreases n - i,
    {
        let ghost pre = impls@;
        impls.push(AccessorImpl {
            aggregate: def.name.clone(),
            generics: def.generics.clone(),
            target: fields[i].clone(),
            position: i,
            mutable: false,
        });
        i += 1;
        proof {
            let planned = Seq::new(i as nat, |k: int| planned_impl(def@, k, false));
            assert(impl_views(pre).len() == pre.len());
            assert(pre.len() == i - 1);
            assert(impl_views(impls@).len() == impls@.len());
            assert forall|k: int| 0 <= k < i implies #[trigger] impl_views(impls@)[k] == planned[k] by {
                assert(impl_views(impls@)[k] == impls@[k]@);
                assert(string_views(fields@)[k] == fields@[k]@);
                if k < i - 1 {
                    assert(impls@[k] == pre[k]);
                    assert(impl_views(pre)[k] == pre[k]@);
                }
            }
            assert(impl_views(impls@) =~= planned);
        }
    }
    if all_mut {
        let mut i: usize = 0;
        while i < n
            invariant
                i <= n,
                n == field_types(def@).len(),
                is_tuple_struct(def@),
                wants_mut(def@),
                string_views(fields@) == field_types(def@),
                impl_views(impls@) =~= Seq::new(n as nat, |k: int| planned_impl(def@, k, false))
                    + Seq::new(i as nat, |k: int| planned_impl(def@, k, true)),
            decreases n - i,
        {
            let ghost pre = impls@;
            impls.push(AccessorImpl {
                aggregate: def.name.clone(),
                generics: def.generics.clone(),
                target: fields[i].clone(),
                position: i,
                mutable: true,
            });
            i += 1;
            proof {
                let planned = Seq::new(n as nat, |k: int| planned_impl(def@, k, false))
                    + Seq::new(i as nat, |k: int| planned_impl(def@, k, true));
                assert(impl_views(pre).len() == pre.len());
                assert(pre.len() == n + i - 1);
                assert(impl_views(impls@).len() == impls@.len());
                assert forall|k: int| 0 <= k < n + i implies #[trigger] impl_views(impls@)[k]
                    == planned[k] by {
                    assert(impl_views(impls@)[k] == impls@[k]@);
                    if 0 <= k < n {
                        assert(string_views(fields@)[k] == fields@[k]@);
                    }
                    if n <= k < n + i {
                        assert(string_views(fields@)[k - n] == fields@[k - n]@);
                    }
                    if k < n + i - 1 {
                        assert(impls@[k] == pre[k]);
                        assert(impl_views(pre)[k] == pre[k]@);
                    }
                }
                assert(impl_views(impls@) =~= planned);
            }
        }
    }
    proof {
        assert(impl_views(impls@) =~= planned_impls(def@));
    }
    Ok(impls)
}

/// Searches a field-type list for two positions carrying the same declared
/// type.
///
/// Generation itself leaves the disjointness invariant unchecked; this check
/// lets a declaration with a duplicated field type be rejected already at
/// generation time, with the clashing positions named, instead of failing
/// later at a call site.
pub fn find_duplicate_type(fields: &Vec<String>) -> (r: Option<(usize, usize)>)
    ensures
        match r {
            Some(p) => p.0 < p.1 < fields@.len()
                && string_views(fields@)[p.0 as int] == string_views(fields@)[p.1 as int],
            None => pairwise_distinct(string_views(fields@)),
        },
{
    let n = fields.len();
    let mut i: usize = 0;
    while i < n
        invariant
            i <= n,
            n == fields@.len(),
            forall|a: int, b: int| 0 <= a < b < n && a < i ==> string_views(fields@)[a]
                != string_views(fields@)[b],
        decreases n - i,
    {
        let mut j: usize = i + 1;
        while j < n
            invariant
                i < j <= n,
                n == fields@.len(),
                forall|b: int| i < b < j ==> string_views(fields@)[i as int]
                    != string_views(fields@)[b],
            decreases n - j,
        {
            if fields[i].eq(&fields[j]) {
                assert(string_views(fields@)[i as int] == string_views(fields@)[j as int]);
                return Some((i, j));
            }
            j += 1;
        }
        i += 1;
    }
    None
}

/// A positional aggregate with zero fields is legal and degenerate: its plan
/// is empty, whatever the rest of the definition says, and generation does
/// not fail on it.
pub proof fn lemma_degenerate_aggregate(d: DefModel)
    requires
        is_tuple_struct(d),
        field_types(d).len() == 0,
    ensures
        planned_impls(d).len() == 0,
{
}

/// Every implementation planned for a definition carries the definition's
/// own name and generic/lifetime parameter list verbatim, so one generation
/// serves every concrete instantiation of a parameterized aggregate alike.
pub proof fn lemma_parametric_uniformity(d: DefModel)
    requires
        is_tuple_struct(d),
    ensures
        forall|k: int| 0 <= k < planned_impls(d).len() ==> (#[trigger] planned_impls(d)[k]).generics
            == d.generics && planned_impls(d)[k].aggregate == d.name,
{
    let n = field_types(d).len() as int;
    assert forall|k: int| 0 <= k < planned_impls(d).len() implies (#[trigger] planned_impls(
        d,
    )[k]).generics == d.generics && planned_impls(d)[k].aggregate == d.name by {
        if k < n {
            assert(planned_impls(d)[k] == planned_impl(d, k, false));
        } else {
            assert(planned_impls(d)[k] == planned_impl(d, k - n, true));
        }
    }
}

} // verus!
