//! The data the code generator works on.
//!
//! An aggregate type declaration is described by an [`AggregateDef`]: its
//! name, its generic/lifetime parameter list, the shape of its data (and, for
//! a positional aggregate, the declared type of every field, in order), and
//! the attribute paths written on it.  Every piece is plain token text.
//!
//! Generation turns such a definition into a sequence of [`AccessorImpl`]
//! values, one per field (two with the mutable marker): the association of
//! one field type with the slot its accessor projects.  The mathematical
//! counterparts of both types, and the spec-level plan of what generation
//! emits, live here too.

use vstd::prelude::*;

verus! {

/// The fields of a struct declaration, as the generator sees them.
pub enum FieldsShape {
    /// Unnamed, positional fields: the token text of each field's declared
    /// type, in declaration order.  An empty list is the legal degenerate
    /// aggregate.
    Tuple(Vec<String>),
    /// Named fields.
    Named,
    /// A unit struct (no field list at all).
    Unit,
}

/// The kind of data declaration a derive input carries.
pub enum DataShape {
    /// A struct, with its fields.
    Struct(FieldsShape),
    /// An enum.
    Enum,
    /// A union.
    Union,
}

/// One aggregate type declaration: what the code generator consumes.
pub struct AggregateDef {
    /// The aggregate's name.
    pub name: String,
    /// The aggregate's generic/lifetime parameter list, verbatim; empty when
    /// the aggregate has none.
    pub generics: String,
    /// The shape of the declaration's data.
    pub data: DataShape,
    /// The token text of each attribute path on the declaration, in order.
    pub attrs: Vec<String>,
}

/// One generated capability implementation: the association
/// (aggregate, target type, mutability) -> accessor for one slot.
#[derive(Debug, Clone)]
pub struct AccessorImpl {
    /// The aggregate the implementation attaches to.
    pub aggregate: String,
    /// The aggregate's generic/lifetime parameter list, carried verbatim.
    pub generics: String,
    /// The field type the implementation is keyed by.
    pub target: String,
    /// The zero-based position of the slot the accessor projects.
    pub position: usize,
    /// Whether this is the mutable accessor for the slot.
    pub mutable: bool,
}

/// Rejection of a generation input that is not a positional, unnamed-field
/// aggregate.
#[derive(Clone, Copy, Debug, PartialEq, Eq, Structural)]
pub enum ShapeError {
    /// The input is not a struct at all: an enum or a union.
    NotAStruct,
    /// The input is a struct, but its fields are named, or it has no field
    /// list at all.
    NotATupleStruct,
}

/// Failure of the whole derive pipeline.
#[derive(Clone, Copy, Debug, PartialEq, Eq, Structural)]
pub enum DeriveError {
    /// The input token text is not a well-formed derive input.
    Unparsable,
    /// The input parses, but is not a positional, unnamed-field aggregate.
    Shape(ShapeError),
}

/// Mathematical counterpart of [`FieldsShape`].
pub enum FieldsShapeModel {
    Tuple(Seq<Seq<char>>),
    Named,
    Unit,
}

/// Mathematical counterpart of [`DataShape`].
pub enum DataShapeModel {
    Struct(FieldsShapeModel),
    Enum,
    Union,
}

/// Mathematical counterpart of [`AggregateDef`].
pub struct DefModel {
    pub name: Seq<char>,
    pub generics: Seq<char>,
    pub data: DataShapeModel,
    pub attrs: Seq<Seq<char>>,
}

/// Mathematical counterpart of [`AccessorImpl`].
pub struct ImplModel {
    pub aggregate: Seq<char>,
    pub generics: Seq<char>,
    pub target: Seq<char>,
    pub position: int,
    pub mutable: bool,
}

/// The views of a sequence of strings.
pub open spec fn string_views(ss: Seq<String>) -> Seq<Seq<char>> {
    ss.map_values(|s: String| s@)
}

impl View for FieldsShape {
    type V = FieldsShapeModel;

    open spec fn view(&self) -> FieldsShapeModel {
        match self {
            FieldsShape::Tuple(ts) => FieldsShapeModel::Tuple(string_views(ts@)),
            FieldsShape::Named => FieldsShapeModel::Named,
            FieldsShape::Unit => FieldsShapeModel::Unit,
        }
    }
}

impl View for DataShape {
    type V = DataShapeModel;

    open spec fn view(&self) -> DataShapeModel {
        match self {
            DataShape::Struct(f) => DataShapeModel::Struct(f@),
            DataShape::Enum => DataShapeModel::Enum,
            DataShape::Union => DataShapeModel::Union,
        }
    }
}

impl View for AggregateDef {
    type V = DefModel;

    open spec fn view(&self) -> DefModel {
        DefModel {
            name: self.name@,
            generics: self.generics@,
            data: self.data@,
            attrs: string_views(self.attrs@),
        }
    }
}

impl View for AccessorImpl {
    type V = ImplModel;

    open spec fn view(&self) -> ImplModel {
        ImplModel {
            aggregate: self.aggregate@,
            generics: self.generics@,
            target: self.target@,
            position: self.position as int,
            mutable: self.mutable,
        }
    }
}

/// The views of a sequence of accessor implementations.
pub open spec fn impl_views(impls: Seq<AccessorImpl>) -> Seq<ImplModel> {
    impls.map_values(|a: AccessorImpl| a@)
}

/// Whether the definition is an ordered, unnamed-field aggregate: the only
/// shape generation accepts.
pub open spec fn is_tuple_struct(d: DefModel) -> bool {
    d.data is Struct && d.data->Struct_0 is Tuple
}

/// The declared field types of a positional aggregate, in declaration order.
pub open spec fn field_types(d: DefModel) -> Seq<Seq<char>>
    recommends
        is_tuple_struct(d),
{
    d.data->Struct_0->Tuple_0
}

/// The attribute path that switches mutable generation on.
pub open spec fn mut_marker() -> Seq<char> {
    "typemap_mut"@
}

/// Whether one of the attribute paths is exactly the mutable-generation
/// marker.
pub open spec fn has_marker(attrs: Seq<Seq<char>>) -> bool {
    exists|i: int| 0 <= i < attrs.len() && attrs[i] == mut_marker()
}

/// Whether the definition asks for mutable accessors as well.
pub open spec fn wants_mut(d: DefModel) -> bool {
    has_marker(d.attrs)
}

/// The error generation reports for a definition of the wrong shape.
pub open spec fn shape_error_of(d: DefModel) -> ShapeError
    recommends
        !is_tuple_struct(d),
{
    if d.data is Struct {
        ShapeError::NotATupleStruct
    } else {
        ShapeError::NotAStruct
    }
}

/// The implementation planned for slot `i` of definition `d`.
pub open spec fn planned_impl(d: DefModel, i: int, mutable: bool) -> ImplModel
    recommends
        is_tuple_struct(d),
        0 <= i < field_types(d).len(),
{
    ImplModel {
        aggregate: d.name,
        generics: d.generics,
        target: field_types(d)[i],
        position: i,
        mutable,
    }
}

/// Everything generation emits for a positional aggregate: one immutable
/// accessor per field, in declaration order, then — when the mutable marker
/// is present — one mutable accessor per field, in the same order.
pub open spec fn planned_impls(d: DefModel) -> Seq<ImplModel>
    recommends
        is_tuple_struct(d),
{
    let n = field_types(d).len();
    let gets = Seq::new(n, |i: int| planned_impl(d, i, false));
    if wants_mut(d) {
        gets + Seq::new(n, |i: int| planned_impl(d, i, true))
    } else {
        gets
    }
}

/// No two positions carry the same declared type: the disjointness invariant
/// that makes type-indexed lookup unambiguous.
pub open spec fn pairwise_distinct(ts: Seq<Seq<char>>) -> bool {
    forall|i: int, j: int| 0 <= i < j < ts.len() ==> ts[i] != ts[j]
}

} // verus!
