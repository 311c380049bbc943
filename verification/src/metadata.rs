//! The metadata representation that attribute decoding produces: a fully
//! owned tree, independent of the declaration it came from.

use vstd::prelude::*;

verus! {

/// A decoded attribute value.
#[derive(Debug, Clone, PartialEq, Eq)]
pub enum MetaValue {
    /// A literal string value, unescaped.
    Str(String),
    /// A literal boolean value.
    Bool(bool),
    /// A literal integer value.
    Int(i64),
    /// A literal float value, kept as text so comparison stays exact.
    Float(String),
    /// A path or identifier.
    Path(String),
    /// Verbatim fallback for a value outside the recognised shapes.
    Unparsed(String),
}

/// A decoded attribute occurrence.
#[derive(Debug, PartialEq, Eq)]
pub enum AttributeMeta {
    /// A bare path attribute such as a skip marker.
    Path { path: String },
    /// A `key = value` attribute.
    NameValue { path: String, name: String, value: MetaValue },
    /// A parenthesised group wrapping a nested decoded attribute.
    List { path: String, items: Vec<AttributeMeta> },
    /// Verbatim fallback for contents outside the recognised shapes.
    Unparsed { path: String, tokens: String },
}

/// Ghost mirror of a `MetaValue`, over character sequences.
pub ghost enum MetaValueV {
    Str(Seq<char>),
    Bool(bool),
    Int(int),
    Float(Seq<char>),
    Path(Seq<char>),
    Unparsed(Seq<char>),
}

/// Ghost mirror of an `AttributeMeta`.
pub ghost enum AttributeMetaV {
    Path { path: Seq<char> },
    NameValue { path: Seq<char>, name: Seq<char>, value: MetaValueV },
    List { path: Seq<char>, items: Seq<AttributeMetaV> },
    Unparsed { path: Seq<char>, tokens: Seq<char> },
}

/// The ghost mirror of a value.
pub open spec fn value_view(v: MetaValue) -> MetaValueV {
    match v {
        MetaValue::Str(s) => MetaValueV::Str(s@),
        MetaValue::Bool(b) => MetaValueV::Bool(b),
        MetaValue::Int(i) => MetaValueV::Int(i as int),
        MetaValue::Float(s) => MetaValueV::Float(s@),
        MetaValue::Path(s) => MetaValueV::Path(s@),
        MetaValue::Unparsed(s) => MetaValueV::Unparsed(s@),
    }
}

/// The ghost mirror of a decoded attribute.
pub open spec fn meta_view(m: AttributeMeta) -> AttributeMetaV
    decreases m,
{
    match m {
        AttributeMeta::Path { path } => AttributeMetaV::Path { path: path@ },
        AttributeMeta::NameValue { path, name, value } => AttributeMetaV::NameValue {
            path: path@,
            name: name@,
            value: value_view(value),
        },
        AttributeMeta::List { path, items } => AttributeMetaV::List {
            path: path@,
            items: metas_view(items@, 0),
        },
        AttributeMeta::Unparsed { path, tokens } => AttributeMetaV::Unparsed {
            path: path@,
            tokens: tokens@,
        },
    }
}

/// The ghost mirrors of the attributes of `ms` from position `i` on.
pub open spec fn metas_view(ms: Seq<AttributeMeta>, i: int) -> Seq<AttributeMetaV>
    decreases ms, ms.len() - i,
{
    if i < 0 || i >= ms.len() {
        Seq::empty()
    } else {
        seq![meta_view(ms[i])] + metas_view(ms, i + 1)
    }
}

} // verus!
