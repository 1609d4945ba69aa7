use vstd::prelude::*;
use vstd::string::StringExecFns;

verus! {

/// The fields that a struct declares: the names of its named fields, in the
/// order of the declaration, or nothing more than its shape.
pub enum Fields {
    Named(Vec<String>),
    Unnamed,
    Unit,
}

/// What a type declaration holds, as far as deriving needs to know.
pub enum Data {
    Struct(Fields),
    Enum,
    Union,
}

impl Data {
    /// Whether the declaration is a struct with named fields.
    pub open spec fn is_named_struct(self) -> bool {
        self matches Data::Struct(Fields::Named(_))
    }

    /// The names of the fields of a struct with named fields.
    pub open spec fn field_names(self) -> Seq<Seq<char>> {
        match self {
            Data::Struct(Fields::Named(names)) => Seq::new(names@.len(), |i: int| names@[i]@),
            _ => Seq::empty(),
        }
    }
}

/// How one field is filled: from the column of the same name.
pub open spec fn field_conversion(field: Seq<char>) -> Seq<char> {
    field + ": row.get(\""@ + field + "\")?"@
}

/// How all the fields are filled, one after the other.
pub open spec fn field_conversions(fields: Seq<Seq<char>>) -> Seq<char>
    decreases fields.len(),
{
    if fields.len() == 0 {
        Seq::empty()
    } else if fields.len() == 1 {
        field_conversion(fields.last())
    } else {
        field_conversions(fields.drop_last()) + ", "@ + field_conversion(fields.last())
    }
}

/// The source of the conversion from a row to the struct `ident` with these
/// named fields.
pub open spec fn try_from_row_impl(ident: Seq<char>, fields: Seq<Seq<char>>) -> Seq<char> {
    "impl<'stmt> TryFrom<&rusqlite::Row<'stmt>> for "@ + ident
        + " { type Error = rusqlite::Error; fn try_from(row: &rusqlite::Row<'stmt>) -> Result<"@
        + ident + ", rusqlite::Error> { Ok(Self { "@ + field_conversions(fields) + " }) } }"@
}

/// Writes the `TryFrom<&rusqlite::Row>` implementation of the struct named
/// `ident`: each field is read from the column that has the field's name.
/// Only structs with named fields have such an implementation.
pub fn impl_try_from_row(ident: &str, data: &Data) -> (source: String)
    requires
        data.is_named_struct(),
    ensures
        source@ == try_from_row_impl(ident@, data.field_names()),
{
    let mut conversions = String::new();
    if let Data::Struct(Fields::Named(names)) = data {
        let ghost fields = data.field_names();
        let mut i: usize = 0;
        while i < names.len()
            invariant
                i <= names.len(),
                fields == Seq::new(names@.len(), |k: int| names@[k]@),
                conversions@ == field_conversions(fields.take(i as int)),
            decreases names.len() - i,
        {
            if i > 0 {
                conversions.append(", ");
            }
            let field: &str = names[i].as_str();
            conversions.append(field);
            conversions.append(": row.get(\"");
            conversions.append(field);
            conversions.append("\")?");
            proof {
                let done = fields.take(i + 1);
                assert(done.last() == field@);
                assert(done.drop_last() =~= fields.take(i as int));
                assert(conversions@ =~= field_conversions(done));
            }
            i += 1;
        }
        assert(fields.take(i as int) =~= fields);
    }
    let mut source = String::from_str("impl<'stmt> TryFrom<&rusqlite::Row<'stmt>> for ");
    source.append(ident);
    source.append(
        " { type Error = rusqlite::Error; fn try_from(row: &rusqlite::Row<'stmt>) -> Result<",
    );
    source.append(ident);
    source.append(", rusqlite::Error> { Ok(Self { ");
    source.append(conversions.as_str());
    source.append(" }) } }");
    source
}

} // verus!
