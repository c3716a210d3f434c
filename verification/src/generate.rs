use vstd::prelude::*;
use crate::attributes::decl_field_attributes;
use crate::attributes::AttributeError;
use crate::attributes::Attributes;
use crate::attributes::FieldAttribute;

verus! {

/// One field of a record, as far as its decode depends on it.
pub struct Field<V> {
    /// Whether the field's type is a reference: a borrowed view of the buffer,
    /// which is not decoded.
    pub by_reference: bool,
    /// The attributes on the field, in order.
    pub attrs: Vec<FieldAttribute<V>>,
}

/// The body of the item that a decoder is asked for.
pub enum Body<V> {
    /// A struct with named fields, in the order of their declaration.
    Struct(Vec<Field<V>>),
    /// Anything else.
    Other,
}

/// One decode of a record's decoder: that of the field with the index
/// `field`, with the directives in `attributes`.
pub struct Step<'a, V> {
    pub field: usize,
    pub attributes: Attributes<'a, V>,
}

/// Why no decoder can be made.
#[derive(Debug, Clone, Copy, PartialEq, Eq, Structural)]
pub enum GenerateError {
    /// The item is no struct with named fields.
    NotAStruct,
    /// The attributes of a field cannot be resolved.
    Field(AttributeError),
}

/// The decodes for the first `n` of `fields`: one for each field that is no
/// reference, in the order of the fields, or the error of the first field
/// whose attributes cannot be resolved.
pub open spec fn planned<'a, V>(fields: Seq<Field<V>>, n: nat) -> Result<
    Seq<Step<'a, V>>,
    AttributeError,
>
    decreases n,
{
    if n == 0 {
        Ok(Seq::empty())
    } else {
        match planned::<V>(fields, (n - 1) as nat) {
            Ok(steps) => {
                let field = fields[n - 1];
                if field.by_reference {
                    Ok(steps)
                } else {
                    match Attributes::<'a, V>::empty().with_attrs(field.attrs@, field.attrs@.len()) {
                        Ok(attributes) => Ok(
                            steps.push(Step { field: (n - 1) as usize, attributes }),
                        ),
                        Err(e) => Err(e),
                    }
                }
            },
            Err(e) => Err(e),
        }
    }
}

/// Once a field is refused, so is every longer run of fields.
pub proof fn refused_fields_stay_refused<'a, V>(fields: Seq<Field<V>>, k: nat, n: nat)
    requires
        k <= n,
        planned::<V>(fields, k) is Err,
    ensures
        planned::<V>(fields, n) == planned::<V>(fields, k),
    decreases n,
{
    if k < n {
        refused_fields_stay_refused::<V>(fields, k, (n - 1) as nat);
    }
}

/// The decodes that the decoder of a record with `fields` makes, in order.
pub fn decl_fields<'a, V>(fields: &'a [Field<V>]) -> (r: Result<Vec<Step<'a, V>>, AttributeError>)
    ensures
        match r {
            Ok(steps) => planned::<V>(fields@, fields@.len()) == Ok::<
                Seq<Step<'a, V>>,
                AttributeError,
            >(steps@),
            Err(e) => planned::<V>(fields@, fields@.len()) == Err::<
                Seq<Step<'a, V>>,
                AttributeError,
            >(e),
        },
{
    let mut steps: Vec<Step<'a, V>> = Vec::new();
    let mut i: usize = 0;
    while i < fields.len()
        invariant
            i <= fields@.len(),
            planned::<V>(fields@, i as nat) == Ok::<Seq<Step<'a, V>>, AttributeError>(steps@),
        decreases fields@.len() - i,
    {
        let field = &fields[i];
        if !field.by_reference {
            match decl_field_attributes(field.attrs.as_slice()) {
                Ok(attributes) => {
                    steps.push(Step { field: i, attributes });
                },
                Err(e) => {
                    proof {
                        assert(planned::<V>(fields@, (i + 1) as nat) == Err::<
                            Seq<Step<'a, V>>,
                            AttributeError,
                        >(e));
                        refused_fields_stay_refused::<V>(fields@, (i + 1) as nat, fields@.len());
                    }
                    return Err(e);
                },
            }
        }
        i += 1;
    }
    Ok(steps)
}

/// What `declarative` makes of `body`.
pub open spec fn spec_declarative<'a, V>(body: Body<V>) -> Result<Seq<Step<'a, V>>, GenerateError> {
    match body {
        Body::Struct(fields) => match planned::<V>(fields@, fields@.len()) {
            Ok(steps) => Ok(steps),
            Err(e) => Err(GenerateError::Field(e)),
        },
        Body::Other => Err(GenerateError::NotAStruct),
    }
}

/// The decodes of the decoder for an item with `body`. Only a struct with
/// named fields has one.
pub fn declarative<'a, V>(body: &'a Body<V>) -> (r: Result<Vec<Step<'a, V>>, GenerateError>)
    ensures
        match r {
            Ok(steps) => spec_declarative::<V>(*body) == Ok::<Seq<Step<'a, V>>, GenerateError>(
                steps@,
            ),
            Err(e) => spec_declarative::<V>(*body) == Err::<Seq<Step<'a, V>>, GenerateError>(e),
        },
{
    match body {
        Body::Struct(fields) => match decl_fields(fields.as_slice()) {
            Ok(steps) => Ok(steps),
            Err(e) => Err(GenerateError::Field(e)),
        },
        Body::Other => Err(GenerateError::NotAStruct),
    }
}

} // verus!
