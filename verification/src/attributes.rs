use vstd::prelude::*;
use vstd::string::StringExecFns;

verus! {

/// One entry in the list of a field attribute.
pub enum NestedItem<V> {
    /// `name = value`
    NameValue(String, V),
    /// An entry of any other form.
    Other,
}

/// One attribute on a field of a record.
pub enum FieldAttribute<V> {
    /// `name(entry, entry, ..)`
    List(String, Vec<NestedItem<V>>),
    /// An attribute of any other form.
    Other,
}

/// Why the attributes of a field cannot be resolved.
#[derive(Debug, Clone, Copy, PartialEq, Eq, Structural)]
pub enum AttributeError {
    /// A second `arguments` directive on one field.
    MultipleParameters,
    /// A second `length` directive on one field.
    MultipleArrayLengths,
    /// An entry that is neither a `length` nor an `arguments` directive.
    Unrecognized,
}

/// The directives of one field: the number of items, where the field is an
/// array, and the argument that its decode takes.
pub struct Attributes<'a, V> {
    pub array_length: Option<&'a V>,
    pub parameters: Option<&'a V>,
}

impl<'a, V> Default for Attributes<'a, V> {
    /// No directive at all.
    fn default() -> (r: Self)
        ensures
            r == Attributes::<'a, V>::empty(),
    {
        Attributes { array_length: None, parameters: None }
    }
}

/// Whether `name` reads `word`.
fn is_word(name: &String, word: &str) -> (b: bool)
    ensures
        b == (name@ == word@),
{
    let w = String::from_str(word);
    *name == w
}

impl<'a, V> Attributes<'a, V> {
    /// No directive at all.
    pub open spec fn empty() -> Self {
        Attributes { array_length: None, parameters: None }
    }

    /// `self` with the argument directive `lit`, unless it has one.
    pub open spec fn spec_with_params(self, lit: &'a V) -> Result<Self, AttributeError> {
        if self.parameters is Some {
            Err(AttributeError::MultipleParameters)
        } else {
            Ok(Attributes { parameters: Some(lit), ..self })
        }
    }

    /// `self` with the length directive `lit`, unless it has one.
    pub open spec fn spec_array_length(self, lit: &'a V) -> Result<Self, AttributeError> {
        if self.array_length is Some {
            Err(AttributeError::MultipleArrayLengths)
        } else {
            Ok(Attributes { array_length: Some(lit), ..self })
        }
    }

    /// `self` with the directive that `item` is.
    pub open spec fn with(self, item: &'a NestedItem<V>) -> Result<Self, AttributeError> {
        match item {
            NestedItem::NameValue(name, value) => if name@ == "length"@ {
                self.spec_array_length(value)
            } else if name@ == "arguments"@ {
                self.spec_with_params(value)
            } else {
                Err(AttributeError::Unrecognized)
            },
            NestedItem::Other => Err(AttributeError::Unrecognized),
        }
    }

    /// `self` with the first `n` of `items`, in order, up to the first that is
    /// refused.
    pub open spec fn with_items(self, items: Seq<NestedItem<V>>, n: nat) -> Result<
        Self,
        AttributeError,
    >
        decreases n,
    {
        if n == 0 {
            Ok(self)
        } else {
            match self.with_items(items, (n - 1) as nat) {
                Ok(so_far) => so_far.with(&items[n - 1]),
                Err(e) => Err(e),
            }
        }
    }

    /// `self` with the directives of the first `n` of `attrs`, in order. Only
    /// the lists named `declarative` hold directives.
    pub open spec fn with_attrs(self, attrs: Seq<FieldAttribute<V>>, n: nat) -> Result<
        Self,
        AttributeError,
    >
        decreases n,
    {
        if n == 0 {
            Ok(self)
        } else {
            match self.with_attrs(attrs, (n - 1) as nat) {
                Ok(so_far) => match attrs[n - 1] {
                    FieldAttribute::List(name, items) => if name@ == "declarative"@ {
                        so_far.with_items(items@, items@.len())
                    } else {
                        Ok(so_far)
                    },
                    FieldAttribute::Other => Ok(so_far),
                },
                Err(e) => Err(e),
            }
        }
    }

    /// Once an entry is refused, so is every longer run of entries.
    pub proof fn refused_items_stay_refused(self, items: Seq<NestedItem<V>>, k: nat, n: nat)
        requires
            k <= n,
            self.with_items(items, k) is Err,
        ensures
            self.with_items(items, n) == self.with_items(items, k),
        decreases n,
    {
        if k < n {
            self.refused_items_stay_refused(items, k, (n - 1) as nat);
        }
    }

    /// Once an attribute is refused, so is every longer run of attributes.
    pub proof fn refused_attrs_stay_refused(self, attrs: Seq<FieldAttribute<V>>, k: nat, n: nat)
        requires
            k <= n,
            self.with_attrs(attrs, k) is Err,
        ensures
            self.with_attrs(attrs, n) == self.with_attrs(attrs, k),
        decreases n,
    {
        if k < n {
            self.refused_attrs_stay_refused(attrs, k, (n - 1) as nat);
        }
    }

    /// Records the argument directive `lit`. A second one is refused and
    /// changes nothing.
    pub fn with_params(&mut self, lit: &'a V) -> (r: Result<(), AttributeError>)
        ensures
            match r {
                Ok(()) => old(self).spec_with_params(lit) == Ok::<Self, AttributeError>(
                    *final(self),
                ),
                Err(e) => old(self).spec_with_params(lit) == Err::<Self, AttributeError>(e)
                    && *final(self) == *old(self),
            },
    {
        if self.parameters.is_some() {
            return Err(AttributeError::MultipleParameters);
        }
        self.parameters = Some(lit);
        Ok(())
    }

    /// Records the length directive `lit`. A second one is refused and
    /// changes nothing.
    pub fn array_length(&mut self, lit: &'a V) -> (r: Result<(), AttributeError>)
        ensures
            match r {
                Ok(()) => old(self).spec_array_length(lit) == Ok::<Self, AttributeError>(
                    *final(self),
                ),
                Err(e) => old(self).spec_array_length(lit) == Err::<Self, AttributeError>(e)
                    && *final(self) == *old(self),
            },
    {
        if self.array_length.is_some() {
            return Err(AttributeError::MultipleArrayLengths);
        }
        self.array_length = Some(lit);
        Ok(())
    }
}

/// Resolves the attributes of one field: the directives of every list named
/// `declarative`, in order. The first entry that is no directive, or that
/// repeats one, is the error.
pub fn decl_field_attributes<'a, V>(attrs: &'a [FieldAttribute<V>]) -> (r: Result<
    Attributes<'a, V>,
    AttributeError,
>)
    ensures
        r == Attributes::<'a, V>::empty().with_attrs(attrs@, attrs@.len()),
{
    let ghost start = Attributes::<'a, V>::empty();
    let mut parsed = Attributes::default();
    let mut i: usize = 0;
    while i < attrs.len()
        invariant
            start == Attributes::<'a, V>::empty(),
            i <= attrs@.len(),
            start.with_attrs(attrs@, i as nat) == Ok::<Attributes<'a, V>, AttributeError>(parsed),
        decreases attrs@.len() - i,
    {
        let ghost before = parsed;
        match &attrs[i] {
            FieldAttribute::List(name, items) => {
                if is_word(name, "declarative") {
                    let mut j: usize = 0;
                    while j < items.len()
                        invariant
                            start == Attributes::<'a, V>::empty(),
                            i < attrs@.len(),
                            start.with_attrs(attrs@, i as nat) == Ok::<
                                Attributes<'a, V>,
                                AttributeError,
                            >(before),
                            attrs@[i as int] == FieldAttribute::List(*name, *items),
                            name@ == "declarative"@,
                            j <= items@.len(),
                            before.with_items(items@, j as nat) == Ok::<
                                Attributes<'a, V>,
                                AttributeError,
                            >(parsed),
                        decreases items@.len() - j,
                    {
                        let step = match &items[j] {
                            NestedItem::NameValue(ident, value) => {
                                if is_word(ident, "length") {
                                    parsed.array_length(value)
                                } else if is_word(ident, "arguments") {
                                    parsed.with_params(value)
                                } else {
                                    Err(AttributeError::Unrecognized)
                                }
                            },
                            NestedItem::Other => Err(AttributeError::Unrecognized),
                        };
                        if let Err(e) = step {
                            proof {
                                assert(before.with_items(items@, (j + 1) as nat) == Err::<
                                    Attributes<'a, V>,
                                    AttributeError,
                                >(e));
                                before.refused_items_stay_refused(
                                    items@,
                                    (j + 1) as nat,
                                    items@.len(),
                                );
                                assert(start.with_attrs(attrs@, (i + 1) as nat) == Err::<
                                    Attributes<'a, V>,
                                    AttributeError,
                                >(e));
                                start.refused_attrs_stay_refused(
                                    attrs@,
                                    (i + 1) as nat,
                                    attrs@.len(),
                                );
                            }
                            return Err(e);
                        }
                        j += 1;
                    }
                }
            },
            FieldAttribute::Other => {},
        }
        i += 1;
    }
    Ok(parsed)
}

} // verus!
