//! The decoding contracts under their short names: `parse`, `parse_with` and
//! `parse_array` on a cursor.
use vstd::prelude::*;
use crate::array::Array;
use crate::array::ArrayView;
use crate::decl::advanced;
use crate::decl::DeclRead;
pub use crate::decl::DeclResult;
pub use crate::decl::Declarative;
pub use crate::decl::DeclarativeWithArgs as DeclarativeArgs;
pub use crate::decl::DynamicEncodingSize;
pub use crate::decl::StaticEncodingSize;
use crate::errors::Error;

verus! {

/// A cursor that decodes types which take no argument.
pub trait DeclarativeRead<'buf>: DeclRead<'buf> {
    /// Decodes one `T` at the cursor: on success the cursor stands behind the
    /// bytes taken, on failure it has not moved.
    fn parse<T: Declarative<'buf>>(&mut self) -> (r: Result<T, Error>)
        ensures
            advanced(
                r,
                old(self).remaining(),
                final(self).remaining(),
                T::spec_parse(old(self).remaining()),
            ),
            r is Err ==> *final(self) == *old(self),
    ;

    /// A lazy array of `length` items of `T` that starts at the cursor. No item
    /// is decoded and the cursor does not move.
    fn parse_array<T>(&mut self, length: usize) -> (r: Result<Array<'buf, T>, Error>) where
        T: Declarative<'buf> + StaticEncodingSize,

        ensures
            r is Ok,
            r->Ok_0@ == (ArrayView { bytes: old(self).remaining(), length, argument: () }),
            *final(self) == *old(self),
    ;
}

impl<'buf> DeclarativeRead<'buf> for &'buf [u8] {
    fn parse<T: Declarative<'buf>>(&mut self) -> (r: Result<T, Error>) {
        self.decode::<T>()
    }

    fn parse_array<T>(&mut self, length: usize) -> (r: Result<Array<'buf, T>, Error>) where
        T: Declarative<'buf> + StaticEncodingSize,
     {
        Ok(Array::starting_at(*self, length, ()))
    }
}

/// A cursor that decodes types which take an argument.
pub trait DeclarativeArgsRead<'buf>: DeclRead<'buf> {
    /// Decodes one `T` at the cursor, with `args`: on success the cursor stands
    /// behind the bytes taken, on failure it has not moved.
    fn parse_with<T>(&mut self, args: T::Argument) -> (r: Result<T, Error>) where
        T: DeclarativeArgs<'buf>,

        ensures
            advanced(
                r,
                old(self).remaining(),
                final(self).remaining(),
                T::spec_parse_with(old(self).remaining(), args),
            ),
            r is Err ==> *final(self) == *old(self),
    ;
}

impl<'buf> DeclarativeArgsRead<'buf> for &'buf [u8] {
    fn parse_with<T>(&mut self, args: T::Argument) -> (r: Result<T, Error>) where
        T: DeclarativeArgs<'buf>,
     {
        self.decode_with::<T>(args)
    }
}

} // verus!
