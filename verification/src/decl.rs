use vstd::prelude::*;
use crate::array::Array;
use crate::array::ArrayView;
use crate::errors::Error;

verus! {

/// A decoded value together with the bytes that follow its encoding.
pub type DeclResult<'buf, T> = Result<(T, &'buf [u8]), Error>;

/// Types whose encoding size is known before any byte is read.
pub trait StaticEncodingSize {
    const SIZE: usize;
}

/// Types whose encoding size is known once a value has been decoded.
pub trait DynamicEncodingSize {
    /// The number of bytes that the encoding of `self` takes.
    spec fn spec_size(&self) -> nat;

    /// The number of bytes that the encoding of `self` takes, where a `usize`
    /// can hold it.
    fn size(&self) -> (n: usize)
        requires
            self.spec_size() <= usize::MAX,
        ensures
            n == self.spec_size(),
    ;
}

impl<T> DynamicEncodingSize for T where T: StaticEncodingSize {
    open spec fn spec_size(&self) -> nat {
        Self::SIZE as nat
    }

    fn size(&self) -> (n: usize) {
        Self::SIZE
    }
}

/// What decoding yields in the model: the view of the value and the number of
/// bytes that its encoding took, or the reason why there is no value.
pub type Decoded<V> = Result<(V, nat), Error>;

/// Whether `r` is the outcome that `model` describes for a decode of `buffer`.
pub open spec fn agrees<T: View>(
    r: Result<(T, &[u8]), Error>,
    buffer: Seq<u8>,
    model: Decoded<T::V>,
) -> bool {
    match r {
        Ok((value, rest)) => match model {
            Ok((v, n)) => value@ == v && n <= buffer.len() && rest@ =~= buffer.skip(n as int),
            Err(_) => false,
        },
        Err(e) => model == Err::<(T::V, nat), Error>(e),
    }
}

/// Types that are decoded from the front of a buffer without further context.
pub trait Declarative<'buf>: Sized + View {
    /// The decode as a function of the buffer's contents.
    spec fn spec_parse(buffer: Seq<u8>) -> Decoded<Self::V>;

    /// A decode never takes more bytes than the buffer holds.
    proof fn parse_stays_inside(buffer: Seq<u8>)
        ensures
            match Self::spec_parse(buffer) {
                Ok((_, n)) => n <= buffer.len(),
                Err(_) => true,
            },
    ;

    fn parse(buffer: &'buf [u8]) -> (r: DeclResult<'buf, Self>)
        ensures
            agrees(r, buffer@, Self::spec_parse(buffer@)),
    ;
}

/// Types that are decoded from the front of a buffer with an argument that
/// fixes a data-dependent shape.
pub trait DeclarativeWithArgs<'buf>: Sized + View {
    type Argument;

    /// The decode as a function of the buffer's contents and the argument.
    spec fn spec_parse_with(buffer: Seq<u8>, argument: Self::Argument) -> Decoded<Self::V>;

    /// A decode never takes more bytes than the buffer holds.
    proof fn parse_with_stays_inside(buffer: Seq<u8>, argument: Self::Argument)
        ensures
            match Self::spec_parse_with(buffer, argument) {
                Ok((_, n)) => n <= buffer.len(),
                Err(_) => true,
            },
    ;

    fn parse_with(buffer: &'buf [u8], argument: Self::Argument) -> (r: DeclResult<'buf, Self>)
        ensures
            agrees(r, buffer@, Self::spec_parse_with(buffer@, argument)),
    ;
}

impl<'buf, T> DeclarativeWithArgs<'buf> for T where T: Declarative<'buf> {
    type Argument = ();

    open spec fn spec_parse_with(buffer: Seq<u8>, argument: ()) -> Decoded<Self::V> {
        Self::spec_parse(buffer)
    }

    proof fn parse_with_stays_inside(buffer: Seq<u8>, argument: ()) {
        Self::parse_stays_inside(buffer);
    }

    fn parse_with(buffer: &'buf [u8], argument: ()) -> (r: DeclResult<'buf, Self>) {
        Self::parse(buffer)
    }
}

/// Decodable types of static size whose decode keeps to that size: a value
/// always takes exactly `SIZE` bytes, and a buffer shorter than `SIZE` bytes
/// never holds one.
pub trait FixedWidth<'buf>: DeclarativeWithArgs<'buf> + StaticEncodingSize {
    /// A successful decode takes exactly `SIZE` bytes.
    proof fn consumes_exactly_size(buffer: Seq<u8>, argument: Self::Argument)
        ensures
            match Self::spec_parse_with(buffer, argument) {
                Ok((_, n)) => n == Self::SIZE,
                Err(_) => true,
            },
    ;

    /// A buffer of fewer than `SIZE` bytes gives `InsufficientBytes`.
    proof fn short_buffer_is_insufficient(buffer: Seq<u8>, argument: Self::Argument)
        requires
            buffer.len() < Self::SIZE,
        ensures
            Self::spec_parse_with(buffer, argument) == Err::<(Self::V, nat), Error>(
                Error::InsufficientBytes,
            ),
    ;
}

/// A decode of a fixed-width type that succeeds on `buffer` leaves exactly the
/// bytes behind the first `SIZE`.
pub proof fn fixed_width_takes_its_size<'buf, T: FixedWidth<'buf>>(
    r: DeclResult<'buf, T>,
    buffer: Seq<u8>,
    argument: T::Argument,
)
    requires
        agrees(r, buffer, T::spec_parse_with(buffer, argument)),
        r is Ok,
    ensures
        T::SIZE <= buffer.len(),
        r->Ok_0.1@ == buffer.skip(T::SIZE as int),
{
    T::consumes_exactly_size(buffer, argument);
}

/// A decode of a fixed-width type on a buffer of fewer than `SIZE` bytes fails
/// with `InsufficientBytes`.
pub proof fn fixed_width_needs_its_size<'buf, T: FixedWidth<'buf>>(
    r: DeclResult<'buf, T>,
    buffer: Seq<u8>,
    argument: T::Argument,
)
    requires
        agrees(r, buffer, T::spec_parse_with(buffer, argument)),
        buffer.len() < T::SIZE,
    ensures
        r is Err,
        r->Err_0 == Error::InsufficientBytes,
{
    T::short_buffer_is_insufficient(buffer, argument);
}

/// Whether a cursor that held `before` and now holds `after` has made the
/// decode that `model` describes and handed out `r`: on success it stands
/// behind the bytes taken, on failure it has not moved.
pub open spec fn advanced<T: View>(
    r: Result<T, Error>,
    before: Seq<u8>,
    after: Seq<u8>,
    model: Decoded<T::V>,
) -> bool {
    match r {
        Ok(value) => match model {
            Ok((v, n)) => value@ == v && n <= before.len() && after =~= before.skip(n as int),
            Err(_) => false,
        },
        Err(e) => model == Err::<(T::V, nat), Error>(e) && after == before,
    }
}

/// A cursor over a byte buffer: each successful decode moves it behind the
/// bytes that the value took.
pub trait DeclRead<'buf>: Sized {
    /// The bytes from the cursor's position to the end of the buffer.
    spec fn remaining(&self) -> Seq<u8>;

    /// Decodes one `T` at the cursor.
    fn decode<T>(&mut self) -> (r: Result<T, Error>) where T: Declarative<'buf>
        ensures
            advanced(
                r,
                old(self).remaining(),
                final(self).remaining(),
                T::spec_parse(old(self).remaining()),
            ),
            r is Err ==> *final(self) == *old(self),
    ;

    /// Decodes one `T` at the cursor, with `argument`.
    fn decode_with<T>(&mut self, argument: T::Argument) -> (r: Result<T, Error>) where
        T: DeclarativeWithArgs<'buf>,

        ensures
            advanced(
                r,
                old(self).remaining(),
                final(self).remaining(),
                T::spec_parse_with(old(self).remaining(), argument),
            ),
            r is Err ==> *final(self) == *old(self),
    ;

    /// A lazy array of `length` items of `T` that starts at the cursor. No item
    /// is decoded and the cursor does not move.
    fn decode_array<T>(&mut self, length: usize) -> (r: Result<Array<'buf, T>, Error>) where
        T: Declarative<'buf> + StaticEncodingSize,

        ensures
            advanced(
                r,
                old(self).remaining(),
                final(self).remaining(),
                Array::<'buf, T>::spec_parse_with(old(self).remaining(), (length, ())),
            ),
            r is Ok,
            r->Ok_0@ == (ArrayView { bytes: old(self).remaining(), length, argument: () }),
            *final(self) == *old(self),
    ;

    /// A lazy array of `length` items of `T` that starts at the cursor, each to
    /// be decoded with `argument`. No item is decoded and the cursor does not
    /// move.
    fn decode_array_with<T>(&mut self, length: usize, argument: T::Argument) -> (r: Result<
        Array<'buf, T>,
        Error,
    >) where T: DeclarativeWithArgs<'buf> + StaticEncodingSize
        ensures
            advanced(
                r,
                old(self).remaining(),
                final(self).remaining(),
                Array::<'buf, T>::spec_parse_with(old(self).remaining(), (length, argument)),
            ),
            r is Ok,
            r->Ok_0@ == (ArrayView { bytes: old(self).remaining(), length, argument }),
            *final(self) == *old(self),
    ;
}

impl<'buf> DeclRead<'buf> for &'buf [u8] {
    open spec fn remaining(&self) -> Seq<u8> {
        (*self)@
    }

    fn decode<T>(&mut self) -> (r: Result<T, Error>) where T: Declarative<'buf> {
        let (result, rest) = T::parse(*self)?;
        *self = rest;
        Ok(result)
    }

    fn decode_with<T>(&mut self, argument: T::Argument) -> (r: Result<T, Error>) where
        T: DeclarativeWithArgs<'buf>,
     {
        let (result, rest) = T::parse_with(*self, argument)?;
        *self = rest;
        Ok(result)
    }

    fn decode_array<T>(&mut self, length: usize) -> (r: Result<Array<'buf, T>, Error>) where
        T: Declarative<'buf> + StaticEncodingSize,
     {
        Ok(Array::starting_at(*self, length, ()))
    }

    fn decode_array_with<T>(&mut self, length: usize, argument: T::Argument) -> (r: Result<
        Array<'buf, T>,
        Error,
    >) where T: DeclarativeWithArgs<'buf> + StaticEncodingSize {
        Ok(Array::starting_at(*self, length, argument))
    }
}

} // verus!
