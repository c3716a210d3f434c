use vstd::prelude::*;
use core::marker::PhantomData;
use crate::decl::DeclRead;
use crate::decl::DeclResult;
use crate::decl::DeclarativeWithArgs;
use crate::decl::Decoded;
use crate::decl::DynamicEncodingSize;
use crate::decl::FixedWidth;
use crate::decl::StaticEncodingSize;
use crate::errors::Error;

verus! {

/// A lazy array: `length` encodings of `Item` in a row, all decoded with one
/// argument, none of them decoded yet.
pub struct Array<'buf, Item> where Item: DeclarativeWithArgs<'buf> {
    buffer: &'buf [u8],
    length: usize,
    argument: Item::Argument,
    phantom: PhantomData<Item>,
}

/// What an `Array` stands for: the bytes from its start to the end of the
/// buffer, the number of its items and the argument that each is decoded with.
pub ghost struct ArrayView<A> {
    pub bytes: Seq<u8>,
    pub length: usize,
    pub argument: A,
}

impl<'buf, Item> View for Array<'buf, Item> where Item: DeclarativeWithArgs<'buf> {
    type V = ArrayView<Item::Argument>;

    closed spec fn view(&self) -> ArrayView<Item::Argument> {
        ArrayView { bytes: self.buffer@, length: self.length, argument: self.argument }
    }
}

impl<'buf, Item> Array<'buf, Item> where Item: DeclarativeWithArgs<'buf> {
    /// The array of `length` items that starts where `buffer` starts. Nothing
    /// is decoded.
    pub(crate) fn starting_at(buffer: &'buf [u8], length: usize, argument: Item::Argument) -> (a:
        Self)
        ensures
            a@ == (ArrayView { bytes: buffer@, length, argument }),
    {
        Array { buffer, length, argument, phantom: PhantomData }
    }
}

impl<'buf, Item> DeclarativeWithArgs<'buf> for Array<'buf, Item> where
    Item: DeclarativeWithArgs<'buf>,
 {
    type Argument = (usize, Item::Argument);

    open spec fn spec_parse_with(buffer: Seq<u8>, arguments: (usize, Item::Argument)) -> Decoded<
        ArrayView<Item::Argument>,
    > {
        Ok((ArrayView { bytes: buffer, length: arguments.0, argument: arguments.1 }, 0))
    }

    proof fn parse_with_stays_inside(buffer: Seq<u8>, arguments: (usize, Item::Argument)) {
    }

    fn parse_with(buffer: &'buf [u8], arguments: (usize, Item::Argument)) -> (r: DeclResult<
        'buf,
        Self,
    >) {
        Ok((Array::starting_at(buffer, arguments.0, arguments.1), buffer))
    }
}

impl<'buf, Item> DynamicEncodingSize for Array<'buf, Item> where
    Item: StaticEncodingSize + DeclarativeWithArgs<'buf>,
 {
    open spec fn spec_size(&self) -> nat {
        (Item::SIZE * self@.length) as nat
    }

    fn size(&self) -> (n: usize) {
        Item::SIZE * self.length
    }
}

/// A pass over the items of an `Array`, from the first on. It ends behind the
/// last item, and for good behind the first item that fails to decode.
pub struct ArrayIter<'buf, Item> where Item: DeclarativeWithArgs<'buf> {
    buffer: &'buf [u8],
    length: usize,
    argument: Item::Argument,
    cursor: usize,
    failed: bool,
    phantom: PhantomData<Item>,
}

/// The state of an `ArrayIter`: the bytes from its cursor to the end of the
/// buffer, the number of items of the array, the argument for each, the number
/// of items attempted so far, and whether one of them has failed.
pub ghost struct ArrayIterView<A> {
    pub bytes: Seq<u8>,
    pub length: usize,
    pub argument: A,
    pub position: usize,
    pub failed: bool,
}

impl<'buf, Item> View for ArrayIter<'buf, Item> where Item: DeclarativeWithArgs<'buf> {
    type V = ArrayIterView<Item::Argument>;

    closed spec fn view(&self) -> ArrayIterView<Item::Argument> {
        ArrayIterView {
            bytes: self.buffer@,
            length: self.length,
            argument: self.argument,
            position: self.cursor,
            failed: self.failed,
        }
    }
}

/// What an item's decode hands to the caller: the value, or the error.
pub open spec fn outcome<V>(decoded: Decoded<V>) -> Result<V, Error> {
    match decoded {
        Ok((v, _)) => Ok(v),
        Err(e) => Err(e),
    }
}

/// The view of what `next` returned.
pub open spec fn yielded<T: View>(r: Option<Result<T, Error>>) -> Option<Result<T::V, Error>> {
    match r {
        Some(Ok(value)) => Some(Ok(value@)),
        Some(Err(e)) => Some(Err(e)),
        None => None,
    }
}

/// The views of the outcomes in `outcomes`.
pub open spec fn outcome_views<T: View>(outcomes: Seq<Result<T, Error>>) -> Seq<
    Result<T::V, Error>,
> {
    Seq::new(
        outcomes.len(),
        |k: int|
            match outcomes[k] {
                Ok(value) => Ok(value@),
                Err(e) => Err(e),
            },
    )
}

impl<'buf, Item> Array<'buf, Item> where Item: DeclarativeWithArgs<'buf> {
    /// The state in which a pass over the array `a` starts.
    pub open spec fn start(a: ArrayView<Item::Argument>) -> ArrayIterView<Item::Argument> {
        ArrayIterView {
            bytes: a.bytes,
            length: a.length,
            argument: a.argument,
            position: 0,
            failed: false,
        }
    }

    /// Starts a pass over the items and leaves the array as it is, so that it
    /// can be walked again. Nothing is decoded yet.
    pub fn iter(&self) -> (it: ArrayIter<'buf, Item>) where Item::Argument: Copy
        ensures
            it@ == Self::start(self@),
    {
        ArrayIter {
            buffer: self.buffer,
            length: self.length,
            argument: self.argument,
            cursor: 0usize,
            failed: false,
            phantom: PhantomData,
        }
    }

    /// Starts a pass over the items. Nothing is decoded yet.
    pub fn into_iter(self) -> (it: ArrayIter<'buf, Item>)
        ensures
            it@ == Self::start(self@),
    {
        ArrayIter {
            buffer: self.buffer,
            length: self.length,
            argument: self.argument,
            cursor: 0usize,
            failed: false,
            phantom: PhantomData,
        }
    }
}

impl<'buf, Item> ArrayIter<'buf, Item> where Item: DeclarativeWithArgs<'buf> {
    /// Whether a pass in state `it` has ended: every item was attempted, or one
    /// has failed.
    pub open spec fn ended(it: ArrayIterView<Item::Argument>) -> bool {
        it.failed || it.position >= it.length
    }

    /// The state that follows `it`. A pass that has ended stays as it is;
    /// otherwise one more item counts as attempted, a success moves the cursor
    /// behind the item, and a failure ends the pass.
    pub open spec fn after(it: ArrayIterView<Item::Argument>) -> ArrayIterView<Item::Argument> {
        if Self::ended(it) {
            it
        } else {
            match Item::spec_parse_with(it.bytes, it.argument) {
                Ok((_, n)) => ArrayIterView {
                    bytes: it.bytes.skip(n as int),
                    position: (it.position + 1) as usize,
                    ..it
                },
                Err(_) => ArrayIterView {
                    position: (it.position + 1) as usize,
                    failed: true,
                    ..it
                },
            }
        }
    }

    /// What a pass in state `it` yields next: nothing once it has ended, else
    /// the outcome of decoding one item at the cursor.
    pub open spec fn current(it: ArrayIterView<Item::Argument>) -> Option<Result<Item::V, Error>> {
        if Self::ended(it) {
            None
        } else {
            Some(outcome(Item::spec_parse_with(it.bytes, it.argument)))
        }
    }

    /// Everything that a pass yields from state `it` on, in order.
    pub open spec fn results(it: ArrayIterView<Item::Argument>) -> Seq<Result<Item::V, Error>>
        decreases it.length - it.position,
    {
        match Self::current(it) {
            None => Seq::empty(),
            Some(r) => seq![r] + Self::results(Self::after(it)),
        }
    }

    /// Yields the next item's outcome, or `None` once the pass has ended.
    pub fn next(&mut self) -> (r: Option<Result<Item, Error>>) where
        Item: StaticEncodingSize,
        Item::Argument: Copy,

        ensures
            yielded(r) == Self::current(old(self)@),
            final(self)@ == Self::after(old(self)@),
    {
        if self.failed || self.length <= self.cursor {
            return None;
        }
        self.cursor += 1;
        let dest = self.buffer.decode_with::<Item>(self.argument);
        if dest.is_err() {
            self.failed = true;
        }
        Some(dest)
    }

    /// Runs the pass to its end and hands out everything it yields, in order.
    pub fn collect(self) -> (outcomes: Vec<Result<Item, Error>>) where
        Item: StaticEncodingSize,
        Item::Argument: Copy,

        ensures
            outcome_views(outcomes@) == Self::results(self@),
    {
        let mut it = self;
        let mut outcomes: Vec<Result<Item, Error>> = Vec::new();
        let mut step = it.next();
        assert(outcome_views(outcomes@) =~= Seq::empty());
        while step.is_some()
            invariant
                Self::results(self@) =~= outcome_views(outcomes@) + (match yielded(step) {
                    Some(r) => seq![r] + Self::results(it@),
                    None => Seq::empty(),
                }),
            decreases
                    (if step is Some {
                        1int
                    } else {
                        0int
                    }) + (if Self::ended(it@) {
                        0int
                    } else {
                        it@.length - it@.position
                    }),
        {
            let ghost before = outcomes@;
            let ghost head = yielded(step)->Some_0;
            let r = step.unwrap();
            outcomes.push(r);
            step = it.next();
            assert(outcome_views(outcomes@) =~= outcome_views(before) + seq![head]);
        }
        outcomes
    }
}

impl<'buf, Item> ArrayIter<'buf, Item> where Item: FixedWidth<'buf> {
    /// The outcome of decoding one item `offset` bytes behind the start of
    /// `bytes`.
    pub open spec fn item_at(bytes: Seq<u8>, argument: Item::Argument, offset: int) -> Result<
        Item::V,
        Error,
    > {
        outcome(Item::spec_parse_with(bytes.skip(offset), argument))
    }

    /// From any state in which no item has failed, a pass yields the outcomes of
    /// decoding at the cursor, one item's size behind it, two sizes behind it
    /// and so on. Only its last outcome can be an error, and it stops short of
    /// the array's length only behind an error.
    pub proof fn results_at_strides(it: ArrayIterView<Item::Argument>)
        requires
            !it.failed,
            it.position <= it.length,
        ensures
            Self::results(it).len() <= it.length - it.position,
            forall|k: int|
                0 <= k < Self::results(it).len() ==> k * Item::SIZE <= it.bytes.len()
                    && #[trigger] Self::results(it)[k] == Self::item_at(
                    it.bytes,
                    it.argument,
                    k * Item::SIZE,
                ),
            forall|k: int|
                0 <= k < Self::results(it).len() - 1 ==> (#[trigger] Self::results(it)[k]) is Ok,
            Self::results(it).len() < it.length - it.position ==> Self::results(it).len() > 0
                && Self::results(it).last() is Err,
        decreases it.length - it.position,
    {
        let rs = Self::results(it);
        if Self::ended(it) {
            assert(rs =~= Seq::empty());
        } else {
            let next = Self::after(it);
            let tail = Self::results(next);
            assert(it.bytes.skip(0) =~= it.bytes);
            assert(0 * Item::SIZE == 0);
            match Item::spec_parse_with(it.bytes, it.argument) {
                Ok((v, n)) => {
                    Item::consumes_exactly_size(it.bytes, it.argument);
                    Item::parse_with_stays_inside(it.bytes, it.argument);
                    Self::results_at_strides(next);
                    assert(rs =~= seq![Ok::<Item::V, Error>(v)] + tail);
                    assert forall|k: int| 0 <= k < rs.len() implies k * Item::SIZE
                        <= it.bytes.len() && #[trigger] rs[k] == Self::item_at(
                        it.bytes,
                        it.argument,
                        k * Item::SIZE,
                    ) by {
                        if k > 0 {
                            assert(rs[k] == tail[k - 1]);
                            assert((k - 1) * Item::SIZE + Item::SIZE == k * Item::SIZE)
                                by (nonlinear_arith);
                            assert(next.bytes.len() == it.bytes.len() - Item::SIZE);
                            assert(next.bytes.skip((k - 1) * Item::SIZE) =~= it.bytes.skip(
                                k * Item::SIZE,
                            ));
                        } else {
                            assert(rs[0] == Ok::<Item::V, Error>(v));
                        }
                    }
                    assert forall|k: int| 0 <= k < rs.len() - 1 implies (#[trigger] rs[k]) is Ok by {
                        if k > 0 {
                            assert(rs[k] == tail[k - 1]);
                        }
                    }
                    if rs.len() < it.length - it.position {
                        assert(tail.len() > 0);
                        assert(rs.last() == tail.last());
                    }
                },
                Err(e) => {
                    assert(Self::ended(next));
                    assert(tail =~= Seq::empty());
                    assert(rs =~= seq![Err::<Item::V, Error>(e)]);
                    assert(rs[0] == Self::item_at(it.bytes, it.argument, 0));
                },
            }
        }
    }

    /// A pass over an array of `length` items yields, as its k-th outcome, that
    /// of decoding one item with the array's argument k item sizes behind the
    /// array's start. It yields `length` outcomes where every item but the last
    /// decodes, and otherwise ends with the first error.
    pub proof fn array_items_at_strides(a: ArrayView<Item::Argument>)
        ensures
            ({
                let rs = Self::results(Array::<Item>::start(a));
                &&& rs.len() <= a.length
                &&& forall|k: int|
                    0 <= k < rs.len() ==> #[trigger] rs[k] == Self::item_at(
                        a.bytes,
                        a.argument,
                        k * Item::SIZE,
                    )
                &&& forall|k: int| 0 <= k < rs.len() - 1 ==> (#[trigger] rs[k]) is Ok
                &&& rs.len() < a.length ==> rs.len() > 0 && rs.last() is Err
                &&& (forall|k: int|
                    0 <= k < a.length - 1 ==> (#[trigger] Self::item_at(
                        a.bytes,
                        a.argument,
                        k * Item::SIZE,
                    )) is Ok) ==> rs.len() == a.length
            }),
    {
        let it = Array::<Item>::start(a);
        let rs = Self::results(it);
        Self::results_at_strides(it);
        if rs.len() < a.length {
            let k = rs.len() - 1;
            assert(rs[k] == Self::item_at(a.bytes, a.argument, k * Item::SIZE));
        }
    }
}

impl<'buf, Item> ArrayIter<'buf, Item> where Item: DeclarativeWithArgs<'buf> {
    /// A step never changes the array's length or argument, never counts past
    /// the length, and a pass that has ended stays ended: it yields nothing
    /// more, whatever it yielded last.
    pub proof fn ended_pass_stays_ended(it: ArrayIterView<Item::Argument>)
        ensures
            Self::after(it).length == it.length,
            Self::after(it).argument == it.argument,
            it.position <= it.length ==> Self::after(it).position <= it.length,
            Self::ended(it) ==> Self::after(it) == it && Self::current(it) is None
                && Self::results(it) == Seq::<Result<Item::V, Error>>::empty(),
            Self::current(it) is Some && Self::current(it)->Some_0 is Err ==> Self::ended(
                Self::after(it),
            ),
    {
    }

    /// A pass over an array without items ends at once: it yields nothing, and
    /// no decode is attempted.
    pub proof fn empty_array_yields_nothing(a: ArrayView<Item::Argument>)
        requires
            a.length == 0,
        ensures
            Self::current(Array::<Item>::start(a)) is None,
            Self::after(Array::<Item>::start(a)) == Array::<Item>::start(a),
            Self::results(Array::<Item>::start(a)) == Seq::<Result<Item::V, Error>>::empty(),
    {
    }
}

} // verus!
