//! Parameter stores that remember whether their value has reached the shader.
//!
//! A store holds one parameter block and a flag that is raised by every `set`
//! and lowered by `upload`. `upload` hands out the bytes that have to be
//! written to the block's buffer, and hands out nothing while the buffer is up
//! to date, so a frame writes each buffer at most once however often the value
//! changed.

use vstd::prelude::*;

verus! {

/// A parameter block: a value that the shader reads as a run of 32-bit words.
pub trait Block: Sized {
    /// The words of the block, in the order of its fields.
    spec fn words(&self) -> Seq<u32>;

    /// The words of the block, in the order of its fields.
    fn to_words(&self) -> (words: Vec<u32>)
        ensures
            words@ == self.words(),
    ;
}

/// Byte `k` of a word, byte 0 being the least significant.
pub open spec fn byte_of(word: u32, k: int) -> u8 {
    if k == 0 {
        (word % 0x100) as u8
    } else if k == 1 {
        (word / 0x100 % 0x100) as u8
    } else if k == 2 {
        (word / 0x1_0000 % 0x100) as u8
    } else {
        (word / 0x100_0000) as u8
    }
}

/// The words laid out one after the other, each with its least significant
/// byte first.
pub open spec fn little_endian(words: Seq<u32>) -> Seq<u8> {
    Seq::new(4 * words.len(), |i: int| byte_of(words[i / 4], i % 4))
}

/// The words laid out one after the other, each with its most significant
/// byte first.
pub open spec fn big_endian(words: Seq<u32>) -> Seq<u8> {
    Seq::new(4 * words.len(), |i: int| byte_of(words[i / 4], 3 - i % 4))
}

/// `bytes` is what `words` look like in memory: four bytes a word, without
/// padding, in the one byte order of the machine.
pub open spec fn memory_image(bytes: Seq<u8>, words: Seq<u32>) -> bool {
    bytes == little_endian(words) || bytes == big_endian(words)
}

/// The number that four bytes spell, the first being the least significant.
pub open spec fn spelled(b0: u8, b1: u8, b2: u8, b3: u8) -> int {
    b0 + 0x100 * b1 + 0x1_0000 * b2 + 0x100_0000 * b3
}

/// An image holds its words and nothing else: it has four bytes for each
/// word, and the four bytes of a word, read in the byte order of the image,
/// spell the word.
pub proof fn image_spells_words(words: Seq<u32>, i: int)
    requires
        0 <= i < words.len(),
    ensures
        little_endian(words).len() == 4 * words.len(),
        big_endian(words).len() == 4 * words.len(),
        spelled(
            little_endian(words)[4 * i],
            little_endian(words)[4 * i + 1],
            little_endian(words)[4 * i + 2],
            little_endian(words)[4 * i + 3],
        ) == words[i],
        spelled(
            big_endian(words)[4 * i + 3],
            big_endian(words)[4 * i + 2],
            big_endian(words)[4 * i + 1],
            big_endian(words)[4 * i],
        ) == words[i],
{
}

/// The bytes of `words` as they lie in memory, from `bytemuck::cast_slice`.
///
/// Not proved: that the cast from `u32` to `u8` returns, and that the slice it
/// gives is the memory of the words, so four bytes for each word, in the byte
/// order of the machine, little-endian or big-endian.
#[verifier::external_body]
fn cast_words(words: &Vec<u32>) -> (bytes: Vec<u8>)
    ensures
        memory_image(bytes@, words@),
{
    bytemuck::cast_slice::<u32, u8>(words.as_slice()).to_vec()
}

/// One use of a store.
pub enum Access<T> {
    Assign(T),
    Upload,
}

/// A parameter value with the flag that says whether the shader's copy is
/// behind.
pub struct Uniform<T> {
    value: T,
    should_update: bool,
}

impl<T> Uniform<T> {
    /// The value that the store holds.
    pub closed spec fn value(self) -> T {
        self.value
    }

    /// The value has changed since it was last handed out for writing.
    pub closed spec fn dirty(self) -> bool {
        self.should_update
    }

    /// The store after one use.
    pub closed spec fn after(self, access: Access<T>) -> Self {
        match access {
            Access::Assign(value) => Uniform { value, should_update: true },
            Access::Upload => Uniform { value: self.value, should_update: false },
        }
    }

    /// The number of buffer writes that one use causes.
    pub open spec fn writes(self, access: Access<T>) -> nat {
        match access {
            Access::Assign(_) => 0,
            Access::Upload => if self.dirty() { 1 } else { 0 },
        }
    }

    /// The store after a run of uses.
    pub open spec fn after_all(self, trace: Seq<Access<T>>) -> Self
        decreases trace.len(),
    {
        if trace.len() == 0 {
            self
        } else {
            self.after_all(trace.drop_last()).after(trace.last())
        }
    }

    /// The number of buffer writes that a run of uses causes.
    pub open spec fn writes_all(self, trace: Seq<Access<T>>) -> nat
        decreases trace.len(),
    {
        if trace.len() == 0 {
            0
        } else {
            self.writes_all(trace.drop_last()) + self.after_all(trace.drop_last()).writes(
                trace.last(),
            )
        }
    }
}

impl<T: Block> Uniform<T> {
    /// A store of `value` whose buffer is taken to hold `value` already: the
    /// buffer is created from [`Uniform::contents`].
    pub fn new(value: T) -> (r: Self)
        ensures
            r.value() == value,
            !r.dirty(),
            r.writes(Access::Upload) == 0,
    {
        Uniform { value, should_update: false }
    }

    /// The bytes of the value, as the buffer holds them.
    pub fn contents(&self) -> (bytes: Vec<u8>)
        ensures
            memory_image(bytes@, self.value().words()),
            bytes@.len() == 4 * self.value().words().len(),
    {
        let words = self.value.to_words();
        cast_words(&words)
    }

    /// Replaces the value and marks the buffer as behind.
    pub fn set(&mut self, value: T)
        ensures
            *final(self) == old(self).after(Access::Assign(value)),
            final(self).value() == value,
            final(self).dirty(),
    {
        self.value = value;
        self.should_update = true;
    }

    /// Hands out the bytes to write to the buffer if the value has changed
    /// since the last call, and marks the buffer as up to date.
    pub fn upload(&mut self) -> (bytes: Option<Vec<u8>>)
        ensures
            *final(self) == old(self).after(Access::Upload),
            final(self).value() == old(self).value(),
            !final(self).dirty(),
            bytes is Some <==> old(self).dirty(),
            bytes is Some <==> old(self).writes(Access::Upload) == 1,
            bytes is Some ==> memory_image(bytes->0@, old(self).value().words()),
            bytes is Some ==> bytes->0@.len() == 4 * old(self).value().words().len(),
    {
        if self.should_update {
            let bytes = self.contents();
            self.should_update = false;
            Some(bytes)
        } else {
            None
        }
    }
}

impl<T> core::ops::Deref for Uniform<T> {
    type Target = T;

    /// The value that the store holds.
    fn deref(&self) -> (value: &T)
        ensures
            *value == self.value(),
    {
        &self.value
    }
}

/// The uses that assign `values` one after the other.
pub open spec fn assignments<T>(values: Seq<T>) -> Seq<Access<T>> {
    Seq::new(values.len(), |i: int| Access::Assign(values[i]))
}

/// What one use does to a store: an assignment leaves the store behind on the
/// value assigned, an upload leaves it up to date on the value it had.
pub proof fn effect_of_access<T>(store: Uniform<T>, access: Access<T>)
    ensures
        access matches Access::Assign(value) ==> store.after(access).value() == value
            && store.after(access).dirty(),
        access is Upload ==> store.after(access).value() == store.value() && !store.after(
            access,
        ).dirty(),
{
}

/// An upload writes nothing when the value was not set since the upload
/// before it.
pub proof fn upload_after_upload_writes_nothing<T>(store: Uniform<T>)
    ensures
        store.after(Access::Upload).writes(Access::Upload) == 0,
        store.after(Access::Upload).after(Access::Upload) == store.after(Access::Upload),
{
}

/// Assignments alone write nothing, and leave the store behind on the last
/// value assigned.
pub proof fn assignments_write_nothing<T>(store: Uniform<T>, values: Seq<T>)
    ensures
        store.writes_all(assignments(values)) == 0,
        values.len() > 0 ==> store.after_all(assignments(values)).dirty(),
        values.len() > 0 ==> store.after_all(assignments(values)).value() == values.last(),
        values.len() == 0 ==> store.after_all(assignments(values)) == store,
    decreases values.len(),
{
    if values.len() > 0 {
        assignments_write_nothing(store, values.drop_last());
        assert(assignments(values).drop_last() =~= assignments(values.drop_last()));
    }
}

/// However often the value was set since the last upload, once or more, the
/// next upload is the one write that follows, and it leaves the store up to
/// date on the last value set.
pub proof fn upload_after_assignments_writes_once<T>(store: Uniform<T>, values: Seq<T>)
    requires
        values.len() > 0,
    ensures
        store.writes_all(assignments(values).push(Access::Upload)) == 1,
        store.after_all(assignments(values).push(Access::Upload)).value() == values.last(),
        !store.after_all(assignments(values).push(Access::Upload)).dirty(),
{
    assignments_write_nothing(store, values);
    let trace = assignments(values).push(Access::Upload);
    assert(trace.drop_last() =~= assignments(values));
}

} // verus!
