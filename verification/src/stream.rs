//! A source of bytes with a cursor.
//!
//! The decoder asks three things of a stream: the byte under the cursor, a
//! run of bytes from the cursor on, and moving the cursor. [`ByteStream`]
//! states them over the bytes that the stream holds and the cursor's
//! position; [`Buffer`] is the stream over bytes in memory.

use vstd::prelude::*;

verus! {

/// A run of bytes and a cursor into it. The cursor may stand anywhere, also
/// behind the last byte; reading asks that a byte is under it.
pub trait ByteStream {
    /// The bytes that the stream holds.
    spec fn content(&self) -> Seq<u8>;

    /// The index of the byte under the cursor.
    spec fn position(&self) -> nat;

    /// The number of bytes that the stream holds.
    fn length(&mut self) -> (length: usize)
        ensures
            final(self).content() == old(self).content(),
            final(self).position() == old(self).position(),
            length == old(self).content().len(),
    ;

    /// The byte under the cursor; the cursor then moves on by one.
    fn get_next(&mut self) -> (byte: u8)
        requires
            old(self).position() < old(self).content().len(),
        ensures
            final(self).content() == old(self).content(),
            final(self).position() == old(self).position() + 1,
            byte == old(self).content()[old(self).position() as int],
    ;

    /// The byte `position` places from the cursor, forwards or backwards.
    fn get_relative(&mut self, position: isize) -> (byte: u8)
        requires
            0 <= old(self).position() + position < old(self).content().len(),
        ensures
            final(self).content() == old(self).content(),
            final(self).position() == old(self).position(),
            byte == old(self).content()[old(self).position() + position],
    ;

    /// Move the cursor to index `cursor`.
    fn set_cursor(&mut self, cursor: usize)
        ensures
            final(self).content() == old(self).content(),
            final(self).position() == cursor,
    ;

    /// The index that the cursor stands on.
    fn get_cursor(&mut self) -> (cursor: usize)
        ensures
            final(self).content() == old(self).content(),
            final(self).position() == old(self).position(),
            cursor == old(self).position(),
    ;

    /// The byte under the cursor.
    fn get_current(&mut self) -> (byte: u8)
        requires
            old(self).position() < old(self).content().len(),
        ensures
            final(self).content() == old(self).content(),
            final(self).position() == old(self).position(),
            byte == old(self).content()[old(self).position() as int],
    ;

    /// The byte at index `point`.
    fn get_at(&mut self, point: usize) -> (byte: u8)
        requires
            point < old(self).content().len(),
        ensures
            final(self).content() == old(self).content(),
            final(self).position() == old(self).position(),
            byte == old(self).content()[point as int],
    ;
}

/// Whether `count` bytes can be read from position `cursor` on.
pub open spec fn available(bytes: Seq<u8>, cursor: nat, count: nat) -> bool {
    cursor + count <= bytes.len()
}

/// The `count` bytes from position `cursor` on.
pub open spec fn window(bytes: Seq<u8>, cursor: nat, count: nat) -> Seq<u8> {
    bytes.subrange(cursor as int, (cursor + count) as int)
}

/// Read `count` bytes and move the cursor behind them. Where the stream is
/// too short nothing is read and the cursor stays.
pub fn read_exact<S: ByteStream>(stream: &mut S, count: usize) -> (read: Option<Vec<u8>>)
    ensures
        final(stream).content() == old(stream).content(),
        available(old(stream).content(), old(stream).position(), count as nat) ==> read.is_some()
            && read.unwrap()@ == window(
            old(stream).content(),
            old(stream).position(),
            count as nat,
        ) && final(stream).position() == old(stream).position() + count,
        !available(old(stream).content(), old(stream).position(), count as nat) ==> read.is_none()
            && final(stream).position() == old(stream).position(),
{
    let length: usize = stream.length();
    let cursor: usize = stream.get_cursor();
    if cursor > length || length - cursor < count {
        return None;
    }
    let ghost bytes = stream.content();
    let mut read: Vec<u8> = Vec::new();
    let mut done: usize = 0;
    while done < count
        invariant
            done <= count,
            cursor + count <= length,
            length == bytes.len(),
            stream.content() == bytes,
            stream.position() == cursor + done,
            read@ == bytes.subrange(cursor as int, cursor + done),
        decreases count - done,
    {
        let byte: u8 = stream.get_next();
        read.push(byte);
        done = done + 1;
        assert(read@ =~= bytes.subrange(cursor as int, cursor + done));
    }
    Some(read)
}

/// A stream over bytes in memory.
#[derive(Debug)]
pub struct Buffer {
    pub bytes: Vec<u8>,
    pub cursor: usize,
}

impl Buffer {
    /// A stream over `bytes` with the cursor on the first of them.
    pub fn new(bytes: Vec<u8>) -> (buffer: Buffer)
        ensures
            buffer.bytes@ == bytes@,
            buffer.cursor == 0,
    {
        Buffer { bytes, cursor: 0 }
    }
}

impl ByteStream for Buffer {
    open spec fn content(&self) -> Seq<u8> {
        self.bytes@
    }

    open spec fn position(&self) -> nat {
        self.cursor as nat
    }

    fn length(&mut self) -> (length: usize) {
        self.bytes.len()
    }

    fn get_next(&mut self) -> (byte: u8) {
        let length: usize = self.bytes.len();
        let result: u8 = self.bytes[self.cursor];
        self.cursor += 1;
        result
    }

    fn get_relative(&mut self, position: isize) -> (byte: u8) {
        let length: usize = self.bytes.len();
        if position >= 0 {
            self.bytes[self.cursor + position as usize]
        } else {
            let back: usize = (-(position + 1)) as usize + 1;
            self.bytes[self.cursor - back]
        }
    }

    fn set_cursor(&mut self, cursor: usize) {
        self.cursor = cursor;
    }

    fn get_cursor(&mut self) -> (cursor: usize) {
        self.cursor
    }

    fn get_current(&mut self) -> (byte: u8) {
        self.bytes[self.cursor]
    }

    fn get_at(&mut self, point: usize) -> (byte: u8) {
        self.bytes[point]
    }
}

} // verus!
