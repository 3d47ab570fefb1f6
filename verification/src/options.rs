//! Option descriptors and the typed accessors on them.
//!
//! An option is one setting of an open device, addressed by its index. Its
//! descriptor says what type its value has, how many bytes it takes, and which
//! values are legal. Each accessor comes in two parts: one that checks the
//! descriptor and says what to hand to the backend, and one that takes the
//! backend's answer.

use crate::status::{result_of, Error, SANE_STATUS_GOOD};
use vstd::prelude::*;
use vstd::string::StringSliceAdditionalSpecFns;

verus! {

pub const SANE_TYPE_BOOL: u32 = 0;

pub const SANE_TYPE_INT: u32 = 1;

pub const SANE_TYPE_FIXED: u32 = 2;

pub const SANE_TYPE_STRING: u32 = 3;

pub const SANE_TYPE_BUTTON: u32 = 4;

pub const SANE_TYPE_GROUP: u32 = 5;

pub const SANE_CONSTRAINT_NONE: u32 = 0;

pub const SANE_CONSTRAINT_RANGE: u32 = 1;

pub const SANE_CONSTRAINT_WORD_LIST: u32 = 2;

pub const SANE_CONSTRAINT_STRING_LIST: u32 = 3;

pub const SANE_ACTION_GET_VALUE: u32 = 0;

pub const SANE_ACTION_SET_VALUE: u32 = 1;

pub const SANE_INFO_INEXACT: i32 = 1;

pub const SANE_INFO_RELOAD_OPTIONS: i32 = 2;

pub const SANE_INFO_RELOAD_PARAMS: i32 = 4;

/// The number of bytes that an integer or fixed-point value takes.
pub const WORD_SIZE: i32 = 4;

/// The legal values of a range-constrained option: from `min` to `max`, in
/// steps of `quant` where that is not zero.
#[derive(Clone, Copy, Debug, PartialEq, Eq, Structural)]
pub struct Range {
    pub min: i32,
    pub max: i32,
    pub quant: i32,
}

impl Range {
    pub fn min(&self) -> (min: i32)
        ensures
            min == self.min,
    {
        self.min
    }

    pub fn max(&self) -> (max: i32)
        ensures
            max == self.max,
    {
        self.max
    }

    pub fn quant(&self) -> (quant: i32)
        ensures
            quant == self.quant,
    {
        self.quant
    }
}

/// What limits the values of an option.
#[derive(Debug)]
pub enum Constraint {
    /// Any value of the option's type is legal.
    Free,
    Range(Range),
    WordList(Vec<i32>),
    StringList(Vec<String>),
}

/// Whether `raw` is a list of words with its length in front: a first word
/// that counts the words after it.
pub open spec fn is_counted(raw: Seq<i32>) -> bool {
    raw.len() >= 1 && raw[0] == raw.len() - 1
}

impl Constraint {
    /// The word-list constraint whose values are given with their count in
    /// front, as the backend stores them. A list without its count, or whose
    /// count is not the number of the words that follow, is `Error::Protocol`.
    pub fn from_counted_words(raw: &[i32]) -> (r: Result<Constraint, Error>)
        ensures
            r is Ok <==> is_counted(raw@),
            r matches Ok(c) ==> c matches Constraint::WordList(words) && words@ == raw@.skip(1),
            r matches Err(e) ==> e == Error::Protocol,
    {
        if raw.len() < 1 {
            return Err(Error::Protocol);
        }
        let count = raw[0];
        if count < 0 || count as usize != raw.len() - 1 {
            return Err(Error::Protocol);
        }
        let mut words: Vec<i32> = Vec::new();
        let mut i: usize = 1;
        while i < raw.len()
            invariant
                1 <= i <= raw.len(),
                words@ == raw@.subrange(1, i as int),
            decreases raw.len() - i,
        {
            words.push(raw[i]);
            assert(words@ =~= raw@.subrange(1, i + 1));
            i = i + 1;
        }
        assert(words@ =~= raw@.skip(1));
        Ok(Constraint::WordList(words))
    }
}

/// The metadata of one option.
#[derive(Debug)]
pub struct Descriptor {
    pub name: String,
    pub desc: String,
    pub type_: u32,
    pub size: i32,
    pub constraint: Constraint,
}

impl Descriptor {
    /// Whether the value is a string.
    pub open spec fn holds_string(&self) -> bool {
        self.type_ == SANE_TYPE_STRING
    }

    /// Whether the value is one word: an integer or a fixed-point number, in
    /// the size of a word.
    pub open spec fn holds_word(&self) -> bool {
        (self.type_ == SANE_TYPE_INT || self.type_ == SANE_TYPE_FIXED) && self.size == WORD_SIZE
    }

    /// Whether this is what the descriptor of option 0 must be: an integer in
    /// the size of a word.
    pub open spec fn holds_count(&self) -> bool {
        self.type_ == SANE_TYPE_INT && self.size == WORD_SIZE
    }

    pub fn name(&self) -> (name: &str)
        ensures
            name@ == self.name@,
    {
        self.name.as_str()
    }

    pub fn desc(&self) -> (desc: &str)
        ensures
            desc@ == self.desc@,
    {
        self.desc.as_str()
    }

    pub fn type_(&self) -> (type_: u32)
        ensures
            type_ == self.type_,
    {
        self.type_
    }

    pub fn size(&self) -> (size: i32)
        ensures
            size == self.size,
    {
        self.size
    }

    pub fn is_string(&self) -> (b: bool)
        ensures
            b == self.holds_string(),
    {
        self.type_ == SANE_TYPE_STRING
    }

    pub fn is_word(&self) -> (b: bool)
        ensures
            b == self.holds_word(),
    {
        (self.type_ == SANE_TYPE_INT || self.type_ == SANE_TYPE_FIXED) && self.size == WORD_SIZE
    }

    pub fn is_count(&self) -> (b: bool)
        ensures
            b == self.holds_count(),
    {
        self.type_ == SANE_TYPE_INT && self.size == WORD_SIZE
    }
}

/// What a write did beside setting the value, as the backend reports it.
#[derive(Clone, Copy, Debug, PartialEq, Eq, Structural)]
pub struct Info(pub i32);

impl Info {
    /// The value that was set is not the one that was asked for.
    pub fn inexact(self) -> (b: bool)
        ensures
            b == (self.0 & SANE_INFO_INEXACT != 0),
    {
        self.0 & SANE_INFO_INEXACT != 0
    }

    /// Other options may have changed: the descriptors are to be read again.
    pub fn reload_options(self) -> (b: bool)
        ensures
            b == (self.0 & SANE_INFO_RELOAD_OPTIONS != 0),
    {
        self.0 & SANE_INFO_RELOAD_OPTIONS != 0
    }

    /// The scan parameters may have changed.
    pub fn reload_params(self) -> (b: bool)
        ensures
            b == (self.0 & SANE_INFO_RELOAD_PARAMS != 0),
    {
        self.0 & SANE_INFO_RELOAD_PARAMS != 0
    }
}

/// The position of the first zero byte in `bytes`, or their number where
/// there is none.
pub open spec fn first_nul(bytes: Seq<u8>) -> int
    decreases bytes.len(),
{
    if bytes.len() == 0 || bytes[0] == 0 {
        0
    } else {
        1 + first_nul(bytes.drop_first())
    }
}

/// The text in a buffer: the bytes before the first zero byte, or all of them
/// where there is none.
pub open spec fn text_of(buffer: Seq<u8>) -> Seq<u8> {
    buffer.take(first_nul(buffer))
}

/// The first zero byte is where no byte before it is zero and the text ends
/// at a zero byte or at the end of the buffer.
pub proof fn lemma_first_nul(bytes: Seq<u8>)
    ensures
        0 <= first_nul(bytes) <= bytes.len(),
        forall|i: int| 0 <= i < first_nul(bytes) ==> bytes[i] != 0,
        first_nul(bytes) < bytes.len() ==> bytes[first_nul(bytes)] == 0,
    decreases bytes.len(),
{
    if bytes.len() == 0 || bytes[0] == 0 {
    } else {
        let rest = bytes.drop_first();
        lemma_first_nul(rest);
        assert forall|i: int| 0 <= i < first_nul(bytes) implies bytes[i] != 0 by {
            if i > 0 {
                assert(bytes[i] == rest[i - 1]);
            }
        }
        if first_nul(bytes) < bytes.len() {
            assert(bytes[first_nul(bytes)] == rest[first_nul(rest)]);
        }
    }
}

/// A position with no zero byte before it and a zero byte, or the end, at it
/// is the first zero byte.
pub proof fn lemma_first_nul_is(bytes: Seq<u8>, n: int)
    requires
        0 <= n <= bytes.len(),
        forall|i: int| 0 <= i < n ==> bytes[i] != 0,
        n < bytes.len() ==> bytes[n] == 0,
    ensures
        first_nul(bytes) == n,
{
    lemma_first_nul(bytes);
    let m = first_nul(bytes);
    if m < n {
        assert(bytes[m] == 0);
    } else if n < m {
        assert(bytes[n] != 0);
    }
}

/// The bytes of `buffer` before its first zero byte, or all of them where
/// there is none.
pub fn until_nul(buffer: &[u8]) -> (text: Vec<u8>)
    ensures
        text@ == text_of(buffer@),
{
    let mut text: Vec<u8> = Vec::new();
    let mut i: usize = 0;
    while i < buffer.len() && buffer[i] != 0
        invariant
            i <= buffer.len(),
            text@ == buffer@.take(i as int),
            forall|k: int| 0 <= k < i ==> buffer@[k] != 0,
        decreases buffer.len() - i,
    {
        text.push(buffer[i]);
        assert(text@ =~= buffer@.take(i + 1));
        i = i + 1;
    }
    proof {
        lemma_first_nul_is(buffer@, i as int);
    }
    text
}

/// No byte of the text in a buffer is zero, and the text is no longer than the
/// buffer. Where the buffer holds a zero byte, the text leaves room for it:
/// it is shorter than the buffer.
pub proof fn lemma_text_fits(buffer: Seq<u8>)
    ensures
        text_of(buffer).len() <= buffer.len(),
        forall|i: int| 0 <= i < text_of(buffer).len() ==> text_of(buffer)[i] != 0,
        buffer.contains(0u8) ==> text_of(buffer).len() <= buffer.len() - 1,
        !buffer.contains(0u8) ==> text_of(buffer) == buffer,
{
    lemma_first_nul(buffer);
    let n = first_nul(buffer);
    if buffer.contains(0u8) {
        let k = choose|k: int| 0 <= k < buffer.len() && buffer[k] == 0u8;
        assert(n <= k);
    } else {
        if n < buffer.len() {
            assert(buffer[n] == 0u8);
        }
        assert(buffer.take(n) =~= buffer);
    }
}

/// What is handed to the backend with a request.
#[derive(Debug)]
pub enum Payload {
    /// A buffer of bytes, to be filled or to be read.
    Bytes(Vec<u8>),
    /// One word, to be overwritten or to be read.
    Word(i32),
}

/// One call of the backend's option control: which option, whether to get or
/// to set, and the value buffer.
#[derive(Debug)]
pub struct Request {
    pub index: usize,
    pub action: u32,
    pub payload: Payload,
}

/// One option of an open device: its index and its descriptor.
#[derive(Debug)]
pub struct Opt<'a> {
    pub descriptor: &'a Descriptor,
    pub index: usize,
}

impl<'a> Opt<'a> {
    /// The result of reading a string: the text in `buffer`, where the option
    /// is a string, the backend answered with success and the buffer has the
    /// size that the descriptor gives.
    pub open spec fn string_outcome(&self, status: u32, buffer: Seq<u8>) -> Result<
        Seq<u8>,
        Error,
    > {
        if !self.descriptor.holds_string() {
            Err(Error::WrongType)
        } else if status != SANE_STATUS_GOOD {
            Err(Error::Status(status))
        } else if buffer.len() != self.descriptor.size {
            Err(Error::BadLength)
        } else {
            Ok(text_of(buffer))
        }
    }

    /// What refuses the writing of a string, if anything does: an option that
    /// is no string, or a value that, with its terminator, takes more bytes
    /// than the descriptor gives.
    pub open spec fn write_refusal(&self, value: Seq<u8>) -> Option<Error> {
        if !self.descriptor.holds_string() {
            Some(Error::WrongType)
        } else if value.len() + 1 > self.descriptor.size {
            Some(Error::TooLong)
        } else {
            None
        }
    }

    /// The result of a call on an option that must hold one word.
    pub open spec fn word_outcome(&self, status: u32) -> Result<(), Error> {
        if !self.descriptor.holds_word() {
            Err(Error::WrongType)
        } else {
            result_of(status)
        }
    }

    pub fn name(&self) -> (name: &str)
        ensures
            name@ == self.descriptor.name@,
    {
        self.descriptor.name()
    }

    pub fn desc(&self) -> (desc: &str)
        ensures
            desc@ == self.descriptor.desc@,
    {
        self.descriptor.desc()
    }

    /// The legal values of an option that is constrained by a list of
    /// strings. On any other option this is `Error::WrongType`.
    pub fn string_constraints(&self) -> (r: Result<&'a Vec<String>, Error>)
        ensures
            r is Ok <==> self.descriptor.constraint is StringList,
            r matches Ok(list) ==> *list == self.descriptor.constraint->StringList_0,
            r matches Err(e) ==> e == Error::WrongType,
    {
        match &self.descriptor.constraint {
            Constraint::StringList(list) => Ok(list),
            _ => Err(Error::WrongType),
        }
    }

    /// The legal values of an option that is constrained by a list of words.
    /// On any other option this is `Error::WrongType`.
    pub fn int_constraints(&self) -> (r: Result<&'a [i32], Error>)
        ensures
            r is Ok <==> self.descriptor.constraint is WordList,
            r matches Ok(list) ==> list@ == self.descriptor.constraint->WordList_0@,
            r matches Err(e) ==> e == Error::WrongType,
    {
        match &self.descriptor.constraint {
            Constraint::WordList(list) => Ok(list.as_slice()),
            _ => Err(Error::WrongType),
        }
    }

    /// The range of an option that is constrained by one. On any other option
    /// this is `Error::WrongType`: no range is made up.
    pub fn get_range(&self) -> (r: Result<Range, Error>)
        ensures
            r is Ok <==> self.descriptor.constraint is Range,
            r matches Ok(range) ==> range == self.descriptor.constraint->Range_0,
            r matches Err(e) ==> e == Error::WrongType,
    {
        match &self.descriptor.constraint {
            Constraint::Range(range) => Ok(*range),
            _ => Err(Error::WrongType),
        }
    }

    /// The request that reads this option as a string: a buffer of zero
    /// bytes, of the size that the descriptor gives, for the backend to fill.
    ///
    /// `Error::WrongType` where the option is no string; `Error::BadLength`
    /// where the descriptor gives a negative size.
    pub fn string_request(&self) -> (r: Result<Request, Error>)
        ensures
            !self.descriptor.holds_string() ==> r == Err::<Request, Error>(Error::WrongType),
            self.descriptor.holds_string() && self.descriptor.size < 0 ==> r == Err::<
                Request,
                Error,
            >(Error::BadLength),
            self.descriptor.holds_string() && self.descriptor.size >= 0 ==> (r matches Ok(q) && {
                &&& q.index == self.index
                &&& q.action == SANE_ACTION_GET_VALUE
                &&& q.payload matches Payload::Bytes(buffer)
                &&& buffer@ == Seq::new(self.descriptor.size as nat, |i: int| 0u8)
            }),
    {
        if !self.descriptor.is_string() {
            return Err(Error::WrongType);
        }
        if self.descriptor.size < 0 {
            return Err(Error::BadLength);
        }
        let buffer: Vec<u8> = vec![0u8; self.descriptor.size as usize];
        assert(buffer@ =~= Seq::new(self.descriptor.size as nat, |i: int| 0u8));
        Ok(Request { index: self.index, action: SANE_ACTION_GET_VALUE, payload: Payload::Bytes(buffer) })
    }

    /// The string value of this option, from the backend's status and the
    /// buffer that it filled.
    ///
    /// The value is what stands in the buffer before the first zero byte, or
    /// the whole buffer where the backend wrote none. It holds no zero byte
    /// and is no longer than the descriptor's size.
    pub fn get_string(&self, status: u32, buffer: &[u8]) -> (r: Result<Vec<u8>, Error>)
        ensures
            match self.string_outcome(status, buffer@) {
                Ok(text) => r matches Ok(v) && v@ == text,
                Err(e) => r matches Err(f) && f == e,
            },
            r matches Ok(v) ==> {
                &&& v@.len() <= self.descriptor.size
                &&& forall|i: int| 0 <= i < v@.len() ==> v@[i] != 0
                &&& buffer@.contains(0u8) ==> v@.len() <= self.descriptor.size - 1
            },
    {
        if !self.descriptor.is_string() {
            return Err(Error::WrongType);
        }
        if status != SANE_STATUS_GOOD {
            return Err(Error::Status(status));
        }
        if self.descriptor.size < 0 || buffer.len() != self.descriptor.size as usize {
            return Err(Error::BadLength);
        }
        proof {
            lemma_text_fits(buffer@);
        }
        Ok(until_nul(buffer))
    }

    /// The request that writes `value` to this option as a string: the bytes
    /// of the value and a zero byte after them.
    ///
    /// `Error::WrongType` where the option is no string; `Error::TooLong`
    /// where the value with its terminator takes more bytes than the
    /// descriptor gives. In both cases there is nothing to hand to the
    /// backend.
    pub fn set_string_request(&self, value: &str) -> (r: Result<Request, Error>)
        ensures
            match self.write_refusal(value.spec_bytes()) {
                Some(e) => r matches Err(f) && f == e,
                None => r matches Ok(q) && {
                    &&& q.index == self.index
                    &&& q.action == SANE_ACTION_SET_VALUE
                    &&& q.payload matches Payload::Bytes(buffer)
                    &&& buffer@ == value.spec_bytes().push(0u8)
                },
            },
    {
        if !self.descriptor.is_string() {
            return Err(Error::WrongType);
        }
        let bytes = value.as_bytes();
        if self.descriptor.size < 0 || bytes.len() >= self.descriptor.size as usize {
            return Err(Error::TooLong);
        }
        let mut buffer: Vec<u8> = Vec::new();
        buffer.extend_from_slice(bytes);
        buffer.push(0u8);
        assert(buffer@ =~= value.spec_bytes().push(0u8));
        Ok(Request { index: self.index, action: SANE_ACTION_SET_VALUE, payload: Payload::Bytes(buffer) })
    }

    /// What the writing of a string did, from the backend's status and the
    /// flags that it set.
    pub fn set_string(&self, status: u32, info: i32) -> (r: Result<Info, Error>)
        ensures
            !self.descriptor.holds_string() ==> r == Err::<Info, Error>(Error::WrongType),
            self.descriptor.holds_string() ==> match result_of(status) {
                Ok(_) => r matches Ok(i) && i == Info(info),
                Err(e) => r matches Err(f) && f == e,
            },
    {
        if !self.descriptor.is_string() {
            return Err(Error::WrongType);
        }
        if status != SANE_STATUS_GOOD {
            return Err(Error::Status(status));
        }
        Ok(Info(info))
    }

    /// The request that reads this option as a word.
    ///
    /// `Error::WrongType` unless the option is an integer or a fixed-point
    /// number in the size of a word.
    pub fn int_request(&self) -> (r: Result<Request, Error>)
        ensures
            r is Ok <==> self.descriptor.holds_word(),
            r matches Err(e) ==> e == Error::WrongType,
            r matches Ok(q) ==> q.index == self.index && q.action == SANE_ACTION_GET_VALUE
                && q.payload == Payload::Word(0),
    {
        if !self.descriptor.is_word() {
            return Err(Error::WrongType);
        }
        Ok(Request { index: self.index, action: SANE_ACTION_GET_VALUE, payload: Payload::Word(0) })
    }

    /// The word value of this option, from the backend's status and the word
    /// that it wrote.
    pub fn get_int(&self, status: u32, value: i32) -> (r: Result<i32, Error>)
        ensures
            match self.word_outcome(status) {
                Ok(_) => r matches Ok(v) && v == value,
                Err(e) => r matches Err(f) && f == e,
            },
    {
        if !self.descriptor.is_word() {
            return Err(Error::WrongType);
        }
        if status != SANE_STATUS_GOOD {
            return Err(Error::Status(status));
        }
        Ok(value)
    }

    /// The request that writes `value` to this option as a word.
    ///
    /// `Error::WrongType` unless the option is an integer or a fixed-point
    /// number in the size of a word.
    pub fn set_int_request(&self, value: i32) -> (r: Result<Request, Error>)
        ensures
            r is Ok <==> self.descriptor.holds_word(),
            r matches Err(e) ==> e == Error::WrongType,
            r matches Ok(q) ==> q.index == self.index && q.action == SANE_ACTION_SET_VALUE
                && q.payload == Payload::Word(value),
    {
        if !self.descriptor.is_word() {
            return Err(Error::WrongType);
        }
        Ok(Request { index: self.index, action: SANE_ACTION_SET_VALUE, payload: Payload::Word(value) })
    }

    /// What the writing of a word did, from the backend's status, the word as
    /// the backend left it, and the flags that it set. The word may differ
    /// from the one that was asked for; the flags then say so.
    pub fn set_int(&self, status: u32, value: i32, info: i32) -> (r: Result<(i32, Info), Error>)
        ensures
            match self.word_outcome(status) {
                Ok(_) => r matches Ok(p) && p == (value, Info(info)),
                Err(e) => r matches Err(f) && f == e,
            },
    {
        if !self.descriptor.is_word() {
            return Err(Error::WrongType);
        }
        if status != SANE_STATUS_GOOD {
            return Err(Error::Status(status));
        }
        Ok((value, Info(info)))
    }
}

/// A string that is longer than the descriptor's size less one is never
/// handed to the backend: the request for it is refused.
pub proof fn lemma_long_string_is_refused(option: Opt, value: Seq<u8>)
    requires
        value.len() > option.descriptor.size - 1,
    ensures
        option.write_refusal(value) is Some,
{
}

/// A string that was read holds no zero byte and is no longer than the
/// descriptor's size. Where the backend terminated it, it is shorter, by the
/// terminator at least.
pub proof fn lemma_string_value_fits(option: Opt, status: u32, buffer: Seq<u8>)
    requires
        option.string_outcome(status, buffer) is Ok,
    ensures
        ({
            let text = option.string_outcome(status, buffer).unwrap();
            &&& text.len() <= option.descriptor.size
            &&& !text.contains(0u8)
            &&& buffer.contains(0u8) ==> text.len() <= option.descriptor.size - 1
        }),
{
    lemma_text_fits(buffer);
    let text = text_of(buffer);
    if text.contains(0u8) {
        let k = choose|k: int| 0 <= k < text.len() && text[k] == 0u8;
        assert(text[k] != 0);
    }
}

} // verus!
