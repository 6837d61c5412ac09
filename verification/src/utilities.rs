//! Names as Vulkan hands them out: fixed-size, NUL-terminated character
//! arrays, and lists of such names.

use vstd::prelude::*;
use vstd::string::StringExecFns;
use vstd::utf8::{
    decode_utf8, encode_utf8, encode_utf8_decode_utf8, encode_utf8_valid_utf8, valid_utf8,
};

verus! {

/// Why a character array is not a name.
#[derive(Clone, Copy, Debug, PartialEq, Eq, Structural)]
pub enum NameError {
    /// The array holds no NUL character.
    NotTerminated,
    /// The characters before the first NUL are not UTF-8.
    NotUtf8,
}

/// The index of the first NUL in `raw`, or its length where there is none.
pub open spec fn terminator_index(raw: Seq<i8>) -> int
    decreases raw.len(),
{
    if raw.len() == 0 || raw[0] == 0 {
        0
    } else {
        1 + terminator_index(raw.drop_first())
    }
}

/// The bytes of `raw` before its first NUL.
pub open spec fn c_string_bytes(raw: Seq<i8>) -> Seq<u8> {
    Seq::new(terminator_index(raw) as nat, |i: int| raw[i] as u8)
}

/// What `vk_to_string` answers for `raw`.
pub open spec fn vk_to_string_spec(raw: Seq<i8>) -> Result<Seq<char>, NameError> {
    if terminator_index(raw) >= raw.len() {
        Err(NameError::NotTerminated)
    } else if !valid_utf8(c_string_bytes(raw)) {
        Err(NameError::NotUtf8)
    } else {
        Ok(decode_utf8(c_string_bytes(raw)))
    }
}

/// `name` is among `offered`.
pub open spec fn name_offered(name: Seq<char>, offered: Seq<String>) -> bool {
    exists|j: int| 0 <= j < offered.len() && (#[trigger] offered[j])@ == name
}

/// Every one of `required` is among `offered`.
pub open spec fn names_offered(required: Seq<&'static str>, offered: Seq<String>) -> bool {
    forall|i: int| 0 <= i < required.len() ==> name_offered((#[trigger] required[i])@, offered)
}

/// The terminator index is the first position that holds a NUL.
pub proof fn lemma_terminator_index(raw: Seq<i8>)
    ensures
        0 <= terminator_index(raw) <= raw.len(),
        forall|i: int| 0 <= i < terminator_index(raw) ==> raw[i] != 0,
        terminator_index(raw) < raw.len() ==> raw[terminator_index(raw)] == 0,
    decreases raw.len(),
{
    if raw.len() == 0 || raw[0] == 0 {
    } else {
        let rest = raw.drop_first();
        lemma_terminator_index(rest);
        assert forall|i: int| 0 <= i < terminator_index(raw) implies raw[i] != 0 by {
            if i > 0 {
                assert(rest[i - 1] == raw[i]);
            }
        }
        if terminator_index(rest) < rest.len() {
            assert(rest[terminator_index(rest)] == raw[terminator_index(rest) + 1]);
        }
    }
}

/// A position that holds the first NUL, or the length where no position does,
/// is the terminator index.
pub proof fn lemma_terminator_index_is(raw: Seq<i8>, at: int)
    requires
        0 <= at <= raw.len(),
        forall|i: int| 0 <= i < at ==> raw[i] != 0,
        at < raw.len() ==> raw[at] == 0,
    ensures
        terminator_index(raw) == at,
{
    lemma_terminator_index(raw);
    let found = terminator_index(raw);
    if found < at {
        assert(raw[found] != 0);
    }
}

/// The character array of `length` characters that holds `name` followed by NULs.
pub open spec fn c_string_of(name: Seq<char>, length: nat) -> Seq<i8> {
    Seq::new(
        length,
        |i: int|
            if i < encode_utf8(name).len() {
                encode_utf8(name)[i] as i8
            } else {
                0i8
            },
    )
}

/// A name is read back from the array it was written to: whatever text holds
/// no NUL and leaves room for one comes out of its array unchanged.
pub proof fn lemma_name_reads_back(name: Seq<char>, length: nat)
    requires
        encode_utf8(name).len() < length,
        forall|i: int| 0 <= i < encode_utf8(name).len() ==> encode_utf8(name)[i] != 0,
    ensures
        vk_to_string_spec(c_string_of(name, length)) == Ok::<Seq<char>, NameError>(name),
{
    let bytes = encode_utf8(name);
    let raw = c_string_of(name, length);
    assert forall|i: int| 0 <= i < bytes.len() implies raw[i] != 0 && raw[i] as u8 == bytes[i] by {
        let byte = bytes[i];
        assert(byte != 0 ==> (byte as i8) != 0 && (byte as i8) as u8 == byte) by (bit_vector);
    }
    lemma_terminator_index_is(raw, bytes.len() as int);
    assert(c_string_bytes(raw) =~= bytes);
    encode_utf8_valid_utf8(name);
    encode_utf8_decode_utf8(name);
}

/// Calls `String::from_utf8`, which accepts exactly the byte vectors that are
/// valid UTF-8 and then yields the string made of these bytes.
#[verifier::external_body]
fn string_from_utf8(bytes: Vec<u8>) -> (text: Option<String>)
    ensures
        valid_utf8(bytes@) ==> text is Some && encode_utf8(text->Some_0@) == bytes@,
        !valid_utf8(bytes@) ==> text is None,
{
    String::from_utf8(bytes).ok()
}

/// Reads the name held in a NUL-terminated character array.
pub fn vk_to_string(raw_string_array: &[i8]) -> (name: Result<String, NameError>)
    ensures
        match vk_to_string_spec(raw_string_array@) {
            Ok(text) => name is Ok && name->Ok_0@ == text,
            Err(error) => name == Err::<String, NameError>(error),
        },
{
    let mut bytes: Vec<u8> = Vec::new();
    let mut i: usize = 0;
    while i < raw_string_array.len() && raw_string_array[i] != 0
        invariant
            i <= raw_string_array@.len(),
            forall|j: int| 0 <= j < i ==> raw_string_array@[j] != 0,
            bytes@ == Seq::new(i as nat, |j: int| raw_string_array@[j] as u8),
        decreases raw_string_array@.len() - i,
    {
        bytes.push(raw_string_array[i] as u8);
        assert(bytes@ =~= Seq::new((i + 1) as nat, |j: int| raw_string_array@[j] as u8));
        i += 1;
    }
    proof {
        lemma_terminator_index_is(raw_string_array@, i as int);
    }
    if i == raw_string_array.len() {
        return Err(NameError::NotTerminated);
    }
    match string_from_utf8(bytes) {
        Some(text) => {
            proof {
                encode_utf8_decode_utf8(text@);
            }
            Ok(text)
        },
        None => Err(NameError::NotUtf8),
    }
}

/// Whether `name` is among `offered`.
pub fn contains_name(offered: &[String], name: &str) -> (found: bool)
    ensures
        found == name_offered(name@, offered@),
{
    let wanted = String::from_str(name);
    let mut j: usize = 0;
    while j < offered.len()
        invariant
            j <= offered@.len(),
            wanted@ == name@,
            forall|k: int| 0 <= k < j ==> (#[trigger] offered@[k])@ != name@,
        decreases offered@.len() - j,
    {
        if offered[j] == wanted {
            return true;
        }
        j += 1;
    }
    false
}

/// Whether every one of `required` is among `offered`.
pub fn contains_all_names(offered: &[String], required: &[&'static str]) -> (complete: bool)
    ensures
        complete == names_offered(required@, offered@),
{
    let mut i: usize = 0;
    while i < required.len()
        invariant
            i <= required@.len(),
            forall|k: int| 0 <= k < i ==> name_offered((#[trigger] required@[k])@, offered@),
        decreases required@.len() - i,
    {
        if !contains_name(offered, required[i]) {
            return false;
        }
        i += 1;
    }
    true
}

} // verus!
