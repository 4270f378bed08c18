//! An owned JSON document tree.
//!
//! The document mapper works on this tree rather than on the parser's own
//! value type, so that every step after parsing is ordinary verified code.
//! String scalars are held as their UTF-8 bytes, which is the form the
//! binary field codec consumes; object member names are held as text.
//! A number is reduced to the two readings the mapper ever takes of it:
//! its value as an unsigned integer, when it is one, and its value rounded
//! to a 32-bit IEEE 754 binary float, carried as the bit pattern.

use vstd::prelude::*;

verus! {

/// The two readings of a JSON number that the mapper uses.
pub struct NumData {
    /// The exact value, when the number is an unsigned integer that fits in
    /// `u64`; `None` for negative or fractional numbers.
    pub int: Option<u64>,
    /// The number rounded to 32-bit IEEE 754 binary floating point, as the
    /// bit pattern of that float.
    pub bits: Option<u32>,
}

/// Mathematical image of [`NumData`].
pub struct NumV {
    /// See [`NumData::int`].
    pub int: Option<u64>,
    /// See [`NumData::bits`].
    pub bits: Option<u32>,
}

/// One node of a JSON document.
pub enum JsonData {
    /// `null`
    Null,
    /// `true` or `false`
    Bool(bool),
    /// A number; see [`NumData`].
    Num(NumData),
    /// A string, as its UTF-8 bytes.
    Str(Vec<u8>),
    /// An array, in document order.
    Arr(Vec<JsonData>),
    /// An object: member names with their values, each name at most once.
    Obj(Vec<(String, JsonData)>),
}

/// Mathematical image of a [`JsonData`] tree.
pub enum JsonV {
    /// `null`
    Null,
    /// `true` or `false`
    Bool(bool),
    /// A number.
    Num(NumV),
    /// A string, as its UTF-8 bytes.
    Str(Seq<u8>),
    /// An array.
    Arr(Seq<JsonV>),
    /// An object, as a sequence of member name / value pairs.
    Obj(Seq<(Seq<char>, JsonV)>),
}

/// The image of a JSON node: what [`JsonData::view`] unfolds to.
pub open spec fn jview(d: JsonData) -> JsonV
    decreases d,
{
    match d {
        JsonData::Null => JsonV::Null,
        JsonData::Bool(b) => JsonV::Bool(b),
        JsonData::Num(n) => JsonV::Num(NumV { int: n.int, bits: n.bits }),
        JsonData::Str(s) => JsonV::Str(s@),
        JsonData::Arr(a) => JsonV::Arr(views_of(a@)),
        JsonData::Obj(o) => JsonV::Obj(entries_view(o@)),
    }
}

/// The images of a sequence of JSON nodes.
///
/// The index guard keeps the recursion inside the sequence, which is what
/// bounds it for the termination check.
pub open spec fn views_of(s: Seq<JsonData>) -> Seq<JsonV>
    decreases s,
{
    Seq::new(
        s.len(),
        |i: int|
            if 0 <= i < s.len() {
                jview(s[i])
            } else {
                JsonV::Null
            },
    )
}

impl View for JsonData {
    type V = JsonV;

    open spec fn view(&self) -> JsonV {
        jview(*self)
    }
}

/// Looks an object's member list up by name: the value beside the first
/// matching name, if any.
pub open spec fn lookup_v(entries: Seq<(Seq<char>, JsonV)>, key: Seq<char>) -> Option<JsonV>
    decreases entries.len(),
{
    if entries.len() == 0 {
        None
    } else if entries[0].0 == key {
        Some(entries[0].1)
    } else {
        lookup_v(entries.drop_first(), key)
    }
}

/// The image of an object's member list.
///
/// The index guard keeps the recursion inside the sequence, which is what
/// bounds it for the termination check.
pub open spec fn entries_view(entries: Seq<(String, JsonData)>) -> Seq<(Seq<char>, JsonV)>
    decreases entries,
{
    Seq::new(
        entries.len(),
        |i: int|
            if 0 <= i < entries.len() {
                (entries[i].0@, jview(entries[i].1))
            } else {
                (Seq::empty(), JsonV::Null)
            },
    )
}

/// Finds the value of the member named `key`, as [`lookup_v`] describes.
pub fn lookup<'a>(entries: &'a Vec<(String, JsonData)>, key: &String) -> (r: Option<
    &'a JsonData,
>)
    ensures
        match r {
            Some(d) => lookup_v(entries_view(entries@), key@) == Some(d@),
            None => lookup_v(entries_view(entries@), key@) is None,
        },
{
    let n = entries.len();
    proof {
        assert(entries_view(entries@).skip(0) =~= entries_view(entries@));
    }
    for i in 0..n
        invariant
            n == entries@.len(),
            lookup_v(entries_view(entries@), key@) == lookup_v(
                entries_view(entries@).skip(i as int),
                key@,
            ),
    {
        proof {
            assert(entries_view(entries@).skip(i as int).drop_first() =~= entries_view(
                entries@,
            ).skip(i + 1));
        }
        if entries[i].0 == *key {
            return Some(&entries[i].1);
        }
    }
    proof {
        assert(entries_view(entries@).skip(n as int) =~= Seq::<(Seq<char>, JsonV)>::empty());
    }
    None
}

} // verus!
