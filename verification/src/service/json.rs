//! Reading JSON values.
use vstd::prelude::*;

verus! {

/// A JSON value of `serde_json`. What it holds is known by [`json_numbers`] and
/// [`json_strings`].
#[verifier::external_type_specification]
#[verifier::external_body]
pub struct ExValue(serde_json::Value);

/// The integers from 0 to `u64::MAX` that a JSON value holds, each by the member
/// names that lead to it through nested objects. A value that is itself such an
/// integer holds it under the empty path.
pub uninterp spec fn json_numbers(value: serde_json::Value) -> Map<Seq<Seq<char>>, u64>;

/// The strings that a JSON value holds, by the same paths.
pub uninterp spec fn json_strings(value: serde_json::Value) -> Map<Seq<Seq<char>>, Seq<char>>;

/// What `held` holds below the member `name`.
pub open spec fn below<V>(held: Map<Seq<Seq<char>>, V>, name: Seq<char>) -> Map<
    Seq<Seq<char>>,
    V,
> {
    Map::new(
        |path: Seq<Seq<char>>| held.contains_key(seq![name] + path),
        |path: Seq<Seq<char>>| held[seq![name] + path],
    )
}

/// What `held` holds at `path`, if anything.
pub open spec fn at_path<V>(held: Map<Seq<Seq<char>>, V>, path: Seq<Seq<char>>) -> Option<V> {
    if held.contains_key(path) {
        Some(held[path])
    } else {
        None
    }
}

/// `serde_json`'s indexing of a value by a member name. For anything but an
/// object that has the member it gives null, which holds nothing.
#[verifier::external_body]
pub(crate) fn member<'a>(value: &'a serde_json::Value, name: &str) -> (r: &'a serde_json::Value)
    ensures
        json_numbers(*r) == below(json_numbers(*value), name@),
        json_strings(*r) == below(json_strings(*value), name@),
{
    &value[name]
}

/// `serde_json`'s `Value::as_u64`: the number, where the value is an integer
/// that a `u64` can hold.
pub assume_specification[ serde_json::Value::as_u64 ](value: &serde_json::Value) -> (r: Option<u64>)
    ensures
        r == at_path(json_numbers(*value), Seq::empty()),
;

/// `serde_json`'s `Value::as_str`: the text, where the value is a string.
pub assume_specification[ serde_json::Value::as_str ](value: &serde_json::Value) -> (r: Option<
    &str,
>)
    ensures
        match r {
            Some(text) => at_path(json_strings(*value), Seq::empty()) == Some(text@),
            None => at_path(json_strings(*value), Seq::empty()) is None,
        },
;

/// Going down one member after the other is going down the path.
pub(crate) proof fn below_path<V>(
    held: Map<Seq<Seq<char>>, V>,
    name: Seq<char>,
    path: Seq<Seq<char>>,
)
    ensures
        at_path(below(held, name), path) == at_path(held, seq![name] + path),
{
}

} // verus!
