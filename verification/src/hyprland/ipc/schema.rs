//! Reading typed values out of JSON documents.
//!
//! The shape that a type asks of a document is a function of the document,
//! stated over what `serde_json` says of it; reading is verified against that
//! function. A value that has not the shape is refused, never mended.

use serde_json::{Number, Value};
use vstd::prelude::*;

use crate::hyprland::ipc::json::{
    boolean, elements, is_null, json_bool, json_elements, json_i64, json_is_null, json_member,
    json_number, json_text, json_u64, member, number, signed, text, unsigned,
};

verus! {

/// A type whose values can be read from a JSON document.
pub trait FromJson: Sized {
    /// The mathematical values of the type.
    type Model;

    /// The mathematical value of `self`.
    spec fn model(&self) -> Self::Model;

    /// The value that `value` holds, if it has the shape of this type.
    spec fn decoded(value: Value) -> Option<Self::Model>;

    /// Reads a value of this type from `value`; `None` when `value` has not
    /// the shape of this type.
    fn from_json(value: &Value) -> (r: Option<Self>)
        ensures
            match r {
                Some(x) => Self::decoded(*value) == Some(x.model()),
                None => Self::decoded(*value) is None,
            },
    ;
}

impl FromJson for u64 {
    type Model = u64;

    open spec fn model(&self) -> u64 {
        *self
    }

    open spec fn decoded(value: Value) -> Option<u64> {
        json_u64(value)
    }

    fn from_json(value: &Value) -> (r: Option<u64>) {
        unsigned(value)
    }
}

impl FromJson for i32 {
    type Model = i32;

    open spec fn model(&self) -> i32 {
        *self
    }

    open spec fn decoded(value: Value) -> Option<i32> {
        match json_i64(value) {
            Some(n) => if i32::MIN <= n <= i32::MAX {
                Some(n as i32)
            } else {
                None
            },
            None => None,
        }
    }

    fn from_json(value: &Value) -> (r: Option<i32>) {
        match signed(value) {
            Some(n) => if -2147483648 <= n && n <= 2147483647 {
                Some(n as i32)
            } else {
                None
            },
            None => None,
        }
    }
}

impl FromJson for bool {
    type Model = bool;

    open spec fn model(&self) -> bool {
        *self
    }

    open spec fn decoded(value: Value) -> Option<bool> {
        json_bool(value)
    }

    fn from_json(value: &Value) -> (r: Option<bool>) {
        boolean(value)
    }
}

impl FromJson for String {
    type Model = Seq<char>;

    open spec fn model(&self) -> Seq<char> {
        self@
    }

    open spec fn decoded(value: Value) -> Option<Seq<char>> {
        json_text(value)
    }

    fn from_json(value: &Value) -> (r: Option<String>) {
        match text(value) {
            Some(s) => Some(s.to_owned()),
            None => None,
        }
    }
}

impl FromJson for Number {
    type Model = Number;

    open spec fn model(&self) -> Number {
        *self
    }

    open spec fn decoded(value: Value) -> Option<Number> {
        json_number(value)
    }

    fn from_json(value: &Value) -> (r: Option<Number>) {
        number(value)
    }
}

/// A pair is an array of exactly two elements.
impl FromJson for (u64, u64) {
    type Model = (u64, u64);

    open spec fn model(&self) -> (u64, u64) {
        *self
    }

    open spec fn decoded(value: Value) -> Option<(u64, u64)> {
        match json_elements(value) {
            Some(items) => if items.len() == 2 && json_u64(items[0]) is Some && json_u64(
                items[1],
            ) is Some {
                Some((json_u64(items[0]).unwrap(), json_u64(items[1]).unwrap()))
            } else {
                None
            },
            None => None,
        }
    }

    fn from_json(value: &Value) -> (r: Option<(u64, u64)>) {
        let items = match elements(value) {
            Some(items) => items,
            None => {
                return None;
            },
        };
        if items.len() != 2 {
            return None;
        }
        let first = match unsigned(&items[0]) {
            Some(n) => n,
            None => {
                return None;
            },
        };
        let second = match unsigned(&items[1]) {
            Some(n) => n,
            None => {
                return None;
            },
        };
        Some((first, second))
    }
}

/// Four integers are an array of exactly four elements.
impl FromJson for [i32; 4] {
    type Model = Seq<i32>;

    open spec fn model(&self) -> Seq<i32> {
        self@
    }

    open spec fn decoded(value: Value) -> Option<Seq<i32>> {
        match json_elements(value) {
            Some(items) => if items.len() == 4 && (forall|i: int|
                0 <= i < 4 ==> (#[trigger] <i32 as FromJson>::decoded(items[i])) is Some) {
                Some(Seq::new(4, |i: int| <i32 as FromJson>::decoded(items[i]).unwrap()))
            } else {
                None
            },
            None => None,
        }
    }

    fn from_json(value: &Value) -> (r: Option<[i32; 4]>) {
        let items = match elements(value) {
            Some(items) => items,
            None => {
                return None;
            },
        };
        if items.len() != 4 {
            return None;
        }
        let a = match <i32 as FromJson>::from_json(&items[0]) {
            Some(n) => n,
            None => {
                return None;
            },
        };
        let b = match <i32 as FromJson>::from_json(&items[1]) {
            Some(n) => n,
            None => {
                return None;
            },
        };
        let c = match <i32 as FromJson>::from_json(&items[2]) {
            Some(n) => n,
            None => {
                return None;
            },
        };
        let d = match <i32 as FromJson>::from_json(&items[3]) {
            Some(n) => n,
            None => {
                return None;
            },
        };
        let out = [a, b, c, d];
        assert(out@ =~= Seq::new(4, |i: int| <i32 as FromJson>::decoded(items@[i]).unwrap()));
        Some(out)
    }
}

/// A list is an array whose every element has the shape of the item type.
impl<T: FromJson> FromJson for Vec<T> {
    type Model = Seq<T::Model>;

    open spec fn model(&self) -> Seq<T::Model> {
        Seq::new(self@.len(), |i: int| self@[i].model())
    }

    open spec fn decoded(value: Value) -> Option<Seq<T::Model>> {
        match json_elements(value) {
            Some(items) => if forall|i: int|
                0 <= i < items.len() ==> (#[trigger] T::decoded(items[i])) is Some {
                Some(Seq::new(items.len(), |i: int| T::decoded(items[i]).unwrap()))
            } else {
                None
            },
            None => None,
        }
    }

    fn from_json(value: &Value) -> (r: Option<Vec<T>>) {
        let items = match elements(value) {
            Some(items) => items,
            None => {
                return None;
            },
        };
        let mut out: Vec<T> = Vec::new();
        let mut i: usize = 0;
        while i < items.len()
            invariant
                i <= items.len(),
                json_elements(*value) == Some(items@),
                out@.len() == i,
                forall|j: int|
                    0 <= j < i ==> T::decoded(items@[j]) == Some(#[trigger] out@[j].model()),
            decreases items.len() - i,
        {
            match T::from_json(&items[i]) {
                Some(x) => {
                    out.push(x);
                },
                None => {
                    return None;
                },
            }
            i += 1;
        }
        assert forall|j: int| 0 <= j < items@.len() implies (#[trigger] T::decoded(
            items@[j],
        )) is Some by {
            assert(T::decoded(items@[j]) == Some(out@[j].model()));
        }
        assert(out.model() =~= Seq::new(items@.len(), |i: int| T::decoded(items@[i]).unwrap()));
        Some(out)
    }
}

/// An optional value is `null` or a value of the shape of `T`.
impl<T: FromJson> FromJson for Option<T> {
    type Model = Option<T::Model>;

    open spec fn model(&self) -> Option<T::Model> {
        match self {
            Some(x) => Some(x.model()),
            None => None,
        }
    }

    open spec fn decoded(value: Value) -> Option<Option<T::Model>> {
        if json_is_null(value) {
            Some(None)
        } else {
            match T::decoded(value) {
                Some(x) => Some(Some(x)),
                None => None,
            }
        }
    }

    fn from_json(value: &Value) -> (r: Option<Option<T>>) {
        if is_null(value) {
            Some(None)
        } else {
            match T::from_json(value) {
                Some(x) => Some(Some(x)),
                None => None,
            }
        }
    }
}

/// The value of the member `key` of `object`, which must be there and have the
/// shape of `T`.
pub open spec fn required_member<T: FromJson>(object: Value, key: Seq<char>) -> Option<T::Model> {
    match json_member(object, key) {
        Some(m) => T::decoded(m),
        None => None,
    }
}

/// The value of the member `key` of `object`, which may be missing or `null`,
/// and must else have the shape of `T`. The outer `None` tells a wrong shape.
pub open spec fn optional_member<T: FromJson>(object: Value, key: Seq<char>) -> Option<
    Option<T::Model>,
> {
    match json_member(object, key) {
        Some(m) => <Option<T> as FromJson>::decoded(m),
        None => Some(None),
    }
}

/// Reads the member `key` of `object`, which must be there.
pub fn required<T: FromJson>(object: &Value, key: &str) -> (r: Option<T>)
    ensures
        match r {
            Some(x) => required_member::<T>(*object, key@) == Some(x.model()),
            None => required_member::<T>(*object, key@) is None,
        },
{
    match member(object, key) {
        Some(m) => T::from_json(m),
        None => None,
    }
}

/// Reads the member `key` of `object`, which may be missing or `null`.
pub fn optional<T: FromJson>(object: &Value, key: &str) -> (r: Option<Option<T>>)
    ensures
        match r {
            Some(x) => optional_member::<T>(*object, key@) == Some(x.model()),
            None => optional_member::<T>(*object, key@) is None,
        },
{
    match member(object, key) {
        Some(m) => <Option<T> as FromJson>::from_json(m),
        None => Some(None),
    }
}

} // verus!
