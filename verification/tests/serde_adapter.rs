use std::fmt;
use std::marker::PhantomData;

use copy_arrayvec::CopyArrayVec;
use serde::de::{Deserialize, Deserializer, Error, SeqAccess, Visitor};
use serde::ser::{Serialize, Serializer};
use serde_test::{assert_de_tokens_error, assert_tokens, Token};

#[derive(Debug, PartialEq)]
struct Wire<T: Copy, const C: usize>(CopyArrayVec<T, C>);

impl<T: Copy + Serialize, const C: usize> Serialize for Wire<T, C> {
    fn serialize<S: Serializer>(&self, serializer: S) -> Result<S::Ok, S::Error> {
        self.0.encode().serialize(serializer)
    }
}

struct Visit<T, const C: usize>(PhantomData<fn() -> T>);

impl<'de, T: Copy + Deserialize<'de>, const C: usize> Visitor<'de> for Visit<T, C> {
    type Value = Wire<T, C>;

    fn expecting(&self, formatter: &mut fmt::Formatter) -> fmt::Result {
        formatter.write_str(CopyArrayVec::<T, C>::expecting())
    }

    fn visit_seq<A: SeqAccess<'de>>(self, mut seq: A) -> Result<Self::Value, A::Error> {
        let mut arr = CopyArrayVec::<T, C>::new();
        while let Some(el) = seq.next_element()? {
            if let Err(e) = arr.decode_element(el) {
                return Err(A::Error::invalid_length(e.length, &e.expected()));
            }
        }
        Ok(Wire(arr))
    }
}

impl<'de, T: Copy + Deserialize<'de>, const C: usize> Deserialize<'de> for Wire<T, C> {
    fn deserialize<D: Deserializer<'de>>(deserializer: D) -> Result<Self, D::Error> {
        deserializer.deserialize_seq(Visit(PhantomData))
    }
}

#[test]
fn serialize_ints() {
    let mut arr = CopyArrayVec::<_, 3>::new();
    arr.push(0);
    arr.push(1);
    assert_tokens(
        &Wire(arr),
        &[
            Token::Seq { len: Some(2) },
            Token::I32(0),
            Token::I32(1),
            Token::SeqEnd,
        ],
    );
}

#[test]
fn fails_to_deserialize_too_large() {
    assert_de_tokens_error::<Wire<i32, 1>>(
        &[
            Token::Seq { len: Some(2) },
            Token::I32(0),
            Token::I32(1),
            Token::SeqEnd,
        ],
        "invalid length 2, expected fewer elements in array",
    );
}

#[test]
fn wrong_shape_names_what_was_expected() {
    assert_de_tokens_error::<Wire<i32, 1>>(
        &[Token::Bool(true)],
        "invalid type: boolean `true`, expected an array of max length {C}",
    );
}
