//! Payloads and their encoding as the features of an example.

use vstd::prelude::*;
use vstd::std_specs::convert::FromSpecImpl;
use crate::fields::FieldMap;

verus! {

/// The value of one input field: byte records, integers or floats.
///
/// `F` is the type of a 32-bit float.
#[derive(Debug, Clone, PartialEq)]
pub enum Payload<F> {
    /// Byte records.
    Bytes(Vec<Vec<u8>>),
    /// 64-bit signed integers.
    Ints(Vec<i64>),
    /// 32-bit floats.
    Floats(Vec<F>),
}

/// A list of byte records.
#[derive(Debug, Clone, PartialEq)]
pub struct BytesList {
    pub value: Vec<Vec<u8>>,
}

/// A list of 64-bit signed integers.
#[derive(Debug, Clone, PartialEq)]
pub struct Int64List {
    pub value: Vec<i64>,
}

/// A list of 32-bit floats.
#[derive(Debug, Clone, PartialEq)]
pub struct FloatList<F> {
    pub value: Vec<F>,
}

/// The three kinds of list that a feature can hold.
#[derive(Debug, Clone, PartialEq)]
pub enum Kind<F> {
    BytesList(BytesList),
    Int64List(Int64List),
    FloatList(FloatList<F>),
}

/// One named attribute of an example.
#[derive(Debug, Clone, PartialEq)]
pub struct Feature<F> {
    /// The list held; `None` only for a feature that was never filled.
    pub kind: Option<Kind<F>>,
}

/// The attributes of one example, by field name.
#[derive(Debug)]
pub struct Features<F> {
    pub feature: FieldMap<Feature<F>>,
}

/// The input of a classification: a payload for each field name.
pub type FeatureMap<F> = FieldMap<Payload<F>>;

impl<F> Payload<F> {
    /// A payload of floats.
    pub fn from_floats(v: Vec<F>) -> (payload: Self)
        ensures
            payload == Payload::Floats(v),
    {
        Payload::Floats(v)
    }

    /// The feature that encodes this payload: the list of the matching kind,
    /// holding the payload's elements as they stand.
    pub open spec fn encoded(self) -> Feature<F> {
        Feature {
            kind: Some(
                match self {
                    Payload::Bytes(v) => Kind::BytesList(BytesList { value: v }),
                    Payload::Ints(v) => Kind::Int64List(Int64List { value: v }),
                    Payload::Floats(v) => Kind::FloatList(FloatList { value: v }),
                },
            ),
        }
    }

    /// The number of elements in the payload.
    pub open spec fn count(self) -> nat {
        match self {
            Payload::Bytes(v) => v@.len(),
            Payload::Ints(v) => v@.len(),
            Payload::Floats(v) => v@.len(),
        }
    }
}

impl<F> From<Vec<Vec<u8>>> for Payload<F> {
    /// A payload of byte records.
    fn from(v: Vec<Vec<u8>>) -> (payload: Self)
        ensures
            payload == Payload::<F>::Bytes(v),
    {
        Payload::Bytes(v)
    }
}

impl<F> FromSpecImpl<Vec<Vec<u8>>> for Payload<F> {
    open spec fn obeys_from_spec() -> bool {
        true
    }

    open spec fn from_spec(v: Vec<Vec<u8>>) -> Self {
        Payload::Bytes(v)
    }
}

impl<F> From<Vec<i64>> for Payload<F> {
    /// A payload of integers.
    fn from(v: Vec<i64>) -> (payload: Self)
        ensures
            payload == Payload::<F>::Ints(v),
    {
        Payload::Ints(v)
    }
}

impl<F> FromSpecImpl<Vec<i64>> for Payload<F> {
    open spec fn obeys_from_spec() -> bool {
        true
    }

    open spec fn from_spec(v: Vec<i64>) -> Self {
        Payload::Ints(v)
    }
}

impl<F> Feature<F> {
    /// The payload that this feature encodes, if it holds a list.
    pub open spec fn payload(self) -> Option<Payload<F>> {
        match self.kind {
            Some(Kind::BytesList(list)) => Some(Payload::Bytes(list.value)),
            Some(Kind::Int64List(list)) => Some(Payload::Ints(list.value)),
            Some(Kind::FloatList(list)) => Some(Payload::Floats(list.value)),
            None => None,
        }
    }

    /// The number of elements in the list held; zero where there is none.
    pub open spec fn count(self) -> nat {
        match self.kind {
            Some(Kind::BytesList(list)) => list.value@.len(),
            Some(Kind::Int64List(list)) => list.value@.len(),
            Some(Kind::FloatList(list)) => list.value@.len(),
            None => 0,
        }
    }
}

impl<F> From<Payload<F>> for Feature<F> {
    /// The feature that encodes a payload.
    fn from(c: Payload<F>) -> (feature: Self)
        ensures
            feature == c.encoded(),
    {
        let data_list = match c {
            Payload::Bytes(v) => Kind::BytesList(BytesList { value: v }),
            Payload::Ints(v) => Kind::Int64List(Int64List { value: v }),
            Payload::Floats(v) => Kind::FloatList(FloatList { value: v }),
        };
        Feature { kind: Some(data_list) }
    }
}

impl<F> FromSpecImpl<Payload<F>> for Feature<F> {
    open spec fn obeys_from_spec() -> bool {
        true
    }

    open spec fn from_spec(c: Payload<F>) -> Self {
        c.encoded()
    }
}

/// Encoding loses nothing: the feature of a payload holds a list, never none,
/// even for an empty payload; the list has as many elements as the payload;
/// and reading the feature gives the payload back, variant, elements and order.
pub proof fn encoding_round_trips<F>(payload: Payload<F>)
    ensures
        payload.encoded().kind is Some,
        payload.encoded().count() == payload.count(),
        payload.encoded().payload() == Some(payload),
{
}

/// A feature that holds a list is the encoding of the payload it is read as,
/// and of no other.
pub proof fn encoding_is_injective<F>(a: Payload<F>, b: Payload<F>)
    requires
        a.encoded() == b.encoded(),
    ensures
        a == b,
{
    encoding_round_trips(a);
    encoding_round_trips(b);
}

/// The features that encode a map of payloads: under each name, the feature
/// that encodes the payload of that name.
pub open spec fn encoded_fields<F>(payloads: Map<Seq<char>, Payload<F>>) -> Map<
    Seq<char>,
    Feature<F>,
> {
    payloads.map_values(|payload: Payload<F>| payload.encoded())
}

/// Encoding a map of payloads loses nothing: the features carry the same
/// names, and the feature under each name holds a list that reads back as
/// the payload of that name.
pub proof fn encoded_fields_round_trip<F>(payloads: Map<Seq<char>, Payload<F>>)
    ensures
        encoded_fields(payloads).dom() == payloads.dom(),
        forall|name: Seq<char>|
            payloads.dom().contains(name) ==> (#[trigger] encoded_fields(payloads)[name]).payload()
                == Some(payloads[name]),
{
    assert(encoded_fields(payloads).dom() =~= payloads.dom());
}

impl<F> FieldMap<Payload<F>> {
    /// Encode the payload of every field. The features carry the same names.
    pub fn to_features(self) -> (features: Features<F>)
        ensures
            features.feature@ == encoded_fields(self@),
    {
        let encode = |payload: Payload<F>| -> (feature: Feature<F>)
            ensures
                feature == payload.encoded(),
            { Feature::from(payload) };
        let feature = self.map_values(encode);
        assert(feature@ =~= encoded_fields(self@));
        Features { feature }
    }
}

} // verus!
