//! Serialized message bodies.

use vstd::prelude::*;

verus! {

/// The different core data types supported over the network.
#[derive(PartialEq, Eq, Hash, Clone, Copy, Debug, Structural)]
pub enum NetworkDataTypes {
    /// Text data
    Text,
    /// Binary data
    Binary,
}

/// An instance of untyped data that is either being sent or received over the network.
#[derive(Clone, Debug)]
pub enum NetworkSerializedData {
    /// Text based data
    Text(String),
    /// Binary based data
    Binary(Vec<u8>),
}

/// The contents of serialized data.
pub enum SerializedDataView {
    /// Text based data
    Text(Seq<char>),
    /// Binary based data
    Binary(Seq<u8>),
}

impl View for NetworkSerializedData {
    type V = SerializedDataView;

    open spec fn view(&self) -> SerializedDataView {
        match self {
            NetworkSerializedData::Text(s) => SerializedDataView::Text(s@),
            NetworkSerializedData::Binary(b) => SerializedDataView::Binary(b@),
        }
    }
}

impl NetworkSerializedData {
    /// A copy with the same contents.
    pub fn duplicate(&self) -> (d: NetworkSerializedData)
        ensures
            d@ == self@,
    {
        match self {
            NetworkSerializedData::Text(s) => NetworkSerializedData::Text(s.clone()),
            NetworkSerializedData::Binary(b) => {
                let c = b.clone();
                assert(c@ =~= b@);
                NetworkSerializedData::Binary(c)
            },
        }
    }
}

/// The error text of a binary decoder that is handed text data.
pub open spec fn expected_binary_text() -> Seq<char> {
    "Expected Binary data found String data"@
}

/// The bytes that the binary decoders read: those of binary data. Text data is refused
/// with the error the binary decoders give.
pub fn binary_payload(data: &NetworkSerializedData) -> (r: Result<&Vec<u8>, String>)
    ensures
        match *data {
            NetworkSerializedData::Binary(b) => r matches Ok(p) && *p == b,
            NetworkSerializedData::Text(_) => r matches Err(e) && e@ == expected_binary_text(),
        },
{
    match data {
        NetworkSerializedData::Binary(binary) => Ok(binary),
        NetworkSerializedData::Text(_) => Err(String::from_str("Expected Binary data found String data")),
    }
}

/// What the binary encoders return: the encoded bytes as binary data, or the encoder's error.
pub fn into_binary(encoded: Result<Vec<u8>, String>) -> (r: Result<NetworkSerializedData, String>)
    ensures
        match encoded {
            Ok(b) => r matches Ok(d) && d == NetworkSerializedData::Binary(b),
            Err(e) => r matches Err(e2) && e2 == e,
        },
{
    match encoded {
        Ok(bytes) => Ok(NetworkSerializedData::Binary(bytes)),
        Err(e) => Err(e),
    }
}

} // verus!
