//! Call codec for the permission registry's single function,
//! `checkPermissions(address,bytes32) -> bool`.

use vstd::prelude::*;

verus! {

/// The first four bytes of the Keccak-256 hash of `name(address,bytes32)`.
pub uninterp spec fn selector_of(name: Seq<char>) -> Seq<u8>;

/// Name of the registry function that answers permission queries.
pub open spec fn check_permissions_name() -> Seq<char> {
    "checkPermissions"@
}

/// One ABI word holding an account address: twelve zero bytes, then the address.
pub open spec fn address_word(address: Seq<u8>) -> Seq<u8> {
    Seq::new(12, |i: int| 0u8) + address
}

/// Call data of `checkPermissions(user, document)`: the selector, then the
/// two arguments, each one 32-byte word.
pub open spec fn check_permissions_call_data(user: Seq<u8>, document: Seq<u8>) -> Seq<u8> {
    selector_of(check_permissions_name()) + address_word(user) + document
}

/// What the lenient word reading of a single `bool` output gives: the output
/// must be exactly one word whose first 31 bytes are zero; the value is true
/// when the last byte is 1, whatever else it holds.
pub open spec fn bool_word_reading(output: Seq<u8>) -> Option<bool> {
    if output.len() == 32 && forall|i: int| 0 <= i < 31 ==> output[i] == 0 {
        Some(output[31] == 1)
    } else {
        None
    }
}

/// What the output of `checkPermissions` decodes to: exactly one word that
/// encodes a `bool`, that is 31 zero bytes followed by 0 (false) or 1 (true).
pub open spec fn decoded_bool(output: Seq<u8>) -> Option<bool> {
    if output.len() == 32 && output[31] <= 1 && forall|i: int| 0 <= i < 31 ==> output[i] == 0 {
        Some(output[31] == 1)
    } else {
        None
    }
}

/// The canonical output word of a function that returns `value`.
pub open spec fn bool_word(value: bool) -> Seq<u8> {
    Seq::new(31, |i: int| 0u8).push(if value { 1u8 } else { 0u8 })
}

/// A decoded return value, as far as this module tells them apart.
pub enum OutputToken {
    Bool(bool),
    Other,
}

/// Relies on `ethabi::short_signature` with the parameter types
/// `(address, bytes32)`: four bytes that depend on the name alone.
#[verifier::external_body]
fn short_signature(name: &str) -> (r: [u8; 4])
    ensures
        r@ == selector_of(name@),
{
    ethabi::short_signature(name, &[ethabi::ParamType::Address, ethabi::ParamType::FixedBytes(32)])
}

/// Relies on `ethabi::encode` of an address token and a 32-byte fixed-bytes
/// token: the address left-padded to a word, then the 32 bytes as they stand.
#[verifier::external_body]
fn encode_arguments(user: &[u8; 20], document: &[u8; 32]) -> (r: Vec<u8>)
    ensures
        r@ == address_word(user@) + document@,
{
    ethabi::encode(
        &[
            ethabi::Token::Address(ethabi::Address::from(*user)),
            ethabi::Token::FixedBytes(document.to_vec()),
        ],
    )
}

/// Relies on `ethabi::decode_whole` with the single type `bool`: it fails
/// unless the output is exactly one word with 31 leading zero bytes, and
/// otherwise yields one boolean token, true when the word's last byte is 1.
#[verifier::external_body]
fn decode_bool(output: &Vec<u8>) -> (r: Result<Vec<OutputToken>, String>)
    ensures
        match r {
            Ok(tokens) => match bool_word_reading(output@) {
                Some(b) => tokens@ == seq![OutputToken::Bool(b)],
                None => false,
            },
            Err(_) => bool_word_reading(output@) is None,
        },
{
    match ethabi::decode_whole(&[ethabi::ParamType::Bool], output) {
        Ok(tokens) => Ok(
            tokens.into_iter().map(
                |t| match t {
                    ethabi::Token::Bool(b) => OutputToken::Bool(b),
                    _ => OutputToken::Other,
                },
            ).collect(),
        ),
        Err(e) => Err(format!("{:?}", e)),
    }
}

/// Encodes the call `checkPermissions(user, document)`.
pub fn encode_check_permissions(user: &[u8; 20], document: &[u8; 32]) -> (r: Vec<u8>)
    ensures
        r@ == check_permissions_call_data(user@, document@),
        r@.len() == 68,
{
    let selector = short_signature("checkPermissions");
    let mut data: Vec<u8> = Vec::new();
    let mut i: usize = 0;
    while i < 4
        invariant
            0 <= i <= 4,
            selector@.len() == 4,
            data@ == selector@.subrange(0, i as int),
        decreases 4 - i,
    {
        data.push(selector[i]);
        i = i + 1;
        assert(data@ == selector@.subrange(0, i as int));
    }
    assert(selector@.subrange(0, 4) == selector@);
    let mut arguments = encode_arguments(user, document);
    data.append(&mut arguments);
    assert(data@ == check_permissions_call_data(user@, document@));
    data
}

/// Decodes the output of `checkPermissions`: exactly one value, of type `bool`.
pub fn decode_check_permissions(output: &Vec<u8>) -> (r: Result<bool, String>)
    ensures
        match decoded_bool(output@) {
            Some(b) => r == Ok::<bool, String>(b),
            None => r is Err,
        },
{
    let tokens = match decode_bool(output) {
        Ok(tokens) => tokens,
        Err(e) => {
            return Err(e);
        },
    };
    if tokens.len() != 1 {
        return Err("Invalid return arity".to_owned());
    }
    match tokens[0] {
        OutputToken::Bool(b) => {
            if output[31] > 1 {
                Err("Invalid bool encoding returned".to_owned())
            } else {
                Ok(b)
            }
        },
        OutputToken::Other => Err("Invalid type returned".to_owned()),
    }
}

/// Decoding the output word of a boolean yields that boolean.
pub proof fn lemma_bool_round_trip(value: bool)
    ensures
        decoded_bool(bool_word(value)) == Some(value),
{
}

/// An output that is not exactly one word, one whose leading bytes are not
/// all zero, or one whose last byte is neither 0 nor 1, never decodes to a value.
pub proof fn lemma_malformed_output_rejected(output: Seq<u8>)
    requires
        output.len() != 32 || output[31] > 1 || exists|i: int| 0 <= i < 31 && output[i] != 0,
    ensures
        decoded_bool(output) is None,
{
}

} // verus!
