//! Request headers: which names and values the transport accepts, and the
//! header map that a list of `(name, value)` pairs becomes.

use reqwest::header::{
    HeaderMap, HeaderName, HeaderValue, InvalidHeaderName, InvalidHeaderValue, MaxSizeReached,
};
use vstd::prelude::*;

verus! {

/// One header field as bytes: its name, then its value.
pub type Field = (Seq<u8>, Seq<u8>);

/// The UTF-8 bytes of a text.
pub open spec fn utf8(text: Seq<char>) -> Seq<u8> {
    vstd::utf8::encode_utf8(text)
}

/// Bytes that may stand in a header name: letters, digits, and
/// ``! " # $ % & ' * + - . ^ _ ` | ~``.
pub open spec fn is_name_byte(b: u8) -> bool {
    ||| 33 <= b <= 39
    ||| b == 42
    ||| b == 43
    ||| b == 45
    ||| b == 46
    ||| 48 <= b <= 57
    ||| 65 <= b <= 90
    ||| 94 <= b <= 122
    ||| b == 124
    ||| b == 126
}

/// Longest header name, in bytes.
pub const MAX_NAME_LEN: usize = 65535;

/// A header name is one to `MAX_NAME_LEN` name bytes.
pub open spec fn valid_header_name(name: Seq<u8>) -> bool {
    &&& 1 <= name.len() <= MAX_NAME_LEN
    &&& forall|i: int| 0 <= i < name.len() ==> is_name_byte(#[trigger] name[i])
}

/// Bytes that may stand in a header value: the tab, and everything from the
/// space upwards but the delete byte.
pub open spec fn is_value_byte(b: u8) -> bool {
    (b >= 32 && b != 127) || b == 9
}

/// A header value is any run of value bytes, the empty one included.
pub open spec fn valid_header_value(value: Seq<u8>) -> bool {
    forall|i: int| 0 <= i < value.len() ==> is_value_byte(#[trigger] value[i])
}

/// An ASCII capital becomes its small letter; every other byte stays.
pub open spec fn lower_byte(b: u8) -> u8 {
    if 65 <= b <= 90 {
        (b + 32) as u8
    } else {
        b
    }
}

/// A name as the map keeps it: in lower case.
pub open spec fn lowercase(name: Seq<u8>) -> Seq<u8> {
    name.map_values(|b: u8| lower_byte(b))
}

/// The test that a field has another name than `name`.
pub open spec fn not_named(name: Seq<u8>) -> spec_fn(Field) -> bool {
    |field: Field| field.0 != name
}

/// The fields after `name` is set to `value`: the first field of that name
/// takes the value and later ones of that name go; a new name goes last.
pub open spec fn with_field(fields: Seq<Field>, name: Seq<u8>, value: Seq<u8>) -> Seq<Field>
    decreases fields.len(),
{
    if fields.len() == 0 {
        seq![(name, value)]
    } else if fields.first().0 == name {
        seq![(name, value)] + fields.drop_first().filter(not_named(name))
    } else {
        seq![fields.first()] + with_field(fields.drop_first(), name, value)
    }
}

/// `reqwest::header::HeaderName`, the lower-case bytes of a header name.
#[verifier::external_type_specification]
#[verifier::external_body]
pub struct ExHeaderName(HeaderName);

/// `reqwest::header::HeaderValue`, the bytes of a header value.
#[verifier::external_type_specification]
#[verifier::external_body]
pub struct ExHeaderValue(HeaderValue);

/// `reqwest::header::InvalidHeaderName`, the refusal of a header name.
#[verifier::external_type_specification]
#[verifier::external_body]
pub struct ExInvalidHeaderName(InvalidHeaderName);

/// `reqwest::header::InvalidHeaderValue`, the refusal of a header value.
#[verifier::external_type_specification]
#[verifier::external_body]
pub struct ExInvalidHeaderValue(InvalidHeaderValue);

/// `reqwest::header::MaxSizeReached`, the refusal of a map that cannot grow.
#[verifier::external_type_specification]
#[verifier::external_body]
pub struct ExMaxSizeReached(MaxSizeReached);

/// `reqwest::header::HeaderMap`, an ordered multimap of header fields.
#[verifier::external_type_specification]
#[verifier::external_body]
#[verifier::reject_recursive_types(T)]
pub struct ExHeaderMap<T>(HeaderMap<T>);

/// The bytes that a header name holds: what `HeaderName::as_str` shows.
pub uninterp spec fn header_name_bytes(name: HeaderName) -> Seq<u8>;

/// The bytes that a header value holds: what `HeaderValue::as_bytes` shows.
pub uninterp spec fn header_value_bytes(value: HeaderValue) -> Seq<u8>;

/// The fields that a header map holds, in the order in which
/// `HeaderMap::iter` yields them, each as the bytes of its name and of its
/// value.
pub uninterp spec fn header_fields(map: HeaderMap<HeaderValue>) -> Seq<Field>;

/// The text that the `Debug` form of a header map prints.
pub uninterp spec fn headers_debug_text(map: HeaderMap<HeaderValue>) -> Seq<char>;

/// `HeaderName::from_bytes` takes exactly the valid names, and the name it
/// makes holds the given bytes in lower case.
pub assume_specification[ HeaderName::from_bytes ](src: &[u8]) -> (parsed: Result<
    HeaderName,
    InvalidHeaderName,
>)
    ensures
        parsed is Ok <==> valid_header_name(src@),
        parsed matches Ok(name) ==> header_name_bytes(name) == lowercase(src@),
;

/// `HeaderValue::from_str` takes exactly the texts whose UTF-8 bytes are all
/// value bytes, and the value it makes holds those bytes.
pub assume_specification[ HeaderValue::from_str ](src: &str) -> (parsed: Result<
    HeaderValue,
    InvalidHeaderValue,
>)
    ensures
        parsed is Ok <==> valid_header_value(utf8(src@)),
        parsed matches Ok(value) ==> header_value_bytes(value) == utf8(src@),
;

/// `HeaderMap::new` makes a map without fields.
pub assume_specification[ HeaderMap::<HeaderValue>::new ]() -> (map: HeaderMap<HeaderValue>)
    ensures
        header_fields(map) == Seq::<Field>::empty(),
;

/// A map with fewer fields than this always takes one more.
pub const HEADER_ROOM: usize = 4096;

/// `HeaderMap::try_insert`: either the name is set to the one value, as
/// `with_field` has it, or the map refuses and stays as it was. A map refuses
/// only when its table is at its largest and filled to a fifth or more, which
/// takes over six thousand fields; `HEADER_ROOM` stays well below that.
#[verifier::external_body]
fn try_insert(map: &mut HeaderMap<HeaderValue>, name: HeaderName, value: HeaderValue) -> (done:
    Result<(), MaxSizeReached>)
    ensures
        done is Ok ==> header_fields(*final(map)) == with_field(
            header_fields(*old(map)),
            header_name_bytes(name),
            header_value_bytes(value),
        ),
        done is Err ==> header_fields(*final(map)) == header_fields(*old(map)),
        header_fields(*old(map)).len() < HEADER_ROOM ==> done is Ok,
{
    match map.try_insert(name, value) {
        Ok(_) => Ok(()),
        Err(full) => Err(full),
    }
}

/// The `Debug` form of `HeaderMap`, as `format!` with `{:?}` prints it.
#[verifier::external_body]
pub(crate) fn debug_headers(map: &HeaderMap<HeaderValue>) -> (text: String)
    ensures
        text@ == headers_debug_text(*map),
{
    format!("{:?}", map)
}

/// Why a list of header pairs cannot become a header map.
#[derive(Debug, Clone, Copy, PartialEq, Eq, Structural)]
pub enum HeaderError {
    /// The name of the pair at `index` is no header name.
    InvalidName { index: usize },
    /// The value of the pair at `index` is no header value.
    InvalidValue { index: usize },
    /// The map refused the pair at `index` for want of room.
    MapFull { index: usize },
}

impl HeaderError {
    /// The position, in the list, of the pair that was refused.
    pub open spec fn index_spec(self) -> usize {
        match self {
            HeaderError::InvalidName { index } => index,
            HeaderError::InvalidValue { index } => index,
            HeaderError::MapFull { index } => index,
        }
    }

    /// What went wrong, in words.
    pub open spec fn description(self) -> Seq<char> {
        match self {
            HeaderError::InvalidName { .. } => "invalid HTTP header name"@,
            HeaderError::InvalidValue { .. } => "failed to parse header value"@,
            HeaderError::MapFull { .. } => "size overflows MAX_SIZE"@,
        }
    }

    /// The position, in the list, of the pair that was refused.
    pub fn index(&self) -> (index: usize)
        ensures
            index == self.index_spec(),
    {
        match self {
            HeaderError::InvalidName { index } => *index,
            HeaderError::InvalidValue { index } => *index,
            HeaderError::MapFull { index } => *index,
        }
    }

    /// What went wrong, in words.
    pub fn describe(&self) -> (text: &'static str)
        ensures
            text@ == self.description(),
    {
        match self {
            HeaderError::InvalidName { .. } => "invalid HTTP header name",
            HeaderError::InvalidValue { .. } => "failed to parse header value",
            HeaderError::MapFull { .. } => "size overflows MAX_SIZE",
        }
    }
}

/// One header pair as text: its name, then its value.
pub type TextPair = (Seq<char>, Seq<char>);

/// Whether the transport accepts both halves of a pair.
pub open spec fn acceptable(pair: TextPair) -> bool {
    valid_header_name(utf8(pair.0)) && valid_header_value(utf8(pair.1))
}

/// Whether the transport accepts each of the first `n` pairs.
pub open spec fn acceptable_before(pairs: Seq<TextPair>, n: int) -> bool {
    forall|j: int| 0 <= j < n ==> acceptable(#[trigger] pairs[j])
}

/// The field that a pair stands for: its name in lower case, and its value,
/// both as UTF-8 bytes.
pub open spec fn as_field(pair: TextPair) -> Field {
    (lowercase(utf8(pair.0)), utf8(pair.1))
}

/// The fields of an empty map after each pair, in turn, was set in it.
pub open spec fn encoded_fields(pairs: Seq<TextPair>) -> Seq<Field>
    decreases pairs.len(),
{
    if pairs.len() == 0 {
        Seq::empty()
    } else {
        with_field(
            encoded_fields(pairs.drop_last()),
            as_field(pairs.last()).0,
            as_field(pairs.last()).1,
        )
    }
}

/// The value of the first field of a name, if there is one.
pub open spec fn field_value(fields: Seq<Field>, name: Seq<u8>) -> Option<Seq<u8>>
    decreases fields.len(),
{
    if fields.len() == 0 {
        None
    } else if fields.first().0 == name {
        Some(fields.first().1)
    } else {
        field_value(fields.drop_first(), name)
    }
}

/// The value of the last pair that stands for a field of a name, if there is
/// one.
pub open spec fn latest_value(pairs: Seq<TextPair>, name: Seq<u8>) -> Option<Seq<u8>>
    decreases pairs.len(),
{
    if pairs.len() == 0 {
        None
    } else if as_field(pairs.last()).0 == name {
        Some(as_field(pairs.last()).1)
    } else {
        latest_value(pairs.drop_last(), name)
    }
}

/// Whether no two pairs stand for fields of one name.
pub open spec fn names_differ(pairs: Seq<TextPair>) -> bool {
    forall|i: int, j: int|
        0 <= i < j < pairs.len() ==> as_field(#[trigger] pairs[i]).0 != as_field(
            #[trigger] pairs[j],
        ).0
}

/// Whether `error` is the refusal that `pairs` call for: it names the first
/// pair that is not acceptable, and the half of it that is at fault; or it
/// names a pair up to which all are acceptable and for which the map, already
/// holding `HEADER_ROOM` fields or more, had no room.
pub open spec fn refused_by(pairs: Seq<TextPair>, error: HeaderError) -> bool {
    match error {
        HeaderError::InvalidName { index } => {
            &&& index < pairs.len()
            &&& acceptable_before(pairs, index as int)
            &&& !valid_header_name(utf8(pairs[index as int].0))
        },
        HeaderError::InvalidValue { index } => {
            &&& index < pairs.len()
            &&& acceptable_before(pairs, index as int)
            &&& valid_header_name(utf8(pairs[index as int].0))
            &&& !valid_header_value(utf8(pairs[index as int].1))
        },
        HeaderError::MapFull { index } => {
            &&& index < pairs.len()
            &&& acceptable_before(pairs, index + 1)
            &&& HEADER_ROOM <= encoded_fields(pairs.take(index as int)).len() <= index
        },
    }
}

/// Setting one field adds at most one.
pub proof fn lemma_with_field_len(fields: Seq<Field>, name: Seq<u8>, value: Seq<u8>)
    ensures
        1 <= with_field(fields, name, value).len() <= fields.len() + 1,
    decreases fields.len(),
{
    if fields.len() == 0 {
    } else if fields.first().0 == name {
        fields.drop_first().lemma_filter_len(not_named(name));
    } else {
        lemma_with_field_len(fields.drop_first(), name, value);
    }
}

/// A list of pairs never encodes to more fields than it has pairs.
pub proof fn lemma_encoded_fields_len(pairs: Seq<TextPair>)
    ensures
        encoded_fields(pairs).len() <= pairs.len(),
    decreases pairs.len(),
{
    if pairs.len() > 0 {
        lemma_encoded_fields_len(pairs.drop_last());
        lemma_with_field_len(
            encoded_fields(pairs.drop_last()),
            as_field(pairs.last()).0,
            as_field(pairs.last()).1,
        );
    }
}

/// A list of at most `HEADER_ROOM` pairs, all of them acceptable, cannot be
/// refused.
pub proof fn lemma_acceptable_pairs_are_never_refused(pairs: Seq<TextPair>)
    requires
        acceptable_before(pairs, pairs.len() as int),
        pairs.len() <= HEADER_ROOM,
    ensures
        forall|error: HeaderError| !refused_by(pairs, error),
{
}

/// Dropping the fields of one name leaves the values of every other name.
proof fn lemma_field_value_without(fields: Seq<Field>, gone: Seq<u8>, name: Seq<u8>)
    requires
        name != gone,
    ensures
        field_value(fields.filter(not_named(gone)), name) == field_value(fields, name),
    decreases fields.len(),
{
    let kept = not_named(gone);
    if fields.len() == 0 {
        fields.lemma_filter_len(kept);
    } else {
        let rest = fields.drop_first();
        lemma_field_value_without(rest, gone, name);
        rest.lemma_filter_prepend(fields.first(), kept);
        assert(seq![fields.first()] + rest == fields);
        if kept(fields.first()) {
            let shown = seq![fields.first()] + rest.filter(kept);
            assert(shown.drop_first() == rest.filter(kept));
        }
    }
}

/// Setting a name gives that name the value and leaves every other name
/// what it had.
pub proof fn lemma_with_field_sets_one_name(
    fields: Seq<Field>,
    name: Seq<u8>,
    value: Seq<u8>,
    asked: Seq<u8>,
)
    ensures
        field_value(with_field(fields, name, value), asked) == if asked == name {
            Some(value)
        } else {
            field_value(fields, asked)
        },
    decreases fields.len(),
{
    let set = with_field(fields, name, value);
    if fields.len() == 0 {
        reveal_with_fuel(field_value, 2);
        assert(set.drop_first().len() == 0);
    } else if fields.first().0 == name {
        let rest = fields.drop_first().filter(not_named(name));
        assert(set.drop_first() == rest);
        if asked != name {
            lemma_field_value_without(fields.drop_first(), name, asked);
        }
    } else {
        lemma_with_field_sets_one_name(fields.drop_first(), name, value, asked);
        assert(set.drop_first() == with_field(fields.drop_first(), name, value));
    }
}

/// Of the pairs that stand for one name, the last gives the header its
/// value; a name that no pair stands for has no field.
pub proof fn lemma_last_pair_of_a_name_wins(pairs: Seq<TextPair>, name: Seq<u8>)
    ensures
        field_value(encoded_fields(pairs), name) == latest_value(pairs, name),
    decreases pairs.len(),
{
    if pairs.len() > 0 {
        lemma_last_pair_of_a_name_wins(pairs.drop_last(), name);
        lemma_with_field_sets_one_name(
            encoded_fields(pairs.drop_last()),
            as_field(pairs.last()).0,
            as_field(pairs.last()).1,
            name,
        );
    }
}

/// A name that no field has goes last.
proof fn lemma_with_field_new_name(fields: Seq<Field>, name: Seq<u8>, value: Seq<u8>)
    requires
        forall|i: int| 0 <= i < fields.len() ==> (#[trigger] fields[i]).0 != name,
    ensures
        with_field(fields, name, value) == fields.push((name, value)),
    decreases fields.len(),
{
    if fields.len() > 0 {
        let rest = fields.drop_first();
        assert(fields[0].0 != name);
        assert forall|i: int| 0 <= i < rest.len() implies (#[trigger] rest[i]).0 != name by {
            assert(rest[i] == fields[i + 1]);
        }
        lemma_with_field_new_name(rest, name, value);
        assert(seq![fields.first()] + rest.push((name, value)) == fields.push((name, value)));
    }
}

/// Pairs that stand for different names become the fields they stand for,
/// one for one and in the order given.
pub proof fn lemma_different_names_keep_their_order(pairs: Seq<TextPair>)
    requires
        names_differ(pairs),
    ensures
        encoded_fields(pairs) == pairs.map_values(|pair: TextPair| as_field(pair)),
    decreases pairs.len(),
{
    let stood_for = |pair: TextPair| as_field(pair);
    if pairs.len() == 0 {
        assert(encoded_fields(pairs) == pairs.map_values(stood_for));
    } else {
        let before = pairs.drop_last();
        assert(names_differ(before)) by {
            assert forall|i: int, j: int| 0 <= i < j < before.len() implies as_field(
                #[trigger] before[i],
            ).0 != as_field(#[trigger] before[j]).0 by {
                assert(before[i] == pairs[i] && before[j] == pairs[j]);
            }
        }
        lemma_different_names_keep_their_order(before);
        let fields = before.map_values(stood_for);
        let last = as_field(pairs.last());
        assert forall|i: int| 0 <= i < fields.len() implies (#[trigger] fields[i]).0
            != last.0 by {
            assert(fields[i] == as_field(pairs[i]));
            assert(pairs.last() == pairs[pairs.len() - 1]);
        }
        lemma_with_field_new_name(fields, last.0, last.1);
        assert(fields.push(last) == pairs.map_values(stood_for));
    }
}

/// Builds the header map of a request: each pair is parsed and set in turn,
/// so a later pair replaces an earlier one of the same name.
///
/// The first pair that the transport refuses ends the work, its name being
/// looked at before its value. Lists of at most `HEADER_ROOM` pairs always
/// fit, so for them the outcome is `Ok` exactly when every pair is acceptable.
pub fn encode_headers(pairs: &Vec<(String, String)>) -> (encoded: Result<
    HeaderMap<HeaderValue>,
    HeaderError,
>)
    ensures
        match encoded {
            Ok(map) => {
                &&& acceptable_before(pairs.deep_view(), pairs@.len() as int)
                &&& header_fields(map) == encoded_fields(pairs.deep_view())
            },
            Err(error) => refused_by(pairs.deep_view(), error),
        },
        pairs@.len() <= HEADER_ROOM ==> (encoded is Ok <==> acceptable_before(
            pairs.deep_view(),
            pairs@.len() as int,
        )),
{
    let ghost texts = pairs.deep_view();
    let mut map = HeaderMap::new();
    let mut index: usize = 0;
    while index < pairs.len()
        invariant
            texts == pairs.deep_view(),
            index <= pairs@.len(),
            acceptable_before(texts, index as int),
            header_fields(map) == encoded_fields(texts.take(index as int)),
        decreases pairs@.len() - index,
    {
        let pair = &pairs[index];
        assert(texts[index as int] == (pair.0@, pair.1@));
        let name = match HeaderName::from_bytes(pair.0.as_str().as_bytes()) {
            Ok(name) => name,
            Err(_) => {
                return Err(HeaderError::InvalidName { index });
            },
        };
        let value = match HeaderValue::from_str(pair.1.as_str()) {
            Ok(value) => value,
            Err(_) => {
                return Err(HeaderError::InvalidValue { index });
            },
        };
        proof {
            lemma_encoded_fields_len(texts.take(index as int));
            assert(texts.take(index + 1).drop_last() == texts.take(index as int));
        }
        match try_insert(&mut map, name, value) {
            Ok(()) => {},
            Err(_) => {
                return Err(HeaderError::MapFull { index });
            },
        }
        index += 1;
    }
    proof {
        assert(texts.take(index as int) == texts);
    }
    Ok(map)
}

} // verus!
