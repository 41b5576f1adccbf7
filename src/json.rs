//! A JSON document as the members of its top-level object.
use vstd::prelude::*;
use serde_json::Value;
use crate::text::same_text;

verus! {

/// A member value of a top-level JSON object, with the details used here.
pub enum JsonItem {
    Null,
    Bool(bool),
    /// A number, with its value where it is an integer that fits in `i64`.
    Number(Option<i64>),
    Text(String),
    /// An array, with each element's text where that element is a string.
    List(Vec<Option<String>>),
    Object,
}

/// What `serde_json::from_slice` makes of the bytes, read as the members of a
/// top-level object: `None` when the bytes are not valid JSON, no members when
/// the document is valid but not an object.
pub uninterp spec fn json_members(bytes: Seq<u8>) -> Option<Vec<(String, JsonItem)>>;

/// Relies on `serde_json::from_slice::<Value>` to parse the document, and on
/// `Number::as_i64` and `Value::as_str` to read numbers and array elements.
#[verifier::external_body]
pub(crate) fn parse_members(bytes: &[u8]) -> (r: Option<Vec<(String, JsonItem)>>)
    ensures
        r == json_members(bytes@),
{
    let members = match serde_json::from_slice::<Value>(bytes) {
        Ok(Value::Object(m)) => m,
        Ok(_) => return Some(Vec::new()),
        Err(_) => return None,
    };
    Some(members.into_iter().map(|(k, v)| (k, match v {
        Value::Null => JsonItem::Null,
        Value::Bool(b) => JsonItem::Bool(b),
        Value::Number(n) => JsonItem::Number(n.as_i64()),
        Value::String(s) => JsonItem::Text(s),
        Value::Array(a) => JsonItem::List(a.iter().map(|e| e.as_str().map(String::from)).collect()),
        Value::Object(_) => JsonItem::Object,
    })).collect())
}

/// The index of the first member named `key`.
pub open spec fn member_index(members: Seq<(String, JsonItem)>, key: Seq<char>) -> Option<int>
    decreases members.len(),
{
    if members.len() == 0 {
        None
    } else {
        match member_index(members.drop_last(), key) {
            Some(i) => Some(i),
            None => if members.last().0@ == key {
                Some(members.len() - 1)
            } else {
                None
            },
        }
    }
}

proof fn lemma_member_index_prefix(members: Seq<(String, JsonItem)>, key: Seq<char>, k: int)
    requires
        0 <= k <= members.len(),
        member_index(members.take(k), key) is Some,
    ensures
        member_index(members, key) == member_index(members.take(k), key),
    decreases members.len(),
{
    if k == members.len() {
        assert(members.take(k) =~= members);
    } else {
        assert(members.drop_last().take(k) =~= members.take(k));
        lemma_member_index_prefix(members.drop_last(), key, k);
    }
}

/// The index of the member named `key`, the first one if the name repeats.
pub fn find_member(members: &Vec<(String, JsonItem)>, key: &str) -> (r: Option<usize>)
    ensures
        r matches Some(i) ==> member_index(members@, key@) == Some(i as int) && i < members@.len(),
        r is None ==> member_index(members@, key@) is None,
{
    let mut i: usize = 0;
    while i < members.len()
        invariant
            i <= members@.len(),
            member_index(members@.take(i as int), key@) is None,
        decreases members.len() - i,
    {
        proof {
            assert(members@.take(i + 1).drop_last() =~= members@.take(i as int));
        }
        if same_text(members[i].0.as_str(), key) {
            proof {
                lemma_member_index_prefix(members@, key@, i + 1);
            }
            return Some(i);
        }
        i = i + 1;
    }
    assert(members@.take(i as int) =~= members@);
    None
}

} // verus!
