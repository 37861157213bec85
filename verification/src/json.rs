//! Property maps as JSON text, for callers that take them in that form.

use vstd::prelude::*;
use vstd::string::StringExecFns;
use crate::props::{pairs_view, Pair, Properties};

verus! {

/// The error type of `serde_json`, declared so that the result of the
/// encoder can be taken as it comes. Nothing is claimed of its values.
#[verifier::external_type_specification]
#[verifier::external_body]
pub struct ExJsonError(serde_json::Error);

/// The JSON text that `serde_json::to_string` gives for a string: the string
/// in quotes with what JSON requires escaped. `None` where it reports an error.
pub uninterp spec fn json_string(text: Seq<char>) -> Option<Seq<char>>;

/// Calls `serde_json::to_string` on a string. The result depends on the
/// characters of the string alone; this names it and claims nothing else.
#[verifier::external_body]
fn encode_string(text: &str) -> (encoded: Result<String, serde_json::Error>)
    ensures
        match encoded {
            Ok(json) => json_string(text@) == Some(json@),
            Err(_) => json_string(text@) is None,
        },
{
    serde_json::to_string(text)
}

/// The members of a JSON object, from keys and values that are JSON text
/// already: `key:value` for each pair, with commas between.
pub open spec fn json_members(encoded: Seq<Pair>) -> Seq<char>
    decreases encoded.len(),
{
    if encoded.len() == 0 {
        Seq::empty()
    } else if encoded.len() == 1 {
        encoded[0].0 + ":"@ + encoded[0].1
    } else {
        json_members(encoded.drop_last()) + ","@ + encoded.last().0 + ":"@ + encoded.last().1
    }
}

/// A JSON object, from keys and values that are JSON text already.
pub open spec fn json_object(encoded: Seq<Pair>) -> Seq<char> {
    "{"@ + json_members(encoded) + "}"@
}

/// The keys and values each as JSON text, if each has one.
pub open spec fn encoded_pairs(pairs: Seq<Pair>) -> Option<Seq<Pair>>
    decreases pairs.len(),
{
    if pairs.len() == 0 {
        Some(Seq::empty())
    } else {
        match (
            encoded_pairs(pairs.drop_last()),
            json_string(pairs.last().0),
            json_string(pairs.last().1),
        ) {
            (Some(before), Some(key), Some(value)) => Some(before.push((key, value))),
            _ => None,
        }
    }
}

/// The JSON object that holds the properties as string members, in the order
/// of the map.
pub open spec fn properties_json(pairs: Seq<Pair>) -> Option<Seq<char>> {
    match encoded_pairs(pairs) {
        Some(encoded) => Some(json_object(encoded)),
        None => None,
    }
}

/// Writes a JSON object from keys and values that are JSON text already.
pub fn join_object(encoded: &Vec<(String, String)>) -> (text: String)
    ensures
        text@ == json_object(pairs_view(encoded@)),
{
    let ghost all = pairs_view(encoded@);
    let mut text = String::new();
    text.append("{");
    let n = encoded.len();
    let mut i: usize = 0;
    assert(text@ =~= "{"@ + json_members(all.take(0)));
    while i < n
        invariant
            i <= n,
            n == encoded@.len(),
            all == pairs_view(encoded@),
            text@ == "{"@ + json_members(all.take(i as int)),
        decreases n - i,
    {
        proof {
            assert(all.take(i + 1).drop_last() =~= all.take(i as int));
        }
        if i > 0 {
            text.append(",");
        }
        text.append(encoded[i].0.as_str());
        text.append(":");
        text.append(encoded[i].1.as_str());
        proof {
            if i == 0 {
                assert(text@ =~= "{"@ + (all[0].0 + ":"@ + all[0].1));
            } else {
                assert(text@ =~= "{"@ + (json_members(all.take(i as int)) + ","@ + all[i as int].0
                    + ":"@ + all[i as int].1));
            }
        }
        i += 1;
    }
    assert(all.take(n as int) =~= all);
    text.append("}");
    text
}

/// The properties as a JSON object of string members, in the order of the
/// map, or `None` where the encoder reports an error for a key or a value.
pub fn encode_properties(props: &Properties) -> (text: Option<String>)
    ensures
        match text {
            Some(json) => properties_json(props@) == Some(json@),
            None => properties_json(props@) is None,
        },
{
    let ghost all = props@;
    let mut encoded: Vec<(String, String)> = Vec::new();
    let n = props.len();
    let mut i: usize = 0;
    while i < n
        invariant
            i <= n,
            n == props@.len(),
            all == props@,
            encoded_pairs(all.take(i as int)) == Some(pairs_view(encoded@)),
        decreases n - i,
    {
        proof {
            assert(all.take(i + 1).drop_last() =~= all.take(i as int));
        }
        let key = match encode_string(props.key_at(i).as_str()) {
            Ok(key) => key,
            Err(_) => {
                proof {
                    lemma_encoding_fails_on(all, i as int);
                }
                return None;
            },
        };
        let value = match encode_string(props.value_at(i).as_str()) {
            Ok(value) => value,
            Err(_) => {
                proof {
                    lemma_encoding_fails_on(all, i as int);
                }
                return None;
            },
        };
        encoded.push((key, value));
        i += 1;
    }
    assert(all.take(n as int) =~= all);
    Some(join_object(&encoded))
}

/// Where a key or a value has no JSON text, the pairs have none as a whole.
proof fn lemma_encoding_fails_on(pairs: Seq<Pair>, at: int)
    requires
        0 <= at < pairs.len(),
        json_string(pairs[at].0) is None || json_string(pairs[at].1) is None,
    ensures
        encoded_pairs(pairs) is None,
    decreases pairs.len(),
{
    if at < pairs.len() - 1 {
        lemma_encoding_fails_on(pairs.drop_last(), at);
    }
}

} // verus!
