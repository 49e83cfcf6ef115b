//! Cached build outcomes: the serialized (exit code, stderr) pair stored
//! in the result cache, and the success/message rule derived from such a
//! pair.

use vstd::prelude::*;

verus! {

/// The JSON text serde_json writes for the pair of an exit code and a
/// stderr text: a function of the pair alone, the same in every process.
pub uninterp spec fn outcome_json(code: i32, err: Seq<char>) -> Seq<char>;

/// What serde_json::from_str reads an (i32, String) pair from a text, or
/// None where the text does not parse as one: a function of the text
/// alone, the same in every process.
pub uninterp spec fn parsed_outcome(s: Seq<char>) -> Option<(i32, Seq<char>)>;

/// The text a byte sequence is read back as, with invalid sequences
/// replaced: a function of the bytes alone.
pub uninterp spec fn lossy_text(bytes: Seq<u8>) -> Seq<char>;

/// Relies on serde_json::to_string: serializing an (i32, String) pair
/// never fails, and the written text depends on the pair alone.
#[verifier::external_body]
pub fn encode_outcome(code: i32, err: &str) -> (r: String)
    ensures
        r@ == outcome_json(code, err@),
{
    serde_json::to_string(&(code, err.to_string())).unwrap_or_default()
}

/// Relies on serde_json::from_str: what an (i32, String) pair parses from
/// depends on the text alone, and parsing the exact text serde_json wrote
/// for such a pair gives that pair back (serialize and deserialize of such
/// plain data are inverse). Of any other text nothing more is assumed.
#[verifier::external_body]
pub fn decode_outcome(s: &str) -> (r: Option<(i32, String)>)
    ensures
        r is Some <==> parsed_outcome(s@) is Some,
        r is Some ==> (r->Some_0.0, r->Some_0.1@) == parsed_outcome(s@)->Some_0,
        forall|code: i32, err: Seq<char>|
            s@ == #[trigger] outcome_json(code, err) ==> r is Some && r->Some_0.0 == code
                && r->Some_0.1@ == err,
{
    serde_json::from_str::<(i32, String)>(s).ok()
}

/// Relies on String::from_utf8_lossy: the decoded text depends on the
/// bytes alone, and empty input decodes to empty text.
#[verifier::external_body]
pub fn bytes_to_text(bytes: &Vec<u8>) -> (r: String)
    ensures
        r@ == lossy_text(bytes@),
        bytes@.len() == 0 ==> r@.len() == 0,
{
    String::from_utf8_lossy(bytes.as_slice()).into_owned()
}

/// The success/message rule of a finished run: exit code 0 succeeds with
/// an empty message; any other exit code fails with the captured stderr
/// text as the message — never stdout.
pub open spec fn message_spec(code: i32, err: Seq<char>) -> Seq<char> {
    if code == 0 {
        Seq::empty()
    } else {
        err
    }
}

/// The message a finished run reports: empty on success, the captured
/// output (stderr) unchanged otherwise.
pub fn only_error_message(output: &str, exit_code: i32) -> (r: String)
    ensures
        r@ == message_spec(exit_code, output@),
{
    if exit_code == 0 {
        String::new()
    } else {
        output.to_owned()
    }
}

} // verus!
