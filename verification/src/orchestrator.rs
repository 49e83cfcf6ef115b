//! The build orchestrator: for one language and one lifecycle command, read
//! the project files, consult the result cache under the content-derived
//! key, have the command dispatched on a miss, record the genuine outcome,
//! and derive the run's success and message.

use vstd::prelude::*;

verus! {

use crate::cache::Cache;
use crate::executor::ExecutionResult;
use crate::outcome::{
    bytes_to_text, decode_outcome, encode_outcome, lossy_text, message_spec, only_error_message,
    outcome_json, parsed_outcome,
};

/// The cache key of a run: the command text followed by the literal text
/// of every project file, in the language's fixed order. No hashing,
/// normalization or truncation: a hit requires byte-identical regeneration.
pub open spec fn key_spec(command: Seq<char>, files: Seq<Seq<char>>) -> Seq<char> {
    command + files.flatten()
}

/// Derives the cache key of a run.
pub fn cache_key(command: &str, files: &Vec<String>) -> (k: String)
    ensures
        k@ == key_spec(command@, files.deep_view()),
{
    let mut k: String = command.to_owned();
    let n = files.len();
    let mut i: usize = 0;
    while i < n
        invariant
            i <= n,
            n == files@.len(),
            k@ == command@ + files.deep_view().take(i as int).flatten(),
        decreases n - i,
    {
        k.append(files[i].as_str());
        proof {
            let fs = files.deep_view();
            assert(fs.take(i + 1) =~= fs.take(i as int).push(fs[i as int]));
            fs.take(i as int).lemma_flatten_push(fs[i as int]);
            assert(fs[i as int] == files@[i as int]@);
            assert(k@ =~= command@ + fs.take(i + 1).flatten());
        }
        i += 1;
    }
    proof {
        let fs = files.deep_view();
        assert(fs.take(n as int) =~= fs);
    }
    k
}

/// Why an orchestration aborts before anything is dispatched.
#[derive(Clone, Copy, PartialEq, Eq, Structural, Debug)]
pub enum BuildError {
    /// The project file at this position of the language's fixed list was
    /// never materialized: a fatal precondition error.
    MissingFile { index: usize },
}

/// The fatal precondition check: every project file the language descriptor
/// names must have been read. Gives the files' texts in descriptor order,
/// or the position of the first missing one.
pub fn check_sources(reads: &Vec<Option<String>>) -> (r: Result<Vec<String>, BuildError>)
    ensures
        match r {
            Ok(files) => files.deep_view().len() == reads@.len() && forall|i: int|
                0 <= i < reads@.len() ==> reads.deep_view()[i] == Some(
                    #[trigger] files.deep_view()[i],
                ),
            Err(e) => e matches BuildError::MissingFile { index } && index < reads@.len()
                && reads.deep_view()[index as int] is None && forall|j: int|
                0 <= j < index ==> reads.deep_view()[j] is Some,
        },
{
    let n = reads.len();
    let mut files: Vec<String> = Vec::new();
    let mut i: usize = 0;
    while i < n
        invariant
            i <= n,
            n == reads@.len(),
            files@.len() == i,
            forall|j: int| 0 <= j < i ==> reads.deep_view()[j] == Some(
                #[trigger] files.deep_view()[j],
            ),
        decreases n - i,
    {
        match &reads[i] {
            Some(text) => {
                let ghost pre = files.deep_view();
                files.push(text.clone());
                proof {
                    assert(forall|j: int| 0 <= j < pre.len() ==> #[trigger] files.deep_view()[j]
                        == pre[j]);
                    assert(reads.deep_view()[i as int] == Some(files.deep_view()[i as int]));
                }
            },
            None => {
                proof {
                    assert(reads.deep_view()[i as int] is None);
                    assert forall|j: int| 0 <= j < i implies #[trigger] reads.deep_view()[j]
                        is Some by {
                        assert(reads.deep_view()[j] == Some(files.deep_view()[j]));
                    }
                }
                return Err(BuildError::MissingFile { index: i });
            },
        }
        i += 1;
    }
    Ok(files)
}

/// What the orchestrator decided after consulting the cache.
pub enum BuildStep {
    /// A recorded outcome was found under the key: the derived result,
    /// with no engine call.
    Finished { success: bool, message: String },
    /// Nothing usable is recorded: the command must be dispatched into the
    /// container, and its outcome settled under this key.
    Run { key: String },
}

/// Consults the result cache under the key derived from the command and
/// the project files. A recorded outcome is decoded and its result
/// derived; with nothing usable recorded, the run must be dispatched.
pub fn plan_build(cache: &Cache, command: &str, files: &Vec<String>) -> (r: BuildStep)
    ensures
        ({
            let key = key_spec(command@, files.deep_view());
            let hit = cache@.dom().contains(key);
            &&& (r matches BuildStep::Run { key: k } ==> k@ == key)
            &&& (!hit || parsed_outcome(cache@[key]) is None <==> (r matches BuildStep::Run {
                key: k,
            } && k@ == key))
            &&& (hit && parsed_outcome(cache@[key]) is Some ==> (r matches BuildStep::Finished {
                success,
                message,
            } && ({
                let stored = parsed_outcome(cache@[key])->Some_0;
                success == (stored.0 == 0) && message@ == message_spec(stored.0, stored.1)
            })))
            &&& forall|code: i32, err: Seq<char>|
                hit && cache@[key] == #[trigger] outcome_json(code, err) ==> (r
                    matches BuildStep::Finished { success, message } && success == (code == 0)
                    && message@ == message_spec(code, err))
        }),
{
    let key = cache_key(command, files);
    match cache.get(key.as_str()) {
        None => BuildStep::Run { key },
        Some(stored) => match decode_outcome(stored.as_str()) {
            Some(pair) => {
                let (code, err) = pair;
                BuildStep::Finished {
                    success: code == 0,
                    message: only_error_message(err.as_str(), code),
                }
            },
            None => BuildStep::Run { key },
        },
    }
}

/// How a dispatched command ended: a captured execution, or a
/// dispatch-level failure whose descriptive text stands in for a result.
pub enum DispatchResult {
    Executed(ExecutionResult),
    Failed(String),
}

/// Settles a dispatched command under its cache key. A genuine
/// (exit code, stderr) outcome is recorded in the cache and its result
/// derived by the success/message rule. A dispatch-level failure is
/// reported as failure with the failure text as the message; an execution
/// with no observable status is reported as failure with an empty message.
/// Neither of the two ever touches the cache.
pub fn settle(cache: &mut Cache, key: &str, outcome: DispatchResult) -> (r: (bool, String))
    ensures
        match outcome {
            DispatchResult::Executed(res) => match res.exit_code {
                Some(code) => final(cache)@ == old(cache)@.insert(
                    key@,
                    outcome_json(code, lossy_text(res.stderr@)),
                ) && r.0 == (code == 0) && r.1@ == message_spec(code, lossy_text(res.stderr@)),
                None => final(cache)@ == old(cache)@ && r.0 == false && r.1@.len() == 0,
            },
            DispatchResult::Failed(msg) => final(cache)@ == old(cache)@ && r.0 == false && r.1@
                == msg@,
        },
{
    match outcome {
        DispatchResult::Executed(res) => match res.exit_code {
            Some(code) => {
                let err = bytes_to_text(&res.stderr);
                let encoded = encode_outcome(code, err.as_str());
                cache.set(key.to_owned(), encoded);
                (code == 0, only_error_message(err.as_str(), code))
            },
            None => (false, String::new()),
        },
        DispatchResult::Failed(msg) => (false, msg),
    }
}

/// Cache correctness: once a genuine outcome is recorded under the key
/// derived from a command and its project files, that key maps to exactly
/// the recorded text. With the command and every file byte-identical, a
/// later consultation therefore finds the entry and — by the contract of
/// `plan_build` — derives the identical result, planning no engine call.
pub proof fn lemma_cache_correctness(
    m: Map<Seq<char>, Seq<char>>,
    command: Seq<char>,
    files: Seq<Seq<char>>,
    code: i32,
    err: Seq<char>,
)
    ensures
        ({
            let k = key_spec(command, files);
            let recorded = m.insert(k, outcome_json(code, err));
            recorded.dom().contains(k) && recorded[k] == outcome_json(code, err)
        }),
{
}

proof fn lemma_flatten_sensitive(f1: Seq<Seq<char>>, f2: Seq<Seq<char>>, i: int, j: int)
    requires
        f1.len() == f2.len(),
        forall|k: int| 0 <= k < f1.len() ==> #[trigger] f1[k].len() == f2[k].len(),
        0 <= i < f1.len(),
        0 <= j < f1[i].len(),
        f1[i][j] != f2[i][j],
    ensures
        f1.flatten() != f2.flatten(),
    decreases i,
{
    let t1 = f1.drop_first();
    let t2 = f2.drop_first();
    assert(f1.flatten() == f1[0] + t1.flatten());
    assert(f2.flatten() == f2[0] + t2.flatten());
    if i == 0 {
        assert(f1.flatten()[j] == f1[0][j]);
        assert(f2.flatten()[j] == f2[0][j]);
    } else {
        assert(forall|k: int| 0 <= k < t1.len() ==> #[trigger] t1[k].len() == t2[k].len());
        lemma_flatten_sensitive(t1, t2, i - 1, j);
        if f1.flatten() == f2.flatten() {
            let head_len = f1[0].len() as int;
            assert(t1.flatten().len() == t2.flatten().len());
            assert forall|idx: int| 0 <= idx < t1.flatten().len() implies t1.flatten()[idx]
                == t2.flatten()[idx] by {
                assert(f1.flatten()[head_len + idx] == t1.flatten()[idx]);
                assert(f2.flatten()[head_len + idx] == t2.flatten()[idx]);
            }
            assert(t1.flatten() =~= t2.flatten());
        }
    }
}

/// Cache sensitivity: altering one byte of any project file — the file
/// count and every file's length kept — changes the derived cache key, so
/// a consultation under the new key cannot hit what was recorded under the
/// old one and the command is re-executed.
pub proof fn lemma_key_sensitivity(
    command: Seq<char>,
    files1: Seq<Seq<char>>,
    files2: Seq<Seq<char>>,
    i: int,
    j: int,
)
    requires
        files1.len() == files2.len(),
        forall|k: int| 0 <= k < files1.len() ==> #[trigger] files1[k].len() == files2[k].len(),
        0 <= i < files1.len(),
        0 <= j < files1[i].len(),
        files1[i][j] != files2[i][j],
    ensures
        key_spec(command, files1) != key_spec(command, files2),
{
    lemma_flatten_sensitive(files1, files2, i, j);
    if key_spec(command, files1) == key_spec(command, files2) {
        let fl1 = files1.flatten();
        let fl2 = files2.flatten();
        assert(command + fl1 == command + fl2);
        assert((command + fl1).len() == command.len() + fl1.len());
        assert((command + fl2).len() == command.len() + fl2.len());
        assert(fl1.len() == fl2.len());
        assert forall|idx: int| 0 <= idx < fl1.len() implies fl1[idx] == fl2[idx] by {
            assert((command + fl1)[command.len() + idx] == fl1[idx]);
            assert((command + fl2)[command.len() + idx] == fl2[idx]);
        }
        assert(fl1 =~= fl2);
    }
}

} // verus!
