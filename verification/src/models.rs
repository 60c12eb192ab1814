//! Registered models: how they are listed in OpenAI's shape, and which
//! reasoning effort values a new model may declare.
use vstd::prelude::*;

use crate::error::ShaideError;
use crate::text::{chars_of, decimal, eq_str, format_u64, owned, push_chars, push_str, string_from_chars};

verus! {

/// A model as OpenAI's model list shows it.
#[derive(Debug)]
pub struct OpenAIListModel {
    pub id: String,
    pub object: String,
    pub created: u32,
    pub owned_by: String,
}

/// A Unix time as a 32-bit count of seconds, or 0 when it does not fit.
pub open spec fn created_spec(created_at: i64) -> u32 {
    if 0 <= created_at <= u32::MAX {
        created_at as u32
    } else {
        0
    }
}

/// Lists a model in OpenAI's shape: named by its name, created at its
/// creation time (0 when that does not fit 32 bits), owned by its platform
/// or else by "shaide".
pub fn openai_list_model(name: &str, created_at: i64, platform: Option<&str>) -> (r: OpenAIListModel)
    ensures
        r.id@ == name@,
        r.object@ == "model"@,
        r.created == created_spec(created_at),
        r.owned_by@ == match platform {
            Some(p) => p@,
            None => "shaide"@,
        },
{
    let created: u32 = if 0 <= created_at && created_at <= 0xffff_ffff {
        created_at as u32
    } else {
        0
    };
    let owned_by = match platform {
        Some(p) => owned(p),
        None => owned("shaide"),
    };
    OpenAIListModel { id: owned(name), object: owned("model"), created, owned_by }
}

/// The reasoning effort values chat completions can forward.
pub open spec fn known_effort(v: Seq<char>) -> bool {
    v == "none"@ || v == "minimal"@ || v == "low"@ || v == "medium"@ || v == "high"@ || v == "xhigh"@
}

/// The first problem with a model's reasoning effort values, checked in
/// order: a value that cannot be forwarded, or one that repeats an earlier
/// value.
pub open spec fn effort_problem(values: Seq<String>) -> Option<Seq<char>>
    decreases values.len(),
{
    if values.len() == 0 {
        None
    } else {
        match effort_problem(values.drop_last()) {
            Some(p) => Some(p),
            None => {
                let i = values.len() - 1;
                let v = values.last()@;
                if !known_effort(v) {
                    Some(
                        "reasoning_effort_values["@ + decimal(i as nat)
                            + "] is not a value chat completions can forward: \""@ + v
                            + "\", expected one of none, minimal, low, medium, high, xhigh"@,
                    )
                } else if exists|j: int| 0 <= j < i && (#[trigger] values[j])@ == v {
                    Some("reasoning_effort_values["@ + decimal(i as nat) + "] is a duplicate of an earlier value: \""@ + v + "\""@)
                } else {
                    None
                }
            },
        }
    }
}

/// Whether `v` is a value chat completions can forward.
fn is_known_effort(v: &str) -> (r: bool)
    ensures
        r == known_effort(v@),
{
    eq_str(v, "none") || eq_str(v, "minimal") || eq_str(v, "low") || eq_str(v, "medium") || eq_str(v, "high")
        || eq_str(v, "xhigh")
}

proof fn lemma_problem_stays(s: Seq<String>, j: int, k: int)
    requires
        0 <= j <= k <= s.len(),
        effort_problem(s.take(j)) is Some,
    ensures
        effort_problem(s.take(k)) == effort_problem(s.take(j)),
    decreases k - j,
{
    if k > j {
        lemma_problem_stays(s, j, k - 1);
        assert(s.take(k).drop_last() == s.take(k - 1));
    }
}

/// Checks a new model's reasoning effort values: each must be one chat
/// completions can forward, and none may repeat. The refusal names the
/// first offending value and its index.
pub fn validate_reasoning_effort_values(values: &Vec<String>) -> (r: Result<(), String>)
    ensures
        match effort_problem(values@) {
            None => r is Ok,
            Some(p) => r matches Err(m) && m@ == p,
        },
{
    let mut i: usize = 0;
    proof {
        assert(values@.take(0) =~= Seq::<String>::empty());
    }
    while i < values.len()
        invariant
            i <= values@.len(),
            effort_problem(values@.take(i as int)) is None,
        decreases values@.len() - i,
    {
        let ghost prefix = values@.take(i + 1);
        proof {
            assert(prefix.drop_last() =~= values@.take(i as int));
            assert(prefix.last() == values@[i as int]);
            assert forall|j: int| 0 <= j < i implies prefix[j] == values@[j] by {}
        }
        let v = values[i].as_str();
        if !is_known_effort(v) {
            let mut m = chars_of("reasoning_effort_values[");
            let idx = format_u64(i as u64);
            push_chars(&mut m, &idx);
            push_str(&mut m, "] is not a value chat completions can forward: \"");
            push_str(&mut m, v);
            push_str(&mut m, "\", expected one of none, minimal, low, medium, high, xhigh");
            proof {
                lemma_problem_stays(values@, i + 1, values@.len() as int);
                assert(values@.take(values@.len() as int) =~= values@);
            }
            return Err(string_from_chars(&m));
        }
        let mut j: usize = 0;
        while j < i
            invariant
                j <= i < values@.len(),
                v@ == values@[i as int]@,
                prefix == values@.take(i + 1),
                prefix.drop_last() == values@.take(i as int),
                known_effort(v@),
                effort_problem(values@.take(i as int)) is None,
                forall|k: int| 0 <= k < j ==> (#[trigger] values@[k])@ != values@[i as int]@,
            decreases i - j,
        {
            if eq_str(values[j].as_str(), v) {
                let mut m = chars_of("reasoning_effort_values[");
                let idx = format_u64(i as u64);
                push_chars(&mut m, &idx);
                push_str(&mut m, "] is a duplicate of an earlier value: \"");
                push_str(&mut m, v);
                push_str(&mut m, "\"");
                let ghost msg = m@;
                proof {
                    assert(prefix[j as int]@ == prefix.last()@);
                    assert(known_effort(prefix.last()@));
                    assert(effort_problem(prefix.drop_last()) is None);
                    assert(msg == "reasoning_effort_values["@ + decimal(i as nat) + "] is a duplicate of an earlier value: \""@ + v@ + "\""@);
                    assert(effort_problem(prefix) == Some(msg));
                    lemma_problem_stays(values@, i + 1, values@.len() as int);
                    assert(values@.take(values@.len() as int) =~= values@);
                }
                return Err(string_from_chars(&m));
            }
            j = j + 1;
        }
        proof {
            assert(!(exists|k: int| 0 <= k < i && (#[trigger] prefix[k])@ == prefix.last()@));
        }
        i = i + 1;
    }
    proof {
        assert(values@.take(values@.len() as int) =~= values@);
    }
    Ok(())
}

/// Refuses a new model whose reasoning effort values cannot be used.
pub fn check_create_model(reasoning_effort_values: &Vec<String>) -> (r: Result<(), ShaideError>)
    ensures
        match effort_problem(reasoning_effort_values@) {
            None => r is Ok,
            Some(p) => r matches Err(ShaideError::BadRequestWithMessage(m)) && m@ == p,
        },
{
    match validate_reasoning_effort_values(reasoning_effort_values) {
        Ok(()) => Ok(()),
        Err(m) => Err(ShaideError::BadRequestWithMessage(m)),
    }
}

} // verus!
