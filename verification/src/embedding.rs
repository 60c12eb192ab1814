//! Embedding requests: which inputs are accepted, which registered model a
//! request names, whether its requested dimensions fit the model, how a
//! provider's numbered vectors are put in order, and the key a code snippet
//! is stored under.
use vstd::prelude::*;

use vstd::string::StringSliceAdditionalSpecFns;

use crate::error::ShaideError;
use crate::text::{chars_of, decimal, decimal_int, eq_str, format_i64, format_u64, push_chars, push_str,
    string_from_chars};

verus! {

/// The FNV-1a hash of a byte string: from the offset basis, each byte is
/// xored in and the state multiplied by the FNV prime, modulo 2^64.
pub open spec fn fnv1a(bytes: Seq<u8>) -> u64
    decreases bytes.len(),
{
    if bytes.len() == 0 {
        0xcbf29ce484222325
    } else {
        ((((fnv1a(bytes.drop_last()) ^ (bytes.last() as u64)) as int) * 0x100000001b3int) % 0x1_0000_0000_0000_0000int) as u64
    }
}

/// Hashes bytes with FNV-1a, as `fnv::FnvHasher` does (its default state,
/// one `write`, then `finish`): from the offset basis, each byte is xored
/// in and the state multiplied by the FNV prime, wrapping.
fn fnv_hash(bytes: &[u8]) -> (r: u64)
    ensures
        r == fnv1a(bytes@),
{
    let mut h: u64 = 0xcbf29ce484222325;
    let mut i: usize = 0;
    proof {
        assert(bytes@.take(0) =~= Seq::<u8>::empty());
    }
    while i < bytes.len()
        invariant
            i <= bytes@.len(),
            h == fnv1a(bytes@.take(i as int)),
        decreases bytes@.len() - i,
    {
        proof {
            assert(bytes@.take(i + 1).drop_last() =~= bytes@.take(i as int));
            assert(bytes@.take(i + 1).last() == bytes@[i as int]);
        }
        h = (h ^ (bytes[i] as u64)).wrapping_mul(0x100000001b3);
        i = i + 1;
    }
    proof {
        assert(bytes@.take(bytes@.len() as int) =~= bytes@);
    }
    h
}

/// The key a snippet's text is stored under: the FNV-1a hash of its UTF-8
/// bytes.
pub fn hash_content(content: &str) -> (r: u64)
    ensures
        r == fnv1a(content.spec_bytes()),
{
    fnv_hash(content.as_bytes())
}

/// What Vertex reports of one embedding: whether the text was cut to fit
/// and how many tokens it had.
#[derive(Clone, Copy, Debug)]
pub struct EmbeddingStatistics {
    pub truncated: bool,
    pub token_count: u32,
}

/// OpenAI's per-request cap on the number of inputs.
pub const MAX_EMBEDDING_INPUTS: usize = 2048;

/// The input of an embedding request: one string, strings, or token arrays.
#[derive(Debug)]
pub enum EmbeddingInput {
    String(String),
    StringArray(Vec<String>),
    IntegerArray(Vec<u32>),
    ArrayOfIntegerArray(Vec<Vec<u32>>),
}

/// The texts of an input, or `None` for token arrays.
pub open spec fn input_texts(input: EmbeddingInput) -> Option<Seq<String>> {
    match input {
        EmbeddingInput::String(t) => Some(seq![t]),
        EmbeddingInput::StringArray(ts) => Some(ts@),
        _ => None,
    }
}

/// `i` is the first index of an empty text.
pub open spec fn first_empty(texts: Seq<String>, i: int) -> bool {
    &&& 0 <= i < texts.len()
    &&& texts[i]@.len() == 0
    &&& forall|j: int| 0 <= j < i ==> (#[trigger] texts[j])@.len() > 0
}

/// The refusal of an input with an empty text at `i`.
pub open spec fn empty_input_message(i: int) -> Seq<char> {
    "input["@ + decimal_int(i) + "] is empty, every input must be a non-empty string"@
}

/// The texts an input asks to embed. Token arrays are refused (they would
/// need the model's own tokenizer), and so are no texts, more than the cap,
/// and an empty text.
pub fn embedding_texts(input: EmbeddingInput) -> (r: Result<Vec<String>, ShaideError>)
    ensures
        match input_texts(input) {
            None => r matches Err(ShaideError::BadRequest(m)) && m@
                == "Token array input is not supported; send the input as a string or an array of strings"@,
            Some(texts) => if texts.len() == 0 {
                r matches Err(ShaideError::BadRequest(m)) && m@ == "input must contain at least one string"@
            } else if texts.len() > 2048 {
                r matches Err(ShaideError::BadRequest(m)) && m@ == "input must not contain more than 2048 strings, got "@
                    + decimal(texts.len())
            } else if exists|i: int| first_empty(texts, i) {
                r matches Err(ShaideError::BadRequest(m)) && exists|i: int|
                    first_empty(texts, i) && m@ == empty_input_message(i)
            } else {
                r matches Ok(v) && v@ == texts
            },
        },
{
    let texts = match input {
        EmbeddingInput::String(text) => {
            let mut v: Vec<String> = Vec::new();
            v.push(text);
            proof {
                assert(v@ =~= seq![text]);
            }
            v
        },
        EmbeddingInput::StringArray(texts) => texts,
        _ => {
            return Err(ShaideError::BadRequest(crate::text::owned(
                "Token array input is not supported; send the input as a string or an array of strings",
            )));
        },
    };
    if texts.len() == 0 {
        return Err(ShaideError::BadRequest(crate::text::owned("input must contain at least one string")));
    }
    if texts.len() > MAX_EMBEDDING_INPUTS {
        let mut m = chars_of("input must not contain more than 2048 strings, got ");
        let count = format_u64(texts.len() as u64);
        push_chars(&mut m, &count);
        return Err(ShaideError::BadRequest(string_from_chars(&m)));
    }
    let mut i: usize = 0;
    while i < texts.len()
        invariant
            i <= texts.len(),
            0 < texts.len() <= 2048,
            input_texts(input) == Some(texts@),
            forall|j: int| 0 <= j < i ==> (#[trigger] texts@[j])@.len() > 0,
        decreases texts.len() - i,
    {
        if texts[i].unicode_len() == 0 {
            proof {
                assert(first_empty(texts@, i as int));
                assert(decimal_int(i as int) == decimal(i as nat));
            }
            let mut m = chars_of("input[");
            let index = format_u64(i as u64);
            push_chars(&mut m, &index);
            push_str(&mut m, "] is empty, every input must be a non-empty string");
            let message = string_from_chars(&m);
            proof {
                assert(message@ == empty_input_message(i as int));
            }
            return Err(ShaideError::BadRequest(message));
        }
        i = i + 1;
    }
    proof {
        assert forall|k: int| !first_empty(texts@, k) by {
            if 0 <= k < texts@.len() {
                assert(texts@[k]@.len() > 0);
            }
        }
    }
    Ok(texts)
}

/// A registered embedding model.
#[derive(Debug)]
pub struct EmbeddingModel {
    pub id: i64,
    pub url: String,
    pub name: String,
    pub vector_size: i64,
    pub platform: Option<String>,
}

/// The registered model a request names: the first one of that name.
pub fn find_embedding_model(models: Vec<EmbeddingModel>, name: &str) -> (r: Result<EmbeddingModel, ShaideError>)
    ensures
        match r {
            Ok(m) => exists|i: int|
                0 <= i < models@.len() && models@[i] == m && m.name@ == name@ && forall|j: int|
                    0 <= j < i ==> (#[trigger] models@[j]).name@ != name@,
            Err(e) => {
                &&& forall|j: int| 0 <= j < models@.len() ==> (#[trigger] models@[j]).name@ != name@
                &&& e matches ShaideError::RequestRejection { status_code, message, code } && status_code == 404
                    && message@ == "The embedding model '"@ + name@ + "' does not exist"@ && code@ == "model_not_found"@
            },
        },
{
    let ghost original = models@;
    let total = models.len();
    let mut rest = models;
    let mut k: usize = 0;
    while rest.len() > 0
        invariant
            original == models@,
            original.len() == total,
            k + rest@.len() == original.len(),
            rest@ == original.skip(k as int),
            forall|j: int| 0 <= j < k ==> (#[trigger] original[j]).name@ != name@,
        decreases rest@.len(),
    {
        let m = rest.remove(0);
        proof {
            assert(original[k as int] == m);
        }
        if eq_str(m.name.as_str(), name) {
            return Ok(m);
        }
        proof {
            assert(rest@ =~= original.skip(k + 1));
        }
        k = k + 1;
    }
    Err(ShaideError::RequestRejection {
        status_code: 404,
        message: crate::text::concat3("The embedding model '", name, "' does not exist"),
        code: crate::text::owned("model_not_found"),
    })
}

/// A request's `dimensions` is accepted only when it is the model's vector
/// size, since vectors are not shortened.
pub fn check_dimensions(dimensions: Option<u32>, embedding_model: &EmbeddingModel) -> (r: Result<(), ShaideError>)
    ensures
        match dimensions {
            Some(requested) if requested != embedding_model.vector_size => r matches Err(
                ShaideError::BadRequest(m),
            ) && m@ == "Embedding model '"@ + embedding_model.name@ + "' returns "@ + decimal_int(
                embedding_model.vector_size as int,
            ) + " dimensions; dimensions="@ + decimal(requested as nat) + " is not supported"@,
            _ => r is Ok,
        },
{
    match dimensions {
        Some(requested) => {
            if (requested as i64) != embedding_model.vector_size {
                let mut m = chars_of("Embedding model '");
                push_str(&mut m, embedding_model.name.as_str());
                push_str(&mut m, "' returns ");
                let size = format_i64(embedding_model.vector_size);
                push_chars(&mut m, &size);
                push_str(&mut m, " dimensions; dimensions=");
                let req = format_u64(requested as u64);
                push_chars(&mut m, &req);
                push_str(&mut m, " is not supported");
                Err(ShaideError::BadRequest(string_from_chars(&m)))
            } else {
                Ok(())
            }
        },
        None => Ok(()),
    }
}

/// An item a provider numbered.
pub struct Indexed<T> {
    pub index: usize,
    pub item: T,
}

/// The items' numbers are exactly `0..len`, each once.
pub open spec fn numbered_in_full<T>(items: Seq<Indexed<T>>) -> bool {
    &&& forall|i: int| 0 <= i < items.len() ==> (#[trigger] items[i]).index < items.len()
    &&& forall|i: int, j: int| 0 <= i < items.len() && 0 <= j < items.len() && i != j ==> items[i].index != items[j].index
}

/// Puts a provider's numbered items in the order of their numbers; `None`
/// unless the numbers are exactly `0..len`, each once.
pub fn order_by_index<T>(items: Vec<Indexed<T>>) -> (r: Option<Vec<T>>)
    ensures
        match r {
            Some(v) => numbered_in_full(items@) && v@.len() == items@.len() && forall|i: int|
                0 <= i < items@.len() ==> v@[(#[trigger] items@[i]).index as int] == items@[i].item,
            None => !numbered_in_full(items@),
        },
{
    let n = items.len();
    let ghost original = items@;
    let mut slots: Vec<Option<T>> = Vec::new();
    let mut k: usize = 0;
    while k < n
        invariant
            k <= n,
            slots@.len() == k,
            forall|j: int| 0 <= j < k ==> (#[trigger] slots@[j]) is None,
        decreases n - k,
    {
        slots.push(None);
        k = k + 1;
    }
    let mut rest = items;
    let mut placed: usize = 0;
    while rest.len() > 0
        invariant
            original == items@,
            n == original.len(),
            slots@.len() == n,
            placed + rest@.len() == n,
            rest@ == original.skip(placed as int),
            forall|i: int| 0 <= i < placed ==> (#[trigger] original[i]).index < n,
            forall|i: int, j: int| 0 <= i < placed && 0 <= j < placed && i != j ==> original[i].index != original[j].index,
            forall|i: int| 0 <= i < placed ==> slots@[(#[trigger] original[i]).index as int] == Some(original[i].item),
            forall|s: int| 0 <= s < n && (#[trigger] slots@[s]) is Some ==> exists|i: int| 0 <= i < placed && original[i].index == s,
        decreases rest@.len(),
    {
        let it = rest.remove(0);
        proof {
            assert(original[placed as int] == it);
            assert(rest@ =~= original.skip(placed + 1));
        }
        if it.index >= n {
            proof {
                assert(!numbered_in_full(original));
            }
            return None;
        }
        let taken = match &slots[it.index] {
            Some(_) => true,
            None => false,
        };
        if taken {
            proof {
                let s = it.index as int;
                let i = choose|i: int| 0 <= i < placed && original[i].index == s;
                assert(original[i].index == original[placed as int].index);
                assert(!numbered_in_full(original));
            }
            return None;
        }
        let ghost before = slots@;
        slots.set(it.index, Some(it.item));
        proof {
            assert forall|i: int| 0 <= i < placed + 1 implies slots@[(#[trigger] original[i]).index as int] == Some(
                original[i].item,
            ) by {
                if i < placed {
                    assert(original[i].index != original[placed as int].index) by {
                        if original[i].index == original[placed as int].index {
                            assert(before[original[i].index as int] is Some);
                        }
                    }
                }
            }
            assert forall|s: int| 0 <= s < n && (#[trigger] slots@[s]) is Some implies exists|i: int|
                0 <= i < placed + 1 && original[i].index == s by {
                if s == it.index {
                    assert(original[placed as int].index == s);
                } else {
                    assert(before[s] is Some);
                    let i = choose|i: int| 0 <= i < placed && original[i].index == s;
                    assert(0 <= i < placed + 1 && original[i].index == s);
                }
            }
            assert forall|i: int, j: int| 0 <= i < placed + 1 && 0 <= j < placed + 1 && i != j implies original[i].index
                != original[j].index by {
                if i == placed && j < placed {
                    if original[i].index == original[j].index {
                        assert(before[original[j].index as int] is Some);
                    }
                } else if j == placed && i < placed {
                    if original[i].index == original[j].index {
                        assert(before[original[i].index as int] is Some);
                    }
                }
            }
        }
        placed = placed + 1;
    }
    // Every slot is filled: n distinct numbers below n were placed.
    let mut out: Vec<T> = Vec::new();
    let ghost full = slots@;
    proof {
        assert(numbered_in_full(original));
        lemma_all_filled(original, full);
    }
    let mut remaining = slots;
    while remaining.len() > 0
        invariant
            full.len() == n,
            out@.len() + remaining@.len() == n,
            remaining@ == full.skip(out@.len() as int),
            forall|s: int| 0 <= s < n ==> (#[trigger] full[s]) is Some,
            forall|s: int| 0 <= s < out@.len() ==> Some(out@[s]) == #[trigger] full[s],
        decreases remaining@.len(),
    {
        let ghost at = out@.len() as int;
        let slot = remaining.remove(0);
        proof {
            assert(full[at] == slot);
            assert(remaining@ =~= full.skip(at + 1));
        }
        match slot {
            Some(x) => out.push(x),
            None => {
                proof {
                    assert(false);
                }
            },
        }
    }
    proof {
        assert forall|i: int| 0 <= i < original.len() implies out@[(#[trigger] original[i]).index as int]
            == original[i].item by {
            assert(full[original[i].index as int] == Some(original[i].item));
        }
    }
    Some(out)
}

/// When `n` items carry distinct numbers below `n` and sit at their
/// numbers, every slot is taken.
proof fn lemma_all_filled<T>(items: Seq<Indexed<T>>, slots: Seq<Option<T>>)
    requires
        slots.len() == items.len(),
        numbered_in_full(items),
        forall|i: int| 0 <= i < items.len() ==> slots[(#[trigger] items[i]).index as int] == Some(items[i].item),
    ensures
        forall|s: int| 0 <= s < slots.len() ==> (#[trigger] slots[s]) is Some,
{
    let n = items.len();
    let f = |i: int| items[i].index as int;
    let dom = Set::new(|i: int| 0 <= i < n);
    let img = dom.map(f);
    assert(dom =~= vstd::set_lib::set_int_range(0, n as int));
    vstd::set_lib::lemma_int_range(0, n as int);
    assert(vstd::relations::injective_on(f, dom)) by {
        assert forall|a: int, b: int| dom.contains(a) && dom.contains(b) && #[trigger] f(a) == #[trigger] f(b) implies a == b by {}
    }
    vstd::set_lib::lemma_map_size(dom, img, f);
    assert(img.subset_of(vstd::set_lib::set_int_range(0, n as int))) by {
        assert forall|s: int| img.contains(s) implies vstd::set_lib::set_int_range(0, n as int).contains(s) by {
            let i = choose|i: int| dom.contains(i) && f(i) == s;
            assert(items[i].index < n);
        }
    }
    vstd::set_lib::lemma_subset_equality(img, vstd::set_lib::set_int_range(0, n as int));
    assert forall|s: int| 0 <= s < slots.len() implies (#[trigger] slots[s]) is Some by {
        assert(vstd::set_lib::set_int_range(0, n as int).contains(s));
        assert(img.contains(s));
        let i = choose|i: int| dom.contains(i) && f(i) == s;
        assert(slots[items[i].index as int] == Some(items[i].item));
    }
}

} // verus!
