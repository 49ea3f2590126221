//! Model identifier resolution: splitting `provider/model` names.
//!
//! A name containing a separator is split on its first occurrence; a name
//! without one belongs to the default provider. The rule is total and
//! deterministic for every input, including the empty string (default
//! provider, empty model) and a leading separator (empty provider, the rest
//! as model).

use vstd::prelude::*;
use vstd::string::StrSliceExecFns;

verus! {

/// The separator between the provider and the model part of a name.
pub open spec fn spec_separator() -> char {
    '/'
}

/// The index of the first separator at or after `from`, or `s.len()` when
/// there is none.
pub open spec fn first_separator_from(s: Seq<char>, from: int) -> int
    decreases s.len() - from,
{
    if from < 0 || from >= s.len() {
        s.len() as int
    } else if s[from] == spec_separator() {
        from
    } else {
        first_separator_from(s, from + 1)
    }
}

/// The index of the first separator in `s`, or `s.len()` when there is none.
pub open spec fn first_separator(s: Seq<char>) -> int {
    first_separator_from(s, 0)
}

/// The provider part a name resolves to.
pub open spec fn resolved_provider(s: Seq<char>) -> Seq<char> {
    if first_separator(s) < s.len() {
        s.subrange(0, first_separator(s))
    } else {
        "anthropic"@
    }
}

/// The model part a name resolves to.
pub open spec fn resolved_model(s: Seq<char>) -> Seq<char> {
    if first_separator(s) < s.len() {
        s.subrange(first_separator(s) + 1, s.len() as int)
    } else {
        s
    }
}

/// The first separator really is the first: nothing before it is one, and it
/// is one when it lies inside the name.
proof fn lemma_first_separator_from(s: Seq<char>, from: int)
    requires
        0 <= from <= s.len(),
    ensures
        from <= first_separator_from(s, from) <= s.len(),
        first_separator_from(s, from) < s.len() ==> s[first_separator_from(s, from)]
            == spec_separator(),
        forall|j: int|
            from <= j < first_separator_from(s, from) ==> s[j] != spec_separator(),
    decreases s.len() - from,
{
    if from < s.len() && s[from] != spec_separator() {
        lemma_first_separator_from(s, from + 1);
    }
}

/// Splits a model name into its provider and model parts.
///
/// With a separator present the name is split on the first one; without one
/// the default provider `anthropic` is paired with the whole name.
pub fn split_model_name(model_name: &str) -> (r: (String, String))
    ensures
        r.0@ == resolved_provider(model_name@),
        r.1@ == resolved_model(model_name@),
{
    proof {
        lemma_first_separator_from(model_name@, 0);
    }
    let len: usize = model_name.unicode_len();
    let mut i: usize = 0;
    while i < len
        invariant
            len == model_name@.len(),
            0 <= i <= len,
            forall|j: int| 0 <= j < i ==> model_name@[j] != spec_separator(),
            first_separator(model_name@) >= i,
        decreases len - i,
    {
        if model_name.get_char(i) == '/' {
            proof {
                lemma_first_separator_from(model_name@, 0);
                assert(first_separator(model_name@) == i);
            }
            let provider = model_name.substring_char(0, i);
            let model = model_name.substring_char(i + 1, len);
            return (provider.to_owned(), model.to_owned());
        }
        proof {
            lemma_first_separator_from(model_name@, 0);
        }
        i = i + 1;
    }
    ("anthropic".to_owned(), model_name.to_owned())
}

} // verus!
