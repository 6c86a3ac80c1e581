//! General properties of request construction, stated over the same spec
//! functions the builders' contracts use.

use vstd::prelude::*;

use crate::builder::{negative_or_empty, with_prompts};
use crate::image::{image_input_ok, image_key, image_value, ImageInput};
use crate::json::ScalarValue;

verus! {

/// Under one prefix, the URL key and the data key differ.
proof fn lemma_image_keys_differ(prefix: Seq<char>)
    ensures
        prefix + "_url"@ != prefix + "_data"@,
{
    reveal_strlit("_url");
    reveal_strlit("_data");
    assert((prefix + "_url"@).len() != (prefix + "_data"@).len());
}

/// The two prompt keys differ.
proof fn lemma_prompt_keys_differ()
    ensures
        "positive_prompt"@ != "negative_prompt"@,
{
    reveal_strlit("positive_prompt");
    reveal_strlit("negative_prompt");
    assert("positive_prompt"@[0] != "negative_prompt"@[0]);
}

/// An accepted remote reference contributes exactly its URL key: the body
/// holds `{prefix}_url` bound to the given string, and no `{prefix}_data`
/// key appears when the map had none.
pub proof fn lemma_remote_reference_sets_only_url(
    m: Map<Seq<char>, ScalarValue>,
    prefix: Seq<char>,
    input: ImageInput,
)
    requires
        input is RemoteReference,
        image_input_ok(input),
        !m.contains_key(prefix + "_data"@),
    ensures
        ({
            let normalized = m.insert(image_key(input, prefix), image_value(input));
            &&& normalized.contains_key(prefix + "_url"@)
            &&& normalized[prefix + "_url"@] == ScalarValue::Str(input->RemoteReference_0@)
            &&& !normalized.contains_key(prefix + "_data"@)
        }),
{
    lemma_image_keys_differ(prefix);
}

/// Accepted inline bytes contribute exactly their data key: the body holds
/// `{prefix}_data` bound to the decoded bytes, and no `{prefix}_url` key
/// appears when the map had none.
pub proof fn lemma_inline_bytes_set_only_data(
    m: Map<Seq<char>, ScalarValue>,
    prefix: Seq<char>,
    input: ImageInput,
)
    requires
        input is InlineBytes,
        image_input_ok(input),
        !m.contains_key(prefix + "_url"@),
    ensures
        ({
            let normalized = m.insert(image_key(input, prefix), image_value(input));
            &&& normalized.contains_key(prefix + "_data"@)
            &&& normalized[prefix + "_data"@] == image_value(input)
            &&& normalized[prefix + "_data"@] is Bytes
            &&& !normalized.contains_key(prefix + "_url"@)
        }),
{
    lemma_image_keys_differ(prefix);
}

/// A text-prompt body always carries an explicit `negative_prompt` key,
/// bound to the caller's negative prompt, or to the empty string when the
/// caller gave none — the key is never omitted.
pub proof fn lemma_negative_prompt_always_present(
    m: Map<Seq<char>, ScalarValue>,
    prompt: Seq<char>,
    neg: Option<Seq<char>>,
)
    ensures
        with_prompts(m, prompt, neg).contains_key("negative_prompt"@),
        with_prompts(m, prompt, neg)["negative_prompt"@] == ScalarValue::Str(
            negative_or_empty(neg),
        ),
        neg is None ==> with_prompts(m, prompt, neg)["negative_prompt"@] == ScalarValue::Str(
            Seq::empty(),
        ),
{
}

/// A Flux body is a text-prompt body too: writing the proportion token
/// after the prompts leaves the explicit empty `negative_prompt` key in
/// place.
pub proof fn lemma_flux_negative_prompt_always_present(
    m: Map<Seq<char>, ScalarValue>,
    prompt: Seq<char>,
    token: Seq<char>,
)
    ensures
        ({
            let body = with_prompts(m, prompt, None).insert(
                "proportion"@,
                ScalarValue::Str(token),
            );
            &&& body.contains_key("negative_prompt"@)
            &&& body["negative_prompt"@] == ScalarValue::Str(Seq::empty())
        }),
{
    reveal_strlit("proportion");
    reveal_strlit("negative_prompt");
    assert(("proportion"@).len() != ("negative_prompt"@).len());
}

/// Builder-managed keys win over extra parameters: whatever the extras
/// bound `positive_prompt` to, the built body binds it to the prompt
/// argument.
pub proof fn lemma_extras_cannot_override_prompt(
    m: Map<Seq<char>, ScalarValue>,
    prompt: Seq<char>,
    neg: Option<Seq<char>>,
)
    ensures
        with_prompts(m, prompt, neg).contains_key("positive_prompt"@),
        with_prompts(m, prompt, neg)["positive_prompt"@] == ScalarValue::Str(prompt),
{
    lemma_prompt_keys_differ();
}

} // verus!
