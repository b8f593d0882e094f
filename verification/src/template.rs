//! The template expander: fills the placeholders of a template from a
//! capture dictionary.

use crate::error::PrepareError;
use crate::records::value_or_empty;
use crate::records::CaptureDict;
use std::borrow::Cow;
use text_placeholder::Template;
use vstd::prelude::*;

verus! {

/// `text_placeholder::Error`, why a template could not be filled.
#[verifier::external_type_specification]
#[verifier::external_body]
pub struct ExTemplateError(text_placeholder::Error);

/// A piece of a template: literal text, or a placeholder with its key.
pub ghost enum Token {
    Text(Seq<char>),
    Placeholder(Seq<char>),
}

/// The pieces that a template text is made of, in order.
pub uninterp spec fn template_tokens(text: Seq<char>) -> Seq<Token>;

/// The text that stands for `token` in the output: literal text stands for
/// itself, a placeholder for the text under its key in `dict`, or for the
/// empty text where `dict` has no such key.
pub open spec fn filled(token: Token, dict: Map<Seq<char>, Seq<char>>) -> Seq<char> {
    match token {
        Token::Text(text) => text,
        Token::Placeholder(key) => value_or_empty(dict, key),
    }
}

/// The output for a template made of `tokens`: what stands for each token,
/// one after the other.
pub open spec fn rendered(tokens: Seq<Token>, dict: Map<Seq<char>, Seq<char>>) -> Seq<char> {
    tokens.map_values(|token: Token| filled(token, dict)).flatten()
}

/// `Template::new` and `Template::fill_with_function`: splits `template`
/// into its pieces and joins what stands for each. A literal piece is copied;
/// for a placeholder the function given here is asked, and it answers for
/// every key, with the text of `data` or an empty text. The outside function
/// fails only where its function has no answer, so it does not fail here.
#[verifier::external_body]
fn fill(template: &str, data: &CaptureDict) -> (r: Result<String, text_placeholder::Error>)
    ensures
        r is Ok,
        r matches Ok(text) ==> text@ == rendered(template_tokens(template@), data@),
{
    Template::new(template).fill_with_function(|key| Some(Cow::Owned(data.value_or_empty(key))))
}

/// Expands the template `body` with the dictionary `data`.
///
/// Every placeholder is replaced: by the text under its key, or by nothing
/// where the dictionary has no such key. A missing key is no failure, so the
/// expansion always succeeds.
pub fn apply_template(body: String, data: &CaptureDict) -> (r: Result<String, PrepareError>)
    ensures
        r matches Ok(text) && text@ == rendered(template_tokens(body@), data@),
{
    match fill(body.as_str(), data) {
        Ok(text) => Ok(text),
        Err(_) => Err(PrepareError::TemplateError),
    }
}

/// No placeholder stays unresolved: in the output a placeholder stands as
/// the text under its key, and as the empty text where the dictionary has no
/// such key, whatever the other tokens are.
pub proof fn lemma_placeholders_resolve(
    tokens: Seq<Token>,
    dict: Map<Seq<char>, Seq<char>>,
    i: int,
)
    requires
        0 <= i < tokens.len(),
        tokens[i] is Placeholder,
    ensures
        rendered(tokens, dict) == rendered(tokens.take(i), dict) + (if dict.contains_key(
            tokens[i]->Placeholder_0,
        ) {
            dict[tokens[i]->Placeholder_0]
        } else {
            Seq::empty()
        }) + rendered(tokens.skip(i + 1), dict),
{
    let parts = tokens.map_values(|token: Token| filled(token, dict));
    let head = tokens.take(i).map_values(|token: Token| filled(token, dict));
    let tail = tokens.skip(i + 1).map_values(|token: Token| filled(token, dict));
    assert(parts =~= head + seq![parts[i]] + tail);
    vstd::seq_lib::lemma_flatten_concat(head + seq![parts[i]], tail);
    vstd::seq_lib::lemma_flatten_concat(head, seq![parts[i]]);
    seq![parts[i]].lemma_flatten_one_element();
}

} // verus!
