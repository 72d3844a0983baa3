//! What the card generator is given and what the built-in stand-in
//! generators return: the prompt for a text, the data URL of an image, and
//! fixed cards for development without a generator service.
use vstd::prelude::*;
use base64::Engine;
use crate::card::CardFields;
use crate::error::PipelineError;

verus! {

/// Settings of the local stand-in model.
#[derive(Clone, Copy, Debug, PartialEq, Eq, Structural)]
pub struct Params {}

impl Default for Params {
    fn default() -> (r: Params)
        ensures
            r == (Params {}),
    {
        Params {}
    }
}

/// The answer of the local stand-in model.
pub open spec fn canned_card_json() -> Seq<char> {
    "{\"front\":\"What is the capital of France?\",\"back\":\"Paris\",\"tags\":[\"geography\",\"europe\"]}"@
}

/// The local stand-in model: whatever the prompt, it answers with one fixed
/// card as JSON.
pub fn generate(prompt: &str, params: Params) -> (r: Result<String, PipelineError>)
    ensures
        r matches Ok(s) && s@ == canned_card_json(),
{
    let s = String::from_str(
        "{\"front\":\"What is the capital of France?\",\"back\":\"Paris\",\"tags\":[\"geography\",\"europe\"]}",
    );
    Ok(s)
}

/// The text sent to the generator for `text`.
pub fn text_prompt(text: &str) -> (r: String)
    ensures
        r@ == "Create JSON flashcard from this text: "@ + text@,
{
    let mut s = String::from_str("Create JSON flashcard from this text: ");
    s.append(text);
    s
}

/// The standard Base64 encoding of some bytes.
pub uninterp spec fn base64_of(b: Seq<u8>) -> Seq<char>;

/// Relies on `base64::engine::general_purpose::STANDARD.encode`: the standard
/// alphabet with padding, four characters for each started group of three
/// bytes. Its length computation cannot overflow for a buffer that exists.
#[verifier::external_body]
fn encode_base64(b: &[u8]) -> (r: String)
    ensures
        r@ == base64_of(b@),
        r@.len() == 4 * ((b@.len() + 2) / 3),
{
    base64::engine::general_purpose::STANDARD.encode(b)
}

/// The data URL under which a PNG file is sent to the generator.
pub fn image_data_url(png: &[u8]) -> (r: String)
    ensures
        r@ == "data:image/png;base64,"@ + base64_of(png@),
{
    let mut s = String::from_str("data:image/png;base64,");
    let b = encode_base64(png);
    s.append(b.as_str());
    s
}

/// Whether `k` ends the first line of `s`: it is the first line break, or
/// the end of a text without one.
pub open spec fn first_break(s: Seq<char>, k: int) -> bool {
    &&& 0 <= k <= s.len()
    &&& (k == s.len() || s[k] == '\n')
    &&& forall|j: int| 0 <= j < k ==> s[j] != '\n'
}

/// A line without its carriage return at the end, if any.
pub open spec fn without_cr(line: Seq<char>) -> Seq<char> {
    if line.len() > 0 && line.last() == '\r' {
        line.drop_last()
    } else {
        line
    }
}

/// The first line of `s` that ends at `k`, as `str::lines` gives it: a
/// carriage return is left out only where a line feed follows it.
pub open spec fn first_line_of(s: Seq<char>, k: int) -> Seq<char> {
    if k < s.len() {
        without_cr(s.subrange(0, k))
    } else {
        s.subrange(0, k)
    }
}

/// The first line of `s` (as `str::lines` gives it), or `None` for an empty
/// text.
pub fn first_line(s: &str) -> (r: Option<String>)
    ensures
        s@.len() == 0 <==> r is None,
        r matches Some(l) ==> exists|k: int| first_break(s@, k) && l@ == first_line_of(s@, k),
{
    let n: usize = s.unicode_len();
    if n == 0 {
        return None;
    }
    let mut k: usize = 0;
    while k < n && s.get_char(k) != '\n'
        invariant
            n == s@.len(),
            k <= n,
            forall|j: int| 0 <= j < k ==> s@[j] != '\n',
        decreases n - k,
    {
        k = k + 1;
    }
    let mut end: usize = k;
    if k < n && k > 0 && s.get_char(k - 1) == '\r' {
        end = k - 1;
    }
    let line = s.substring_char(0, end);
    let r = String::from_str(line);
    proof {
        assert(first_break(s@, k as int));
        if k < n && k > 0 && s@[k - 1] == '\r' {
            assert(s@.subrange(0, k as int).drop_last() =~= s@.subrange(0, end as int));
        } else {
            assert(s@.subrange(0, k as int) =~= s@.subrange(0, end as int));
        }
    }
    Some(r)
}

/// The stand-in text generator: asks for the gist of the first line.
pub fn stub_card_from_text(text: &str) -> (r: CardFields)
    ensures
        text@.len() > 0 ==> exists|k: int|
            first_break(text@, k) && r.front@ == "What is the gist of: "@ + first_line_of(
                text@,
                k,
            ) + "?"@,
        text@.len() == 0 ==> r.front@ == "What is the gist of: text?"@,
        r.back@ == "stub answer"@,
        r.tags.deep_view() == seq!["stub"@],
{
    let mut front = String::from_str("What is the gist of: ");
    match first_line(text) {
        Some(line) => front.append(line.as_str()),
        None => front.append("text"),
    }
    front.append("?");
    proof {
        reveal_strlit("What is the gist of: ");
        reveal_strlit("text");
        reveal_strlit("?");
        reveal_strlit("What is the gist of: text?");
    }
    let tags = vec![String::from_str("stub")];
    proof {
        assert(tags.deep_view() =~= seq!["stub"@]);
    }
    CardFields { front, back: String::from_str("stub answer"), tags }
}

/// The stand-in image generator: one fixed card.
pub fn stub_card_from_image(png: &[u8]) -> (r: CardFields)
    ensures
        r.front@ == "stub front from image"@,
        r.back@ == "stub back"@,
        r.tags.deep_view() == seq!["stub"@],
{
    let tags = vec![String::from_str("stub")];
    proof {
        assert(tags.deep_view() =~= seq!["stub"@]);
    }
    CardFields {
        front: String::from_str("stub front from image"),
        back: String::from_str("stub back"),
        tags,
    }
}

} // verus!
