//! Model identification and per-model configuration: deciding a model's
//! capability class from its identifier, validating the `owner/name` form of
//! a model locator, and deriving the name of the model's config file.

use vstd::prelude::*;
use vstd::string::*;

verus! {

/// The broad capability class of a model, decided from its identifier.
#[derive(Debug, Clone, Copy, PartialEq, Eq, Structural)]
pub enum ModelType {
    LLM,
    ASR,
}

/// The per-model configuration written to a model's config file.
#[derive(Debug)]
pub struct ModelConfig {
    pub modle_path: String,
    pub modle_name: String,
    pub think: Option<bool>,
}

/// Does `needle` occur in `hay` starting at position `at`?
pub open spec fn matches_at(hay: Seq<char>, needle: Seq<char>, at: int) -> bool {
    &&& 0 <= at
    &&& at + needle.len() <= hay.len()
    &&& hay.subrange(at, at + needle.len()) =~= needle
}

/// Does `needle` occur anywhere in `hay`?
pub open spec fn contains_seq(hay: Seq<char>, needle: Seq<char>) -> bool {
    exists|at: int| matches_at(hay, needle, at)
}

/// Substring search over the characters of two string slices.
pub fn str_contains(hay: &str, needle: &str) -> (r: bool)
    ensures
        r == contains_seq(hay@, needle@),
{
    let hlen = hay.unicode_len();
    let nlen = needle.unicode_len();
    if nlen > hlen {
        assert(forall|at: int| !matches_at(hay@, needle@, at));
        return false;
    }
    let mut at: usize = 0;
    loop
        invariant
            nlen <= hlen,
            hlen == hay@.len(),
            nlen == needle@.len(),
            at <= hlen - nlen,
            forall|j: int| 0 <= j < at ==> !matches_at(hay@, needle@, j),
        decreases hlen - nlen - at,
    {
        let mut k: usize = 0;
        let mut hit = true;
        let ghost mut bad: int = 0;
        while k < nlen
            invariant
                hlen == hay@.len(),
                nlen == needle@.len(),
                at <= hlen - nlen,
                k <= nlen,
                hit ==> forall|j: int| 0 <= j < k ==> hay@[at + j] == needle@[j],
                !hit ==> 0 <= bad < nlen && hay@[at + bad] != needle@[bad],
            decreases nlen - k,
        {
            if hay.get_char(at + k) != needle.get_char(k) {
                hit = false;
                proof { bad = k as int; }
                k = nlen;
            } else {
                k = k + 1;
            }
        }
        if hit {
            assert(matches_at(hay@, needle@, at as int));
            return true;
        }
        assert(!matches_at(hay@, needle@, at as int)) by {
            if matches_at(hay@, needle@, at as int) {
                assert(hay@.subrange(at as int, at + needle@.len())[bad] == hay@[at + bad]);
            }
        }
        if at == hlen - nlen {
            assert(forall|j: int| !matches_at(hay@, needle@, j) || 0 <= j <= hlen - nlen);
            return false;
        }
        at = at + 1;
    }
}

/// The result of lowercasing a string; a function of its characters alone.
pub uninterp spec fn lower_of(s: Seq<char>) -> Seq<char>;

/// Relies on str::to_lowercase: the result depends on the characters of the
/// input alone, and an empty string stays empty.
#[verifier::external_body]
fn lowercase(s: &str) -> (r: String)
    ensures
        r@ == lower_of(s@),
        s@.len() == 0 ==> r@.len() == 0,
{
    s.to_lowercase()
}

/// The capability class a lowercased model identifier is mapped to: names
/// mentioning "llm" or "gpt" are text-generation models, names mentioning
/// "voice" or "asr" are transcription models, and anything else defaults to
/// text generation.
pub open spec fn spec_classify(lowered: Seq<char>) -> ModelType {
    if contains_seq(lowered, "llm"@) || contains_seq(lowered, "gpt"@) {
        ModelType::LLM
    } else if contains_seq(lowered, "voice"@) || contains_seq(lowered, "asr"@) {
        ModelType::ASR
    } else {
        ModelType::LLM
    }
}

/// Decides the capability class of an already-lowercased model identifier.
pub fn classify_model_id(lowered: &str) -> (t: ModelType)
    ensures
        t == spec_classify(lowered@),
{
    if str_contains(lowered, "llm") || str_contains(lowered, "gpt") {
        ModelType::LLM
    } else if str_contains(lowered, "voice") || str_contains(lowered, "asr") {
        ModelType::ASR
    } else {
        ModelType::LLM
    }
}

/// Determines the model type from the model identifier. Every identifier is
/// mapped to a class; unknown shapes default to text generation.
pub fn determine_model_type(model_id: &str) -> (r: Option<ModelType>)
    ensures
        r == Some(spec_classify(lower_of(model_id@))),
{
    let lowered = lowercase(model_id);
    Some(classify_model_id(lowered.as_str()))
}

/// A model locator is valid when it has the form `owner/name`: exactly one
/// `/` separates the two parts.
pub open spec fn valid_model_id(s: Seq<char>) -> bool {
    exists|p: int| is_only_slash(s, p)
}

/// Position `p` holds the only `/` of `s`.
pub open spec fn is_only_slash(s: Seq<char>, p: int) -> bool {
    &&& 0 <= p < s.len()
    &&& s[p] == '/'
    &&& forall|q: int| 0 <= q < s.len() && s[q] == '/' ==> q == p
}

/// The `name` part of a valid `owner/name` locator.
pub open spec fn spec_short_name(s: Seq<char>) -> Seq<char> {
    let p = choose|p: int| is_only_slash(s, p);
    s.subrange(p + 1, s.len() as int)
}

/// Splits a model locator of the form `owner/name` and returns the `name`
/// part; any other shape (no `/`, or more than one) is rejected.
pub fn model_short_name(model_id: &str) -> (r: Option<String>)
    ensures
        r is Some <==> valid_model_id(model_id@),
        r matches Some(name) ==> name@ == spec_short_name(model_id@),
{
    let len = model_id.unicode_len();
    let mut i: usize = 0;
    let mut slash: Option<usize> = None;
    while i < len
        invariant
            len == model_id@.len(),
            i <= len,
            slash matches Some(p) ==> p < i && model_id@[p as int] == '/',
            forall|q: int| 0 <= q < i && model_id@[q] == '/'
                ==> (slash matches Some(p) && q == p),
        decreases len - i,
    {
        if model_id.get_char(i) == '/' {
            if slash.is_some() {
                // a second separator: not an `owner/name` locator
                assert(forall|p: int| !is_only_slash(model_id@, p));
                return None;
            }
            slash = Some(i);
        }
        i = i + 1;
    }
    match slash {
        None => {
            assert(forall|p: int| !is_only_slash(model_id@, p));
            None
        },
        Some(p) => {
            assert(is_only_slash(model_id@, p as int));
            let name = model_id.substring_char(p + 1, len);
            proof {
                let p2 = choose|p2: int| is_only_slash(model_id@, p2);
                assert(is_only_slash(model_id@, p2));
                assert(p2 == p as int);
            }
            Some(name.to_owned())
        },
    }
}

/// The lowercased name with every `-` replaced by `_`.
pub open spec fn spec_underscored(s: Seq<char>) -> Seq<char> {
    s.map_values(|c: char| if c == '-' { '_' } else { c })
}

/// Replaces every `-` of a string by `_`.
pub fn underscored(s: &str) -> (r: String)
    ensures
        r@ == spec_underscored(s@),
{
    proof {
        reveal_strlit("_");
    }
    let len = s.unicode_len();
    let mut r = String::new();
    let mut i: usize = 0;
    while i < len
        invariant
            len == s@.len(),
            i <= len,
            r@ == spec_underscored(s@.take(i as int)),
        decreases len - i,
    {
        proof {
            reveal_strlit("_");
        }
        if s.get_char(i) == '-' {
            r.append("_");
        } else {
            let piece = s.substring_char(i, i + 1);
            r.append(piece);
        }
        assert(r@ =~= spec_underscored(s@.take(i + 1)));
        i = i + 1;
    }
    assert(s@.take(len as int) =~= s@);
    r
}

/// The config file written for a model named `name` lives under the config
/// directory and is named after the lowercased name, `-` turned into `_`.
pub open spec fn spec_config_file_name(name: Seq<char>) -> Seq<char> {
    "assets/config/"@ + spec_underscored(lower_of(name)) + ".json"@
}

/// The path of the config file backing the model named `name`.
pub fn config_file_name(name: &str) -> (r: String)
    ensures
        r@ == spec_config_file_name(name@),
{
    let lowered = lowercase(name);
    let mid = underscored(lowered.as_str());
    let mut r = "assets/config/".to_owned();
    r.append(mid.as_str());
    r.append(".json");
    r
}

/// The config value recorded for a model: the full locator as its path, the
/// short name for routing, and an explicit think switch (off) only for
/// text-generation models.
pub fn build_model_config(model_id: &str, model_type: ModelType) -> (r: Option<ModelConfig>)
    ensures
        r is Some <==> valid_model_id(model_id@),
        r matches Some(c) ==> {
            &&& c.modle_path@ == model_id@
            &&& c.modle_name@ == spec_short_name(model_id@)
            &&& c.think == (if model_type is LLM { Some(false) } else { None::<bool> })
        },
{
    match model_short_name(model_id) {
        None => None,
        Some(name) => Some(ModelConfig {
            modle_path: model_id.to_owned(),
            modle_name: name,
            think: if let ModelType::LLM = model_type { Some(false) } else { None },
        }),
    }
}

} // verus!
