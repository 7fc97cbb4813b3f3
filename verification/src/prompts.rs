//! Building the text-enhancement prompt: the fixed editing instructions,
//! an optional vocabulary section, optional custom instructions, and the
//! transcribed text itself, assembled in a fixed order.

use vstd::prelude::*;

use crate::strutil::{is_blank, trim_chars, trim_spec, ws_only};

verus! {

/// The grammar-aware base prompt: fix grammar while strictly preserving
/// meaning.
pub const BASE_PROMPT: &'static str = "You are a text editor. Your job is to make transcribed speech grammatically correct while preserving exactly what was said.

PRESERVE (never change):
- The meaning and intent of what was said
- Questions stay questions, commands stay commands
- All specifics, constraints, and details mentioned
- The speaker's actual points and ideas

FIX (always correct):
- Sentence structure for proper written English
- Missing articles (a, an, the)
- Prepositions (e.g., \"interested in\" not \"interested on\")
- Subject-verb agreement
- Tense consistency within sentences
- Run-on sentences and fragments
- Punctuation and capitalization

REMOVE (always delete these, they add no meaning):
- Fillers at sentence starts: \"Yeah,\" \"So,\" \"Well,\" \"Okay so,\" \"I mean,\" \"Like,\" \"Right,\"
- Fillers mid-sentence: \"like\", \"you know\", \"I mean\", \"I guess\", \"basically\", \"actually\", \"honestly\", \"literally\", \"kind of\", \"sort of\"
- Filler phrases: \"Yeah, I mean\", \"But I mean\", \"So yeah\", \"I mean like\", \"you know what I mean\"
- Hedging/padding: \"or whatever\", \"and stuff\", \"and all that\", \"all that stuff\", \"that kind of thing\"
- Trailing hedges: \"if that makes sense\", \"does that make sense\", \"you know what I mean\"
- Stutters: \"the the\" \u{2192} \"the\", \"I I think\" \u{2192} \"I think\"
- Verbal pauses: um, uh, er, ah

CONVERT:
- Informal speech: gonna \u{2192} going to, wanna \u{2192} want to, gotta \u{2192} got to

DO NOT:
- Add new information, steps, or examples
- Expand on or clarify what was said
- Change the speaker's actual message
- Infer anything not explicitly stated

LANGUAGE:
- Always output in English
- Translate Spanish input to English while preserving meaning

OUTPUT: The same message, grammatically correct, ready for professional use.

Now clean this transcription:";

/// Named prompt presets. Every preset currently uses the same
/// meaning-preserving base prompt; the distinction is kept for the
/// interface.
#[derive(Debug, Clone, Copy, PartialEq, Eq, Structural)]
pub enum EnhancementPreset {
    /// The standard grammar-fixing behavior.
    Default,
    /// Tuned for dictating prompts to another model.
    Prompts,
}

/// Options a caller may attach to an enhancement request.
#[derive(Debug, Clone)]
pub struct EnhancementOptions {
    /// Which preset to use.
    pub preset: EnhancementPreset,
    /// Spellings the model must use.
    pub custom_vocabulary: Vec<String>,
    /// Extra instructions the model must follow.
    pub custom_instructions: Option<String>,
    /// A prefix for the model's output.
    pub output_prefix: Option<String>,
}

impl Default for EnhancementOptions {
    /// The default options: the default preset and nothing else.
    fn default() -> (r: EnhancementOptions)
        ensures
            r.preset is Default,
            r.custom_vocabulary@.len() == 0,
            r.custom_instructions is None,
            r.output_prefix is None,
    {
        EnhancementOptions {
            preset: EnhancementPreset::Default,
            custom_vocabulary: Vec::new(),
            custom_instructions: None,
            output_prefix: None,
        }
    }
}

/// The vocabulary entries that are kept: the ones that are not blank, in
/// their given order.
pub open spec fn kept_vocab(entries: Seq<Seq<char>>) -> Seq<Seq<char>>
    decreases entries.len(),
{
    if entries.len() == 0 {
        Seq::empty()
    } else if ws_only(entries.last()) {
        kept_vocab(entries.drop_last())
    } else {
        kept_vocab(entries.drop_last()).push(entries.last())
    }
}

/// The kept entries as bullet lines, one per entry, joined by newlines.
pub open spec fn vocab_lines(entries: Seq<Seq<char>>) -> Seq<char>
    decreases entries.len(),
{
    if entries.len() == 0 {
        Seq::empty()
    } else if entries.len() == 1 {
        "- "@ + entries[0]
    } else {
        vocab_lines(entries.drop_last()) + "\n- "@ + entries.last()
    }
}

/// The vocabulary section of the prompt: empty when no entry survives the
/// blank filter, otherwise a header followed by the bullet lines.
pub open spec fn vocabulary_section_spec(entries: Seq<Seq<char>>) -> Seq<char> {
    if kept_vocab(entries).len() == 0 {
        Seq::empty()
    } else {
        "\n\nVocabulary corrections (use these spellings):\n"@ + vocab_lines(kept_vocab(entries))
    }
}

/// The custom-instructions section: empty when no instructions are given
/// or they are blank, otherwise a header followed by the trimmed
/// instructions.
pub open spec fn instructions_section_spec(instr: Option<Seq<char>>) -> Seq<char> {
    match instr {
        Some(i) => if trim_spec(i).len() == 0 {
            Seq::empty()
        } else {
            "\n\nIMPORTANT - You MUST also follow these instructions:\n"@ + trim_spec(i)
        },
        None => Seq::empty(),
    }
}

/// The context section: empty when no context is given.
pub open spec fn context_section_spec(context: Option<Seq<char>>) -> Seq<char> {
    match context {
        Some(c) => "\n\nContext: "@ + c,
        None => Seq::empty(),
    }
}

/// The whole prompt: base instructions, vocabulary section, custom
/// instructions, the trimmed transcription, and the context, in that
/// order.
pub open spec fn enhancement_prompt_spec(
    text: Seq<char>,
    context: Option<Seq<char>>,
    vocab: Seq<Seq<char>>,
    instr: Option<Seq<char>>,
) -> Seq<char> {
    BASE_PROMPT@ + vocabulary_section_spec(vocab) + instructions_section_spec(instr)
        + "\n\nTranscribed text:\n"@ + trim_spec(text) + context_section_spec(context)
}

/// Build the vocabulary section from the caller's entries: blank entries
/// are dropped, the rest become bullet lines under the section header.
pub fn vocabulary_section(vocab: &Vec<String>) -> (r: String)
    ensures
        r@ == vocabulary_section_spec(vocab.deep_view()),
{
    let ghost entries = vocab.deep_view();
    let mut body = String::new();
    let mut first: bool = true;
    let mut i: usize = 0;
    while i < vocab.len()
        invariant
            i <= vocab.len(),
            entries == vocab.deep_view(),
            entries.len() == vocab@.len(),
            forall|j: int| 0 <= j < entries.len() ==> entries[j] == vocab@[j]@,
            body@ == vocab_lines(kept_vocab(entries.subrange(0, i as int))),
            first == (kept_vocab(entries.subrange(0, i as int)).len() == 0),
        decreases vocab.len() - i,
    {
        let e = &vocab[i];
        proof {
            let pre = entries.subrange(0, i as int);
            let cur = entries.subrange(0, i as int + 1);
            assert(cur.drop_last() =~= pre);
            assert(cur.last() == e@);
        }
        if !is_blank(e.as_str()) {
            if first {
                body.append("- ");
            } else {
                body.append("\n- ");
            }
            body.append(e.as_str());
            first = false;
            proof {
                let pre = entries.subrange(0, i as int);
                let kept = kept_vocab(pre);
                assert(kept_vocab(entries.subrange(0, i as int + 1)) =~= kept.push(e@));
                if kept.len() == 0 {
                    assert(kept.push(e@)[0] == e@);
                    assert(vocab_lines(kept.push(e@)) == "- "@ + e@);
                } else {
                    assert(kept.push(e@).drop_last() =~= kept);
                    assert(vocab_lines(kept.push(e@)) == vocab_lines(kept) + "\n- "@ + e@);
                }
            }
        }
        i += 1;
    }
    proof {
        assert(entries.subrange(0, vocab@.len() as int) =~= entries);
    }
    if first {
        String::new()
    } else {
        let mut r = "\n\nVocabulary corrections (use these spellings):\n".to_owned();
        r.append(body.as_str());
        r
    }
}

/// Build the custom-instructions section: absent or blank instructions
/// yield nothing, anything else is trimmed and set under the header.
pub fn instructions_section(instr: &Option<String>) -> (r: String)
    ensures
        r@ == instructions_section_spec(instr.deep_view()),
{
    match instr {
        Some(i) => {
            let t = trim_chars(i.as_str());
            if t.unicode_len() == 0 {
                String::new()
            } else {
                let mut r = "\n\nIMPORTANT - You MUST also follow these instructions:\n".to_owned();
                r.append(t);
                r
            }
        },
        None => String::new(),
    }
}

/// Assemble the full enhancement prompt for `text`: the base editing
/// instructions, then vocabulary corrections and custom instructions where
/// given, then the trimmed transcription, then the context where given.
/// The preset does not alter the prompt: every mode uses the same
/// meaning-preserving instructions.
pub fn build_enhancement_prompt(
    text: &str,
    context: Option<&str>,
    options: &EnhancementOptions,
) -> (r: String)
    ensures
        r@ == enhancement_prompt_spec(
            text@,
            match context {
                Some(c) => Some(c@),
                None => None,
            },
            options.custom_vocabulary.deep_view(),
            options.custom_instructions.deep_view(),
        ),
{
    let mut prompt = BASE_PROMPT.to_owned();
    let vocab = vocabulary_section(&options.custom_vocabulary);
    prompt.append(vocab.as_str());
    let instructions = instructions_section(&options.custom_instructions);
    prompt.append(instructions.as_str());
    prompt.append("\n\nTranscribed text:\n");
    prompt.append(trim_chars(text));
    match context {
        Some(ctx) => {
            prompt.append("\n\nContext: ");
            prompt.append(ctx);
        },
        None => {},
    }
    prompt
}

} // verus!
