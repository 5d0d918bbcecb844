use vstd::prelude::*;
use vstd::utf8::{encode_scalar, encode_utf8};

verus! {

/// The first `cap` items of `items`, or all of them where there are no more
/// than `cap`.
pub open spec fn truncated<T>(items: Seq<T>, cap: nat) -> Seq<T> {
    if items.len() <= cap {
        items
    } else {
        items.subrange(0, cap as int)
    }
}

/// The first `max_texts` of `texts`, each cut to its first `max_chars`
/// characters.
pub open spec fn truncated_each(texts: Seq<Seq<char>>, max_texts: nat, max_chars: nat) -> Seq<
    Seq<char>,
> {
    truncated(texts, max_texts).map_values(|text: Seq<char>| truncated(text, max_chars))
}

/// How many bytes the UTF-8 encoding of `chars` takes.
pub open spec fn utf8_len(chars: Seq<char>) -> nat {
    encode_utf8(chars).len()
}

/// Every character takes at least one byte and at most four.
pub proof fn lemma_utf8_len_bounds(chars: Seq<char>)
    ensures
        chars.len() <= utf8_len(chars) <= 4 * chars.len(),
    decreases chars.len(),
{
    if chars.len() > 0 {
        let first = encode_scalar(chars[0] as u32);
        assert(1 <= first.len() <= 4);
        lemma_utf8_len_bounds(chars.drop_first());
        assert(encode_utf8(chars) == first + encode_utf8(chars.drop_first()));
    }
}

/// Truncation keeps a prefix, no longer than the cap.
pub proof fn lemma_truncated_is_bounded_prefix<T>(items: Seq<T>, cap: nat)
    ensures
        truncated(items, cap).len() == if items.len() <= cap {
            items.len()
        } else {
            cap
        },
        truncated(items, cap).is_prefix_of(items),
        truncated(truncated(items, cap), cap) == truncated(items, cap),
{
}

/// Cuts `text` to its first `cap` characters; a text of no more than `cap`
/// characters is handed back as it is. Characters are counted, not bytes.
pub fn truncate_chars(text: String, cap: usize) -> (kept: String)
    ensures
        kept@ == truncated(text@, cap as nat),
{
    if text.as_str().as_bytes().len() <= cap {
        proof {
            lemma_utf8_len_bounds(text@);
        }
        return text;
    }
    if text.as_str().unicode_len() <= cap {
        return text;
    }
    text.as_str().substring_char(0, cap).to_owned()
}

/// Keeps the first `max_texts` of `texts`, each cut to its first
/// `max_chars` characters.
pub fn truncate_each(texts: Vec<String>, max_texts: usize, max_chars: usize) -> (kept: Vec<String>)
    ensures
        kept.deep_view() == truncated_each(texts.deep_view(), max_texts as nat, max_chars as nat),
{
    let count = if texts.len() <= max_texts {
        texts.len()
    } else {
        max_texts
    };
    let mut kept: Vec<String> = Vec::new();
    let mut i: usize = 0;
    while i < count
        invariant
            i <= count <= texts.len(),
            kept.len() == i,
            forall|j: int| 0 <= j < i ==> (#[trigger] kept@[j])@ == truncated(texts@[j]@, max_chars as nat),
        decreases count - i,
    {
        kept.push(truncate_chars(texts[i].clone(), max_chars));
        i += 1;
    }
    proof {
        let wanted = truncated_each(texts.deep_view(), max_texts as nat, max_chars as nat);
        assert(texts.deep_view().len() == texts.len());
        assert(wanted.len() == count);
        assert forall|j: int| 0 <= j < count implies kept.deep_view()[j] == wanted[j] by {
            assert(kept.deep_view()[j] == kept@[j]@);
            assert(texts.deep_view()[j] == texts@[j]@);
        }
        assert(kept.deep_view() =~= wanted);
    }
    kept
}

} // verus!
