//! Log of Vanessa Automation.

use vstd::prelude::*;
use crate::outside::{lowercase, to_lowercase};
use crate::parsers::{is_empty_parse, NormalizedParse};
use crate::text::{push_text, texts, trim, trimmed};
use crate::text_scan::{contains, lines, text_contains, text_lines};

verus! {

/// The text, in small letters, looks like an error.
pub open spec fn looks_like_error(lower: Seq<char>) -> bool {
    contains(lower, "error"@) || contains(lower, "ошибк"@) || contains(lower, "exception"@)
}

/// Whether the text, in small letters, looks like an error.
pub fn is_error_text(lower: &str) -> (r: bool)
    ensures
        r == looks_like_error(lower@),
{
    text_contains(lower, "error") || text_contains(lower, "ошибк") || text_contains(
        lower,
        "exception",
    )
}

/// Lines among the first `n` that look like errors, trimmed.
pub open spec fn error_lines(log: Seq<Seq<char>>, n: int) -> Seq<Seq<char>>
    decreases n,
{
    if n <= 0 {
        Seq::empty()
    } else if trim(log[n - 1]).len() > 0 && looks_like_error(lowercase(trim(log[n - 1]))) {
        error_lines(log, n - 1).push(trim(log[n - 1]))
    } else {
        error_lines(log, n - 1)
    }
}

/// Output for the log: the lines that look like errors, and nothing else.
pub fn normalize_file(contents: &str) -> (r: NormalizedParse<Vec<String>>)
    ensures
        r.payload is Some,
        texts(r.payload->0@) == error_lines(lines(contents@), lines(contents@).len() as int),
        is_empty_parse(NormalizedParse { payload: None, ..r }),
{
    let all = text_lines(contents);
    let ghost log = texts(all@);
    let mut errors: Vec<String> = Vec::new();
    let mut i: usize = 0;
    assert(texts(errors@) =~= Seq::<Seq<char>>::empty());
    while i < all.len()
        invariant
            i <= all.len(),
            log == texts(all@),
            texts(errors@) == error_lines(log, i as int),
        decreases all.len() - i,
    {
        assert(log[i as int] == all@[i as int]@);
        let line = trimmed(all[i].as_str());
        if !line.as_str().is_empty() {
            let lower = to_lowercase(line.as_str());
            if is_error_text(lower.as_str()) {
                push_text(&mut errors, line.as_str());
            }
        }
        i += 1;
    }
    NormalizedParse::default().with_payload(errors)
}

} // verus!
