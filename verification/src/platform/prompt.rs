//! Prompt detection in the byte streams of an interactive process.

use vstd::prelude::*;

verus! {

/// Bytes that may stand behind a prompt.
pub open spec fn is_blank_byte(b: u8) -> bool {
    b == 0x20 || b == 0x09 || b == 0x0a || b == 0x0d
}

/// Bytes that end a line.
pub open spec fn is_line_end(b: u8) -> bool {
    b == 0x0a || b == 0x0d
}

/// Position `i` begins a line. Whether the buffer itself begins one depends on what came before it.
pub open spec fn line_start(fresh: bool, buffer: Seq<u8>, i: int) -> bool {
    if i == 0 {
        fresh
    } else {
        is_line_end(buffer[i - 1])
    }
}

/// Whether what follows `moved` begins a line, where `moved` itself does or does not.
pub open spec fn fresh_after(fresh: bool, moved: Seq<u8>) -> bool {
    if moved.len() == 0 {
        fresh
    } else {
        is_line_end(moved.last())
    }
}

/// The prompt stands at position `i` of `buffer`, begins a line, and nothing but blanks follows.
pub open spec fn prompt_at(fresh: bool, buffer: Seq<u8>, prompt: Seq<u8>, i: int) -> bool {
    &&& prompt.len() > 0
    &&& 0 <= i
    &&& i + prompt.len() <= buffer.len()
    &&& buffer.subrange(i, i + prompt.len()) == prompt
    &&& line_start(fresh, buffer, i)
    &&& forall|k: int| i + prompt.len() <= k < buffer.len() ==> is_blank_byte(#[trigger] buffer[k])
}

/// Greatest position up to `limit` at which the prompt ends the buffer.
pub open spec fn scan_prompt(
    fresh: bool,
    buffer: Seq<u8>,
    prompt: Seq<u8>,
    limit: int,
) -> Option<int>
    decreases limit + 1,
{
    if limit < 0 {
        None
    } else if prompt_at(fresh, buffer, prompt, limit) {
        Some(limit)
    } else {
        scan_prompt(fresh, buffer, prompt, limit - 1)
    }
}

/// Position of the prompt that ends the buffer, the greatest where there are several.
pub open spec fn last_prompt(fresh: bool, buffer: Seq<u8>, prompt: Seq<u8>) -> Option<int> {
    scan_prompt(fresh, buffer, prompt, buffer.len() - prompt.len())
}

proof fn lemma_scan_prompt(fresh: bool, buffer: Seq<u8>, prompt: Seq<u8>, limit: int)
    ensures
        match scan_prompt(fresh, buffer, prompt, limit) {
            Some(i) => 0 <= i <= limit && prompt_at(fresh, buffer, prompt, i) && forall|j: int|
                i < j <= limit ==> !prompt_at(fresh, buffer, prompt, j),
            None => forall|j: int| 0 <= j <= limit ==> !prompt_at(fresh, buffer, prompt, j),
        },
    decreases limit + 1,
{
    if limit >= 0 && !prompt_at(fresh, buffer, prompt, limit) {
        lemma_scan_prompt(fresh, buffer, prompt, limit - 1);
    }
}

fn byte_is_blank(b: u8) -> (r: bool)
    ensures
        r == is_blank_byte(b),
{
    b == 0x20 || b == 0x09 || b == 0x0a || b == 0x0d
}

fn prompt_stands_at(fresh: bool, buffer: &Vec<u8>, prompt: &Vec<u8>, at: usize) -> (r: bool)
    requires
        prompt.len() > 0,
        at + prompt.len() <= buffer.len(),
    ensures
        r == prompt_at(fresh, buffer@, prompt@, at as int),
{
    let mut k: usize = 0;
    while k < prompt.len()
        invariant
            k <= prompt.len(),
            at + prompt.len() <= buffer.len(),
            forall|m: int| 0 <= m < k ==> buffer@[at + m] == prompt@[m],
        decreases prompt.len() - k,
    {
        if buffer[at + k] != prompt[k] {
            assert(buffer@.subrange(at as int, at + prompt@.len())[k as int] == buffer@[at + k]);
            return false;
        }
        k += 1;
    }
    assert(buffer@.subrange(at as int, at + prompt@.len()) =~= prompt@);
    let begins_line = if at == 0 {
        fresh
    } else {
        buffer[at - 1] == 0x0a || buffer[at - 1] == 0x0d
    };
    if !begins_line {
        return false;
    }
    let mut j: usize = at + prompt.len();
    while j < buffer.len()
        invariant
            at + prompt.len() <= j <= buffer.len(),
            forall|m: int| at + prompt.len() <= m < j ==> is_blank_byte(#[trigger] buffer@[m]),
        decreases buffer.len() - j,
    {
        if !byte_is_blank(buffer[j]) {
            return false;
        }
        j += 1;
    }
    true
}

/// Finds the prompt that ends the buffer; `fresh` tells whether the buffer begins a line. The result
/// holds its position and the number of bytes from there to the end: the prompt and the blanks
/// behind it.
pub fn find_prompt(fresh: bool, buffer: &Vec<u8>, prompt: &Vec<u8>) -> (r: Option<(usize, usize)>)
    ensures
        match r {
            Some(p) => last_prompt(fresh, buffer@, prompt@) == Some(p.0 as int) && p.0 + p.1
                == buffer.len(),
            None => last_prompt(fresh, buffer@, prompt@) is None,
        },
{
    if prompt.len() == 0 || buffer.len() < prompt.len() {
        proof {
            lemma_scan_prompt(fresh, buffer@, prompt@, buffer@.len() - prompt@.len());
        }
        return None;
    }
    let mut at: usize = buffer.len() - prompt.len();
    loop
        invariant
            prompt.len() > 0,
            at + prompt.len() <= buffer.len(),
            last_prompt(fresh, buffer@, prompt@) == scan_prompt(fresh, buffer@, prompt@, at as int),
        decreases at,
    {
        if prompt_stands_at(fresh, buffer, prompt, at) {
            return Some((at, buffer.len() - at));
        }
        if at == 0 {
            assert(scan_prompt(fresh, buffer@, prompt@, -1) is None);
            return None;
        }
        at -= 1;
    }
}

fn append_range(output: &mut Vec<u8>, buffer: &Vec<u8>, to: usize)
    requires
        to <= buffer.len(),
    ensures
        final(output)@ == old(output)@ + buffer@.subrange(0, to as int),
{
    let ghost before = output@;
    let mut i: usize = 0;
    assert(before + buffer@.subrange(0, 0) =~= before);
    while i < to
        invariant
            i <= to <= buffer.len(),
            output@ == before + buffer@.subrange(0, i as int),
        decreases to - i,
    {
        output.push(buffer[i]);
        assert(before + buffer@.subrange(0, i + 1) =~= (before + buffer@.subrange(
            0,
            i as int,
        )).push(buffer@[i as int]));
        i += 1;
    }
}

/// Buffer and output after the prompt that ends the buffer has been taken out.
pub open spec fn consumed(
    fresh: bool,
    buffer: Seq<u8>,
    output: Seq<u8>,
    prompt: Seq<u8>,
) -> Option<(Seq<u8>, Seq<u8>)> {
    match last_prompt(fresh, buffer, prompt) {
        Some(i) => Some((Seq::empty(), output + buffer.subrange(0, i))),
        None => None,
    }
}

/// Moves what stands before the prompt to the output and drops the prompt with the blanks behind
/// it; what comes next begins a line. Where the buffer does not end with a prompt, nothing changes.
pub fn consume_until_prompt(
    fresh: &mut bool,
    buffer: &mut Vec<u8>,
    output: &mut Vec<u8>,
    prompt: &Vec<u8>,
) -> (r: bool)
    ensures
        match consumed(*old(fresh), old(buffer)@, old(output)@, prompt@) {
            Some((rest, out)) => {
                &&& r
                &&& *final(fresh)
                &&& final(buffer)@ == rest
                &&& final(output)@ == out
            },
            None => {
                &&& !r
                &&& *final(fresh) == *old(fresh)
                &&& final(buffer)@ == old(buffer)@
                &&& final(output)@ == old(output)@
            },
        },
{
    match find_prompt(*fresh, buffer, prompt) {
        Some((at, len)) => {
            proof {
                lemma_scan_prompt(*fresh, buffer@, prompt@, buffer@.len() - prompt@.len());
            }
            append_range(output, buffer, at);
            buffer.clear();
            *fresh = true;
            true
        },
        None => false,
    }
}

/// Bytes held back because a prompt may begin in them.
pub open spec fn kept_len(buffer_len: nat, prompt_len: nat) -> nat {
    if prompt_len <= 1 || buffer_len < prompt_len {
        buffer_len
    } else {
        (prompt_len - 1) as nat
    }
}

/// Tail of the buffer that is held back.
pub open spec fn kept(buffer: Seq<u8>, prompt_len: nat) -> Seq<u8> {
    buffer.subrange(buffer.len() - kept_len(buffer.len(), prompt_len), buffer.len() as int)
}

/// Head of the buffer that cannot belong to a coming prompt.
pub open spec fn settled(buffer: Seq<u8>, prompt_len: nat) -> Seq<u8> {
    buffer.subrange(0, buffer.len() - kept_len(buffer.len(), prompt_len))
}

fn is_fresh_after(fresh: bool, buffer: &Vec<u8>, moved: usize) -> (r: bool)
    requires
        moved <= buffer.len(),
    ensures
        r == fresh_after(fresh, buffer@.subrange(0, moved as int)),
{
    if moved == 0 {
        fresh
    } else {
        buffer[moved - 1] == 0x0a || buffer[moved - 1] == 0x0d
    }
}

/// Moves to the output what cannot belong to a coming prompt, and keeps track of whether the rest
/// begins a line.
pub fn flush_completed_bytes(
    fresh: &mut bool,
    buffer: &mut Vec<u8>,
    output: &mut Vec<u8>,
    prompt_len: usize,
)
    ensures
        final(output)@ == old(output)@ + settled(old(buffer)@, prompt_len as nat),
        final(buffer)@ == kept(old(buffer)@, prompt_len as nat),
        *final(fresh) == fresh_after(*old(fresh), settled(old(buffer)@, prompt_len as nat)),
{
    if prompt_len <= 1 || buffer.len() < prompt_len {
        proof {
            assert(settled(buffer@, prompt_len as nat) =~= Seq::<u8>::empty());
            assert(kept(buffer@, prompt_len as nat) =~= buffer@);
        }
        return;
    }
    let flush_len: usize = buffer.len() - (prompt_len - 1);
    *fresh = is_fresh_after(*fresh, buffer, flush_len);
    append_range(output, buffer, flush_len);
    let tail = buffer.split_off(flush_len);
    *buffer = tail;
}

/// Moves the whole buffer to the output, and keeps track of whether what comes next begins a line.
pub fn flush_pending(fresh: &mut bool, buffer: &mut Vec<u8>, output: &mut Vec<u8>)
    ensures
        final(output)@ == old(output)@ + old(buffer)@,
        final(buffer)@.len() == 0,
        *final(fresh) == fresh_after(*old(fresh), old(buffer)@),
{
    let len: usize = buffer.len();
    assert(buffer@.subrange(0, len as int) =~= buffer@);
    *fresh = is_fresh_after(*fresh, buffer, len);
    append_range(output, buffer, len);
    buffer.clear();
}

/// Holding bytes back loses none: what is moved and what is kept make up the buffer.
pub proof fn settling_keeps_every_byte(buffer: Seq<u8>, prompt_len: nat)
    ensures
        settled(buffer, prompt_len) + kept(buffer, prompt_len) == buffer,
{
    assert(settled(buffer, prompt_len) + kept(buffer, prompt_len) =~= buffer);
}

/// Taking the prompt out loses nothing else: the buffer was what went to the output, the prompt,
/// and blanks.
pub proof fn consuming_drops_prompt_and_blanks_only(
    fresh: bool,
    buffer: Seq<u8>,
    output: Seq<u8>,
    prompt: Seq<u8>,
)
    requires
        consumed(fresh, buffer, output, prompt) is Some,
    ensures
        exists|blanks: Seq<u8>|
            {
                &&& #[trigger] ((consumed(fresh, buffer, output, prompt)->0).1 + prompt + blanks)
                    == output + buffer
                &&& forall|k: int| 0 <= k < blanks.len() ==> is_blank_byte(#[trigger] blanks[k])
            },
{
    lemma_scan_prompt(fresh, buffer, prompt, buffer.len() - prompt.len());
    let i = last_prompt(fresh, buffer, prompt)->0;
    let blanks = buffer.subrange(i + prompt.len(), buffer.len() as int);
    assert((consumed(fresh, buffer, output, prompt)->0).1 + prompt + blanks =~= output + buffer) by {
        assert(buffer =~= buffer.subrange(0, i) + prompt + blanks) by {
            assert forall|k: int| 0 <= k < buffer.len() implies buffer[k] == (buffer.subrange(0, i)
                + prompt + blanks)[k] by {
                if i <= k < i + prompt.len() {
                    assert(buffer.subrange(i, i + prompt.len())[k - i] == buffer[k]);
                }
            }
        }
    }
}

/// How the output is split does not matter: holding back the tail of `first` and then receiving
/// `rest` gives a prompt exactly where receiving both at once does, and then the same output. Text
/// in the middle of a line stays text, wherever it is cut.
pub proof fn prompt_does_not_depend_on_the_split(
    fresh: bool,
    first: Seq<u8>,
    rest: Seq<u8>,
    prompt: Seq<u8>,
)
    requires
        last_prompt(fresh, first, prompt) is None,
    ensures
        consumed(
            fresh_after(fresh, settled(first, prompt.len())),
            kept(first, prompt.len()) + rest,
            settled(first, prompt.len()),
            prompt,
        ) == consumed(fresh, first + rest, Seq::empty(), prompt),
{
    let whole = first + rest;
    let n = prompt.len() as int;
    let off = first.len() - kept_len(first.len(), prompt.len());
    let head = settled(first, prompt.len());
    let later = fresh_after(fresh, head);
    let tail = kept(first, prompt.len()) + rest;
    assert(tail =~= whole.subrange(off as int, whole.len() as int));
    assert(head =~= whole.subrange(0, off as int));
    lemma_scan_prompt(fresh, first, prompt, first.len() - n);
    lemma_scan_prompt(fresh, whole, prompt, whole.len() - n);
    lemma_scan_prompt(later, tail, prompt, tail.len() - n);
    assert forall|i: int| 0 <= i < off implies !prompt_at(fresh, whole, prompt, i) by {
        if prompt_at(fresh, whole, prompt, i) {
            assert(first.subrange(i, i + n) =~= whole.subrange(i, i + n));
            assert forall|k: int| i + n <= k < first.len() implies is_blank_byte(
                #[trigger] first[k],
            ) by {
                assert(whole[k] == first[k]);
            }
            assert(prompt_at(fresh, first, prompt, i));
        }
    }
    assert forall|j: int| 0 <= j implies prompt_at(later, tail, prompt, j) == prompt_at(
        fresh,
        whole,
        prompt,
        j + off,
    ) by {
        if j + n <= tail.len() {
            assert(tail.subrange(j, j + n) =~= whole.subrange(j + off, j + off + n));
        }
        if j > 0 && j <= tail.len() {
            assert(tail[j - 1] == whole[j + off - 1]);
        }
        if j == 0 && off > 0 {
            assert(head.last() == whole[off - 1]);
        }
        assert(line_start(later, tail, j) == line_start(fresh, whole, j + off) || j > tail.len());
        if prompt_at(later, tail, prompt, j) {
            assert forall|k: int| j + off + n <= k < whole.len() implies is_blank_byte(
                #[trigger] whole[k],
            ) by {
                assert(whole[k] == tail[k - off]);
            }
        }
        if prompt_at(fresh, whole, prompt, j + off) {
            assert forall|k: int| j + n <= k < tail.len() implies is_blank_byte(
                #[trigger] tail[k],
            ) by {
                assert(whole[k + off] == tail[k]);
            }
        }
    }
    match (last_prompt(later, tail, prompt), last_prompt(fresh, whole, prompt)) {
        (Some(j), Some(i)) => {
            assert(prompt_at(later, tail, prompt, i - off));
            assert(prompt_at(fresh, whole, prompt, j + off));
            assert(i == j + off);
            assert(head + tail.subrange(0, j) =~= Seq::<u8>::empty() + whole.subrange(0, i));
        },
        (Some(j), None) => {
            assert(prompt_at(fresh, whole, prompt, j + off));
        },
        (None, Some(i)) => {
            assert(prompt_at(later, tail, prompt, i - off));
        },
        (None, None) => {},
    }
}

/// Settling in steps comes to the same as settling all at once: what is moved, what is held back,
/// and whether that begins a line.
pub proof fn settling_in_steps_comes_to_the_same(
    fresh: bool,
    first: Seq<u8>,
    rest: Seq<u8>,
    prompt_len: nat,
)
    ensures
        settled(first, prompt_len) + settled(kept(first, prompt_len) + rest, prompt_len) == settled(
            first + rest,
            prompt_len,
        ),
        kept(kept(first, prompt_len) + rest, prompt_len) == kept(first + rest, prompt_len),
        fresh_after(
            fresh_after(fresh, settled(first, prompt_len)),
            settled(kept(first, prompt_len) + rest, prompt_len),
        ) == fresh_after(fresh, settled(first + rest, prompt_len)),
{
    let more = settled(kept(first, prompt_len) + rest, prompt_len);
    assert(settled(first, prompt_len) + more =~= settled(first + rest, prompt_len));
    assert(kept(kept(first, prompt_len) + rest, prompt_len) =~= kept(first + rest, prompt_len));
    if more.len() > 0 {
        assert(settled(first + rest, prompt_len).last() == more.last());
    } else {
        assert(settled(first + rest, prompt_len) =~= settled(first, prompt_len));
    }
}

} // verus!
