//! Locating fenced code blocks in rendered HTML, and splicing replacements
//! in their place.
//!
//! A block is `<pre><code class="language-LANG">CODE</code></pre>` where
//! LANG is one to fifty characters other than `"`, and CODE is the shortest
//! text up to the next `</code></pre>`. Blocks are taken leftmost first and
//! never overlap.
use vstd::prelude::*;
use crate::text::{
    chars_of, first_from, find_from, lemma_first_from, lemma_run_end, occurs_at, occurs_at_exec,
    push_range, run_end, run_end_exec, substring_of,
};

verus! {

/// The longest language tag a block may carry.
pub const MAX_LANGUAGE_LEN: usize = 50;

pub open spec fn code_open() -> Seq<char> {
    "<pre><code class=\"language-"@
}

pub open spec fn code_head_end() -> Seq<char> {
    "\">"@
}

pub open spec fn code_close() -> Seq<char> {
    "</code></pre>"@
}

/// The block that starts at `s`, if one does: the end of its language tag
/// and the start of its closing tags.
pub open spec fn code_block_at(h: Seq<char>, s: int) -> Option<(int, int)> {
    if occurs_at(h, code_open(), s) {
        let ls = s + code_open().len();
        let le = run_end(h, '"', ls);
        if 1 <= le - ls <= MAX_LANGUAGE_LEN && occurs_at(h, code_head_end(), le) {
            match first_from(h, code_close(), le + code_head_end().len()) {
                Some(c) => Some((le, c)),
                None => None,
            }
        } else {
            None
        }
    } else {
        None
    }
}

pub proof fn lemma_code_block_at(h: Seq<char>, s: int)
    requires
        0 <= s,
    ensures
        code_block_at(h, s) matches Some((le, c)) ==> s + code_open().len() < le && le
            + code_head_end().len() <= c && c + code_close().len() <= h.len(),
{
    if occurs_at(h, code_open(), s) {
        let ls = s + code_open().len();
        lemma_run_end(h, '"', ls);
        let le = run_end(h, '"', ls);
        if 1 <= le - ls <= MAX_LANGUAGE_LEN && occurs_at(h, code_head_end(), le) {
            lemma_first_from(h, code_close(), le + code_head_end().len());
        }
    }
}

/// The (language, code) pairs of the blocks in `h[i..]`, in order.
pub open spec fn blocks_from(h: Seq<char>, i: int) -> Seq<(Seq<char>, Seq<char>)>
    decreases h.len() - i,
{
    if i < 0 || i >= h.len() {
        Seq::empty()
    } else {
        match code_block_at(h, i) {
            Some((le, c)) => {
                proof {
                    lemma_code_block_at(h, i);
                }
                seq![
                    (
                        h.subrange(i + code_open().len(), le),
                        h.subrange(le + code_head_end().len(), c),
                    ),
                ] + blocks_from(h, c + code_close().len())
            },
            None => blocks_from(h, i + 1),
        }
    }
}

/// The code blocks of a document.
pub open spec fn code_blocks(h: Seq<char>) -> Seq<(Seq<char>, Seq<char>)> {
    blocks_from(h, 0)
}

/// `h[i..]` with its `k`-th and later blocks replaced by `reps[k]`, ...; a
/// block past the end of `reps` is kept as it stands.
pub open spec fn splice_from(h: Seq<char>, i: int, reps: Seq<Seq<char>>, k: int) -> Seq<char>
    decreases h.len() - i,
{
    if i < 0 || i >= h.len() {
        Seq::empty()
    } else {
        match code_block_at(h, i) {
            Some((le, c)) => {
                proof {
                    lemma_code_block_at(h, i);
                }
                let end = c + code_close().len();
                (if 0 <= k < reps.len() {
                    reps[k]
                } else {
                    h.subrange(i, end)
                }) + splice_from(h, end, reps, k + 1)
            },
            None => seq![h[i]] + splice_from(h, i + 1, reps, k),
        }
    }
}

/// The document with its blocks replaced in order by `reps`.
pub open spec fn splice_blocks(h: Seq<char>, reps: Seq<Seq<char>>) -> Seq<char> {
    splice_from(h, 0, reps, 0)
}

/// A code block found in a document.
pub struct CodeBlock {
    /// The language tag, as written.
    pub language: String,
    /// The code, still HTML-escaped.
    pub code: String,
}

/// The three fixed parts of the block pattern.
struct BlockPattern {
    open: Vec<char>,
    head_end: Vec<char>,
    close: Vec<char>,
}

impl BlockPattern {
    spec fn wf(&self) -> bool {
        &&& self.open@ == code_open()
        &&& self.head_end@ == code_head_end()
        &&& self.close@ == code_close()
    }

    fn new() -> (r: BlockPattern)
        ensures
            r.wf(),
    {
        BlockPattern {
            open: chars_of("<pre><code class=\"language-"),
            head_end: chars_of("\">"),
            close: chars_of("</code></pre>"),
        }
    }

    /// The block that starts at `s`.
    fn block_at(&self, h: &Vec<char>, s: usize) -> (r: Option<(usize, usize)>)
        requires
            self.wf(),
            s <= h@.len(),
        ensures
            r matches Some((le, c)) ==> code_block_at(h@, s as int) == Some((le as int, c as int)),
            r is None ==> code_block_at(h@, s as int) is None,
    {
        proof {
            lemma_code_block_at(h@, s as int);
        }
        let n = h.len();
        if !occurs_at_exec(h, &self.open, s) {
            return None;
        }
        let ls = s + self.open.len();
        let le = run_end_exec(h, '"', ls);
        proof {
            lemma_run_end(h@, '"', ls as int);
        }
        if le - ls < 1 || le - ls > MAX_LANGUAGE_LEN {
            return None;
        }
        if !occurs_at_exec(h, &self.head_end, le) {
            return None;
        }
        match find_from(h, &self.close, le + self.head_end.len()) {
            Some(c) => Some((le, c)),
            None => None,
        }
    }
}

/// The code blocks of `html`, in order.
pub fn find_code_blocks(html: &str) -> (r: Vec<CodeBlock>)
    ensures
        r@.len() == code_blocks(html@).len(),
        forall|k: int|
            0 <= k < r@.len() ==> (#[trigger] r@[k]).language@ == code_blocks(html@)[k].0
                && r@[k].code@ == code_blocks(html@)[k].1,
{
    let pat = BlockPattern::new();
    let h = chars_of(html);
    let mut out: Vec<CodeBlock> = Vec::new();
    let ghost found: Seq<(Seq<char>, Seq<char>)> = Seq::empty();
    let mut i: usize = 0;
    while i < h.len()
        invariant
            pat.wf(),
            h@ == html@,
            i <= h@.len(),
            found + blocks_from(h@, i as int) == code_blocks(h@),
            out@.len() == found.len(),
            forall|k: int|
                0 <= k < out@.len() ==> (#[trigger] out@[k]).language@ == found[k].0
                    && out@[k].code@ == found[k].1,
        decreases h@.len() - i,
    {
        match pat.block_at(&h, i) {
            Some((le, c)) => {
                proof {
                    lemma_code_block_at(h@, i as int);
                }
                let language = substring_of(&h, i + pat.open.len(), le);
                let code = substring_of(&h, le + pat.head_end.len(), c);
                let ghost pair = (language@, code@);
                proof {
                    assert(found.push(pair) + blocks_from(h@, c + code_close().len()) =~= found
                        + blocks_from(h@, i as int));
                    found = found.push(pair);
                }
                out.push(CodeBlock { language, code });
                i = c + pat.close.len();
            },
            None => {
                i = i + 1;
            },
        }
    }
    assert(found =~= code_blocks(h@));
    out
}

/// `html` with its blocks replaced in order by `reps`; blocks past the end
/// of `reps` are kept.
pub fn splice_code_blocks(html: &str, reps: &Vec<String>) -> (r: String)
    ensures
        r@ == splice_blocks(html@, reps@.map_values(|s: String| s@)),
{
    let pat = BlockPattern::new();
    let h = chars_of(html);
    let ghost rv = reps@.map_values(|s: String| s@);
    let mut out = String::new();
    let mut i: usize = 0;
    let mut k: usize = 0;
    while i < h.len()
        invariant
            pat.wf(),
            h@ == html@,
            rv == reps@.map_values(|s: String| s@),
            i <= h@.len(),
            out@ + splice_from(h@, i as int, rv, k as int) == splice_blocks(h@, rv),
            k <= i,
        decreases h@.len() - i,
    {
        match pat.block_at(&h, i) {
            Some((le, c)) => {
                proof {
                    lemma_code_block_at(h@, i as int);
                }
                let end = c + pat.close.len();
                let ghost before = out@;
                if k < reps.len() {
                    out.append(reps[k].as_str());
                } else {
                    push_range(&mut out, &h, i, end);
                }
                assert(out@ + splice_from(h@, end as int, rv, k + 1) =~= before + splice_from(
                    h@,
                    i as int,
                    rv,
                    k as int,
                ));
                i = end;
                k = k + 1;
            },
            None => {
                let ghost before = out@;
                out.push(h[i]);
                assert(out@ + splice_from(h@, i + 1, rv, k as int) =~= before + splice_from(
                    h@,
                    i as int,
                    rv,
                    k as int,
                ));
                i = i + 1;
            },
        }
    }
    assert(out@ =~= splice_blocks(h@, rv));
    out
}


pub proof fn lemma_splice_without_blocks(h: Seq<char>, i: int, reps: Seq<Seq<char>>, k: int)
    requires
        0 <= i <= h.len(),
        blocks_from(h, i).len() == 0,
    ensures
        splice_from(h, i, reps, k) == h.subrange(i, h.len() as int),
    decreases h.len() - i,
{
    if i < h.len() {
        match code_block_at(h, i) {
            Some((le, c)) => {
                lemma_code_block_at(h, i);
            },
            None => {
                lemma_splice_without_blocks(h, i + 1, reps, k);
                assert(seq![h[i]] + h.subrange(i + 1, h.len() as int) =~= h.subrange(
                    i,
                    h.len() as int,
                ));
            },
        }
    } else {
        assert(h.subrange(i, h.len() as int) =~= Seq::<char>::empty());
    }
}

/// A document in which no code block is found comes out of a splice as it
/// went in, whatever the replacements.
pub proof fn lemma_no_blocks_unchanged(h: Seq<char>, reps: Seq<Seq<char>>)
    requires
        code_blocks(h).len() == 0,
    ensures
        splice_blocks(h, reps) == h,
{
    lemma_splice_without_blocks(h, 0, reps, 0);
    assert(h.subrange(0, h.len() as int) =~= h);
}

/// Text in which the block opening never occurs holds no block.
pub proof fn lemma_no_opening_no_blocks(h: Seq<char>, i: int)
    requires
        0 <= i <= h.len(),
        !crate::text::occurs(h, code_open()),
    ensures
        blocks_from(h, i).len() == 0,
    decreases h.len() - i,
{
    if i < h.len() {
        assert(code_block_at(h, i) is None);
        lemma_no_opening_no_blocks(h, i + 1);
    }
}

} // verus!
