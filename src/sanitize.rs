use vstd::prelude::*;
use crate::text::{chars_of, string_of};

verus! {

/// Whether a markup character matches a pattern character, ignoring ASCII case
/// (patterns are written in lower case).
pub open spec fn same_ci(c: char, p: char) -> bool {
    c == p || ('a' <= p && p <= 'z' && (c as u32) + 32 == (p as u32))
}

/// Whether `pat` occurs in `s` at position `i`, ignoring ASCII case.
pub open spec fn starts_ci(s: Seq<char>, i: int, pat: Seq<char>) -> bool {
    0 <= i && i + pat.len() <= s.len() && forall|k: int| 0 <= k < pat.len() ==> same_ci(#[trigger] s[i + k], pat[k])
}

/// The first position at or after `from` where `pat` occurs, or -1.
pub open spec fn find_ci(s: Seq<char>, from: int, pat: Seq<char>) -> int
    decreases s.len() - from,
{
    if from < 0 || from + pat.len() > s.len() {
        -1
    } else if starts_ci(s, from, pat) {
        from
    } else {
        find_ci(s, from + 1, pat)
    }
}

pub open spec fn script_open() -> Seq<char> {
    seq!['<', 's', 'c', 'r', 'i', 'p', 't']
}

pub open spec fn script_close() -> Seq<char> {
    seq!['<', '/', 's', 'c', 'r', 'i', 'p', 't', '>']
}

pub open spec fn toolbar_open() -> Seq<char> {
    seq!['<', 'r', 'u', 's', 't', 'd', 'o', 'c', '-', 't', 'o', 'o', 'l', 'b', 'a', 'r']
}

pub open spec fn toolbar_close() -> Seq<char> {
    seq!['<', '/', 'r', 'u', 's', 't', 'd', 'o', 'c', '-', 't', 'o', 'o', 'l', 'b', 'a', 'r', '>']
}

pub open spec fn class_open() -> Seq<char> {
    seq![' ', 'c', 'l', 'a', 's', 's', '=', '"']
}

pub open spec fn quote() -> Seq<char> {
    seq!['"']
}

pub open spec fn class_open_single() -> Seq<char> {
    seq![' ', 'c', 'l', 'a', 's', 's', '=', '\'']
}

pub open spec fn single_quote() -> Seq<char> {
    seq!['\'']
}

/// Where a block that opens at `i` ends: after its closing tag, or at the end of
/// the markup when it is never closed; `i` when no such block opens there.
pub open spec fn block_end(s: Seq<char>, i: int, open: Seq<char>, close: Seq<char>) -> int {
    if starts_ci(s, i, open) {
        let f = find_ci(s, i + open.len(), close);
        if f >= 0 { f + close.len() } else { s.len() as int }
    } else {
        i
    }
}

/// Where an attribute that opens with `open` at `i` ends, after the closing
/// `close`; `i` when none starts there or it is never closed.
pub open spec fn attribute_end(s: Seq<char>, i: int, open: Seq<char>, close: Seq<char>) -> int {
    if starts_ci(s, i, open) {
        let f = find_ci(s, i + open.len(), close);
        if f >= 0 { f + close.len() } else { i }
    } else {
        i
    }
}

/// Whether position `i` lies inside a tag: the nearest `<` or `>` before it is a `<`.
pub open spec fn in_tag(s: Seq<char>, i: int) -> bool
    decreases i,
{
    if i <= 0 || i > s.len() {
        false
    } else if s[i - 1] == '<' {
        true
    } else if s[i - 1] == '>' {
        false
    } else {
        in_tag(s, i - 1)
    }
}

/// Where a class attribute (double or single quoted) that starts at `i`, inside
/// a tag, ends; `i` when none starts there.
pub open spec fn class_end(s: Seq<char>, i: int) -> int {
    if !in_tag(s, i) {
        i
    } else {
        let d = attribute_end(s, i, class_open(), quote());
        if d > i { d } else { attribute_end(s, i, class_open_single(), single_quote()) }
    }
}

/// Where the piece of markup to remove at `i` ends (a script block, a toolbar
/// block or a class attribute, in that order of preference); `i` when none.
pub open spec fn removal_end(s: Seq<char>, i: int) -> int {
    let a = block_end(s, i, script_open(), script_close());
    if a > i {
        a
    } else {
        let b = block_end(s, i, toolbar_open(), toolbar_close());
        if b > i { b } else { class_end(s, i) }
    }
}

/// One pass over the markup from position `i`: every removable piece met from
/// left to right is dropped, everything else is kept.
pub open spec fn strip_from(s: Seq<char>, i: int) -> Seq<char>
    decreases s.len() - i,
{
    if i < 0 || i >= s.len() {
        Seq::empty()
    } else {
        let e = removal_end(s, i);
        if i < e && e <= s.len() {
            strip_from(s, e)
        } else {
            seq![s[i]] + strip_from(s, i + 1)
        }
    }
}

pub open spec fn strip(s: Seq<char>) -> Seq<char> {
    strip_from(s, 0)
}

/// The sanitized markup: passes are repeated until one removes nothing.
pub open spec fn sanitize_spec(s: Seq<char>) -> Seq<char>
    decreases s.len(),
{
    if strip(s).len() < s.len() {
        sanitize_spec(strip(s))
    } else {
        s
    }
}

fn script_open_exec() -> (r: Vec<char>)
    ensures
        r@ == script_open(),
{
    let r = vec!['<', 's', 'c', 'r', 'i', 'p', 't'];
    assert(r@ =~= script_open());
    r
}

fn script_close_exec() -> (r: Vec<char>)
    ensures
        r@ == script_close(),
{
    let r = vec!['<', '/', 's', 'c', 'r', 'i', 'p', 't', '>'];
    assert(r@ =~= script_close());
    r
}

fn toolbar_open_exec() -> (r: Vec<char>)
    ensures
        r@ == toolbar_open(),
{
    let r = vec!['<', 'r', 'u', 's', 't', 'd', 'o', 'c', '-', 't', 'o', 'o', 'l', 'b', 'a', 'r'];
    assert(r@ =~= toolbar_open());
    r
}

fn toolbar_close_exec() -> (r: Vec<char>)
    ensures
        r@ == toolbar_close(),
{
    let r = vec!['<', '/', 'r', 'u', 's', 't', 'd', 'o', 'c', '-', 't', 'o', 'o', 'l', 'b', 'a', 'r', '>'];
    assert(r@ =~= toolbar_close());
    r
}

fn class_open_exec() -> (r: Vec<char>)
    ensures
        r@ == class_open(),
{
    let r = vec![' ', 'c', 'l', 'a', 's', 's', '=', '"'];
    assert(r@ =~= class_open());
    r
}

fn quote_exec() -> (r: Vec<char>)
    ensures
        r@ == quote(),
{
    let r = vec!['"'];
    assert(r@ =~= quote());
    r
}

fn class_open_single_exec() -> (r: Vec<char>)
    ensures
        r@ == class_open_single(),
{
    let r = vec![' ', 'c', 'l', 'a', 's', 's', '=', '\''];
    assert(r@ =~= class_open_single());
    r
}

fn single_quote_exec() -> (r: Vec<char>)
    ensures
        r@ == single_quote(),
{
    let r = vec!['\''];
    assert(r@ =~= single_quote());
    r
}

fn same_ci_exec(c: char, p: char) -> (r: bool)
    ensures
        r == same_ci(c, p),
{
    c == p || ('a' <= p && p <= 'z' && (c as u32) == (p as u32) - 32)
}

fn starts_at(s: &Vec<char>, i: usize, pat: &Vec<char>) -> (r: bool)
    ensures
        r == starts_ci(s@, i as int, pat@),
{
    if i > s.len() || pat.len() > s.len() - i {
        return false;
    }
    let mut k: usize = 0;
    while k < pat.len()
        invariant
            k <= pat.len(),
            i + pat.len() <= s.len(),
            forall|m: int| 0 <= m < k ==> same_ci(#[trigger] s@[i + m], pat@[m]),
        decreases pat.len() - k,
    {
        if !same_ci_exec(s[i + k], pat[k]) {
            assert(!same_ci(s@[i + k as int], pat@[k as int]));
            return false;
        }
        k = k + 1;
    }
    true
}

fn find_at(s: &Vec<char>, from: usize, pat: &Vec<char>) -> (r: Option<usize>)
    ensures
        match r {
            Some(f) => find_ci(s@, from as int, pat@) == f as int,
            None => find_ci(s@, from as int, pat@) == -1,
        },
{
    let mut j: usize = from;
    while j <= s.len() && pat.len() <= s.len() - j
        invariant
            from <= j,
            find_ci(s@, from as int, pat@) == find_ci(s@, j as int, pat@),
        decreases s.len() - j,
    {
        if starts_at(s, j, pat) {
            return Some(j);
        }
        j = j + 1;
    }
    None
}

fn block_end_at(s: &Vec<char>, i: usize, open: &Vec<char>, close: &Vec<char>) -> (r: usize)
    requires
        i <= s.len(),
    ensures
        r as int == block_end(s@, i as int, open@, close@),
{
    if starts_at(s, i, open) {
        match find_at(s, i + open.len(), close) {
            Some(f) => {
                proof {
                    lemma_find_bounds(s@, i + open@.len(), close@);
                }
                f + close.len()
            },
            None => s.len(),
        }
    } else {
        i
    }
}

fn in_tag_at(s: &Vec<char>, i: usize) -> (r: bool)
    requires
        i <= s.len(),
    ensures
        r == in_tag(s@, i as int),
{
    let mut j: usize = i;
    while j > 0
        invariant
            j <= i <= s.len(),
            in_tag(s@, i as int) == in_tag(s@, j as int),
        decreases j,
    {
        if s[j - 1] == '<' {
            return true;
        }
        if s[j - 1] == '>' {
            return false;
        }
        j = j - 1;
    }
    false
}

fn attribute_end_at(s: &Vec<char>, i: usize, open: &Vec<char>, close: &Vec<char>) -> (r: usize)
    requires
        i <= s.len(),
    ensures
        r as int == attribute_end(s@, i as int, open@, close@),
{
    if starts_at(s, i, open) {
        match find_at(s, i + open.len(), close) {
            Some(f) => {
                proof {
                    lemma_find_bounds(s@, i + open@.len(), close@);
                }
                f + close.len()
            },
            None => i,
        }
    } else {
        i
    }
}

/// What `find_ci` returns is -1 or a position, at or after `from`, where the pattern occurs.
proof fn lemma_find_bounds(s: Seq<char>, from: int, pat: Seq<char>)
    ensures
        find_ci(s, from, pat) == -1 || (from <= find_ci(s, from, pat) && find_ci(s, from, pat) + pat.len() <= s.len()
            && starts_ci(s, find_ci(s, from, pat), pat)),
    decreases s.len() - from,
{
    if from < 0 || from + pat.len() > s.len() {
    } else if starts_ci(s, from, pat) {
    } else {
        lemma_find_bounds(s, from + 1, pat);
    }
}

/// One pass: drops every script block, toolbar block and class attribute met from left to right.
fn strip_exec(s: &Vec<char>) -> (r: Vec<char>)
    ensures
        r@ == strip(s@),
{
    let so = script_open_exec();
    let sc = script_close_exec();
    let to = toolbar_open_exec();
    let tc = toolbar_close_exec();
    let co = class_open_exec();
    let qu = quote_exec();
    let cs = class_open_single_exec();
    let sq = single_quote_exec();
    let mut out: Vec<char> = Vec::new();
    let mut i: usize = 0;
    while i < s.len()
        invariant
            i <= s.len(),
            so@ == script_open(),
            sc@ == script_close(),
            to@ == toolbar_open(),
            tc@ == toolbar_close(),
            co@ == class_open(),
            qu@ == quote(),
            cs@ == class_open_single(),
            sq@ == single_quote(),
            out@ + strip_from(s@, i as int) == strip_from(s@, 0),
        decreases s.len() - i,
    {
        let a = block_end_at(s, i, &so, &sc);
        let e = if a > i {
            a
        } else {
            let b = block_end_at(s, i, &to, &tc);
            if b > i {
                b
            } else {
                if !in_tag_at(s, i) {
                    i
                } else {
                    let d = attribute_end_at(s, i, &co, &qu);
                    if d > i { d } else { attribute_end_at(s, i, &cs, &sq) }
                }
            }
        };
        assert(e as int == removal_end(s@, i as int));
        if i < e && e <= s.len() {
            i = e;
        } else {
            let ghost before = out@;
            out.push(s[i]);
            assert(strip_from(s@, i as int) == seq![s@[i as int]] + strip_from(s@, i + 1));
            assert(out@ + strip_from(s@, i + 1) =~= before + strip_from(s@, i as int));
            i = i + 1;
        }
    }
    assert(strip_from(s@, i as int) =~= Seq::<char>::empty());
    assert(out@ =~= out@ + strip_from(s@, i as int));
    out
}

/// A pass never lengthens the markup.
proof fn lemma_strip_from_len(s: Seq<char>, i: int)
    requires
        0 <= i <= s.len(),
    ensures
        strip_from(s, i).len() <= s.len() - i,
    decreases s.len() - i,
{
    if i < s.len() {
        let e = removal_end(s, i);
        if i < e && e <= s.len() {
            lemma_strip_from_len(s, e);
        } else {
            lemma_strip_from_len(s, i + 1);
        }
    }
}

/// A pass that keeps the length removes nothing anywhere.
proof fn lemma_strip_from_full(s: Seq<char>, i: int)
    requires
        0 <= i <= s.len(),
        strip_from(s, i).len() == s.len() - i,
    ensures
        forall|j: int| i <= j < s.len() ==> !(j < #[trigger] removal_end(s, j) && removal_end(s, j) <= s.len()),
    decreases s.len() - i,
{
    if i < s.len() {
        let e = removal_end(s, i);
        if i < e && e <= s.len() {
            lemma_strip_from_len(s, e);
        } else {
            lemma_strip_from_full(s, i + 1);
        }
    }
}

/// A script that opens at `j` is always removable there.
proof fn lemma_script_removable(s: Seq<char>, j: int)
    requires
        starts_ci(s, j, script_open()),
    ensures
        j < removal_end(s, j) <= s.len(),
{
    lemma_find_bounds(s, j + script_open().len(), script_close());
}

/// Sanitizing ends on markup that one more pass leaves unchanged in length.
proof fn lemma_sanitized_is_stable(s: Seq<char>)
    ensures
        strip(sanitize_spec(s)).len() >= sanitize_spec(s).len(),
    decreases s.len(),
{
    if strip(s).len() < s.len() {
        lemma_sanitized_is_stable(strip(s));
    }
}

/// Removes presentation noise from markup: every quoted class attribute inside a tag, every script
/// block and every toolbar block (closing tags matched ignoring ASCII case,
/// across lines; a block never closed runs to the end of the markup).
pub fn sanitize(markup: &str) -> (r: String)
    ensures
        r@ == sanitize_spec(markup@),
{
    let mut cur = chars_of(markup);
    let mut next = strip_exec(&cur);
    proof {
        lemma_strip_from_len(cur@, 0);
    }
    while next.len() != cur.len()
        invariant
            next@ == strip(cur@),
            next@.len() <= cur@.len(),
            sanitize_spec(cur@) == sanitize_spec(markup@),
        decreases cur.len(),
    {
        cur = next;
        next = strip_exec(&cur);
        proof {
            lemma_strip_from_len(cur@, 0);
        }
    }
    string_of(&cur)
}

/// Sanitizing twice gives what sanitizing once gives.
pub proof fn lemma_sanitize_idempotent(markup: Seq<char>)
    ensures
        sanitize_spec(sanitize_spec(markup)) == sanitize_spec(markup),
{
    lemma_sanitized_is_stable(markup);
}

/// No script tag opens anywhere in sanitized markup, in any ASCII casing.
pub proof fn lemma_sanitize_removes_scripts(markup: Seq<char>)
    ensures
        forall|j: int| !starts_ci(#[trigger] sanitize_spec(markup), j, script_open()),
{
    let x = sanitize_spec(markup);
    lemma_sanitized_is_stable(markup);
    lemma_strip_from_len(x, 0);
    lemma_strip_from_full(x, 0);
    assert forall|j: int| !starts_ci(x, j, script_open()) by {
        if starts_ci(x, j, script_open()) {
            lemma_script_removable(x, j);
        }
    }
}

} // verus!
