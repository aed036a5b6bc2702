//! Text as sequences of characters: comparing, gluing and joining.
use vstd::prelude::*;
use vstd::string::*;

verus! {

/// The pieces of `parts` one after another, with `sep` between neighbours.
pub open spec fn joined(parts: Seq<Seq<char>>, sep: Seq<char>) -> Seq<char>
    decreases parts.len(),
{
    if parts.len() == 0 {
        Seq::empty()
    } else if parts.len() == 1 {
        parts[0]
    } else {
        joined(parts.drop_last(), sep) + sep + parts.last()
    }
}

/// The characters of `s`, one by one.
pub fn chars_of(s: &str) -> (r: Vec<char>)
    ensures
        r@ == s@,
{
    let mut r: Vec<char> = Vec::new();
    for c in it: s.chars()
        invariant
            it.seq() == s@,
            r@ == it.seq().take(it.index() as int),
    {
        r.push(c);
    }
    r
}

/// What a writer made of something, over sequences of characters: the
/// text, or the words with which it gave up.
pub open spec fn rendered(r: Result<String, String>) -> Result<Seq<char>, Seq<char>> {
    match r {
        Ok(text) => Ok(text@),
        Err(words) => Err(words@),
    }
}

/// Whether `a` and `b` hold the same characters.
pub fn same_text(a: &str, b: &str) -> (r: bool)
    ensures
        r == (a@ == b@),
{
    let x = String::from_str(a);
    let y = String::from_str(b);
    x == y
}

/// `a` followed by `b`.
pub fn glue2(a: &str, b: &str) -> (r: String)
    ensures
        r@ == a@ + b@,
{
    let mut s = String::from_str(a);
    s.append(b);
    s
}

/// `a`, `b` and `c` in a row.
pub fn glue3(a: &str, b: &str, c: &str) -> (r: String)
    ensures
        r@ == a@ + b@ + c@,
{
    let mut s = String::from_str(a);
    s.append(b);
    s.append(c);
    s
}

/// Five pieces in a row.
pub fn glue5(a: &str, b: &str, c: &str, d: &str, e: &str) -> (r: String)
    ensures
        r@ == a@ + b@ + c@ + d@ + e@,
{
    let mut s = String::from_str(a);
    s.append(b);
    s.append(c);
    s.append(d);
    s.append(e);
    s
}

/// Seven pieces in a row.
pub fn glue7(a: &str, b: &str, c: &str, d: &str, e: &str, f: &str, g: &str) -> (r: String)
    ensures
        r@ == a@ + b@ + c@ + d@ + e@ + f@ + g@,
{
    let mut s = String::from_str(a);
    s.append(b);
    s.append(c);
    s.append(d);
    s.append(e);
    s.append(f);
    s.append(g);
    s
}

/// A list of texts with nothing in it.
pub fn no_texts() -> (r: Vec<String>)
    ensures
        r.deep_view() == Seq::<Seq<char>>::empty(),
{
    let r: Vec<String> = Vec::new();
    r
}

/// Puts a copy of `s` at the end of `texts`.
pub fn push_text(texts: &mut Vec<String>, s: &str)
    ensures
        final(texts).deep_view() == old(texts).deep_view().push(s@),
{
    texts.push(String::from_str(s));
}

/// Puts `s` at the end of `texts`.
pub fn push_owned(texts: &mut Vec<String>, s: String)
    ensures
        final(texts).deep_view() == old(texts).deep_view().push(s@),
{
    texts.push(s);
}

/// The texts of `items` as a list of their own.
pub fn texts_of(items: &[&str]) -> (r: Vec<String>)
    ensures
        r.deep_view() == items.deep_view(),
{
    let mut r = no_texts();
    let mut i: usize = 0;
    while i < items.len()
        invariant
            i <= items.len(),
            r.deep_view() == items.deep_view().take(i as int),
        decreases items.len() - i,
    {
        push_text(&mut r, items[i]);
        i = i + 1;
    }
    r
}

/// Puts a copy of every text of `more` at the end of `texts`, in order.
pub fn push_all(texts: &mut Vec<String>, more: &Vec<String>)
    ensures
        final(texts).deep_view() == old(texts).deep_view() + more.deep_view(),
{
    let ghost before = texts.deep_view();
    let mut i: usize = 0;
    while i < more.len()
        invariant
            i <= more.len(),
            texts.deep_view() == before + more.deep_view().take(i as int),
        decreases more.len() - i,
    {
        push_owned(texts, more[i].clone());
        i = i + 1;
    }
}

/// A copy of `texts`.
pub fn copy_texts(texts: &Vec<String>) -> (r: Vec<String>)
    ensures
        r.deep_view() == texts.deep_view(),
{
    let mut r = no_texts();
    push_all(&mut r, texts);
    r
}

/// The texts of `parts` one after another, with `sep` between neighbours.
pub fn join(parts: &Vec<String>, sep: &str) -> (r: String)
    ensures
        r@ == joined(parts.deep_view(), sep@),
{
    let mut out = String::new();
    let mut i: usize = 0;
    while i < parts.len()
        invariant
            i <= parts.len(),
            out@ == joined(parts.deep_view().take(i as int), sep@),
        decreases parts.len() - i,
    {
        let ghost prefix = parts.deep_view().take(i as int);
        let ghost next = parts.deep_view().take(i + 1);
        assert(next.drop_last() =~= prefix);
        if i > 0 {
            out.append(sep);
        }
        out.append(parts[i].as_str());
        i = i + 1;
    }
    assert(parts.deep_view().take(parts.len() as int) =~= parts.deep_view());
    out
}

} // verus!
