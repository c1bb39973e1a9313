use vstd::prelude::*;

verus! {

/// What `char::is_alphabetic` answers for a character (the Unicode
/// `Alphabetic` property).
pub uninterp spec fn alphabetic(c: char) -> bool;

/// The characters that `char::to_uppercase` yields for a character.
pub uninterp spec fn upper_of(c: char) -> Seq<char>;

/// Relies on `char::is_alphabetic`: whether the character has the
/// Unicode `Alphabetic` property.
#[verifier::external_body]
fn is_alphabetic(c: char) -> (r: bool)
    ensures
        r == alphabetic(c),
{
    c.is_alphabetic()
}

/// Relies on `char::to_uppercase`: the upper-case mapping of the character,
/// collected into a string.
#[verifier::external_body]
fn to_uppercase(c: char) -> (r: String)
    ensures
        r@ == upper_of(c),
{
    c.to_uppercase().collect()
}

/// Relies on `String::push`: appends one character.
#[verifier::external_body]
fn push_char(s: &mut String, c: char)
    ensures
        final(s)@ == old(s)@.push(c),
{
    s.push(c)
}

/// The separator that marks word boundaries in snake case.
pub open spec fn is_separator(c: char) -> bool {
    c == '_'
}

/// Snake case to camel case, scanning left to right; `after_sep` says
/// whether a separator came right before `s`.
pub open spec fn camel_from(s: Seq<char>, after_sep: bool) -> Seq<char>
    decreases s.len(),
{
    if s.len() == 0 {
        Seq::empty()
    } else if is_separator(s[0]) {
        camel_from(s.drop_first(), true)
    } else if after_sep && alphabetic(s[0]) {
        upper_of(s[0]) + camel_from(s.drop_first(), false)
    } else {
        seq![s[0]] + camel_from(s.drop_first(), false)
    }
}

/// The camel-case form of a snake-case identifier: separators are dropped
/// and an alphabetic character right after a separator is upper-cased.
pub open spec fn camel_from_snake(s: Seq<char>) -> Seq<char> {
    camel_from(s, false)
}

/// Converts a snake-case identifier to camel case.
pub fn camel_case(s: &str) -> (r: String)
    ensures
        r@ == camel_from_snake(s@),
{
    let n = s.unicode_len();
    let mut out = String::new();
    let mut prev_sep = false;
    let mut i: usize = 0;
    assert(s@.subrange(0, n as int) =~= s@);
    assert(out@ + camel_from(s@, false) =~= camel_from(s@, false));
    while i < n
        invariant
            n == s@.len(),
            i <= n,
            out@ + camel_from(s@.subrange(i as int, n as int), prev_sep) == camel_from_snake(s@),
        decreases n - i,
    {
        let c = s.get_char(i);
        let ghost rest = s@.subrange(i as int, n as int);
        let ghost tail = s@.subrange(i + 1, n as int);
        assert(rest.drop_first() =~= tail);
        assert(rest[0] == c);
        let ghost before = out@;
        if c == '_' {
            prev_sep = true;
        } else if prev_sep && is_alphabetic(c) {
            let up = to_uppercase(c);
            out.append(up.as_str());
            prev_sep = false;
            assert(out@ + camel_from(tail, false) =~= before + (upper_of(c) + camel_from(tail, false)));
        } else {
            push_char(&mut out, c);
            prev_sep = false;
            assert(out@ + camel_from(tail, false) =~= before + (seq![c] + camel_from(tail, false)));
        }
        i = i + 1;
    }
    assert(s@.subrange(n as int, n as int) =~= Seq::<char>::empty());
    out
}

/// Name translation on identifiers.
pub trait IdentExt: Sized {
    /// The characters of the identifier.
    spec fn ident_chars(&self) -> Seq<char>;

    /// The camel-case form of a snake-case identifier.
    fn to_camel_from_snake(&self) -> (r: Self)
        ensures
            r.ident_chars() == camel_from_snake(self.ident_chars()),
    ;
}

impl IdentExt for String {
    open spec fn ident_chars(&self) -> Seq<char> {
        self@
    }

    fn to_camel_from_snake(&self) -> (r: String) {
        camel_case(self.as_str())
    }
}

/// A string equals a given text, character for character.
pub fn str_eq(a: &str, b: &str) -> (r: bool)
    ensures
        r == (a@ == b@),
{
    let n = a.unicode_len();
    let m = b.unicode_len();
    if n != m {
        return false;
    }
    let mut i: usize = 0;
    while i < n
        invariant
            n == a@.len(),
            m == b@.len(),
            n == m,
            i <= n,
            forall|k: int| 0 <= k < i ==> a@[k] == b@[k],
        decreases n - i,
    {
        if a.get_char(i) != b.get_char(i) {
            return false;
        }
        i = i + 1;
    }
    assert(a@ =~= b@);
    true
}

/// An identifier without separators is left as it is, so converting twice
/// gives what converting once gives.
pub proof fn lemma_camel_without_separator(s: Seq<char>)
    requires
        forall|k: int| 0 <= k < s.len() ==> !is_separator(#[trigger] s[k]),
    ensures
        camel_from_snake(s) == s,
        camel_from_snake(camel_from_snake(s)) == camel_from_snake(s),
{
    lemma_camel_plain(s);
}

proof fn lemma_camel_plain(s: Seq<char>)
    requires
        forall|k: int| 0 <= k < s.len() ==> !is_separator(#[trigger] s[k]),
    ensures
        camel_from(s, false) == s,
    decreases s.len(),
{
    if s.len() > 0 {
        assert(!is_separator(s[0]));
        let t = s.drop_first();
        assert forall|k: int| 0 <= k < t.len() implies !is_separator(#[trigger] t[k]) by {
            assert(t[k] == s[k + 1]);
        }
        lemma_camel_plain(t);
        assert(seq![s[0]] + t =~= s);
    }
}

} // verus!
