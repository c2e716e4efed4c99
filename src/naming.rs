use vstd::prelude::*;

verus! {

/// What inflector's class-case conversion makes of a text.
pub uninterp spec fn class_case_of(s: Seq<char>) -> Seq<char>;

/// What inflector's snake-case conversion makes of a text.
pub uninterp spec fn snake_case_of(s: Seq<char>) -> Seq<char>;

/// What `str::to_lowercase` makes of a text.
pub uninterp spec fn lower_of(s: Seq<char>) -> Seq<char>;

/// What `str::to_uppercase` makes of a text.
pub uninterp spec fn upper_of(s: Seq<char>) -> Seq<char>;

/// `s` with every occurrence of `from` replaced by the text `to`.
pub open spec fn replaced(s: Seq<char>, from: char, to: Seq<char>) -> Seq<char>
    decreases s.len(),
{
    if s.len() == 0 {
        s
    } else {
        replaced(s.drop_last(), from, to) + if s.last() == from {
            to
        } else {
            seq![s.last()]
        }
    }
}

/// Relies on inflector's `to_class_case`, which depends on its argument alone.
#[verifier::external_body]
pub(crate) fn class_case(s: &str) -> (r: String)
    ensures
        r@ == class_case_of(s@),
{
    inflector::cases::classcase::to_class_case(s)
}

/// Relies on inflector's `to_snake_case`, which depends on its argument alone.
#[verifier::external_body]
pub(crate) fn snake_case(s: &str) -> (r: String)
    ensures
        r@ == snake_case_of(s@),
{
    inflector::cases::snakecase::to_snake_case(s)
}

/// Relies on `str::to_lowercase`, which depends on its argument alone.
#[verifier::external_body]
pub(crate) fn lowercase(s: &str) -> (r: String)
    ensures
        r@ == lower_of(s@),
{
    s.to_lowercase()
}

/// Relies on `str::to_uppercase`, which depends on its argument alone.
#[verifier::external_body]
pub(crate) fn uppercase(s: &str) -> (r: String)
    ensures
        r@ == upper_of(s@),
{
    s.to_uppercase()
}

/// `s` with every occurrence of `from` replaced by the text `to`.
pub fn replace_char(s: &str, from: char, to: &str) -> (r: String)
    ensures
        r@ == replaced(s@, from, to@),
{
    let n = s.unicode_len();
    let mut out = String::new();
    let mut i: usize = 0;
    while i < n
        invariant
            n == s@.len(),
            i <= n,
            out@ == replaced(s@.subrange(0, i as int), from, to@),
        decreases n - i,
    {
        let c = s.get_char(i);
        proof {
            let next = s@.subrange(0, i + 1);
            assert(next.drop_last() =~= s@.subrange(0, i as int));
            assert(next.last() == c);
        }
        if c == from {
            out.append(to);
        } else {
            let one = s.substring_char(i, i + 1);
            assert(one@ =~= seq![c]);
            out.append(one);
        }
        i = i + 1;
    }
    assert(s@.subrange(0, n as int) =~= s@);
    out
}

/// `a` followed by `b`.
pub fn joined(a: &str, b: &str) -> (r: String)
    ensures
        r@ == a@ + b@,
{
    let mut s = a.to_owned();
    s.append(b);
    s
}

} // verus!
