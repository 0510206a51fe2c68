//! Filling in an HTML template.
//!
//! A template names the places of its substitutions as `{0}`, `{1}` and so
//! on. The substitutions are made one after the other, in their order, so
//! that text put in by one may be changed by a later one.

use crate::text::{
    append_chars, chars_of, decimal, decimal_chars, replace_chars, replaced, string_of,
};
use vstd::prelude::*;

verus! {

/// The text that names the place of the substitution with index `i`.
pub open spec fn placeholder(i: nat) -> Seq<char> {
    seq!['{'] + decimal(i) + seq!['}']
}

/// `template` after the first `n` of the substitutions `args` were made.
pub open spec fn filled_upto(template: Seq<char>, args: Seq<Seq<char>>, n: nat) -> Seq<char>
    decreases n,
{
    if n == 0 {
        template
    } else {
        replaced(
            filled_upto(template, args, (n - 1) as nat),
            placeholder((n - 1) as nat),
            args[n - 1],
        )
    }
}

/// `template` after all the substitutions `args` were made.
pub open spec fn filled(template: Seq<char>, args: Seq<Seq<char>>) -> Seq<char> {
    filled_upto(template, args, args.len())
}

/// The text that names the place of the substitution with index `i`.
pub fn placeholder_chars(i: usize) -> (r: Vec<char>)
    ensures
        r@ == placeholder(i as nat),
{
    let mut out: Vec<char> = Vec::new();
    out.push('{');
    let digits = decimal_chars(i);
    append_chars(&mut out, &digits);
    out.push('}');
    out
}

/// Fills `template` in with the substitutions `args`.
pub fn html_response(template: &str, args: &Vec<String>) -> (r: String)
    ensures
        r@ == filled(template@, args.deep_view()),
{
    let mut cur = chars_of(template);
    let mut i: usize = 0;
    while i < args.len()
        invariant
            i <= args.len(),
            cur@ == filled_upto(template@, args.deep_view(), i as nat),
        decreases args.len() - i,
    {
        let pat = placeholder_chars(i);
        let rep = chars_of(args[i].as_str());
        cur = replace_chars(&cur, &pat, &rep);
        i += 1;
    }
    string_of(&cur)
}

} // verus!
