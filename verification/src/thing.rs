use vstd::std_specs::iter::IteratorSpec;
use vstd::prelude::*;

verus! {

/// Whether `s` holds neither `[` nor `{`, so that a record identifier written
/// as `s` has a number or a name for its key, not an array or an object.
pub open spec fn is_plain(s: Seq<char>) -> bool {
    forall|i: int| 0 <= i < s.len() ==> s[i] != '[' && s[i] != '{'
}

/// Tests `is_plain` on a string.
pub fn is_plain_id(s: &str) -> (b: bool)
    ensures
        b == is_plain(s@),
{
    broadcast use {vstd::string::axiom_spec_iter, vstd::string::next_postcondition};

    let mut it = s.chars();
    let ghost mut seen: int = 0;
    loop
        invariant
            0 <= seen <= s@.len(),
            it.remaining() == s@.subrange(seen, s@.len() as int),
            forall|j: int| 0 <= j < seen ==> s@[j] != '[' && s@[j] != '{',
        decreases s@.len() - seen,
    {
        match it.next() {
            None => {
                return true;
            },
            Some(c) => {
                assert(c == s@[seen]);
                if c == '[' || c == '{' {
                    return false;
                }
                proof {
                    assert(s@.subrange(seen, s@.len() as int).drop_first() == s@.subrange(
                        seen + 1,
                        s@.len() as int,
                    ));
                    seen = seen + 1;
                }
            },
        }
    }
}

/// What `surrealdb::sql::thing` makes of `input`: the canonical text of the
/// record identifier that it reads, or `None` where it refuses `input`.
pub uninterp spec fn thing_text(input: Seq<char>) -> Option<Seq<char>>;

/// Calls `surrealdb::sql::thing` on `input` and, where it accepts, renders the
/// identifier that it read with the engine's own `Display`. The parser reads
/// a table name, a colon and a key, all of it optionally in quotes, and
/// ignores what follows; it is a pure function of its input, and so is the
/// rendering. The contract claims no more than that: it names the outcome
/// `thing_text(input)`, `Some` of the rendered text where the parser accepts
/// and `None` where it reports an error.
///
/// Inputs that hold `[` or `{` are left out. Only through one of these two
/// characters does the parser reach an array or object key, and with it the
/// engine's whole value grammar, which unwraps on some escapes and recurses
/// as deep as the input nests. On every other input it runs through a few
/// flat token parsers and returns.
#[verifier::external_body]
pub(crate) fn parse_thing(input: &str) -> (r: Result<String, surrealdb::Error>)
    requires
        is_plain(input@),
    ensures
        r matches Ok(text) ==> thing_text(input@) == Some(text@),
        r is Err ==> thing_text(input@).is_none(),
{
    match surrealdb::sql::thing(input) {
        Ok(thing) => Ok(thing.to_string()),
        Err(err) => Err(err),
    }
}

} // verus!
