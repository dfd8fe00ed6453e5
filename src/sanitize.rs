use vstd::prelude::*;

verus! {

/// Characters removed from a variable name before it is evaluated, so that a
/// lookup cannot be turned into a call, a statement or an assignment.
pub const FORBIDDEN_CHARS: [char; 7] = ['(', ')', '"', ';', '\'', '=', ':'];

/// Whether `c` is one of the characters stripped from variable names.
pub open spec fn forbidden(c: char) -> bool {
    c == '(' || c == ')' || c == '"' || c == ';' || c == '\'' || c == '=' || c == ':'
}

/// The name that is actually evaluated for a requested variable name: the
/// request with every forbidden character removed, the rest kept in order.
pub open spec fn sanitized(name: Seq<char>) -> Seq<char> {
    name.filter(|c: char| !forbidden(c))
}

/// Whether `c` is stripped from variable names.
pub fn is_forbidden(c: char) -> (r: bool)
    ensures
        r == forbidden(c),
{
    let mut i: usize = 0;
    while i < FORBIDDEN_CHARS.len()
        invariant
            i <= FORBIDDEN_CHARS.len(),
            forall|j: int| 0 <= j < i ==> FORBIDDEN_CHARS[j] != c,
        decreases FORBIDDEN_CHARS.len() - i,
    {
        if FORBIDDEN_CHARS[i] == c {
            return true;
        }
        i = i + 1;
    }
    false
}

/// Relies on `String::push`: appends one character at the end.
pub assume_specification[ String::push ](s: &mut String, ch: char)
    ensures
        final(s)@ == old(s)@.push(ch),
;

/// Strips the forbidden characters from `name`; the engine then evaluates
/// what is left as a binding lookup.
pub fn sanitize_variable_name(name: &str) -> (r: String)
    ensures
        r@ == sanitized(name@),
{
    broadcast use vstd::string::group_string_axioms;
    let mut out = String::new();
    proof {
        reveal(Seq::filter);
    }
    for c in it: name.chars()
        invariant
            it.seq() == name@,
            out@ == sanitized(it.seq().take(it.index())),
    {
        proof {
            let done = it.seq().take(it.index());
            assert(it.seq().take(it.index() + 1) == done.push(c));
            done.lemma_filter_push(c, |c: char| !forbidden(c));
        }
        if !is_forbidden(c) {
            out.push(c);
        }
    }
    assert(name@.take(name@.len() as int) == name@);
    out
}

} // verus!
