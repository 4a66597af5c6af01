//! The textual form of operands: blanks, identifiers and lists.

use crate::llvm::identifier::{
    identifier_part, identifier_start, is_identifier_part, is_identifier_start, valid_identifier,
};
use crate::text::{is_whitespace, joined, occurs_at, string_of, whitespace};
use vstd::prelude::*;
use vstd::slice::slice_subrange;

verus! {

/// The first position from `at` on that holds no blank.
pub open spec fn after_blanks(text: Seq<char>, at: int) -> int
    decreases text.len() - at,
{
    if 0 <= at < text.len() && whitespace(text[at]) {
        after_blanks(text, at + 1)
    } else {
        at
    }
}

/// The first position from `at` on that holds no character of an identifier.
pub open spec fn identifier_end(text: Seq<char>, at: int) -> int
    decreases text.len() - at,
{
    if 0 <= at < text.len() && identifier_part(text[at]) {
        identifier_end(text, at + 1)
    } else {
        at
    }
}

/// The identifier at `at`, and where it ends.
pub open spec fn read_identifier(text: Seq<char>, at: int) -> Option<(Seq<char>, int)> {
    if 0 <= at < text.len() && identifier_start(text[at]) {
        let end = identifier_end(text, at);
        Some((text.subrange(at, end), end))
    } else {
        None
    }
}

/// Where reading goes on behind the character `mark` at `at`.
pub open spec fn read_mark(text: Seq<char>, at: int, mark: char) -> Option<int> {
    if 0 <= at < text.len() && text[at] == mark {
        Some(at + 1)
    } else {
        None
    }
}

/// The further identifiers of a list, each behind a comma, and where they end.
pub open spec fn read_more(text: Seq<char>, at: int) -> Option<(Seq<Seq<char>>, int)>
    decreases text.len() - at,
{
    match read_mark(text, at, ',') {
        None => Some((seq![], at)),
        Some(behind) => match read_identifier(text, after_blanks(text, behind)) {
            None => None,
            Some((name, end)) => {
                proof {
                    lemma_blanks_bounds(text, behind);
                    lemma_identifier_bounds(text, after_blanks(text, behind));
                    lemma_blanks_bounds(text, end);
                }
                match read_more(text, after_blanks(text, end)) {
                    None => None,
                    Some((names, last)) => Some((seq![name] + names, last)),
                }
            },
        },
    }
}

/// A list of identifiers in round brackets, with commas between them, and where
/// it ends.
pub open spec fn read_operands(text: Seq<char>, at: int) -> Option<(Seq<Seq<char>>, int)> {
    match read_mark(text, at, '(') {
        None => None,
        Some(behind) => {
            let start = after_blanks(text, behind);
            let list = match read_identifier(text, start) {
                None => Some((seq![], start)),
                Some((name, end)) => match read_more(text, after_blanks(text, end)) {
                    None => None,
                    Some((names, last)) => Some((seq![name] + names, last)),
                },
            };
            match list {
                None => None,
                Some((names, last)) => match read_mark(text, after_blanks(text, last), ')') {
                    None => None,
                    Some(end) => Some((names, end)),
                },
            }
        },
    }
}

/// Skipping blanks goes forward and stays inside the text.
pub proof fn lemma_blanks_bounds(text: Seq<char>, at: int)
    requires
        0 <= at <= text.len(),
    ensures
        at <= after_blanks(text, at) <= text.len(),
    decreases text.len() - at,
{
    if at < text.len() && whitespace(text[at]) {
        lemma_blanks_bounds(text, at + 1);
    }
}

/// An identifier goes forward and stays inside the text.
pub proof fn lemma_identifier_bounds(text: Seq<char>, at: int)
    requires
        0 <= at <= text.len(),
    ensures
        at <= identifier_end(text, at) <= text.len(),
        forall|k: int| at <= k < identifier_end(text, at) ==> identifier_part(#[trigger] text[k]),
        at < text.len() && identifier_start(text[at]) ==> at < identifier_end(text, at),
    decreases text.len() - at,
{
    if at < text.len() && identifier_part(text[at]) {
        lemma_identifier_bounds(text, at + 1);
    }
}

/// Skips blanks.
pub fn skip_blanks(text: &[char], at: usize) -> (next: usize)
    requires
        at <= text.len(),
    ensures
        next == after_blanks(text@, at as int),
        at <= next <= text.len(),
{
    let mut next: usize = at;
    while next < text.len() && is_whitespace(text[next])
        invariant
            at <= next <= text.len(),
            after_blanks(text@, at as int) == after_blanks(text@, next as int),
        decreases text.len() - next,
    {
        next += 1;
    }
    next
}

/// Reads an identifier.
pub fn parse_identifier(text: &[char], at: usize) -> (read: Option<(String, usize)>)
    requires
        at <= text.len(),
    ensures
        match read_identifier(text@, at as int) {
            Some((name, end)) => read matches Some(found) && found.0@ == name && found.1 == end
                && at < found.1 <= text.len(),
            None => read is None,
        },
{
    if at == text.len() || !is_identifier_start(text[at]) {
        return None;
    }
    let mut end: usize = at;
    while end < text.len() && is_identifier_part(text[end])
        invariant
            at <= end <= text.len(),
            identifier_end(text@, at as int) == identifier_end(text@, end as int),
        decreases text.len() - end,
    {
        end += 1;
    }
    proof {
        lemma_identifier_bounds(text@, at as int);
    }
    Some((string_of(slice_subrange(text, at, end)), end))
}

/// Reads the character `mark`.
pub fn parse_mark(text: &[char], at: usize, mark: char) -> (read: Option<usize>)
    requires
        at <= text.len(),
    ensures
        match read_mark(text@, at as int, mark) {
            Some(next) => read matches Some(found) && found == next && found <= text.len(),
            None => read is None,
        },
{
    if at < text.len() && text[at] == mark {
        Some(at + 1)
    } else {
        None
    }
}

/// The characters of each name of a list.
pub open spec fn name_views(names: Seq<String>) -> Seq<Seq<char>> {
    Seq::new(names.len(), |i: int| names[i]@)
}

/// Reads a list of operands.
pub fn parse_operands(text: &[char], at: usize) -> (read: Option<(Vec<String>, usize)>)
    requires
        at <= text.len(),
    ensures
        match read_operands(text@, at as int) {
            Some((names, end)) => read matches Some(found) && name_views(found.0@) == names
                && found.1 == end && found.1 <= text.len(),
            None => read is None,
        },
{
    let start: usize = match parse_mark(text, at, '(') {
        None => {
            return None;
        },
        Some(behind) => skip_blanks(text, behind),
    };
    let mut names: Vec<String> = Vec::new();
    let mut next: usize = start;
    match parse_identifier(text, start) {
        None => {
            proof {
                assert(name_views(names@) =~= seq![]);
            }
        },
        Some((name, end)) => {
            next = skip_blanks(text, end);
            names.push(name);
            let ghost first = names@[0]@;
            let ghost from = next as int;
            proof {
                assert(name_views(names@) =~= seq![first]);
            }
            let mut more: bool = true;
            while more
                invariant
                    next <= text.len(),
                    read_mark(text@, at as int, '(') matches Some(b) && start == after_blanks(text@, b),
                    read_identifier(text@, start as int) matches Some((w, e)) && w == first
                        && from == after_blanks(text@, e),
                    more ==> (match read_more(text@, from) {
                        None => read_more(text@, next as int) is None,
                        Some((tail, last)) => read_more(text@, next as int) matches Some(
                            (rest, stop),
                        ) && stop == last && name_views(names@) + rest =~= seq![first] + tail,
                    }),
                    !more ==> (read_more(text@, from) matches Some((tail, last)) && last == next
                        && name_views(names@) =~= seq![first] + tail),
                decreases
                        if more {
                            text.len() - next + 1
                        } else {
                            0
                        },
            {
                match parse_mark(text, next, ',') {
                    None => {
                        more = false;
                    },
                    Some(behind) => {
                        let begin: usize = skip_blanks(text, behind);
                        match parse_identifier(text, begin) {
                            None => {
                                return None;
                            },
                            Some((name, end)) => {
                                let ghost before = name_views(names@);
                                let ghost word = name@;
                                names.push(name);
                                proof {
                                    assert(name_views(names@) =~= before.push(word));
                                    lemma_blanks_bounds(text@, end as int);
                                    assert forall|rest: Seq<Seq<char>>|
                                        #![trigger seq![word] + rest]
                                        before + (seq![word] + rest) =~= name_views(names@)
                                            + rest by {}
                                }
                                next = skip_blanks(text, end);
                            },
                        }
                    },
                }
            }
        },
    }
    match parse_mark(text, skip_blanks(text, next), ')') {
        None => None,
        Some(end) => Some((names, end)),
    }
}

/// The names in round brackets, with a comma and a space between them.
pub open spec fn listed(names: Seq<Seq<char>>) -> Seq<char> {
    "("@ + joined(names, ", "@) + ")"@
}

/// Each of the names behind a comma and a space.
pub open spec fn further(names: Seq<Seq<char>>) -> Seq<char>
    decreases names.len(),
{
    if names.len() == 0 {
        seq![]
    } else {
        seq![',', ' '] + names[0] + further(names.drop_first())
    }
}

proof fn lemma_further_push(names: Seq<Seq<char>>, name: Seq<char>)
    ensures
        further(names.push(name)) == further(names) + seq![',', ' '] + name,
    decreases names.len(),
{
    if names.len() == 0 {
        let empty = names.push(name).drop_first();
        assert(empty =~= seq![]);
        assert(further(empty) == Seq::<char>::empty());
        assert(further(names.push(name)) =~= further(names) + seq![',', ' '] + name);
    } else {
        assert(names.push(name).drop_first() =~= names.drop_first().push(name));
        lemma_further_push(names.drop_first(), name);
        assert(further(names.push(name)) =~= further(names) + seq![',', ' '] + name);
    }
}

/// A joined list is its first name and what follows.
pub proof fn lemma_joined_from_left(names: Seq<Seq<char>>)
    requires
        names.len() > 0,
    ensures
        joined(names, ", "@) == names[0] + further(names.drop_first()),
    decreases names.len(),
{
    reveal_strlit(", ");
    if names.len() == 1 {
        assert(names.drop_first() =~= seq![]);
        assert(names[0] + further(names.drop_first()) =~= names[0]);
    } else {
        let front = names.drop_last();
        lemma_joined_from_left(front);
        assert(names.drop_first() =~= front.drop_first().push(names.last()));
        lemma_further_push(front.drop_first(), names.last());
        assert(", "@ =~= seq![',', ' ']);
        assert(joined(names, ", "@) =~= names[0] + further(names.drop_first()));
    }
}

proof fn lemma_identifier_run(text: Seq<char>, at: int, end: int)
    requires
        0 <= at <= end <= text.len(),
        forall|k: int| at <= k < end ==> identifier_part(#[trigger] text[k]),
        end == text.len() || !identifier_part(text[end]),
    ensures
        identifier_end(text, at) == end,
    decreases end - at,
{
    if at < end {
        lemma_identifier_run(text, at + 1, end);
    }
}

/// An identifier that stands by itself is read as it stands.
pub proof fn lemma_read_identifier(text: Seq<char>, at: int, name: Seq<char>)
    requires
        occurs_at(text, at, name),
        valid_identifier(name),
        at + name.len() == text.len() || !identifier_part(text[at + name.len()]),
    ensures
        read_identifier(text, at) == Some((name, at + name.len())),
        !whitespace(text[at]),
{
    let end = at + name.len();
    assert forall|k: int| at <= k < end implies identifier_part(#[trigger] text[k]) by {
        assert(text.subrange(at, end)[k - at] == name[k - at]);
    }
    assert(text.subrange(at, end)[0] == name[0]);
    lemma_identifier_run(text, at, end);
}

proof fn lemma_read_more(text: Seq<char>, at: int, names: Seq<Seq<char>>)
    requires
        occurs_at(text, at, further(names)),
        at + further(names).len() < text.len(),
        text[at + further(names).len()] == ')',
        forall|k: int| 0 <= k < names.len() ==> valid_identifier(#[trigger] names[k]),
    ensures
        read_more(text, at) == Some((names, at + further(names).len())),
        text[at] == ',' || text[at] == ')',
    decreases names.len(),
{
    let whole = further(names);
    if names.len() == 0 {
        assert(names =~= seq![]);
    } else {
        let name = names[0];
        let rest = names.drop_first();
        let tail = further(rest);
        assert(whole.len() == 2 + name.len() + tail.len());
        let piece = text.subrange(at, at + whole.len());
        assert(piece == whole);
        assert(piece[0] == ',' && piece[1] == ' ');
        assert(text[at] == ',' && text[at + 1] == ' ');
        let start = at + 2;
        let end = start + name.len();
        assert(text.subrange(start, end) =~= whole.subrange(2, 2 + name.len() as int));
        assert(whole.subrange(2, 2 + name.len() as int) =~= name);
        assert(text.subrange(end, end + tail.len()) =~= whole.subrange(
            2 + name.len() as int,
            whole.len() as int,
        ));
        assert(whole.subrange(2 + name.len() as int, whole.len() as int) =~= tail);
        assert forall|k: int| 0 <= k < rest.len() implies valid_identifier(
            #[trigger] rest[k],
        ) by {
            assert(rest[k] == names[k + 1]);
        }
        lemma_read_more(text, end, rest);
        lemma_read_identifier(text, start, name);
        assert(after_blanks(text, start) == start);
        assert(after_blanks(text, at + 1) == after_blanks(text, start));
        assert(after_blanks(text, end) == end);
        assert(seq![name] + rest =~= names);
    }
}

/// A printed list of identifiers is read back as the identifiers.
pub proof fn lemma_read_operands(text: Seq<char>, at: int, names: Seq<Seq<char>>)
    requires
        occurs_at(text, at, listed(names)),
        forall|k: int| 0 <= k < names.len() ==> valid_identifier(#[trigger] names[k]),
    ensures
        read_operands(text, at) == Some((names, at + listed(names).len())),
        text[at] == '(',
{
    reveal_strlit("(");
    reveal_strlit(")");
    let whole = listed(names);
    let piece = text.subrange(at, at + whole.len());
    let inner = joined(names, ", "@);
    assert(whole.len() == inner.len() + 2);
    assert(piece == whole);
    assert(piece[0] == '(' && piece[whole.len() - 1] == ')');
    assert(text[at] == '(' && text[at + whole.len() - 1] == ')');
    let start = at + 1;
    if names.len() == 0 {
        assert(inner.len() == 0);
        assert(names =~= seq![]);
        assert(after_blanks(text, start) == start);
    } else {
        lemma_joined_from_left(names);
        let name = names[0];
        let rest = names.drop_first();
        let tail = further(rest);
        let end = start + name.len();
        assert(text.subrange(start, end) =~= whole.subrange(1, 1 + name.len() as int));
        assert(whole.subrange(1, 1 + name.len() as int) =~= name);
        assert(text.subrange(end, end + tail.len()) =~= whole.subrange(
            1 + name.len() as int,
            whole.len() - 1,
        ));
        assert(whole.subrange(1 + name.len() as int, whole.len() - 1) =~= tail);
        assert forall|k: int| 0 <= k < rest.len() implies valid_identifier(
            #[trigger] rest[k],
        ) by {
            assert(rest[k] == names[k + 1]);
        }
        lemma_read_more(text, end, rest);
        lemma_read_identifier(text, start, name);
        assert(after_blanks(text, start) == start);
        assert(after_blanks(text, end) == end);
        assert(seq![name] + rest =~= names);
        assert(after_blanks(text, end + tail.len()) == end + tail.len());
    }
}

} // verus!
