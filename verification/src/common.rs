use vstd::prelude::*;
use vstd::string::StringExecFns;

use crate::ast::{Column, SpecTable, Table};
use crate::keywords::{spec_sql_keyword, sql_keyword};
use crate::outcome::{outcome_of, ParseErrorKind, ParseFail, SpecOutcome};
use crate::text::{scan, spec_scan, tag_matches, try_tag, ByteClass};

verus! {

/// The characters that a run of input bytes spells, one character per byte.
pub open spec fn chars_of(s: Seq<u8>) -> Seq<char> {
    s.map_values(|b: u8| b as char)
}

/// Relies on String::push: it appends exactly the given character.
#[verifier::external_body]
fn push_char(s: &mut String, c: char)
    ensures
        final(s)@ == old(s)@.push(c),
{
    s.push(c);
}

/// Copy `input[from..to]` into an owned string, one character per byte.
fn text_range(input: &[u8], from: usize, to: usize) -> (r: String)
    requires
        from <= to <= input@.len(),
    ensures
        r@ == chars_of(input@.subrange(from as int, to as int)),
{
    let mut out = String::new();
    let mut k = from;
    proof {
        assert(out@ =~= chars_of(input@.subrange(from as int, from as int)));
    }
    while k < to
        invariant
            from <= k <= to <= input@.len(),
            out@ == chars_of(input@.subrange(from as int, k as int)),
        decreases to - k,
    {
        push_char(&mut out, input[k] as char);
        proof {
            assert(out@ =~= chars_of(input@.subrange(from as int, (k + 1) as int)));
        }
        k += 1;
    }
    out
}

// ---------------------------------------------------------------------------
// Identifiers
// ---------------------------------------------------------------------------
/// An identifier: either a non-empty backtick-quoted run of identifier bytes,
/// or a non-empty bare run that does not start with a reserved word.
pub open spec fn spec_identifier(s: Seq<u8>, i: int) -> SpecOutcome<Seq<char>> {
    if 0 <= i && i < s.len() && s[i] == 96 {
        let e = spec_scan(s, i + 1, ByteClass::Ident);
        if e > i + 1 && e < s.len() && s[e] == 96 {
            SpecOutcome::Success(e + 1, chars_of(s.subrange(i + 1, e)))
        } else {
            SpecOutcome::Failure(ParseErrorKind::NoMatch, i)
        }
    } else if spec_sql_keyword(s, i) is Success {
        SpecOutcome::Failure(ParseErrorKind::NoMatch, i)
    } else {
        let e = spec_scan(s, i, ByteClass::Ident);
        if e > i {
            SpecOutcome::Success(e, chars_of(s.subrange(i, e)))
        } else {
            SpecOutcome::Failure(ParseErrorKind::NoMatch, i)
        }
    }
}

/// Parse one identifier, bare or backtick-quoted. A bare identifier may not
/// begin with a reserved word, so that keywords keep their grammatical role.
pub fn sql_identifier(input: &[u8], pos: usize) -> (r: Result<(usize, String), ParseFail>)
    requires
        pos <= input@.len(),
    ensures
        outcome_of(r) == spec_identifier(input@, pos as int),
        r matches Ok((j, _)) ==> pos < j <= input@.len(),
{
    let ilen = input.len();
    if pos < ilen && input[pos] == 96 {
        let e = scan(input, pos + 1, ByteClass::Ident);
        if e > pos + 1 && e < ilen && input[e] == 96 {
            let name = text_range(input, pos + 1, e);
            Ok((e + 1, name))
        } else {
            Err(ParseFail::Failure(ParseErrorKind::NoMatch, pos))
        }
    } else {
        match sql_keyword(input, pos) {
            Ok(_) => Err(ParseFail::Failure(ParseErrorKind::NoMatch, pos)),
            Err(_) => {
                let e = scan(input, pos, ByteClass::Ident);
                if e > pos {
                    let name = text_range(input, pos, e);
                    Ok((e, name))
                } else {
                    Err(ParseFail::Failure(ParseErrorKind::NoMatch, pos))
                }
            },
        }
    }
}

/// Parse one column reference: an identifier, wrapped as a column.
pub fn column_identifier(input: &[u8], pos: usize) -> (r: Result<(usize, Column), ParseFail>)
    requires
        pos <= input@.len(),
    ensures
        outcome_of(r) == spec_identifier(input@, pos as int),
        r matches Ok((j, _)) ==> pos < j <= input@.len(),
{
    match sql_identifier(input, pos) {
        Ok((j, name)) => Ok((j, Column { name })),
        Err(e) => Err(e),
    }
}

// ---------------------------------------------------------------------------
// Table references
// ---------------------------------------------------------------------------
/// An optional ` AS alias` suffix: whitespace, the word `as`, whitespace and
/// an identifier. When any part is missing nothing is consumed.
pub open spec fn spec_opt_alias(s: Seq<u8>, i: int) -> (int, Option<Seq<char>>) {
    let a = spec_scan(s, i, ByteClass::Ws);
    if a > i && tag_matches(s, a, "as"@) {
        let b = spec_scan(s, a + "as"@.len(), ByteClass::Ws);
        if b > a + "as"@.len() {
            match spec_identifier(s, b) {
                SpecOutcome::Success(c, name) => (c, Some(name)),
                _ => (i, None),
            }
        } else {
            (i, None)
        }
    } else {
        (i, None)
    }
}

/// A table reference: `name[.name][ AS alias]`; the dotted form names the
/// table as written, dot included.
pub open spec fn spec_table_reference(s: Seq<u8>, i: int) -> SpecOutcome<SpecTable> {
    match spec_identifier(s, i) {
        SpecOutcome::Success(j, base) => {
            let dotted = if j < s.len() && s[j] == 46 {
                match spec_identifier(s, j + 1) {
                    SpecOutcome::Success(j3, part) => (j3, base + seq!['.'] + part),
                    _ => (j, base),
                }
            } else {
                (j, base)
            };
            let with_alias = spec_opt_alias(s, dotted.0);
            SpecOutcome::Success(
                with_alias.0,
                SpecTable { name: dotted.1, alias: with_alias.1 },
            )
        },
        SpecOutcome::Failure(k, p) => SpecOutcome::Failure(k, p),
        SpecOutcome::Incomplete(n) => SpecOutcome::Incomplete(n),
    }
}

fn opt_alias(input: &[u8], pos: usize) -> (r: (usize, Option<String>))
    requires
        pos <= input@.len(),
    ensures
        r.0 as int == spec_opt_alias(input@, pos as int).0,
        r.1.deep_view() == spec_opt_alias(input@, pos as int).1,
        pos <= r.0 <= input@.len(),
{
    proof {
        reveal_strlit("as");
    }
    let a = scan(input, pos, ByteClass::Ws);
    if a > pos {
        match try_tag(input, a, "as") {
            Some(a2) => {
                let b = scan(input, a2, ByteClass::Ws);
                if b > a2 {
                    match sql_identifier(input, b) {
                        Ok((c, name)) => (c, Some(name)),
                        Err(_) => (pos, None),
                    }
                } else {
                    (pos, None)
                }
            },
            None => (pos, None),
        }
    } else {
        (pos, None)
    }
}

/// Parse a table reference: `name[.name][ AS alias]`.
pub fn table_reference(input: &[u8], pos: usize) -> (r: Result<(usize, Table), ParseFail>)
    requires
        pos <= input@.len(),
    ensures
        outcome_of(r) == spec_table_reference(input@, pos as int),
        r matches Ok((j, _)) ==> pos < j <= input@.len(),
{
    match sql_identifier(input, pos) {
        Ok((j, base)) => {
            let ilen = input.len();
            let mut name = base;
            let mut j2 = j;
            if j < ilen && input[j] == 46 {
                match sql_identifier(input, j + 1) {
                    Ok((j3, part)) => {
                        push_char(&mut name, '.');
                        name.append(part.as_str());
                        proof {
                            assert(name@ =~= spec_identifier(input@, pos as int)->Success_1
                                + seq!['.'] + part@);
                        }
                        j2 = j3;
                    },
                    Err(_) => {},
                }
            }
            let (j4, alias) = opt_alias(input, j2);
            Ok((j4, Table { name, alias }))
        },
        Err(e) => Err(e),
    }
}

// ---------------------------------------------------------------------------
// Statement terminator
// ---------------------------------------------------------------------------
/// The end of a statement: optional whitespace, a semicolon, and any trailing
/// whitespace.
pub open spec fn spec_statement_terminator(s: Seq<u8>, i: int) -> SpecOutcome<()> {
    let a = spec_scan(s, i, ByteClass::Ws);
    if a < s.len() && s[a] == 59 {
        SpecOutcome::Success(spec_scan(s, a + 1, ByteClass::Ws), ())
    } else {
        SpecOutcome::Failure(ParseErrorKind::NoMatch, i)
    }
}

/// Recognize and consume the semicolon (plus surrounding whitespace) that
/// closes a statement.
pub fn statement_terminator(input: &[u8], pos: usize) -> (r: Result<(usize, ()), ParseFail>)
    requires
        pos <= input@.len(),
    ensures
        outcome_of(r) == spec_statement_terminator(input@, pos as int),
        r matches Ok((j, _)) ==> pos <= j <= input@.len(),
{
    let ilen = input.len();
    let a = scan(input, pos, ByteClass::Ws);
    if a < ilen && input[a] == 59 {
        let e = scan(input, a + 1, ByteClass::Ws);
        Ok((e, ()))
    } else {
        Err(ParseFail::Failure(ParseErrorKind::NoMatch, pos))
    }
}

// ---------------------------------------------------------------------------
// Column lists
// ---------------------------------------------------------------------------
/// A non-empty comma-separated list of column identifiers, in written order.
/// A separator is consumed only when another identifier follows it.
pub open spec fn spec_field_list(s: Seq<u8>, i: int) -> SpecOutcome<Seq<Seq<char>>>
    decreases s.len() - i,
{
    match spec_identifier(s, i) {
        SpecOutcome::Success(j, name) => {
            let a = spec_scan(s, j, ByteClass::Ws);
            if a < s.len() && s[a] == 44 {
                let b = spec_scan(s, a + 1, ByteClass::Ws);
                if i < b <= s.len() {
                    match spec_field_list(s, b) {
                        SpecOutcome::Success(j2, rest) => SpecOutcome::Success(
                            j2,
                            seq![name] + rest,
                        ),
                        SpecOutcome::Failure(k2, p2) => if k2 == ParseErrorKind::NoMatch {
                            SpecOutcome::Success(j, seq![name])
                        } else {
                            SpecOutcome::Failure(k2, p2)
                        },
                        SpecOutcome::Incomplete(n) => SpecOutcome::Incomplete(n),
                    }
                } else {
                    SpecOutcome::Success(j, seq![name])
                }
            } else {
                SpecOutcome::Success(j, seq![name])
            }
        },
        SpecOutcome::Failure(k, p) => SpecOutcome::Failure(k, p),
        SpecOutcome::Incomplete(n) => SpecOutcome::Incomplete(n),
    }
}

/// Parse a non-empty comma-separated list of column identifiers.
pub fn field_list(input: &[u8], pos: usize) -> (r: Result<(usize, Vec<Column>), ParseFail>)
    requires
        pos <= input@.len(),
    ensures
        outcome_of(r) == spec_field_list(input@, pos as int),
        r matches Ok((j, _)) ==> pos < j <= input@.len(),
    decreases input@.len() - pos,
{
    match column_identifier(input, pos) {
        Ok((j, col)) => {
            let ilen = input.len();
            let a = scan(input, j, ByteClass::Ws);
            if a < ilen && input[a] == 44 {
                let b = scan(input, a + 1, ByteClass::Ws);
                if pos < b {
                    match field_list(input, b) {
                        Ok((j2, mut rest)) => {
                            let ghost tail = rest.deep_view();
                            rest.insert(0, col);
                            proof {
                                assert(rest.deep_view() =~= seq![col.deep_view()] + tail);
                            }
                            Ok((j2, rest))
                        },
                        Err(ParseFail::Failure(k2, p2)) => {
                            if k2 == ParseErrorKind::NoMatch {
                                let mut one = Vec::new();
                                one.push(col);
                                proof {
                                    assert(one.deep_view() =~= seq![col.deep_view()]);
                                }
                                Ok((j, one))
                            } else {
                                Err(ParseFail::Failure(k2, p2))
                            }
                        },
                        Err(ParseFail::Incomplete(n)) => Err(ParseFail::Incomplete(n)),
                    }
                } else {
                    let mut one = Vec::new();
                    one.push(col);
                    proof {
                        assert(one.deep_view() =~= seq![col.deep_view()]);
                    }
                    Ok((j, one))
                }
            } else {
                let mut one = Vec::new();
                one.push(col);
                proof {
                    assert(one.deep_view() =~= seq![one[0].deep_view()]);
                }
                Ok((j, one))
            }
        },
        Err(e) => Err(e),
    }
}

/// A parsed column list is never empty, and its first entry is the identifier
/// standing at its start.
pub proof fn lemma_field_list_nonempty(s: Seq<u8>, i: int)
    ensures
        spec_field_list(s, i) matches SpecOutcome::Success(_, names) ==> ({
            &&& names.len() >= 1
            &&& spec_identifier(s, i) matches SpecOutcome::Success(_, first)
            &&& names[0] == first
        }),
{
}

} // verus!
