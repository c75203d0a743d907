use vstd::prelude::*;

use crate::ast::{
    Column, CreateTableStatement, SpecCreateTableStatement, SpecTableKey, SqlType, TableKey,
};
use crate::common::{
    column_identifier, field_list, spec_field_list, spec_identifier, spec_statement_terminator,
    spec_table_reference, sql_identifier, statement_terminator, table_reference,
};
use crate::outcome::{alt_outcome, outcome_of, ParseErrorKind, ParseFail, SpecOutcome};
use crate::text::{
    all_digits, byte_matches_char_ci, digits_value, is_alnum, lemma_digits_value_prefix,
    scan, spec_scan, tag_matches,
    try_tag, ByteClass,
};

verus! {

// ---------------------------------------------------------------------------
// Width clauses
// ---------------------------------------------------------------------------
/// A parenthesised width: `(`, a token, `)`. The token is the maximal run of
/// letters and digits after the parenthesis; a token that is not a decimal
/// number fitting 16 bits is a hard `MalformedWidth` failure, while a missing
/// token or parenthesis merely fails to match.
pub open spec fn spec_width_clause(s: Seq<u8>, i: int) -> SpecOutcome<u16> {
    if 0 <= i && i < s.len() && s[i] == 40 {
        let e = spec_scan(s, i + 1, ByteClass::Alnum);
        if e == i + 1 {
            SpecOutcome::Failure(ParseErrorKind::NoMatch, i)
        } else if e < s.len() && s[e] == 41 {
            let tok = s.subrange(i + 1, e);
            if all_digits(tok) && digits_value(tok) <= 65535 {
                SpecOutcome::Success(e + 1, digits_value(tok) as u16)
            } else {
                SpecOutcome::Failure(ParseErrorKind::MalformedWidth, i + 1)
            }
        } else {
            SpecOutcome::Failure(ParseErrorKind::NoMatch, i)
        }
    } else {
        SpecOutcome::Failure(ParseErrorKind::NoMatch, i)
    }
}

fn width_clause(input: &[u8], pos: usize) -> (r: Result<(usize, u16), ParseFail>)
    requires
        pos <= input@.len(),
    ensures
        outcome_of(r) == spec_width_clause(input@, pos as int),
        r matches Ok((j, _)) ==> pos < j <= input@.len(),
{
    let ilen = input.len();
    if pos < ilen && input[pos] == 40 {
        let e = scan(input, pos + 1, ByteClass::Alnum);
        if e == pos + 1 {
            return Err(ParseFail::Failure(ParseErrorKind::NoMatch, pos));
        }
        if e < ilen && input[e] == 41 {
            let ghost tok = input@.subrange(pos + 1 as int, e as int);
            let mut k = pos + 1;
            let mut acc: u32 = 0;
            while k < e
                invariant
                    pos + 1 <= k <= e <= input@.len(),
                    input@[pos as int] == 40,
                    e == spec_scan(input@, pos as int + 1, ByteClass::Alnum),
                    e != pos + 1,
                    e < input@.len() && input@[e as int] == 41,
                    tok == input@.subrange(pos + 1 as int, e as int),
                    all_digits(input@.subrange(pos + 1 as int, k as int)),
                    acc == digits_value(input@.subrange(pos + 1 as int, k as int)),
                    acc <= 65535,
                decreases e - k,
            {
                let b = input[k];
                if b < 48 || b > 57 {
                    proof {
                        assert(tok[k - (pos + 1)] == input@[k as int]);
                        assert(!all_digits(tok));
                    }
                    return Err(ParseFail::Failure(ParseErrorKind::MalformedWidth, pos + 1));
                }
                let d = (b - 48) as u32;
                let next = acc * 10 + d;
                proof {
                    assert(input@.subrange(pos + 1 as int, (k + 1) as int).drop_last()
                        =~= input@.subrange(pos + 1 as int, k as int));
                    assert(all_digits(input@.subrange(pos + 1 as int, (k + 1) as int)));
                }
                if next > 65535 {
                    proof {
                        if all_digits(tok) {
                            lemma_digits_value_prefix(tok, k + 1 - (pos + 1));
                            assert(tok.subrange(0, k + 1 - (pos + 1)) =~= input@.subrange(
                                pos + 1 as int,
                                (k + 1) as int,
                            ));
                        }
                    }
                    return Err(ParseFail::Failure(ParseErrorKind::MalformedWidth, pos + 1));
                }
                acc = next;
                k += 1;
            }
            Ok((e + 1, acc as u16))
        } else {
            Err(ParseFail::Failure(ParseErrorKind::NoMatch, pos))
        }
    } else {
        Err(ParseFail::Failure(ParseErrorKind::NoMatch, pos))
    }
}

// ---------------------------------------------------------------------------
// Type specifiers
// ---------------------------------------------------------------------------
/// The width-bearing type names.
#[derive(Clone, Copy, Debug, PartialEq, Eq, Structural)]
pub enum WidthedType {
    CharType,
    VarcharType,
    TinyintType,
    BigintType,
}

pub open spec fn make_widthed(k: WidthedType, w: u16) -> SqlType {
    match k {
        WidthedType::CharType => SqlType::Char(w),
        WidthedType::VarcharType => SqlType::Varchar(w),
        WidthedType::TinyintType => SqlType::Tinyint(w),
        WidthedType::BigintType => SqlType::Bigint(w),
    }
}

/// Character types take a `binary` marker; the numeric ones take a
/// signedness marker.
pub open spec fn widthed_is_char(k: WidthedType) -> bool {
    k == WidthedType::CharType || k == WidthedType::VarcharType
}

/// The position after the optional marker that may trail a type: any
/// whitespace, then `binary` for character types or `unsigned`/`signed` for
/// numeric ones. The marker changes nothing but the consumed length.
pub open spec fn spec_mod_end(s: Seq<u8>, i: int, bin: bool) -> int {
    let a = spec_scan(s, i, ByteClass::Ws);
    if bin {
        if tag_matches(s, a, "binary"@) {
            a + "binary"@.len()
        } else {
            a
        }
    } else {
        if tag_matches(s, a, "unsigned"@) {
            a + "unsigned"@.len()
        } else if tag_matches(s, a, "signed"@) {
            a + "signed"@.len()
        } else {
            a
        }
    }
}

fn mod_end(input: &[u8], pos: usize, bin: bool) -> (r: usize)
    requires
        pos <= input@.len(),
    ensures
        r == spec_mod_end(input@, pos as int, bin),
        pos <= r <= input@.len(),
{
    proof {
        reveal_strlit("binary");
        reveal_strlit("unsigned");
        reveal_strlit("signed");
    }
    let a = scan(input, pos, ByteClass::Ws);
    if bin {
        match try_tag(input, a, "binary") {
            Some(j) => j,
            None => a,
        }
    } else {
        match try_tag(input, a, "unsigned") {
            Some(j) => j,
            None => match try_tag(input, a, "signed") {
                Some(j) => j,
                None => a,
            },
        }
    }
}

/// A type given by its name alone.
pub open spec fn spec_simple_type(s: Seq<u8>, i: int, t: Seq<char>, ty: SqlType) -> SpecOutcome<
    SqlType,
> {
    if tag_matches(s, i, t) {
        SpecOutcome::Success(i + t.len(), ty)
    } else {
        SpecOutcome::Failure(ParseErrorKind::NoMatch, i)
    }
}

/// A numeric type name that takes no width but accepts a signedness marker.
pub open spec fn spec_signed_type(s: Seq<u8>, i: int, t: Seq<char>, ty: SqlType) -> SpecOutcome<
    SqlType,
> {
    if tag_matches(s, i, t) {
        SpecOutcome::Success(spec_mod_end(s, i + t.len(), false), ty)
    } else {
        SpecOutcome::Failure(ParseErrorKind::NoMatch, i)
    }
}

/// A type name with a required width clause and an optional trailing marker.
pub open spec fn spec_widthed_type(s: Seq<u8>, i: int, t: Seq<char>, k: WidthedType) -> SpecOutcome<
    SqlType,
> {
    if tag_matches(s, i, t) {
        match spec_width_clause(s, i + t.len()) {
            SpecOutcome::Success(j, w) => SpecOutcome::Success(
                spec_mod_end(s, j, widthed_is_char(k)),
                make_widthed(k, w),
            ),
            SpecOutcome::Failure(k2, p) => if k2 == ParseErrorKind::NoMatch {
                SpecOutcome::Failure(ParseErrorKind::NoMatch, i)
            } else {
                SpecOutcome::Failure(k2, p)
            },
            SpecOutcome::Incomplete(n) => SpecOutcome::Incomplete(n),
        }
    } else {
        SpecOutcome::Failure(ParseErrorKind::NoMatch, i)
    }
}

/// `int`, whose width clause is optional: without one the width is 32.
pub open spec fn spec_int_type(s: Seq<u8>, i: int) -> SpecOutcome<SqlType> {
    if tag_matches(s, i, "int"@) {
        match spec_width_clause(s, i + "int"@.len()) {
            SpecOutcome::Success(j, w) => SpecOutcome::Success(
                spec_mod_end(s, j, false),
                SqlType::Int(w),
            ),
            SpecOutcome::Failure(k2, p) => if k2 == ParseErrorKind::NoMatch {
                SpecOutcome::Success(spec_mod_end(s, i + "int"@.len(), false), SqlType::Int(32))
            } else {
                SpecOutcome::Failure(k2, p)
            },
            SpecOutcome::Incomplete(n) => SpecOutcome::Incomplete(n),
        }
    } else {
        SpecOutcome::Failure(ParseErrorKind::NoMatch, i)
    }
}

/// The type grammar: the alternatives in their fixed try-order. The order is
/// part of the grammar -- no listed name is tried after another name that it
/// would also begin -- and the first alternative whose name matches decides.
pub open spec fn spec_type_identifier(s: Seq<u8>, i: int) -> SpecOutcome<SqlType> {
    alt_outcome(
        spec_simple_type(s, i, "mediumtext"@, SqlType::Mediumtext),
        alt_outcome(
            spec_simple_type(s, i, "timestamp"@, SqlType::Timestamp),
            alt_outcome(
                spec_simple_type(s, i, "tinyblob"@, SqlType::Tinyblob),
                alt_outcome(
                    spec_simple_type(s, i, "tinytext"@, SqlType::Tinytext),
                    alt_outcome(
                        spec_widthed_type(s, i, "varchar"@, WidthedType::VarcharType),
                        alt_outcome(
                            spec_widthed_type(s, i, "tinyint"@, WidthedType::TinyintType),
                            alt_outcome(
                                spec_widthed_type(s, i, "bigint"@, WidthedType::BigintType),
                                alt_outcome(
                                    spec_signed_type(s, i, "double"@, SqlType::Double),
                                    alt_outcome(
                                        spec_simple_type(s, i, "blob"@, SqlType::Blob),
                                        alt_outcome(
                                            spec_simple_type(s, i, "date"@, SqlType::Date),
                                            alt_outcome(
                                                spec_signed_type(s, i, "real"@, SqlType::Real),
                                                alt_outcome(
                                                    spec_simple_type(s, i, "text"@, SqlType::Text),
                                                    alt_outcome(
                                                        spec_widthed_type(
                                                            s,
                                                            i,
                                                            "char"@,
                                                            WidthedType::CharType,
                                                        ),
                                                        spec_int_type(s, i),
                                                    ),
                                                ),
                                            ),
                                        ),
                                    ),
                                ),
                            ),
                        ),
                    ),
                ),
            ),
        ),
    )
}

fn simple_type(input: &[u8], pos: usize, t: &str, ty: SqlType) -> (r: Result<
    (usize, SqlType),
    ParseFail,
>)
    requires
        pos <= input@.len(),
        vstd::string::is_ascii(t),
    ensures
        outcome_of(r) == spec_simple_type(input@, pos as int, t@, ty),
        r matches Ok((j, _)) ==> pos <= j <= input@.len(),
{
    match try_tag(input, pos, t) {
        Some(j) => Ok((j, ty)),
        None => Err(ParseFail::Failure(ParseErrorKind::NoMatch, pos)),
    }
}

fn signed_type(input: &[u8], pos: usize, t: &str, ty: SqlType) -> (r: Result<
    (usize, SqlType),
    ParseFail,
>)
    requires
        pos <= input@.len(),
        vstd::string::is_ascii(t),
    ensures
        outcome_of(r) == spec_signed_type(input@, pos as int, t@, ty),
        r matches Ok((j, _)) ==> pos <= j <= input@.len(),
{
    match try_tag(input, pos, t) {
        Some(j) => Ok((mod_end(input, j, false), ty)),
        None => Err(ParseFail::Failure(ParseErrorKind::NoMatch, pos)),
    }
}

fn widthed_type(input: &[u8], pos: usize, t: &str, k: WidthedType) -> (r: Result<
    (usize, SqlType),
    ParseFail,
>)
    requires
        pos <= input@.len(),
        vstd::string::is_ascii(t),
    ensures
        outcome_of(r) == spec_widthed_type(input@, pos as int, t@, k),
        r matches Ok((j, _)) ==> pos <= j <= input@.len(),
{
    match try_tag(input, pos, t) {
        Some(j0) => match width_clause(input, j0) {
            Ok((j, w)) => {
                let bin = match k {
                    WidthedType::CharType => true,
                    WidthedType::VarcharType => true,
                    _ => false,
                };
                let ty = match k {
                    WidthedType::CharType => SqlType::Char(w),
                    WidthedType::VarcharType => SqlType::Varchar(w),
                    WidthedType::TinyintType => SqlType::Tinyint(w),
                    WidthedType::BigintType => SqlType::Bigint(w),
                };
                Ok((mod_end(input, j, bin), ty))
            },
            Err(ParseFail::Failure(k2, p)) => {
                if k2 == ParseErrorKind::NoMatch {
                    Err(ParseFail::Failure(ParseErrorKind::NoMatch, pos))
                } else {
                    Err(ParseFail::Failure(k2, p))
                }
            },
            Err(ParseFail::Incomplete(n)) => Err(ParseFail::Incomplete(n)),
        },
        None => Err(ParseFail::Failure(ParseErrorKind::NoMatch, pos)),
    }
}

fn int_type(input: &[u8], pos: usize) -> (r: Result<(usize, SqlType), ParseFail>)
    requires
        pos <= input@.len(),
    ensures
        outcome_of(r) == spec_int_type(input@, pos as int),
        r matches Ok((j, _)) ==> pos <= j <= input@.len(),
{
    proof {
        reveal_strlit("int");
    }
    match try_tag(input, pos, "int") {
        Some(j0) => match width_clause(input, j0) {
            Ok((j, w)) => Ok((mod_end(input, j, false), SqlType::Int(w))),
            Err(ParseFail::Failure(k2, p)) => {
                if k2 == ParseErrorKind::NoMatch {
                    Ok((mod_end(input, j0, false), SqlType::Int(32)))
                } else {
                    Err(ParseFail::Failure(k2, p))
                }
            },
            Err(ParseFail::Incomplete(n)) => Err(ParseFail::Incomplete(n)),
        },
        None => Err(ParseFail::Failure(ParseErrorKind::NoMatch, pos)),
    }
}

fn is_no_match<T>(r: &Result<(usize, T), ParseFail>) -> (b: bool)
    ensures
        b <==> r matches Err(ParseFail::Failure(ParseErrorKind::NoMatch, _)),
{
    match r {
        Err(ParseFail::Failure(ParseErrorKind::NoMatch, _)) => true,
        _ => false,
    }
}

/// Parse one column type: a name from the fixed alternative list, a width
/// clause where the name requires or allows one, and an optional trailing
/// `binary` or signedness marker, which is accepted and discarded.
pub fn type_identifier(input: &[u8], pos: usize) -> (r: Result<(usize, SqlType), ParseFail>)
    requires
        pos <= input@.len(),
    ensures
        outcome_of(r) == spec_type_identifier(input@, pos as int),
        r matches Ok((j, _)) ==> pos <= j <= input@.len(),
{
    proof {
        reveal_strlit("mediumtext");
        reveal_strlit("timestamp");
        reveal_strlit("tinyblob");
        reveal_strlit("tinytext");
        reveal_strlit("varchar");
        reveal_strlit("tinyint");
        reveal_strlit("bigint");
        reveal_strlit("double");
        reveal_strlit("blob");
        reveal_strlit("date");
        reveal_strlit("real");
        reveal_strlit("text");
        reveal_strlit("char");
    }
    let r = simple_type(input, pos, "mediumtext", SqlType::Mediumtext);
    if !is_no_match(&r) {
        return r;
    }
    let r = simple_type(input, pos, "timestamp", SqlType::Timestamp);
    if !is_no_match(&r) {
        return r;
    }
    let r = simple_type(input, pos, "tinyblob", SqlType::Tinyblob);
    if !is_no_match(&r) {
        return r;
    }
    let r = simple_type(input, pos, "tinytext", SqlType::Tinytext);
    if !is_no_match(&r) {
        return r;
    }
    let r = widthed_type(input, pos, "varchar", WidthedType::VarcharType);
    if !is_no_match(&r) {
        return r;
    }
    let r = widthed_type(input, pos, "tinyint", WidthedType::TinyintType);
    if !is_no_match(&r) {
        return r;
    }
    let r = widthed_type(input, pos, "bigint", WidthedType::BigintType);
    if !is_no_match(&r) {
        return r;
    }
    let r = signed_type(input, pos, "double", SqlType::Double);
    if !is_no_match(&r) {
        return r;
    }
    let r = simple_type(input, pos, "blob", SqlType::Blob);
    if !is_no_match(&r) {
        return r;
    }
    let r = simple_type(input, pos, "date", SqlType::Date);
    if !is_no_match(&r) {
        return r;
    }
    let r = signed_type(input, pos, "real", SqlType::Real);
    if !is_no_match(&r) {
        return r;
    }
    let r = simple_type(input, pos, "text", SqlType::Text);
    if !is_no_match(&r) {
        return r;
    }
    let r = widthed_type(input, pos, "char", WidthedType::CharType);
    if !is_no_match(&r) {
        return r;
    }
    int_type(input, pos)
}


// ---------------------------------------------------------------------------
// Key specifications
// ---------------------------------------------------------------------------
/// The end of the optional `AUTOINCREMENT` marker after a primary key:
/// required whitespace and the word; absent both, nothing is consumed.
pub open spec fn spec_opt_autoincrement(s: Seq<u8>, i: int) -> int {
    let a = spec_scan(s, i, ByteClass::Ws);
    if a > i && tag_matches(s, a, "autoincrement"@) {
        a + "autoincrement"@.len()
    } else {
        i
    }
}

/// `PRIMARY KEY (cols)`, with an optional discarded `AUTOINCREMENT` marker.
pub open spec fn spec_primary_key(s: Seq<u8>, i: int) -> SpecOutcome<SpecTableKey> {
    if tag_matches(s, i, "primary key"@) {
        let a = spec_scan(s, i + "primary key"@.len(), ByteClass::Ws);
        if a < s.len() && s[a] == 40 {
            match spec_field_list(s, a + 1) {
                SpecOutcome::Success(j, cols) => if j < s.len() && s[j] == 41 {
                    SpecOutcome::Success(
                        spec_opt_autoincrement(s, j + 1),
                        SpecTableKey::PrimaryKey(cols),
                    )
                } else {
                    SpecOutcome::Failure(ParseErrorKind::NoMatch, i)
                },
                SpecOutcome::Failure(k2, p2) => if k2 == ParseErrorKind::NoMatch {
                    SpecOutcome::Failure(ParseErrorKind::NoMatch, i)
                } else {
                    SpecOutcome::Failure(k2, p2)
                },
                SpecOutcome::Incomplete(n) => SpecOutcome::Incomplete(n),
            }
        } else {
            SpecOutcome::Failure(ParseErrorKind::NoMatch, i)
        }
    } else {
        SpecOutcome::Failure(ParseErrorKind::NoMatch, i)
    }
}

/// `UNIQUE KEY [name] (cols)`; the key is unnamed when no identifier stands
/// between the words and the column list.
pub open spec fn spec_unique_key(s: Seq<u8>, i: int) -> SpecOutcome<SpecTableKey> {
    if tag_matches(s, i, "unique key"@) {
        let a = spec_scan(s, i + "unique key"@.len(), ByteClass::Ws);
        let named = match spec_identifier(s, a) {
            SpecOutcome::Success(j, name) => (spec_scan(s, j, ByteClass::Ws), Some(name)),
            _ => (a, None),
        };
        if named.0 < s.len() && s[named.0] == 40 {
            match spec_field_list(s, named.0 + 1) {
                SpecOutcome::Success(j, cols) => if j < s.len() && s[j] == 41 {
                    SpecOutcome::Success(j + 1, SpecTableKey::UniqueKey(named.1, cols))
                } else {
                    SpecOutcome::Failure(ParseErrorKind::NoMatch, i)
                },
                SpecOutcome::Failure(k2, p2) => if k2 == ParseErrorKind::NoMatch {
                    SpecOutcome::Failure(ParseErrorKind::NoMatch, i)
                } else {
                    SpecOutcome::Failure(k2, p2)
                },
                SpecOutcome::Incomplete(n) => SpecOutcome::Incomplete(n),
            }
        } else {
            SpecOutcome::Failure(ParseErrorKind::NoMatch, i)
        }
    } else {
        SpecOutcome::Failure(ParseErrorKind::NoMatch, i)
    }
}

/// One key clause: a primary key, or else a unique key.
pub open spec fn spec_key_specification(s: Seq<u8>, i: int) -> SpecOutcome<SpecTableKey> {
    alt_outcome(spec_primary_key(s, i), spec_unique_key(s, i))
}

fn opt_autoincrement(input: &[u8], pos: usize) -> (r: usize)
    requires
        pos <= input@.len(),
    ensures
        r == spec_opt_autoincrement(input@, pos as int),
        pos <= r <= input@.len(),
{
    proof {
        reveal_strlit("autoincrement");
    }
    let a = scan(input, pos, ByteClass::Ws);
    if a > pos {
        match try_tag(input, a, "autoincrement") {
            Some(j) => j,
            None => pos,
        }
    } else {
        pos
    }
}

fn primary_key(input: &[u8], pos: usize) -> (r: Result<(usize, TableKey), ParseFail>)
    requires
        pos <= input@.len(),
    ensures
        outcome_of(r) == spec_primary_key(input@, pos as int),
        r matches Ok((j, _)) ==> pos <= j <= input@.len(),
{
    proof {
        reveal_strlit("primary key");
    }
    let ilen = input.len();
    match try_tag(input, pos, "primary key") {
        Some(j0) => {
            let a = scan(input, j0, ByteClass::Ws);
            if a < ilen && input[a] == 40 {
                match field_list(input, a + 1) {
                    Ok((j, cols)) => {
                        if j < ilen && input[j] == 41 {
                            Ok((opt_autoincrement(input, j + 1), TableKey::PrimaryKey(cols)))
                        } else {
                            Err(ParseFail::Failure(ParseErrorKind::NoMatch, pos))
                        }
                    },
                    Err(ParseFail::Failure(k2, p2)) => {
                        if k2 == ParseErrorKind::NoMatch {
                            Err(ParseFail::Failure(ParseErrorKind::NoMatch, pos))
                        } else {
                            Err(ParseFail::Failure(k2, p2))
                        }
                    },
                    Err(ParseFail::Incomplete(n)) => Err(ParseFail::Incomplete(n)),
                }
            } else {
                Err(ParseFail::Failure(ParseErrorKind::NoMatch, pos))
            }
        },
        None => Err(ParseFail::Failure(ParseErrorKind::NoMatch, pos)),
    }
}

fn unique_key(input: &[u8], pos: usize) -> (r: Result<(usize, TableKey), ParseFail>)
    requires
        pos <= input@.len(),
    ensures
        outcome_of(r) == spec_unique_key(input@, pos as int),
        r matches Ok((j, _)) ==> pos <= j <= input@.len(),
{
    proof {
        reveal_strlit("unique key");
    }
    let ilen = input.len();
    match try_tag(input, pos, "unique key") {
        Some(j0) => {
            let a = scan(input, j0, ByteClass::Ws);
            let (start, name) = match sql_identifier(input, a) {
                Ok((j, name)) => (scan(input, j, ByteClass::Ws), Some(name)),
                Err(_) => (a, None),
            };
            if start < ilen && input[start] == 40 {
                match field_list(input, start + 1) {
                    Ok((j, cols)) => {
                        if j < ilen && input[j] == 41 {
                            Ok((j + 1, TableKey::UniqueKey(name, cols)))
                        } else {
                            Err(ParseFail::Failure(ParseErrorKind::NoMatch, pos))
                        }
                    },
                    Err(ParseFail::Failure(k2, p2)) => {
                        if k2 == ParseErrorKind::NoMatch {
                            Err(ParseFail::Failure(ParseErrorKind::NoMatch, pos))
                        } else {
                            Err(ParseFail::Failure(k2, p2))
                        }
                    },
                    Err(ParseFail::Incomplete(n)) => Err(ParseFail::Incomplete(n)),
                }
            } else {
                Err(ParseFail::Failure(ParseErrorKind::NoMatch, pos))
            }
        },
        None => Err(ParseFail::Failure(ParseErrorKind::NoMatch, pos)),
    }
}

/// Parse one key clause: `PRIMARY KEY (...)` or `UNIQUE KEY [name] (...)`.
pub fn key_specification(input: &[u8], pos: usize) -> (r: Result<(usize, TableKey), ParseFail>)
    requires
        pos <= input@.len(),
    ensures
        outcome_of(r) == spec_key_specification(input@, pos as int),
        r matches Ok((j, _)) ==> pos <= j <= input@.len(),
{
    let r = primary_key(input, pos);
    if !is_no_match(&r) {
        return r;
    }
    unique_key(input, pos)
}

/// A non-empty list of key clauses; after each clause an optional comma
/// separator (with surrounding whitespace) is consumed.
pub open spec fn spec_key_list(s: Seq<u8>, i: int) -> SpecOutcome<Seq<SpecTableKey>>
    decreases s.len() - i,
{
    match spec_key_specification(s, i) {
        SpecOutcome::Success(j, key) => {
            let a = spec_scan(s, j, ByteClass::Ws);
            let j2 = if a < s.len() && s[a] == 44 {
                spec_scan(s, a + 1, ByteClass::Ws)
            } else {
                j
            };
            if i < j2 <= s.len() {
                match spec_key_list(s, j2) {
                    SpecOutcome::Success(j3, rest) => SpecOutcome::Success(j3, seq![key] + rest),
                    SpecOutcome::Failure(k2, p2) => if k2 == ParseErrorKind::NoMatch {
                        SpecOutcome::Success(j2, seq![key])
                    } else {
                        SpecOutcome::Failure(k2, p2)
                    },
                    SpecOutcome::Incomplete(n) => SpecOutcome::Incomplete(n),
                }
            } else {
                SpecOutcome::Success(j2, seq![key])
            }
        },
        SpecOutcome::Failure(k, p) => SpecOutcome::Failure(k, p),
        SpecOutcome::Incomplete(n) => SpecOutcome::Incomplete(n),
    }
}

/// Parse a non-empty list of key clauses.
pub fn key_specification_list(input: &[u8], pos: usize) -> (r: Result<
    (usize, Vec<TableKey>),
    ParseFail,
>)
    requires
        pos <= input@.len(),
    ensures
        outcome_of(r) == spec_key_list(input@, pos as int),
        r matches Ok((j, _)) ==> pos <= j <= input@.len(),
    decreases input@.len() - pos,
{
    match key_specification(input, pos) {
        Ok((j, key)) => {
            let ilen = input.len();
            let a = scan(input, j, ByteClass::Ws);
            let j2 = if a < ilen && input[a] == 44 {
                scan(input, a + 1, ByteClass::Ws)
            } else {
                j
            };
            if pos < j2 {
                match key_specification_list(input, j2) {
                    Ok((j3, mut rest)) => {
                        let ghost tail = rest.deep_view();
                        rest.insert(0, key);
                        proof {
                            assert(rest.deep_view() =~= seq![rest@[0].deep_view()] + tail);
                        }
                        Ok((j3, rest))
                    },
                    Err(ParseFail::Failure(k2, p2)) => {
                        if k2 == ParseErrorKind::NoMatch {
                            let mut one = Vec::new();
                            one.push(key);
                            proof {
                                assert(one.deep_view() =~= seq![one@[0].deep_view()]);
                            }
                            Ok((j2, one))
                        } else {
                            Err(ParseFail::Failure(k2, p2))
                        }
                    },
                    Err(ParseFail::Incomplete(n)) => Err(ParseFail::Incomplete(n)),
                }
            } else {
                let mut one = Vec::new();
                one.push(key);
                proof {
                    assert(one.deep_view() =~= seq![one@[0].deep_view()]);
                }
                Ok((j2, one))
            }
        },
        Err(e) => Err(e),
    }
}


// ---------------------------------------------------------------------------
// Field specifications
// ---------------------------------------------------------------------------
/// The optional type clause of a column definition: required whitespace, a
/// type, optional trailing whitespace. A type that merely fails to match
/// leaves the position where it was; a malformed width inside it is fatal.
pub open spec fn spec_opt_type(s: Seq<u8>, i: int) -> SpecOutcome<()> {
    let a = spec_scan(s, i, ByteClass::Ws);
    if a > i {
        match spec_type_identifier(s, a) {
            SpecOutcome::Success(b, _) => SpecOutcome::Success(spec_scan(s, b, ByteClass::Ws), ()),
            SpecOutcome::Failure(k, p) => if k == ParseErrorKind::NoMatch {
                SpecOutcome::Success(i, ())
            } else {
                SpecOutcome::Failure(k, p)
            },
            SpecOutcome::Incomplete(n) => SpecOutcome::Incomplete(n),
        }
    } else {
        SpecOutcome::Success(i, ())
    }
}

/// The end of an optional word such as `NOT NULL` or `AUTO_INCREMENT`:
/// optional whitespace, the word, optional trailing whitespace; absent the
/// word, nothing is consumed.
pub open spec fn spec_opt_flag(s: Seq<u8>, i: int, t: Seq<char>) -> int {
    let a = spec_scan(s, i, ByteClass::Ws);
    if tag_matches(s, a, t) {
        spec_scan(s, a + t.len(), ByteClass::Ws)
    } else {
        i
    }
}

/// The end of an optional `DEFAULT` clause: the word, required whitespace,
/// then a quoted alphanumeric (possibly empty) literal or a bare digit
/// literal, and optional trailing whitespace.
pub open spec fn spec_opt_default(s: Seq<u8>, i: int) -> int {
    let a = spec_scan(s, i, ByteClass::Ws);
    if tag_matches(s, a, "default"@) {
        let b = spec_scan(s, a + "default"@.len(), ByteClass::Ws);
        if b > a + "default"@.len() {
            if b < s.len() && s[b] == 39 {
                let c = spec_scan(s, b + 1, ByteClass::Alnum);
                if c < s.len() && s[c] == 39 {
                    spec_scan(s, c + 1, ByteClass::Ws)
                } else {
                    i
                }
            } else {
                let c = spec_scan(s, b, ByteClass::Digit);
                if c > b {
                    spec_scan(s, c, ByteClass::Ws)
                } else {
                    i
                }
            }
        } else {
            i
        }
    } else {
        i
    }
}

/// The end of an optional comma separator with surrounding whitespace.
pub open spec fn spec_opt_separator(s: Seq<u8>, i: int) -> int {
    let a = spec_scan(s, i, ByteClass::Ws);
    if a < s.len() && s[a] == 44 {
        spec_scan(s, a + 1, ByteClass::Ws)
    } else {
        i
    }
}

/// One column definition: the column identifier, then in fixed order an
/// optional type, `NOT NULL`, `AUTO_INCREMENT` and `DEFAULT` literal, and an
/// optional trailing comma separator. Only the identifier is retained.
pub open spec fn spec_field_spec(s: Seq<u8>, i: int) -> SpecOutcome<Seq<char>> {
    match spec_identifier(s, i) {
        SpecOutcome::Success(j, name) => match spec_opt_type(s, j) {
            SpecOutcome::Success(j1, _) => {
                let j2 = spec_opt_flag(s, j1, "not null"@);
                let j3 = spec_opt_flag(s, j2, "auto_increment"@);
                let j4 = spec_opt_default(s, j3);
                SpecOutcome::Success(spec_opt_separator(s, j4), name)
            },
            SpecOutcome::Failure(k2, p2) => SpecOutcome::Failure(k2, p2),
            SpecOutcome::Incomplete(n) => SpecOutcome::Incomplete(n),
        },
        SpecOutcome::Failure(k, p) => SpecOutcome::Failure(k, p),
        SpecOutcome::Incomplete(n) => SpecOutcome::Incomplete(n),
    }
}

/// The comma-separated column definitions forming a table body, in written
/// order; at least one is required.
pub open spec fn spec_field_spec_list(s: Seq<u8>, i: int) -> SpecOutcome<Seq<Seq<char>>>
    decreases s.len() - i,
{
    match spec_field_spec(s, i) {
        SpecOutcome::Success(j, name) => if i < j <= s.len() {
            match spec_field_spec_list(s, j) {
                SpecOutcome::Success(j2, rest) => SpecOutcome::Success(j2, seq![name] + rest),
                SpecOutcome::Failure(k2, p2) => if k2 == ParseErrorKind::NoMatch {
                    SpecOutcome::Success(j, seq![name])
                } else {
                    SpecOutcome::Failure(k2, p2)
                },
                SpecOutcome::Incomplete(n) => SpecOutcome::Incomplete(n),
            }
        } else {
            SpecOutcome::Success(j, seq![name])
        },
        SpecOutcome::Failure(k, p) => SpecOutcome::Failure(k, p),
        SpecOutcome::Incomplete(n) => SpecOutcome::Incomplete(n),
    }
}

fn opt_type(input: &[u8], pos: usize) -> (r: Result<(usize, ()), ParseFail>)
    requires
        pos <= input@.len(),
    ensures
        outcome_of(r) == spec_opt_type(input@, pos as int),
        r matches Ok((j, _)) ==> pos <= j <= input@.len(),
{
    let a = scan(input, pos, ByteClass::Ws);
    if a > pos {
        match type_identifier(input, a) {
            Ok((b, _)) => Ok((scan(input, b, ByteClass::Ws), ())),
            Err(ParseFail::Failure(k, p)) => {
                if k == ParseErrorKind::NoMatch {
                    Ok((pos, ()))
                } else {
                    Err(ParseFail::Failure(k, p))
                }
            },
            Err(ParseFail::Incomplete(n)) => Err(ParseFail::Incomplete(n)),
        }
    } else {
        Ok((pos, ()))
    }
}

fn opt_flag(input: &[u8], pos: usize, t: &str) -> (r: usize)
    requires
        pos <= input@.len(),
        vstd::string::is_ascii(t),
    ensures
        r == spec_opt_flag(input@, pos as int, t@),
        pos <= r <= input@.len(),
{
    let a = scan(input, pos, ByteClass::Ws);
    match try_tag(input, a, t) {
        Some(j) => scan(input, j, ByteClass::Ws),
        None => pos,
    }
}

fn opt_default(input: &[u8], pos: usize) -> (r: usize)
    requires
        pos <= input@.len(),
    ensures
        r == spec_opt_default(input@, pos as int),
        pos <= r <= input@.len(),
{
    proof {
        reveal_strlit("default");
    }
    let ilen = input.len();
    let a = scan(input, pos, ByteClass::Ws);
    match try_tag(input, a, "default") {
        Some(j) => {
            let b = scan(input, j, ByteClass::Ws);
            if b > j {
                if b < ilen && input[b] == 39 {
                    let c = scan(input, b + 1, ByteClass::Alnum);
                    if c < ilen && input[c] == 39 {
                        scan(input, c + 1, ByteClass::Ws)
                    } else {
                        pos
                    }
                } else {
                    let c = scan(input, b, ByteClass::Digit);
                    if c > b {
                        scan(input, c, ByteClass::Ws)
                    } else {
                        pos
                    }
                }
            } else {
                pos
            }
        },
        None => pos,
    }
}

fn opt_separator(input: &[u8], pos: usize) -> (r: usize)
    requires
        pos <= input@.len(),
    ensures
        r == spec_opt_separator(input@, pos as int),
        pos <= r <= input@.len(),
{
    let ilen = input.len();
    let a = scan(input, pos, ByteClass::Ws);
    if a < ilen && input[a] == 44 {
        scan(input, a + 1, ByteClass::Ws)
    } else {
        pos
    }
}

fn field_spec(input: &[u8], pos: usize) -> (r: Result<(usize, Column), ParseFail>)
    requires
        pos <= input@.len(),
    ensures
        outcome_of(r) == spec_field_spec(input@, pos as int),
        r matches Ok((j, _)) ==> pos < j <= input@.len(),
{
    proof {
        reveal_strlit("not null");
        reveal_strlit("auto_increment");
    }
    match column_identifier(input, pos) {
        Ok((j, col)) => match opt_type(input, j) {
            Ok((j1, _)) => {
                let j2 = opt_flag(input, j1, "not null");
                let j3 = opt_flag(input, j2, "auto_increment");
                let j4 = opt_default(input, j3);
                let j5 = opt_separator(input, j4);
                Ok((j5, col))
            },
            Err(e) => Err(e),
        },
        Err(e) => Err(e),
    }
}

/// Parse the comma-separated column definitions of a table body, returning
/// the declared column identifiers in declaration order.
pub fn field_specification_list(input: &[u8], pos: usize) -> (r: Result<
    (usize, Vec<Column>),
    ParseFail,
>)
    requires
        pos <= input@.len(),
    ensures
        outcome_of(r) == spec_field_spec_list(input@, pos as int),
        r matches Ok((j, _)) ==> pos < j <= input@.len(),
    decreases input@.len() - pos,
{
    match field_spec(input, pos) {
        Ok((j, col)) => {
            if pos < j {
                match field_specification_list(input, j) {
                    Ok((j2, mut rest)) => {
                        let ghost tail = rest.deep_view();
                        rest.insert(0, col);
                        proof {
                            assert(rest.deep_view() =~= seq![rest@[0].deep_view()] + tail);
                        }
                        Ok((j2, rest))
                    },
                    Err(ParseFail::Failure(k2, p2)) => {
                        if k2 == ParseErrorKind::NoMatch {
                            let mut one = Vec::new();
                            one.push(col);
                            proof {
                                assert(one.deep_view() =~= seq![one@[0].deep_view()]);
                            }
                            Ok((j, one))
                        } else {
                            Err(ParseFail::Failure(k2, p2))
                        }
                    },
                    Err(ParseFail::Incomplete(n)) => Err(ParseFail::Incomplete(n)),
                }
            } else {
                let mut one = Vec::new();
                one.push(col);
                proof {
                    assert(one.deep_view() =~= seq![one@[0].deep_view()]);
                }
                Ok((j, one))
            }
        },
        Err(e) => Err(e),
    }
}


// ---------------------------------------------------------------------------
// The CREATE TABLE assembler
// ---------------------------------------------------------------------------
/// The end of an optional storage-engine clause `TYPE = <alphanumeric>`; the
/// value is accepted and discarded.
pub open spec fn spec_opt_engine(s: Seq<u8>, i: int) -> int {
    if tag_matches(s, i, "type"@) {
        let a = spec_scan(s, i + "type"@.len(), ByteClass::Ws);
        if a < s.len() && s[a] == 61 {
            let b = spec_scan(s, a + 1, ByteClass::Ws);
            let c = spec_scan(s, b, ByteClass::Alnum);
            if c > b {
                c
            } else {
                i
            }
        } else {
            i
        }
    } else {
        i
    }
}

/// The end of an optional `PACK_KEYS = 0|1` clause; accepted and discarded.
pub open spec fn spec_opt_pack_keys(s: Seq<u8>, i: int) -> int {
    if tag_matches(s, i, "pack_keys"@) {
        let a = spec_scan(s, i + "pack_keys"@.len(), ByteClass::Ws);
        if a < s.len() && s[a] == 61 {
            let b = spec_scan(s, a + 1, ByteClass::Ws);
            if b < s.len() && (s[b] == 48 || s[b] == 49) {
                b + 1
            } else {
                i
            }
        } else {
            i
        }
    } else {
        i
    }
}

/// What follows the table body: the closing parenthesis, the optional
/// storage clauses, and the statement terminator; then the statement value.
pub open spec fn spec_create_tail(
    s: Seq<u8>,
    i: int,
    h: int,
    stmt: SpecCreateTableStatement,
) -> SpecOutcome<SpecCreateTableStatement> {
    let p = spec_scan(s, h, ByteClass::Ws);
    if p < s.len() && s[p] == 41 {
        let q0 = spec_scan(s, p + 1, ByteClass::Ws);
        let q = spec_opt_engine(s, q0);
        let r0 = spec_scan(s, q, ByteClass::Ws);
        let r1 = spec_opt_pack_keys(s, r0);
        match spec_statement_terminator(s, r1) {
            SpecOutcome::Success(t, _) => SpecOutcome::Success(t, stmt),
            _ => SpecOutcome::Failure(ParseErrorKind::NoMatch, i),
        }
    } else {
        SpecOutcome::Failure(ParseErrorKind::NoMatch, i)
    }
}

/// A whole `CREATE TABLE` statement: the two keywords, the table reference
/// (which must carry no alias), the parenthesised field list, an optional key
/// list, optional storage clauses and the terminator. Every required step
/// must succeed, or the whole parse fails with nothing consumed.
pub open spec fn spec_creation(s: Seq<u8>, i: int) -> SpecOutcome<SpecCreateTableStatement> {
    if tag_matches(s, i, "create"@) {
        let a = spec_scan(s, i + "create"@.len(), ByteClass::Ws);
        if a > i + "create"@.len() && tag_matches(s, a, "table"@) {
            let b = spec_scan(s, a + "table"@.len(), ByteClass::Ws);
            if b > a + "table"@.len() {
                match spec_table_reference(s, b) {
                    SpecOutcome::Success(c, tbl) => {
                        if tbl.alias is Some {
                            SpecOutcome::Failure(ParseErrorKind::AliasNotAllowed, b)
                        } else {
                            let d = spec_scan(s, c, ByteClass::Ws);
                            if d > c && d < s.len() && s[d] == 40 {
                                let e = spec_scan(s, d + 1, ByteClass::Ws);
                                match spec_field_spec_list(s, e) {
                                    SpecOutcome::Success(f, fields) => {
                                        let g = spec_scan(s, f, ByteClass::Ws);
                                        match spec_key_list(s, g) {
                                            SpecOutcome::Success(h, ks) => spec_create_tail(
                                                s,
                                                i,
                                                h,
                                                SpecCreateTableStatement {
                                                    table: tbl,
                                                    fields: fields,
                                                    keys: Some(ks),
                                                },
                                            ),
                                            SpecOutcome::Failure(k2, p2) => if k2
                                                == ParseErrorKind::NoMatch {
                                                spec_create_tail(
                                                    s,
                                                    i,
                                                    g,
                                                    SpecCreateTableStatement {
                                                        table: tbl,
                                                        fields: fields,
                                                        keys: None,
                                                    },
                                                )
                                            } else {
                                                SpecOutcome::Failure(k2, p2)
                                            },
                                            SpecOutcome::Incomplete(n) => SpecOutcome::Incomplete(
                                                n,
                                            ),
                                        }
                                    },
                                    SpecOutcome::Failure(k2, p2) => if k2
                                        == ParseErrorKind::NoMatch {
                                        SpecOutcome::Failure(ParseErrorKind::NoMatch, i)
                                    } else {
                                        SpecOutcome::Failure(k2, p2)
                                    },
                                    SpecOutcome::Incomplete(n) => SpecOutcome::Incomplete(n),
                                }
                            } else {
                                SpecOutcome::Failure(ParseErrorKind::NoMatch, i)
                            }
                        }
                    },
                    SpecOutcome::Failure(k2, p2) => if k2 == ParseErrorKind::NoMatch {
                        SpecOutcome::Failure(ParseErrorKind::NoMatch, i)
                    } else {
                        SpecOutcome::Failure(k2, p2)
                    },
                    SpecOutcome::Incomplete(n) => SpecOutcome::Incomplete(n),
                }
            } else {
                SpecOutcome::Failure(ParseErrorKind::NoMatch, i)
            }
        } else {
            SpecOutcome::Failure(ParseErrorKind::NoMatch, i)
        }
    } else {
        SpecOutcome::Failure(ParseErrorKind::NoMatch, i)
    }
}

fn opt_engine(input: &[u8], pos: usize) -> (r: usize)
    requires
        pos <= input@.len(),
    ensures
        r == spec_opt_engine(input@, pos as int),
        pos <= r <= input@.len(),
{
    proof {
        reveal_strlit("type");
    }
    let ilen = input.len();
    match try_tag(input, pos, "type") {
        Some(j) => {
            let a = scan(input, j, ByteClass::Ws);
            if a < ilen && input[a] == 61 {
                let b = scan(input, a + 1, ByteClass::Ws);
                let c = scan(input, b, ByteClass::Alnum);
                if c > b {
                    c
                } else {
                    pos
                }
            } else {
                pos
            }
        },
        None => pos,
    }
}

fn opt_pack_keys(input: &[u8], pos: usize) -> (r: usize)
    requires
        pos <= input@.len(),
    ensures
        r == spec_opt_pack_keys(input@, pos as int),
        pos <= r <= input@.len(),
{
    proof {
        reveal_strlit("pack_keys");
    }
    let ilen = input.len();
    match try_tag(input, pos, "pack_keys") {
        Some(j) => {
            let a = scan(input, j, ByteClass::Ws);
            if a < ilen && input[a] == 61 {
                let b = scan(input, a + 1, ByteClass::Ws);
                if b < ilen && (input[b] == 48 || input[b] == 49) {
                    b + 1
                } else {
                    pos
                }
            } else {
                pos
            }
        },
        None => pos,
    }
}

fn create_tail(input: &[u8], pos0: usize, h: usize, stmt: CreateTableStatement) -> (r: Result<
    (usize, CreateTableStatement),
    ParseFail,
>)
    requires
        h <= input@.len(),
        pos0 <= input@.len(),
    ensures
        outcome_of(r) == spec_create_tail(input@, pos0 as int, h as int, stmt.deep_view()),
        r matches Ok((j, _)) ==> h <= j <= input@.len(),
{
    let ilen = input.len();
    let p = scan(input, h, ByteClass::Ws);
    if p < ilen && input[p] == 41 {
        let q0 = scan(input, p + 1, ByteClass::Ws);
        let q = opt_engine(input, q0);
        let r0 = scan(input, q, ByteClass::Ws);
        let r1 = opt_pack_keys(input, r0);
        match statement_terminator(input, r1) {
            Ok((t, _)) => Ok((t, stmt)),
            Err(_) => Err(ParseFail::Failure(ParseErrorKind::NoMatch, pos0)),
        }
    } else {
        Err(ParseFail::Failure(ParseErrorKind::NoMatch, pos0))
    }
}

/// Parse a whole `CREATE TABLE` statement. On success the remainder position
/// points past the statement terminator; a table reference with an alias is
/// rejected with `AliasNotAllowed`, and a malformed column width surfaces as
/// `MalformedWidth`.
pub fn creation(input: &[u8], pos: usize) -> (r: Result<
    (usize, CreateTableStatement),
    ParseFail,
>)
    requires
        pos <= input@.len(),
    ensures
        outcome_of(r) == spec_creation(input@, pos as int),
        r matches Ok((j, _)) ==> pos <= j <= input@.len(),
{
    proof {
        reveal_strlit("create");
        reveal_strlit("table");
    }
    let ilen = input.len();
    match try_tag(input, pos, "create") {
        Some(i1) => {
            let a = scan(input, i1, ByteClass::Ws);
            if a > i1 {
                match try_tag(input, a, "table") {
                    Some(a1) => {
                        let b = scan(input, a1, ByteClass::Ws);
                        if b > a1 {
                            match table_reference(input, b) {
                                Ok((c, tbl)) => {
                                    if tbl.alias.is_some() {
                                        return Err(ParseFail::Failure(
                                            ParseErrorKind::AliasNotAllowed,
                                            b,
                                        ));
                                    }
                                    let d = scan(input, c, ByteClass::Ws);
                                    if d > c && d < ilen && input[d] == 40 {
                                        let e = scan(input, d + 1, ByteClass::Ws);
                                        match field_specification_list(input, e) {
                                            Ok((f, fields)) => {
                                                let g = scan(input, f, ByteClass::Ws);
                                                match key_specification_list(input, g) {
                                                    Ok((h, ks)) => create_tail(
                                                        input,
                                                        pos,
                                                        h,
                                                        CreateTableStatement {
                                                            table: tbl,
                                                            fields: fields,
                                                            keys: Some(ks),
                                                        },
                                                    ),
                                                    Err(ParseFail::Failure(k2, p2)) => {
                                                        if k2 == ParseErrorKind::NoMatch {
                                                            create_tail(
                                                                input,
                                                                pos,
                                                                g,
                                                                CreateTableStatement {
                                                                    table: tbl,
                                                                    fields: fields,
                                                                    keys: None,
                                                                },
                                                            )
                                                        } else {
                                                            Err(ParseFail::Failure(k2, p2))
                                                        }
                                                    },
                                                    Err(ParseFail::Incomplete(n)) => Err(
                                                        ParseFail::Incomplete(n),
                                                    ),
                                                }
                                            },
                                            Err(ParseFail::Failure(k2, p2)) => {
                                                if k2 == ParseErrorKind::NoMatch {
                                                    Err(ParseFail::Failure(
                                                        ParseErrorKind::NoMatch,
                                                        pos,
                                                    ))
                                                } else {
                                                    Err(ParseFail::Failure(k2, p2))
                                                }
                                            },
                                            Err(ParseFail::Incomplete(n)) => Err(
                                                ParseFail::Incomplete(n),
                                            ),
                                        }
                                    } else {
                                        Err(ParseFail::Failure(ParseErrorKind::NoMatch, pos))
                                    }
                                },
                                Err(ParseFail::Failure(k2, p2)) => {
                                    if k2 == ParseErrorKind::NoMatch {
                                        Err(ParseFail::Failure(ParseErrorKind::NoMatch, pos))
                                    } else {
                                        Err(ParseFail::Failure(k2, p2))
                                    }
                                },
                                Err(ParseFail::Incomplete(n)) => Err(ParseFail::Incomplete(n)),
                            }
                        } else {
                            Err(ParseFail::Failure(ParseErrorKind::NoMatch, pos))
                        }
                    },
                    None => Err(ParseFail::Failure(ParseErrorKind::NoMatch, pos)),
                }
            } else {
                Err(ParseFail::Failure(ParseErrorKind::NoMatch, pos))
            }
        },
        None => Err(ParseFail::Failure(ParseErrorKind::NoMatch, pos)),
    }
}


// ---------------------------------------------------------------------------
// Laws
// ---------------------------------------------------------------------------
/// Width law: wherever `varchar` is followed by a parenthesised alphanumeric
/// token, the type grammar yields `Varchar` of the token's numeric value when
/// the token is a digit string whose value fits 16 bits, and fails hard with
/// `MalformedWidth` when the token holds a non-digit or its value exceeds
/// 65535.
pub proof fn lemma_varchar_width(s: Seq<u8>, i: int, e: int)
    requires
        0 <= i,
        tag_matches(s, i, "varchar"@),
        i + 7 < s.len(),
        s[i + 7] == 40,
        i + 8 < e < s.len(),
        forall|k: int| i + 8 <= k < e ==> is_alnum(#[trigger] s[k]),
        s[e] == 41,
    ensures
        all_digits(s.subrange(i + 8, e)) && digits_value(s.subrange(i + 8, e)) <= 65535
            ==> spec_type_identifier(s, i) == SpecOutcome::<SqlType>::Success(
            spec_mod_end(s, e + 1, true),
            SqlType::Varchar(digits_value(s.subrange(i + 8, e)) as u16),
        ),
        !(all_digits(s.subrange(i + 8, e)) && digits_value(s.subrange(i + 8, e)) <= 65535)
            ==> spec_type_identifier(s, i) == SpecOutcome::<SqlType>::Failure(
            ParseErrorKind::MalformedWidth,
            i + 8,
        ),
{
    reveal_strlit("mediumtext");
    reveal_strlit("timestamp");
    reveal_strlit("tinyblob");
    reveal_strlit("tinytext");
    reveal_strlit("varchar");
    assert(!tag_matches(s, i, "mediumtext"@)) by {
        if tag_matches(s, i, "mediumtext"@) {
            assert(byte_matches_char_ci(s[i + 0], "mediumtext"@[0]));
            assert(byte_matches_char_ci(s[i + 0], "varchar"@[0]));
        }
    }
    assert(!tag_matches(s, i, "timestamp"@)) by {
        if tag_matches(s, i, "timestamp"@) {
            assert(byte_matches_char_ci(s[i + 0], "timestamp"@[0]));
            assert(byte_matches_char_ci(s[i + 0], "varchar"@[0]));
        }
    }
    assert(!tag_matches(s, i, "tinyblob"@)) by {
        if tag_matches(s, i, "tinyblob"@) {
            assert(byte_matches_char_ci(s[i + 0], "tinyblob"@[0]));
            assert(byte_matches_char_ci(s[i + 0], "varchar"@[0]));
        }
    }
    assert(!tag_matches(s, i, "tinytext"@)) by {
        if tag_matches(s, i, "tinytext"@) {
            assert(byte_matches_char_ci(s[i + 0], "tinytext"@[0]));
            assert(byte_matches_char_ci(s[i + 0], "varchar"@[0]));
        }
    }
    crate::text::lemma_scan_exact(s, i + 8, e, ByteClass::Alnum);
}

/// Shape law, single column: whatever optional modifiers follow it, a column
/// definition's value is exactly the column identifier at its start.
pub proof fn lemma_field_spec_keeps_identifier(s: Seq<u8>, i: int)
    ensures
        spec_field_spec(s, i) matches SpecOutcome::Success(j, name) ==> ({
            &&& spec_identifier(s, i) matches SpecOutcome::Success(j0, first)
            &&& name == first
        }),
{
}

/// Shape law, column list: a parsed table body holds at least one column,
/// and its first entry is the identifier declared first.
pub proof fn lemma_field_spec_list_shape(s: Seq<u8>, i: int)
    ensures
        spec_field_spec_list(s, i) matches SpecOutcome::Success(j, names) ==> ({
            &&& names.len() >= 1
            &&& spec_identifier(s, i) matches SpecOutcome::Success(j0, first)
            &&& names[0] == first
        }),
    decreases s.len() - i,
{
    let r = spec_field_spec(s, i);
    if r is Success {
        let j = r->Success_0;
        if i < j <= s.len() {
            lemma_field_spec_list_shape(s, j);
        }
    }
}

/// A table body position at which exactly the given columns are declared.
pub open spec fn fields_declared_at(s: Seq<u8>, e: int, fields: Seq<Seq<char>>) -> bool {
    spec_field_spec_list(s, e) matches SpecOutcome::Success(j, names) && names == fields
}

/// A position at which exactly the given keys are declared.
pub open spec fn keys_declared_at(s: Seq<u8>, g: int, keys: Seq<SpecTableKey>) -> bool {
    spec_key_list(s, g) matches SpecOutcome::Success(j, ks) && ks == keys
}

/// A position at which no key clause can be recognized.
pub open spec fn no_keys_declared_at(s: Seq<u8>, g: int) -> bool {
    spec_key_list(s, g) matches SpecOutcome::Failure(k, p) && k == ParseErrorKind::NoMatch
}

/// Key law: a parsed statement records `Some` keys exactly when a key list
/// stands after its column definitions, and exactly those keys; with no key
/// clause present there, the statement records `None`.
pub proof fn lemma_creation_keys(s: Seq<u8>, i: int)
    ensures
        spec_creation(s, i) matches SpecOutcome::Success(j, st) ==> ({
            &&& (st.keys matches Some(ks) ==> exists|g: int| #[trigger] keys_declared_at(s, g, ks))
            &&& (st.keys is None ==> exists|g: int| #[trigger] no_keys_declared_at(s, g))
        }),
{
    let r = spec_creation(s, i);
    if r is Success {
        let a = spec_scan(s, i + "create"@.len(), ByteClass::Ws);
        let b = spec_scan(s, a + "table"@.len(), ByteClass::Ws);
        let tr = spec_table_reference(s, b);
        let c = tr->Success_0;
        let d = spec_scan(s, c, ByteClass::Ws);
        let e = spec_scan(s, d + 1, ByteClass::Ws);
        let fl = spec_field_spec_list(s, e);
        let f = fl->Success_0;
        let g = spec_scan(s, f, ByteClass::Ws);
        let kl = spec_key_list(s, g);
        let st = r->Success_1;
        if kl is Success {
            assert(keys_declared_at(s, g, st.keys->Some_0));
        } else {
            assert(no_keys_declared_at(s, g));
        }
    }
}

/// Shape law, whole statement: the fields of a parsed statement are exactly
/// the column identifiers declared in its table body, in declaration order,
/// one per declared column, regardless of the optional per-column modifiers
/// and of any key or storage clauses present.
pub proof fn lemma_creation_fields(s: Seq<u8>, i: int)
    ensures
        spec_creation(s, i) matches SpecOutcome::Success(j, st) ==> ({
            &&& st.fields.len() >= 1
            &&& exists|e: int| #[trigger] fields_declared_at(s, e, st.fields)
        }),
{
    let r = spec_creation(s, i);
    if r is Success {
        let a = spec_scan(s, i + "create"@.len(), ByteClass::Ws);
        let b = spec_scan(s, a + "table"@.len(), ByteClass::Ws);
        let tr = spec_table_reference(s, b);
        let c = tr->Success_0;
        let d = spec_scan(s, c, ByteClass::Ws);
        let e = spec_scan(s, d + 1, ByteClass::Ws);
        lemma_field_spec_list_shape(s, e);
        assert(fields_declared_at(s, e, r->Success_1.fields));
    }
}

} // verus!
