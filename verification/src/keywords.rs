use vstd::prelude::*;

use crate::outcome::{outcome_of, ParseErrorKind, ParseFail, SpecOutcome};
use crate::text::{
    byte_is_boundary, byte_matches_char_ci, is_boundary, match_tag_full, tag_len, tag_matches,
    tag_prefix_to_end, TagMatch,
};

verus! {

/// How many reserved words the recognizer knows.
pub const RESERVED_WORD_COUNT: usize = 124;

/// The reserved words, in the fixed order in which the recognizer tries
/// them. Every proper prefix of a word in this list comes before the longer
/// word, so trying the words in order can never skip past a match.
pub open spec fn reserved_word(k: int) -> Seq<char> {
    if k == 0 {
        "ABORT"@
    } else if k == 1 {
        "ACTION"@
    } else if k == 2 {
        "ADD"@
    } else if k == 3 {
        "AFTER"@
    } else if k == 4 {
        "ALL"@
    } else if k == 5 {
        "ALTER"@
    } else if k == 6 {
        "ANALYZE"@
    } else if k == 7 {
        "AND"@
    } else if k == 8 {
        "AS"@
    } else if k == 9 {
        "ASC"@
    } else if k == 10 {
        "ATTACH"@
    } else if k == 11 {
        "AUTOINCREMENT"@
    } else if k == 12 {
        "BEFORE"@
    } else if k == 13 {
        "BEGIN"@
    } else if k == 14 {
        "BETWEEN"@
    } else if k == 15 {
        "BY"@
    } else if k == 16 {
        "CASCADE"@
    } else if k == 17 {
        "CASE"@
    } else if k == 18 {
        "CAST"@
    } else if k == 19 {
        "CHECK"@
    } else if k == 20 {
        "COLLATE"@
    } else if k == 21 {
        "COLUMN"@
    } else if k == 22 {
        "COMMIT"@
    } else if k == 23 {
        "CONFLICT"@
    } else if k == 24 {
        "CONSTRAINT"@
    } else if k == 25 {
        "CREATE"@
    } else if k == 26 {
        "CROSS"@
    } else if k == 27 {
        "CURRENT_DATE"@
    } else if k == 28 {
        "CURRENT_TIME"@
    } else if k == 29 {
        "CURRENT_TIMESTAMP"@
    } else if k == 30 {
        "DATABASE"@
    } else if k == 31 {
        "DEFAULT"@
    } else if k == 32 {
        "DEFERRABLE"@
    } else if k == 33 {
        "DEFERRED"@
    } else if k == 34 {
        "DELETE"@
    } else if k == 35 {
        "DESC"@
    } else if k == 36 {
        "DETACH"@
    } else if k == 37 {
        "DISTINCT"@
    } else if k == 38 {
        "DROP"@
    } else if k == 39 {
        "EACH"@
    } else if k == 40 {
        "ELSE"@
    } else if k == 41 {
        "END"@
    } else if k == 42 {
        "ESCAPE"@
    } else if k == 43 {
        "EXCEPT"@
    } else if k == 44 {
        "EXCLUSIVE"@
    } else if k == 45 {
        "EXISTS"@
    } else if k == 46 {
        "EXPLAIN"@
    } else if k == 47 {
        "FAIL"@
    } else if k == 48 {
        "FOR"@
    } else if k == 49 {
        "FOREIGN"@
    } else if k == 50 {
        "FROM"@
    } else if k == 51 {
        "FULL"@
    } else if k == 52 {
        "GLOB"@
    } else if k == 53 {
        "GROUP"@
    } else if k == 54 {
        "HAVING"@
    } else if k == 55 {
        "IF"@
    } else if k == 56 {
        "IGNORE"@
    } else if k == 57 {
        "IMMEDIATE"@
    } else if k == 58 {
        "IN"@
    } else if k == 59 {
        "INDEX"@
    } else if k == 60 {
        "INDEXED"@
    } else if k == 61 {
        "INITIALLY"@
    } else if k == 62 {
        "INNER"@
    } else if k == 63 {
        "INSERT"@
    } else if k == 64 {
        "INSTEAD"@
    } else if k == 65 {
        "INTERSECT"@
    } else if k == 66 {
        "INTO"@
    } else if k == 67 {
        "IS"@
    } else if k == 68 {
        "ISNULL"@
    } else if k == 69 {
        "JOIN"@
    } else if k == 70 {
        "KEY"@
    } else if k == 71 {
        "LEFT"@
    } else if k == 72 {
        "LIKE"@
    } else if k == 73 {
        "LIMIT"@
    } else if k == 74 {
        "MATCH"@
    } else if k == 75 {
        "NATURAL"@
    } else if k == 76 {
        "NO"@
    } else if k == 77 {
        "NOT"@
    } else if k == 78 {
        "NOTNULL"@
    } else if k == 79 {
        "NULL"@
    } else if k == 80 {
        "OF"@
    } else if k == 81 {
        "OFFSET"@
    } else if k == 82 {
        "ON"@
    } else if k == 83 {
        "OR"@
    } else if k == 84 {
        "ORDER"@
    } else if k == 85 {
        "OUTER"@
    } else if k == 86 {
        "PLAN"@
    } else if k == 87 {
        "PRAGMA"@
    } else if k == 88 {
        "PRIMARY"@
    } else if k == 89 {
        "QUERY"@
    } else if k == 90 {
        "RAISE"@
    } else if k == 91 {
        "RECURSIVE"@
    } else if k == 92 {
        "REFERENCES"@
    } else if k == 93 {
        "REGEXP"@
    } else if k == 94 {
        "REINDEX"@
    } else if k == 95 {
        "RELEASE"@
    } else if k == 96 {
        "RENAME"@
    } else if k == 97 {
        "REPLACE"@
    } else if k == 98 {
        "RESTRICT"@
    } else if k == 99 {
        "RIGHT"@
    } else if k == 100 {
        "ROLLBACK"@
    } else if k == 101 {
        "ROW"@
    } else if k == 102 {
        "SAVEPOINT"@
    } else if k == 103 {
        "SELECT"@
    } else if k == 104 {
        "SET"@
    } else if k == 105 {
        "TABLE"@
    } else if k == 106 {
        "TEMP"@
    } else if k == 107 {
        "TEMPORARY"@
    } else if k == 108 {
        "THEN"@
    } else if k == 109 {
        "TO"@
    } else if k == 110 {
        "TRANSACTION"@
    } else if k == 111 {
        "TRIGGER"@
    } else if k == 112 {
        "UNION"@
    } else if k == 113 {
        "UNIQUE"@
    } else if k == 114 {
        "UPDATE"@
    } else if k == 115 {
        "USING"@
    } else if k == 116 {
        "VACUUM"@
    } else if k == 117 {
        "VALUES"@
    } else if k == 118 {
        "VIEW"@
    } else if k == 119 {
        "VIRTUAL"@
    } else if k == 120 {
        "WHEN"@
    } else if k == 121 {
        "WHERE"@
    } else if k == 122 {
        "WITH"@
    } else {
        "WITHOUT"@
    }
}

/// The reserved word at index `k`, as runnable text.
pub fn reserved_word_at(k: usize) -> (w: &'static str)
    requires
        k < RESERVED_WORD_COUNT,
    ensures
        w@ == reserved_word(k as int),
        vstd::string::is_ascii(w),
{
    match k {
        0 => {
            proof { reveal_strlit("ABORT"); }
            "ABORT"
        },
        1 => {
            proof { reveal_strlit("ACTION"); }
            "ACTION"
        },
        2 => {
            proof { reveal_strlit("ADD"); }
            "ADD"
        },
        3 => {
            proof { reveal_strlit("AFTER"); }
            "AFTER"
        },
        4 => {
            proof { reveal_strlit("ALL"); }
            "ALL"
        },
        5 => {
            proof { reveal_strlit("ALTER"); }
            "ALTER"
        },
        6 => {
            proof { reveal_strlit("ANALYZE"); }
            "ANALYZE"
        },
        7 => {
            proof { reveal_strlit("AND"); }
            "AND"
        },
        8 => {
            proof { reveal_strlit("AS"); }
            "AS"
        },
        9 => {
            proof { reveal_strlit("ASC"); }
            "ASC"
        },
        10 => {
            proof { reveal_strlit("ATTACH"); }
            "ATTACH"
        },
        11 => {
            proof { reveal_strlit("AUTOINCREMENT"); }
            "AUTOINCREMENT"
        },
        12 => {
            proof { reveal_strlit("BEFORE"); }
            "BEFORE"
        },
        13 => {
            proof { reveal_strlit("BEGIN"); }
            "BEGIN"
        },
        14 => {
            proof { reveal_strlit("BETWEEN"); }
            "BETWEEN"
        },
        15 => {
            proof { reveal_strlit("BY"); }
            "BY"
        },
        16 => {
            proof { reveal_strlit("CASCADE"); }
            "CASCADE"
        },
        17 => {
            proof { reveal_strlit("CASE"); }
            "CASE"
        },
        18 => {
            proof { reveal_strlit("CAST"); }
            "CAST"
        },
        19 => {
            proof { reveal_strlit("CHECK"); }
            "CHECK"
        },
        20 => {
            proof { reveal_strlit("COLLATE"); }
            "COLLATE"
        },
        21 => {
            proof { reveal_strlit("COLUMN"); }
            "COLUMN"
        },
        22 => {
            proof { reveal_strlit("COMMIT"); }
            "COMMIT"
        },
        23 => {
            proof { reveal_strlit("CONFLICT"); }
            "CONFLICT"
        },
        24 => {
            proof { reveal_strlit("CONSTRAINT"); }
            "CONSTRAINT"
        },
        25 => {
            proof { reveal_strlit("CREATE"); }
            "CREATE"
        },
        26 => {
            proof { reveal_strlit("CROSS"); }
            "CROSS"
        },
        27 => {
            proof { reveal_strlit("CURRENT_DATE"); }
            "CURRENT_DATE"
        },
        28 => {
            proof { reveal_strlit("CURRENT_TIME"); }
            "CURRENT_TIME"
        },
        29 => {
            proof { reveal_strlit("CURRENT_TIMESTAMP"); }
            "CURRENT_TIMESTAMP"
        },
        30 => {
            proof { reveal_strlit("DATABASE"); }
            "DATABASE"
        },
        31 => {
            proof { reveal_strlit("DEFAULT"); }
            "DEFAULT"
        },
        32 => {
            proof { reveal_strlit("DEFERRABLE"); }
            "DEFERRABLE"
        },
        33 => {
            proof { reveal_strlit("DEFERRED"); }
            "DEFERRED"
        },
        34 => {
            proof { reveal_strlit("DELETE"); }
            "DELETE"
        },
        35 => {
            proof { reveal_strlit("DESC"); }
            "DESC"
        },
        36 => {
            proof { reveal_strlit("DETACH"); }
            "DETACH"
        },
        37 => {
            proof { reveal_strlit("DISTINCT"); }
            "DISTINCT"
        },
        38 => {
            proof { reveal_strlit("DROP"); }
            "DROP"
        },
        39 => {
            proof { reveal_strlit("EACH"); }
            "EACH"
        },
        40 => {
            proof { reveal_strlit("ELSE"); }
            "ELSE"
        },
        41 => {
            proof { reveal_strlit("END"); }
            "END"
        },
        42 => {
            proof { reveal_strlit("ESCAPE"); }
            "ESCAPE"
        },
        43 => {
            proof { reveal_strlit("EXCEPT"); }
            "EXCEPT"
        },
        44 => {
            proof { reveal_strlit("EXCLUSIVE"); }
            "EXCLUSIVE"
        },
        45 => {
            proof { reveal_strlit("EXISTS"); }
            "EXISTS"
        },
        46 => {
            proof { reveal_strlit("EXPLAIN"); }
            "EXPLAIN"
        },
        47 => {
            proof { reveal_strlit("FAIL"); }
            "FAIL"
        },
        48 => {
            proof { reveal_strlit("FOR"); }
            "FOR"
        },
        49 => {
            proof { reveal_strlit("FOREIGN"); }
            "FOREIGN"
        },
        50 => {
            proof { reveal_strlit("FROM"); }
            "FROM"
        },
        51 => {
            proof { reveal_strlit("FULL"); }
            "FULL"
        },
        52 => {
            proof { reveal_strlit("GLOB"); }
            "GLOB"
        },
        53 => {
            proof { reveal_strlit("GROUP"); }
            "GROUP"
        },
        54 => {
            proof { reveal_strlit("HAVING"); }
            "HAVING"
        },
        55 => {
            proof { reveal_strlit("IF"); }
            "IF"
        },
        56 => {
            proof { reveal_strlit("IGNORE"); }
            "IGNORE"
        },
        57 => {
            proof { reveal_strlit("IMMEDIATE"); }
            "IMMEDIATE"
        },
        58 => {
            proof { reveal_strlit("IN"); }
            "IN"
        },
        59 => {
            proof { reveal_strlit("INDEX"); }
            "INDEX"
        },
        60 => {
            proof { reveal_strlit("INDEXED"); }
            "INDEXED"
        },
        61 => {
            proof { reveal_strlit("INITIALLY"); }
            "INITIALLY"
        },
        62 => {
            proof { reveal_strlit("INNER"); }
            "INNER"
        },
        63 => {
            proof { reveal_strlit("INSERT"); }
            "INSERT"
        },
        64 => {
            proof { reveal_strlit("INSTEAD"); }
            "INSTEAD"
        },
        65 => {
            proof { reveal_strlit("INTERSECT"); }
            "INTERSECT"
        },
        66 => {
            proof { reveal_strlit("INTO"); }
            "INTO"
        },
        67 => {
            proof { reveal_strlit("IS"); }
            "IS"
        },
        68 => {
            proof { reveal_strlit("ISNULL"); }
            "ISNULL"
        },
        69 => {
            proof { reveal_strlit("JOIN"); }
            "JOIN"
        },
        70 => {
            proof { reveal_strlit("KEY"); }
            "KEY"
        },
        71 => {
            proof { reveal_strlit("LEFT"); }
            "LEFT"
        },
        72 => {
            proof { reveal_strlit("LIKE"); }
            "LIKE"
        },
        73 => {
            proof { reveal_strlit("LIMIT"); }
            "LIMIT"
        },
        74 => {
            proof { reveal_strlit("MATCH"); }
            "MATCH"
        },
        75 => {
            proof { reveal_strlit("NATURAL"); }
            "NATURAL"
        },
        76 => {
            proof { reveal_strlit("NO"); }
            "NO"
        },
        77 => {
            proof { reveal_strlit("NOT"); }
            "NOT"
        },
        78 => {
            proof { reveal_strlit("NOTNULL"); }
            "NOTNULL"
        },
        79 => {
            proof { reveal_strlit("NULL"); }
            "NULL"
        },
        80 => {
            proof { reveal_strlit("OF"); }
            "OF"
        },
        81 => {
            proof { reveal_strlit("OFFSET"); }
            "OFFSET"
        },
        82 => {
            proof { reveal_strlit("ON"); }
            "ON"
        },
        83 => {
            proof { reveal_strlit("OR"); }
            "OR"
        },
        84 => {
            proof { reveal_strlit("ORDER"); }
            "ORDER"
        },
        85 => {
            proof { reveal_strlit("OUTER"); }
            "OUTER"
        },
        86 => {
            proof { reveal_strlit("PLAN"); }
            "PLAN"
        },
        87 => {
            proof { reveal_strlit("PRAGMA"); }
            "PRAGMA"
        },
        88 => {
            proof { reveal_strlit("PRIMARY"); }
            "PRIMARY"
        },
        89 => {
            proof { reveal_strlit("QUERY"); }
            "QUERY"
        },
        90 => {
            proof { reveal_strlit("RAISE"); }
            "RAISE"
        },
        91 => {
            proof { reveal_strlit("RECURSIVE"); }
            "RECURSIVE"
        },
        92 => {
            proof { reveal_strlit("REFERENCES"); }
            "REFERENCES"
        },
        93 => {
            proof { reveal_strlit("REGEXP"); }
            "REGEXP"
        },
        94 => {
            proof { reveal_strlit("REINDEX"); }
            "REINDEX"
        },
        95 => {
            proof { reveal_strlit("RELEASE"); }
            "RELEASE"
        },
        96 => {
            proof { reveal_strlit("RENAME"); }
            "RENAME"
        },
        97 => {
            proof { reveal_strlit("REPLACE"); }
            "REPLACE"
        },
        98 => {
            proof { reveal_strlit("RESTRICT"); }
            "RESTRICT"
        },
        99 => {
            proof { reveal_strlit("RIGHT"); }
            "RIGHT"
        },
        100 => {
            proof { reveal_strlit("ROLLBACK"); }
            "ROLLBACK"
        },
        101 => {
            proof { reveal_strlit("ROW"); }
            "ROW"
        },
        102 => {
            proof { reveal_strlit("SAVEPOINT"); }
            "SAVEPOINT"
        },
        103 => {
            proof { reveal_strlit("SELECT"); }
            "SELECT"
        },
        104 => {
            proof { reveal_strlit("SET"); }
            "SET"
        },
        105 => {
            proof { reveal_strlit("TABLE"); }
            "TABLE"
        },
        106 => {
            proof { reveal_strlit("TEMP"); }
            "TEMP"
        },
        107 => {
            proof { reveal_strlit("TEMPORARY"); }
            "TEMPORARY"
        },
        108 => {
            proof { reveal_strlit("THEN"); }
            "THEN"
        },
        109 => {
            proof { reveal_strlit("TO"); }
            "TO"
        },
        110 => {
            proof { reveal_strlit("TRANSACTION"); }
            "TRANSACTION"
        },
        111 => {
            proof { reveal_strlit("TRIGGER"); }
            "TRIGGER"
        },
        112 => {
            proof { reveal_strlit("UNION"); }
            "UNION"
        },
        113 => {
            proof { reveal_strlit("UNIQUE"); }
            "UNIQUE"
        },
        114 => {
            proof { reveal_strlit("UPDATE"); }
            "UPDATE"
        },
        115 => {
            proof { reveal_strlit("USING"); }
            "USING"
        },
        116 => {
            proof { reveal_strlit("VACUUM"); }
            "VACUUM"
        },
        117 => {
            proof { reveal_strlit("VALUES"); }
            "VALUES"
        },
        118 => {
            proof { reveal_strlit("VIEW"); }
            "VIEW"
        },
        119 => {
            proof { reveal_strlit("VIRTUAL"); }
            "VIRTUAL"
        },
        120 => {
            proof { reveal_strlit("WHEN"); }
            "WHEN"
        },
        121 => {
            proof { reveal_strlit("WHERE"); }
            "WHERE"
        },
        122 => {
            proof { reveal_strlit("WITH"); }
            "WITH"
        },
        _ => {
            proof { reveal_strlit("WITHOUT"); }
            "WITHOUT"
        },
    }
}


/// A reserved word is present at `i` as a whole token: it matches and is
/// followed by a boundary byte or by the end of the input.
pub open spec fn keyword_with_boundary(s: Seq<u8>, i: int, w: Seq<char>) -> bool {
    &&& tag_matches(s, i, w)
    &&& (i + w.len() == s.len() || is_boundary(s[i + w.len()]))
}

/// The recognizer's outcome when trying the words from index `k` on, in list
/// order: the first whole-token match wins; if the input ends strictly inside
/// a candidate, that many more bytes are requested.
pub open spec fn spec_keyword_from(s: Seq<u8>, i: int, k: int) -> SpecOutcome<Seq<u8>>
    decreases RESERVED_WORD_COUNT - k,
{
    if 0 <= k < RESERVED_WORD_COUNT {
        let w = reserved_word(k);
        if keyword_with_boundary(s, i, w) {
            SpecOutcome::Success(i + w.len(), s.subrange(i, i + w.len()))
        } else if tag_prefix_to_end(s, i, w) {
            SpecOutcome::Incomplete(w.len() - (s.len() - i))
        } else {
            spec_keyword_from(s, i, k + 1)
        }
    } else {
        SpecOutcome::Failure(ParseErrorKind::NoMatch, i)
    }
}

/// What the keyword recognizer returns on input `s` at position `i`.
pub open spec fn spec_sql_keyword(s: Seq<u8>, i: int) -> SpecOutcome<Seq<u8>> {
    spec_keyword_from(s, i, 0)
}

/// Recognize one reserved word, case-insensitively, anchored at `pos`,
/// yielding the matched slice. A match counts only when the word is followed
/// by a boundary byte or by the end of the input, so a shorter word never
/// swallows the start of a longer token.
pub fn sql_keyword<'a>(input: &'a [u8], pos: usize) -> (r: Result<(usize, &'a [u8]), ParseFail>)
    requires
        pos <= input@.len(),
    ensures
        outcome_of(r) == spec_sql_keyword(input@, pos as int),
        r matches Ok((j, _)) ==> pos <= j <= input@.len(),
{
    let ilen = input.len();
    let mut k: usize = 0;
    while k < RESERVED_WORD_COUNT
        invariant
            0 <= k <= RESERVED_WORD_COUNT,
            pos <= ilen == input@.len(),
            spec_sql_keyword(input@, pos as int) == spec_keyword_from(
                input@,
                pos as int,
                k as int,
            ),
        decreases RESERVED_WORD_COUNT - k,
    {
        let w = reserved_word_at(k);
        match match_tag_full(input, pos, w) {
            TagMatch::Full => {
                let n = tag_len(w);
                let j = pos + n;
                if j == ilen || byte_is_boundary(input[j]) {
                    let kw = vstd::slice::slice_subrange(input, pos, j);
                    proof {
                        assert(kw.deep_view() =~= input@.subrange(pos as int, j as int));
                    }
                    return Ok((j, kw));
                }
            },
            TagMatch::Prefix => {
                let n = tag_len(w);
                return Err(ParseFail::Incomplete(n - (ilen - pos)));
            },
            TagMatch::Mismatch => {},
        }
        k += 1;
    }
    Err(ParseFail::Failure(ParseErrorKind::NoMatch, pos))
}

/// Every character of every reserved word is an upper-case letter or an
/// underscore; in particular none of them folds onto a boundary byte.
pub proof fn lemma_reserved_word_chars()
    ensures
        forall|k: int, j: int|
            0 <= k < RESERVED_WORD_COUNT && 0 <= j < reserved_word(k).len()
                ==> is_keyword_char(#[trigger] reserved_word(k)[j]),
        forall|k: int|
            0 <= k < RESERVED_WORD_COUNT ==> #[trigger] reserved_word(k).len() >= 2,
{
    reveal_strlit("ABORT");
    reveal_strlit("ACTION");
    reveal_strlit("ADD");
    reveal_strlit("AFTER");
    reveal_strlit("ALL");
    reveal_strlit("ALTER");
    reveal_strlit("ANALYZE");
    reveal_strlit("AND");
    reveal_strlit("AS");
    reveal_strlit("ASC");
    reveal_strlit("ATTACH");
    reveal_strlit("AUTOINCREMENT");
    reveal_strlit("BEFORE");
    reveal_strlit("BEGIN");
    reveal_strlit("BETWEEN");
    reveal_strlit("BY");
    reveal_strlit("CASCADE");
    reveal_strlit("CASE");
    reveal_strlit("CAST");
    reveal_strlit("CHECK");
    reveal_strlit("COLLATE");
    reveal_strlit("COLUMN");
    reveal_strlit("COMMIT");
    reveal_strlit("CONFLICT");
    reveal_strlit("CONSTRAINT");
    reveal_strlit("CREATE");
    reveal_strlit("CROSS");
    reveal_strlit("CURRENT_DATE");
    reveal_strlit("CURRENT_TIME");
    reveal_strlit("CURRENT_TIMESTAMP");
    reveal_strlit("DATABASE");
    reveal_strlit("DEFAULT");
    reveal_strlit("DEFERRABLE");
    reveal_strlit("DEFERRED");
    reveal_strlit("DELETE");
    reveal_strlit("DESC");
    reveal_strlit("DETACH");
    reveal_strlit("DISTINCT");
    reveal_strlit("DROP");
    reveal_strlit("EACH");
    reveal_strlit("ELSE");
    reveal_strlit("END");
    reveal_strlit("ESCAPE");
    reveal_strlit("EXCEPT");
    reveal_strlit("EXCLUSIVE");
    reveal_strlit("EXISTS");
    reveal_strlit("EXPLAIN");
    reveal_strlit("FAIL");
    reveal_strlit("FOR");
    reveal_strlit("FOREIGN");
    reveal_strlit("FROM");
    reveal_strlit("FULL");
    reveal_strlit("GLOB");
    reveal_strlit("GROUP");
    reveal_strlit("HAVING");
    reveal_strlit("IF");
    reveal_strlit("IGNORE");
    reveal_strlit("IMMEDIATE");
    reveal_strlit("IN");
    reveal_strlit("INDEX");
    reveal_strlit("INDEXED");
    reveal_strlit("INITIALLY");
    reveal_strlit("INNER");
    reveal_strlit("INSERT");
    reveal_strlit("INSTEAD");
    reveal_strlit("INTERSECT");
    reveal_strlit("INTO");
    reveal_strlit("IS");
    reveal_strlit("ISNULL");
    reveal_strlit("JOIN");
    reveal_strlit("KEY");
    reveal_strlit("LEFT");
    reveal_strlit("LIKE");
    reveal_strlit("LIMIT");
    reveal_strlit("MATCH");
    reveal_strlit("NATURAL");
    reveal_strlit("NO");
    reveal_strlit("NOT");
    reveal_strlit("NOTNULL");
    reveal_strlit("NULL");
    reveal_strlit("OF");
    reveal_strlit("OFFSET");
    reveal_strlit("ON");
    reveal_strlit("OR");
    reveal_strlit("ORDER");
    reveal_strlit("OUTER");
    reveal_strlit("PLAN");
    reveal_strlit("PRAGMA");
    reveal_strlit("PRIMARY");
    reveal_strlit("QUERY");
    reveal_strlit("RAISE");
    reveal_strlit("RECURSIVE");
    reveal_strlit("REFERENCES");
    reveal_strlit("REGEXP");
    reveal_strlit("REINDEX");
    reveal_strlit("RELEASE");
    reveal_strlit("RENAME");
    reveal_strlit("REPLACE");
    reveal_strlit("RESTRICT");
    reveal_strlit("RIGHT");
    reveal_strlit("ROLLBACK");
    reveal_strlit("ROW");
    reveal_strlit("SAVEPOINT");
    reveal_strlit("SELECT");
    reveal_strlit("SET");
    reveal_strlit("TABLE");
    reveal_strlit("TEMP");
    reveal_strlit("TEMPORARY");
    reveal_strlit("THEN");
    reveal_strlit("TO");
    reveal_strlit("TRANSACTION");
    reveal_strlit("TRIGGER");
    reveal_strlit("UNION");
    reveal_strlit("UNIQUE");
    reveal_strlit("UPDATE");
    reveal_strlit("USING");
    reveal_strlit("VACUUM");
    reveal_strlit("VALUES");
    reveal_strlit("VIEW");
    reveal_strlit("VIRTUAL");
    reveal_strlit("WHEN");
    reveal_strlit("WHERE");
    reveal_strlit("WITH");
    reveal_strlit("WITHOUT");
}

pub open spec fn is_keyword_char(c: char) -> bool {
    ('A' <= c <= 'Z') || c == '_'
}

/// Two reserved words present as whole tokens at the same position consume the
/// same number of bytes: the boundary check keeps a word that is a proper
/// prefix of another from matching when the longer word is present.
pub proof fn lemma_keyword_boundary_unique(s: Seq<u8>, i: int, k1: int, k2: int)
    requires
        0 <= k1 < RESERVED_WORD_COUNT,
        0 <= k2 < RESERVED_WORD_COUNT,
        keyword_with_boundary(s, i, reserved_word(k1)),
        keyword_with_boundary(s, i, reserved_word(k2)),
    ensures
        reserved_word(k1).len() == reserved_word(k2).len(),
{
    lemma_reserved_word_chars();
    let w1 = reserved_word(k1);
    let w2 = reserved_word(k2);
    if w1.len() < w2.len() {
        let m = w1.len() as int;
        assert(byte_matches_char_ci(s[i + m], w2[m]));
        assert(is_keyword_char(w2[m]));
    } else if w2.len() < w1.len() {
        let m = w2.len() as int;
        assert(byte_matches_char_ci(s[i + m], w1[m]));
        assert(is_keyword_char(w1[m]));
    }
}

/// Boundary law, rejection side: while a longer reserved word is present at
/// `i`, no shorter reserved word can match there as a whole token -- the byte
/// after the shorter word is a letter of the longer word, never a boundary.
pub proof fn lemma_shorter_keyword_never_matches(s: Seq<u8>, i: int, k1: int, k2: int)
    requires
        0 <= k1 < RESERVED_WORD_COUNT,
        0 <= k2 < RESERVED_WORD_COUNT,
        reserved_word(k1).len() < reserved_word(k2).len(),
        tag_matches(s, i, reserved_word(k2)),
    ensures
        !keyword_with_boundary(s, i, reserved_word(k1)),
{
    lemma_reserved_word_chars();
    let w1 = reserved_word(k1);
    let w2 = reserved_word(k2);
    if keyword_with_boundary(s, i, w1) {
        let m = w1.len() as int;
        assert(byte_matches_char_ci(s[i + m], w2[m]));
        assert(is_keyword_char(w2[m]));
    }
}

/// Boundary law: when a reserved word is present at `i` as a whole token and
/// is followed by a boundary byte, the recognizer succeeds and consumes
/// exactly that word -- never merely a shorter reserved word that happens to
/// be a prefix of it.
pub proof fn lemma_keyword_boundary(s: Seq<u8>, i: int, k: int)
    requires
        0 <= k < RESERVED_WORD_COUNT,
        keyword_with_boundary(s, i, reserved_word(k)),
        i + reserved_word(k).len() < s.len(),
    ensures
        spec_sql_keyword(s, i) == SpecOutcome::<Seq<u8>>::Success(
            i + reserved_word(k).len(),
            s.subrange(i, i + reserved_word(k).len()),
        ),
{
    lemma_reserved_word_chars();
    let w = reserved_word(k);
    assert forall|k2: int| 0 <= k2 < RESERVED_WORD_COUNT implies !tag_prefix_to_end(
        s,
        i,
        reserved_word(k2),
    ) by {
        let w2 = reserved_word(k2);
        if tag_prefix_to_end(s, i, w2) {
            // all available bytes match w2, and w2 reaches past the end of
            // the input; the boundary byte after w lies among them
            let m = w.len() as int;
            assert(s.len() - i > m);
            assert(byte_matches_char_ci(s[i + m], w2[m]));
            assert(is_keyword_char(w2[m]));
            assert(is_boundary(s[i + m]));
        }
    }
    lemma_keyword_from_finds(s, i, k, 0);
}

proof fn lemma_keyword_from_finds(s: Seq<u8>, i: int, k: int, k0: int)
    requires
        0 <= k0 <= k < RESERVED_WORD_COUNT,
        keyword_with_boundary(s, i, reserved_word(k)),
        forall|k2: int|
            0 <= k2 < RESERVED_WORD_COUNT ==> !tag_prefix_to_end(s, i, reserved_word(k2)),
        forall|k1: int, j: int|
            0 <= k1 < RESERVED_WORD_COUNT && 0 <= j < reserved_word(k1).len()
                ==> is_keyword_char(#[trigger] reserved_word(k1)[j]),
    ensures
        spec_keyword_from(s, i, k0) == SpecOutcome::<Seq<u8>>::Success(
            i + reserved_word(k).len(),
            s.subrange(i, i + reserved_word(k).len()),
        ),
    decreases k - k0,
{
    let w = reserved_word(k);
    let w0 = reserved_word(k0);
    if keyword_with_boundary(s, i, w0) {
        lemma_keyword_boundary_unique(s, i, k0, k);
    } else if k0 < k {
        lemma_keyword_from_finds(s, i, k, k0 + 1);
    }
}

} // verus!
