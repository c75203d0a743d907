use sql_create::ast::{Column, CreateTableStatement, SqlType, Table, TableKey};
use sql_create::common::{field_list, sql_identifier, table_reference};
use sql_create::create::{
    creation, field_specification_list, key_specification, key_specification_list,
    type_identifier,
};
use sql_create::keywords::sql_keyword;
use sql_create::outcome::{ParseErrorKind, ParseFail};

fn col(name: &str) -> Column {
    Column::from_name(name)
}

#[test]
fn sql_types() {
    let type0 = "bigint(20) unsigned";
    let type1 = "varchar(255) binary";

    let res = type_identifier(type0.as_bytes(), 0);
    assert_eq!(res.unwrap().1, SqlType::Bigint(20));
    let res = type_identifier(type1.as_bytes(), 0);
    assert_eq!(res.unwrap().1, SqlType::Varchar(255));
}

#[test]
fn field_spec() {
    let qstring = "id bigint(20), name varchar(255),";

    let res = field_specification_list(qstring.as_bytes(), 0);
    assert_eq!(res.unwrap().1, vec![col("id"), col("name")]);
}

#[test]
fn simple_create() {
    let qstring = "CREATE TABLE users (id bigint(20), name varchar(255), email varchar(255));";

    let res = creation(qstring.as_bytes(), 0);
    assert_eq!(
        res.unwrap().1,
        CreateTableStatement {
            table: Table::from_name("users"),
            fields: vec![col("id"), col("name"), col("email")],
            ..Default::default()
        }
    );
}

#[test]
fn mediawiki_create() {
    let qstring = "CREATE TABLE user_newtalk (  user_id int(5) NOT NULL default '0',  user_ip \
                   varchar(40) NOT NULL default '') TYPE=MyISAM;";
    let res = creation(qstring.as_bytes(), 0);
    assert_eq!(
        res.unwrap().1,
        CreateTableStatement {
            table: Table::from_name("user_newtalk"),
            fields: vec![col("user_id"), col("user_ip")],
            ..Default::default()
        }
    );
}

#[test]
fn keys() {
    // simple primary key
    let qstring = "CREATE TABLE users (id bigint(20), name varchar(255), email varchar(255), \
                   PRIMARY KEY (id));";

    let res = creation(qstring.as_bytes(), 0);
    assert_eq!(
        res.unwrap().1,
        CreateTableStatement {
            table: Table::from_name("users"),
            fields: vec![col("id"), col("name"), col("email")],
            keys: Some(vec![TableKey::PrimaryKey(vec![col("id")])]),
            ..Default::default()
        }
    );

    // named unique key
    let qstring = "CREATE TABLE users (id bigint(20), name varchar(255), email varchar(255), \
                   UNIQUE KEY id_k (id));";

    let res = creation(qstring.as_bytes(), 0);
    assert_eq!(
        res.unwrap().1,
        CreateTableStatement {
            table: Table::from_name("users"),
            fields: vec![col("id"), col("name"), col("email")],
            keys: Some(vec![TableKey::UniqueKey(
                Some(String::from("id_k")),
                vec![col("id")]
            )]),
            ..Default::default()
        }
    );
}

#[test]
fn int_widths() {
    let res = type_identifier("INT".as_bytes(), 0);
    assert_eq!(res.unwrap().1, SqlType::Int(32));

    let res = type_identifier("INT(11)".as_bytes(), 0);
    assert_eq!(res.unwrap().1, SqlType::Int(11));

    let res = type_identifier("INT(11) UNSIGNED".as_bytes(), 0);
    assert_eq!(res.unwrap(), (16, SqlType::Int(11)));

    let res = type_identifier("INT SIGNED".as_bytes(), 0);
    assert_eq!(res.unwrap(), (10, SqlType::Int(32)));
}

#[test]
fn plain_types() {
    assert_eq!(type_identifier("tinyblob".as_bytes(), 0).unwrap().1, SqlType::Tinyblob);
    assert_eq!(type_identifier("blob".as_bytes(), 0).unwrap().1, SqlType::Blob);
    assert_eq!(type_identifier("double unsigned".as_bytes(), 0).unwrap().1, SqlType::Double);
    assert_eq!(type_identifier("real".as_bytes(), 0).unwrap().1, SqlType::Real);
    assert_eq!(type_identifier("tinytext".as_bytes(), 0).unwrap().1, SqlType::Tinytext);
    assert_eq!(type_identifier("mediumtext".as_bytes(), 0).unwrap().1, SqlType::Mediumtext);
    assert_eq!(type_identifier("TEXT".as_bytes(), 0).unwrap().1, SqlType::Text);
    assert_eq!(type_identifier("date".as_bytes(), 0).unwrap().1, SqlType::Date);
    assert_eq!(type_identifier("timestamp".as_bytes(), 0).unwrap().1, SqlType::Timestamp);
    assert_eq!(type_identifier("char(1) binary".as_bytes(), 0).unwrap().1, SqlType::Char(1));
    assert_eq!(type_identifier("tinyint(4)".as_bytes(), 0).unwrap().1, SqlType::Tinyint(4));
}

#[test]
fn varchar_width_range() {
    assert_eq!(
        type_identifier("VARCHAR(0)".as_bytes(), 0).unwrap().1,
        SqlType::Varchar(0)
    );
    assert_eq!(
        type_identifier("VARCHAR(65535)".as_bytes(), 0).unwrap().1,
        SqlType::Varchar(65535)
    );
    assert_eq!(
        type_identifier("VARCHAR(00255)".as_bytes(), 0).unwrap().1,
        SqlType::Varchar(255)
    );
    assert_eq!(
        type_identifier("VARCHAR(65536)".as_bytes(), 0),
        Err(ParseFail::Failure(ParseErrorKind::MalformedWidth, 8))
    );
    assert_eq!(
        type_identifier("VARCHAR(99999999999999999999)".as_bytes(), 0),
        Err(ParseFail::Failure(ParseErrorKind::MalformedWidth, 8))
    );
    assert_eq!(
        type_identifier("VARCHAR(12a)".as_bytes(), 0),
        Err(ParseFail::Failure(ParseErrorKind::MalformedWidth, 8))
    );
    // a width clause that never closes is no match at all
    assert!(matches!(
        type_identifier("VARCHAR(12".as_bytes(), 0),
        Err(ParseFail::Failure(ParseErrorKind::NoMatch, 0))
    ));
}

#[test]
fn keyword_boundaries() {
    // INTO is present as a whole token: the match must consume all of INTO,
    // not merely its prefix IN
    assert_eq!(sql_keyword("INTO ".as_bytes(), 0), Ok((4, "INTO".as_bytes())));
    assert_eq!(sql_keyword("into;".as_bytes(), 0), Ok((4, "into".as_bytes())));
    assert_eq!(sql_keyword("INTO".as_bytes(), 0), Ok((4, "INTO".as_bytes())));
    assert_eq!(sql_keyword("IN(".as_bytes(), 0), Ok((2, "IN".as_bytes())));
    assert_eq!(sql_keyword("select ".as_bytes(), 0), Ok((6, "select".as_bytes())));
    // INTOX is no keyword, and the boundary check keeps INTO from matching
    assert!(matches!(
        sql_keyword("INTOX".as_bytes(), 0),
        Err(ParseFail::Failure(ParseErrorKind::NoMatch, 0))
    ));
    // INT could still become INTERSECT with 6 more bytes
    assert_eq!(sql_keyword("INT".as_bytes(), 0), Err(ParseFail::Incomplete(6)));
}

#[test]
fn identifiers() {
    let res = sql_identifier("user_id rest".as_bytes(), 0).unwrap();
    assert_eq!(res, (7, String::from("user_id")));

    // a reserved word is no bare identifier
    assert!(sql_identifier("select x".as_bytes(), 0).is_err());

    // but a quoted one is fine
    let res = sql_identifier("`select`".as_bytes(), 0).unwrap();
    assert_eq!(res, (8, String::from("select")));
}

#[test]
fn table_references() {
    let res = table_reference("users ".as_bytes(), 0).unwrap();
    assert_eq!(res.1, Table::from_name("users"));

    let res = table_reference("db.users".as_bytes(), 0).unwrap();
    assert_eq!(res.1, Table::from_name("db.users"));

    let res = table_reference("users AS u".as_bytes(), 0).unwrap();
    assert_eq!(
        res.1,
        Table {
            name: String::from("users"),
            alias: Some(String::from("u")),
        }
    );
}

#[test]
fn column_lists() {
    let res = field_list("a, b, c)".as_bytes(), 0).unwrap();
    assert_eq!(res, (7, vec![col("a"), col("b"), col("c")]));
}

#[test]
fn key_clauses() {
    let res = key_specification("PRIMARY KEY (id)".as_bytes(), 0).unwrap();
    assert_eq!(res.1, TableKey::PrimaryKey(vec![col("id")]));

    let res = key_specification("PRIMARY KEY (id) AUTOINCREMENT".as_bytes(), 0).unwrap();
    assert_eq!(res, (30, TableKey::PrimaryKey(vec![col("id")])));

    let res = key_specification("UNIQUE KEY uk (a, b)".as_bytes(), 0).unwrap();
    assert_eq!(
        res.1,
        TableKey::UniqueKey(Some(String::from("uk")), vec![col("a"), col("b")])
    );

    let res = key_specification("UNIQUE KEY (a)".as_bytes(), 0).unwrap();
    assert_eq!(res.1, TableKey::UniqueKey(None, vec![col("a")]));

    let res = key_specification_list("PRIMARY KEY (id), UNIQUE KEY uk (a)".as_bytes(), 0).unwrap();
    assert_eq!(
        res.1,
        vec![
            TableKey::PrimaryKey(vec![col("id")]),
            TableKey::UniqueKey(Some(String::from("uk")), vec![col("a")]),
        ]
    );
}

#[test]
fn malformed_width_is_fatal() {
    let qstring = "CREATE TABLE t (id bigint(99999));";
    let res = creation(qstring.as_bytes(), 0);
    assert!(matches!(
        res,
        Err(ParseFail::Failure(ParseErrorKind::MalformedWidth, _))
    ));
}

#[test]
fn alias_is_rejected() {
    let qstring = "CREATE TABLE t AS u (id int);";
    let res = creation(qstring.as_bytes(), 0);
    assert_eq!(
        res,
        Err(ParseFail::Failure(ParseErrorKind::AliasNotAllowed, 13))
    );
}

#[test]
fn storage_clauses() {
    let qstring = "CREATE TABLE t (id int) TYPE=MyISAM PACK_KEYS=1;";
    let res = creation(qstring.as_bytes(), 0).unwrap();
    assert_eq!(res.0, qstring.len());
    assert_eq!(
        res.1,
        CreateTableStatement {
            table: Table::from_name("t"),
            fields: vec![col("id")],
            ..Default::default()
        }
    );
}

#[test]
fn remainder_positions() {
    let qstring = "CREATE TABLE t (id int);  ";
    let res = creation(qstring.as_bytes(), 0).unwrap();
    // the terminator consumes trailing whitespace too
    assert_eq!(res.0, qstring.len());

    // a statement without its terminator is incomplete input to the caller,
    // reported as no match of the whole grammar
    assert!(matches!(
        creation("CREATE TABLE t (id int)".as_bytes(), 0),
        Err(ParseFail::Failure(ParseErrorKind::NoMatch, 0))
    ));
}

#[test]
fn modifier_combinations_keep_field_order() {
    let qstring = "CREATE TABLE t (a int NOT NULL AUTO_INCREMENT, b varchar(10) NOT NULL \
                   default '', c, d bigint(8) default 42);";
    let res = creation(qstring.as_bytes(), 0).unwrap();
    assert_eq!(res.1.fields, vec![col("a"), col("b"), col("c"), col("d")]);
}

#[test]
fn quoted_identifiers_in_statements() {
    let qstring = "CREATE TABLE `order` (`select` int, id bigint(20));";
    let res = creation(qstring.as_bytes(), 0).unwrap();
    assert_eq!(res.1.table, Table::from_name("order"));
    assert_eq!(res.1.fields, vec![col("select"), col("id")]);
}

#[test]
fn two_keys_in_one_statement() {
    let qstring =
        "CREATE TABLE t (a int, b int, PRIMARY KEY (a), UNIQUE KEY bk (b));";
    let res = creation(qstring.as_bytes(), 0).unwrap();
    assert_eq!(
        res.1.keys,
        Some(vec![
            TableKey::PrimaryKey(vec![col("a")]),
            TableKey::UniqueKey(Some(String::from("bk")), vec![col("b")]),
        ])
    );
}

#[test]
fn keyword_prefix_is_a_plain_identifier() {
    // "creat" completes no reserved word here: it is an ordinary identifier
    let res = sql_identifier("creat".as_bytes(), 0).unwrap();
    assert_eq!(res, (5, String::from("creat")));
}
