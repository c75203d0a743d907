use vstd::prelude::*;

verus! {

/// A column reference, as it appears in a column definition or a key clause.
#[derive(Clone, Debug, Default, Hash, PartialEq, Eq)]
pub struct Column {
    pub name: String,
}

impl View for Column {
    type V = Seq<char>;

    open spec fn view(&self) -> Seq<char> {
        self.name@
    }
}

impl DeepView for Column {
    type V = Seq<char>;

    open spec fn deep_view(&self) -> Seq<char> {
        self.name@
    }
}

impl Column {
    pub fn from_name(name: &str) -> (c: Column)
        ensures
            c@ == name@,
    {
        Column { name: name.to_owned() }
    }
}

/// What a table reference denotes: its (possibly qualified) name and the
/// alias it carries, if any.
pub struct SpecTable {
    pub name: Seq<char>,
    pub alias: Option<Seq<char>>,
}

/// A referenced table, with the alias that followed it in the input, if any.
#[derive(Clone, Debug, Default, Hash, PartialEq, Eq)]
pub struct Table {
    pub name: String,
    pub alias: Option<String>,
}

impl View for Table {
    type V = SpecTable;

    open spec fn view(&self) -> SpecTable {
        SpecTable { name: self.name@, alias: self.alias.deep_view() }
    }
}

impl DeepView for Table {
    type V = SpecTable;

    open spec fn deep_view(&self) -> SpecTable {
        self@
    }
}

impl Table {
    pub fn from_name(name: &str) -> (t: Table)
        ensures
            t@.name == name@,
            t@.alias is None,
    {
        Table { name: name.to_owned(), alias: None }
    }
}

/// A column type. Widths are 16-bit; `Int` without an explicit width clause
/// defaults to a width of 32. Signedness and binary-collation markers are
/// accepted by the grammar but not retained here.
#[derive(Clone, Copy, Debug, Hash, PartialEq, Eq, Structural)]
pub enum SqlType {
    Char(u16),
    Varchar(u16),
    Int(u16),
    Bigint(u16),
    Tinyint(u16),
    Tinyblob,
    Blob,
    Double,
    Real,
    Tinytext,
    Mediumtext,
    Text,
    Date,
    Timestamp,
}

impl DeepView for SqlType {
    type V = SqlType;

    open spec fn deep_view(&self) -> SqlType {
        *self
    }
}

/// What a key clause denotes: the kind of key, its optional name, and the
/// ordered column names it covers.
pub enum SpecTableKey {
    PrimaryKey(Seq<Seq<char>>),
    UniqueKey(Option<Seq<char>>, Seq<Seq<char>>),
    Key(Seq<char>, Seq<Seq<char>>),
}

/// A key declared inside a table definition. The column order is the order
/// in which the columns were written, which fixes the key's column order.
#[derive(Clone, Debug, Hash, PartialEq, Eq)]
pub enum TableKey {
    PrimaryKey(Vec<Column>),
    UniqueKey(Option<String>, Vec<Column>),
    Key(String, Vec<Column>),
}

impl DeepView for TableKey {
    type V = SpecTableKey;

    open spec fn deep_view(&self) -> SpecTableKey {
        match self {
            TableKey::PrimaryKey(cols) => SpecTableKey::PrimaryKey(cols.deep_view()),
            TableKey::UniqueKey(name, cols) => SpecTableKey::UniqueKey(
                name.deep_view(),
                cols.deep_view(),
            ),
            TableKey::Key(name, cols) => SpecTableKey::Key(name@, cols.deep_view()),
        }
    }
}

impl View for TableKey {
    type V = SpecTableKey;

    open spec fn view(&self) -> SpecTableKey {
        self.deep_view()
    }
}

/// What a parsed `CREATE TABLE` statement denotes.
pub struct SpecCreateTableStatement {
    pub table: SpecTable,
    pub fields: Seq<Seq<char>>,
    pub keys: Option<Seq<SpecTableKey>>,
}

/// A parsed `CREATE TABLE` statement: the table, the declared columns in
/// declaration order, and the declared keys, if a key clause was present.
#[derive(Clone, Debug, Default, Hash, PartialEq, Eq)]
pub struct CreateTableStatement {
    pub table: Table,
    pub fields: Vec<Column>,
    pub keys: Option<Vec<TableKey>>,
}

impl DeepView for CreateTableStatement {
    type V = SpecCreateTableStatement;

    open spec fn deep_view(&self) -> SpecCreateTableStatement {
        SpecCreateTableStatement {
            table: self.table@,
            fields: self.fields.deep_view(),
            keys: self.keys.deep_view(),
        }
    }
}

impl View for CreateTableStatement {
    type V = SpecCreateTableStatement;

    open spec fn view(&self) -> SpecCreateTableStatement {
        self.deep_view()
    }
}

} // verus!
