//! Statements and their text.

use vstd::prelude::*;
use vstd::std_specs::vec::axiom_vec_index_decreases;
use crate::context::Context;
use crate::context::RenderContext;
use crate::data_type::DataType;
use crate::data_type::check_data_types;
use crate::data_type::data_type_texts;
use crate::data_type::data_types_wf;
use crate::data_type::write_data_types;
use crate::ddl::AlterTableOperation;
use crate::ddl::ColumnDef;
use crate::ddl::TableConstraint;
use crate::ddl::alter_table_operation_text;
use crate::ddl::alter_table_operation_wf;
use crate::ddl::check_alter_table_operation;
use crate::ddl::check_column_defs;
use crate::ddl::check_optional_ident;
use crate::ddl::check_table_constraints;
use crate::ddl::column_def_texts;
use crate::ddl::column_defs_wf;
use crate::ddl::optional_ident_wf;
use crate::ddl::table_constraint_texts;
use crate::ddl::table_constraints_wf;
use crate::ddl::write_alter_table_operation;
use crate::ddl::write_column_defs;
use crate::ddl::write_table_constraints;
use crate::expr::Expr;
use crate::expr::check_expr;
use crate::expr::check_exprs;
use crate::expr::check_optional_expr;
use crate::expr::expr_text;
use crate::expr::expr_texts;
use crate::expr::expr_wf;
use crate::expr::exprs_wf;
use crate::expr::optional_expr_text;
use crate::expr::optional_expr_wf;
use crate::expr::write_expr;
use crate::expr::write_exprs;
use crate::expr::write_optional_expr;
use crate::ident::Ident;
use crate::ident::ObjectName;
use crate::ident::check_idents;
use crate::ident::check_object_names;
use crate::ident::ident_text;
use crate::ident::ident_texts;
use crate::ident::idents_wf;
use crate::ident::object_name_text;
use crate::ident::object_name_texts;
use crate::ident::object_names_wf;
use crate::ident::write_ident;
use crate::ident::write_idents;
use crate::ident::write_object_name;
use crate::ident::write_object_names;
use crate::query::OrderByExpr;
use crate::query::Query;
use crate::query::check_order_by_exprs;
use crate::query::check_query;
use crate::query::order_by_expr_texts;
use crate::query::order_by_exprs_wf;
use crate::query::query_text;
use crate::query::query_wf;
use crate::query::write_order_by_exprs;
use crate::query::write_query;
use crate::text::appended;
use crate::text::decimal;
use crate::text::escaped;
use crate::text::flag_text;
use crate::text::lemma_empty_literal;
use crate::text::lemma_separated_none;
use crate::text::lemma_separated_step;
use crate::text::put;
use crate::text::separated;
use crate::text::write_decimal;
use crate::text::write_escaped;
use crate::text::write_flag;
use crate::value::Value;
use crate::value::check_value;
use crate::value::value_text;
use crate::value::value_wf;
use crate::value::write_value;

verus! {

broadcast use crate::text::group_sink;

/// What `MSCK` does with the partitions of a table.
#[derive(Debug, Clone, Copy, PartialEq, Eq, Hash)]
pub enum AddDropSync {
    ADD,
    DROP,
    SYNC,
}

/// A top-level statement (SELECT, INSERT, CREATE, etc.).
#[allow(inconsistent_fields)]
#[derive(Debug, PartialEq, Eq, Hash)]
pub enum Statement {
    /// Analyze (Hive).
    Analyze {
        table_name: ObjectName,
        partitions: Option<Vec<Expr>>,
        for_columns: bool,
        columns: Vec<Ident>,
        cache_metadata: bool,
        noscan: bool,
        compute_statistics: bool,
    },
    /// Truncate (Hive).
    Truncate { table_name: ObjectName, partitions: Option<Vec<Expr>> },
    /// Msck (Hive).
    Msck { table_name: ObjectName, repair: bool, partition_action: Option<AddDropSync> },
    /// SELECT.
    Query(Box<Query>),
    /// INSERT.
    Insert {
        /// Only for Sqlite.
        or: Option<SqliteOnConflict>,
        /// TABLE.
        table_name: ObjectName,
        /// COLUMNS.
        columns: Vec<Ident>,
        /// Overwrite (Hive).
        overwrite: bool,
        /// A SQL query that specifies what to insert.
        source: Box<Query>,
        /// Partitioned insert (Hive).
        partitioned: Option<Vec<Expr>>,
        /// Columns defined after PARTITION.
        after_columns: Vec<Ident>,
        /// Whether the insert has the table keyword (Hive).
        table: bool,
    },
    /// INSERT into a directory (Hive).
    Directory {
        overwrite: bool,
        local: bool,
        path: String,
        file_format: Option<FileFormat>,
        source: Box<Query>,
    },
    /// COPY.
    Copy {
        /// TABLE.
        table_name: ObjectName,
        /// COLUMNS.
        columns: Vec<Ident>,
        /// VALUES a vector of values to be copied.
        values: Vec<Option<String>>,
    },
    /// UPDATE.
    Update {
        /// TABLE.
        table_name: ObjectName,
        /// Column assignments.
        assignments: Vec<Assignment>,
        /// WHERE.
        selection: Option<Expr>,
        /// LIMIT.
        limit: Option<Expr>,
    },
    /// DELETE.
    Delete {
        /// FROM.
        table_name: ObjectName,
        /// WHERE.
        selection: Option<Expr>,
    },
    /// CREATE VIEW.
    CreateView {
        or_replace: bool,
        materialized: bool,
        /// View name.
        name: ObjectName,
        columns: Vec<Ident>,
        query: Box<Query>,
        with_options: Vec<SqlOption>,
    },
    /// CREATE TABLE. An external table has a file format and a location.
    CreateTable {
        or_replace: bool,
        /// Whether the table is temporary. The flag has no text.
        temporary: bool,
        external: bool,
        if_not_exists: bool,
        /// Table name.
        name: ObjectName,
        /// Optional schema.
        columns: Vec<ColumnDef>,
        constraints: Vec<TableConstraint>,
        hive_distribution: HiveDistributionStyle,
        hive_formats: Option<HiveFormat>,
        table_properties: Vec<SqlOption>,
        with_options: Vec<SqlOption>,
        file_format: Option<FileFormat>,
        location: Option<String>,
        query: Option<Box<Query>>,
        without_rowid: bool,
        like: Option<ObjectName>,
    },
    /// SQLite's `CREATE VIRTUAL TABLE .. USING <module_name> (<module_args>)`.
    CreateVirtualTable {
        name: ObjectName,
        if_not_exists: bool,
        module_name: Ident,
        module_args: Vec<Ident>,
    },
    /// CREATE INDEX.
    CreateIndex {
        /// Index name.
        name: ObjectName,
        table_name: ObjectName,
        columns: Vec<OrderByExpr>,
        unique: bool,
        if_not_exists: bool,
    },
    /// ALTER TABLE.
    AlterTable {
        /// Table name.
        name: ObjectName,
        operation: AlterTableOperation,
    },
    /// DROP.
    Drop {
        /// The type of the object to drop: TABLE, VIEW, etc.
        object_type: ObjectType,
        /// An optional `IF EXISTS` clause. (Non-standard.)
        if_exists: bool,
        /// One or more objects to drop. (ANSI SQL requires exactly one.)
        names: Vec<ObjectName>,
        /// Whether `CASCADE` was specified. This will be `false` when
        /// `RESTRICT` or no drop behavior at all was specified.
        cascade: bool,
        /// Hive allows you specify whether the table's stored data will be
        /// deleted along with the dropped table.
        purge: bool,
    },
    /// SET <variable>.
    SetVariable { local: bool, hivevar: bool, variable: Ident, value: Vec<SetVariableValue> },
    /// SHOW <variable>.
    ShowVariable { variable: Vec<Ident> },
    /// USE <database>.
    UseDatabase { variable: Ident },
    /// SHOW COLUMNS.
    ShowColumns {
        extended: bool,
        full: bool,
        table_name: ObjectName,
        filter: Option<ShowStatementFilter>,
    },
    /// `{ BEGIN [ TRANSACTION | WORK ] | START TRANSACTION } ...`.
    StartTransaction { modes: Vec<TransactionMode> },
    /// `SET [ SESSION ] TRANSACTION ...`.
    SetTransaction { session: bool, modes: Vec<TransactionMode> },
    /// `SET NAMES <charset>`.
    SetNames { variable: Ident },
    /// `COMMIT [ TRANSACTION | WORK ] [ AND [ NO ] CHAIN ]`.
    Commit { chain: bool },
    /// `SAVEPOINT <name>`.
    Savepoint { variable: Ident },
    /// `ROLLBACK [ TRANSACTION | WORK ] [ AND [ NO ] CHAIN ]` or
    /// `ROLLBACK TO SAVEPOINT <name>`.
    Rollback { chain: bool, savepoint: Option<Ident> },
    /// `RELEASE SAVEPOINT <name>`.
    Release { variable: Ident },
    /// CREATE SCHEMA.
    CreateSchema { schema_name: ObjectName, if_not_exists: bool },
    /// CREATE DATABASE.
    CreateDatabase {
        db_name: ObjectName,
        if_not_exists: bool,
        location: Option<String>,
        managed_location: Option<String>,
    },
    /// `ASSERT <condition> [AS <message>]`.
    Assert { condition: Expr, message: Option<Expr> },
    /// `DEALLOCATE [ PREPARE ] { name | ALL }`.
    Deallocate { name: Ident, prepare: bool },
    /// `EXECUTE name [ ( parameter [, ...] ) ]`.
    Execute { name: Ident, parameters: Vec<Expr> },
    /// `PREPARE name [ ( data_type [, ...] ) ] AS statement`.
    Prepare { name: Ident, data_types: Vec<DataType>, statement: Box<Statement> },
    /// EXPLAIN.
    Explain {
        /// Carry out the command and show actual run times and other statistics.
        analyze: bool,
        /// Display additional information regarding the plan.
        verbose: bool,
        /// A SQL query that specifies what to explain.
        statement: Box<Statement>,
    },
}

/// What SQLite does when an insert meets a conflict.
#[derive(Debug, Clone, Copy, PartialEq, Eq, Hash)]
pub enum SqliteOnConflict {
    Rollback,
    Abort,
    Fail,
    Ignore,
    Replace,
}

/// SQL assignment `foo = expr` as used in an update.
#[derive(Debug, PartialEq, Eq, Hash)]
pub struct Assignment {
    pub id: Ident,
    pub value: Expr,
}

/// External table's available file format.
#[derive(Debug, Clone, Copy, PartialEq, Eq, Hash)]
pub enum FileFormat {
    TEXTFILE,
    SEQUENCEFILE,
    ORC,
    PARQUET,
    AVRO,
    RCFILE,
    JSONFILE,
}

/// The kind of object that a `DROP` removes.
#[derive(Debug, Clone, Copy, PartialEq, Eq, Hash)]
pub enum ObjectType {
    Table,
    View,
    Index,
    Schema,
}

/// How Hive distributes the rows of a table.
#[allow(inconsistent_fields)]
#[derive(Debug, PartialEq, Eq, Hash)]
pub enum HiveDistributionStyle {
    PARTITIONED { columns: Vec<ColumnDef> },
    CLUSTERED { columns: Vec<Ident>, sorted_by: Vec<ColumnDef>, num_buckets: i32 },
    SKEWED { columns: Vec<ColumnDef>, on: Vec<ColumnDef>, stored_as_directories: bool },
    NONE,
}

/// The row format of a Hive table.
#[derive(Debug, Clone, PartialEq, Eq, Hash)]
pub enum HiveRowFormat {
    SERDE { class: String },
    DELIMITED,
}

/// The storage format of a Hive table.
#[allow(inconsistent_fields)]
#[derive(Debug, PartialEq, Eq, Hash)]
pub enum HiveIOFormat {
    IOF { input_format: Expr, output_format: Expr },
    FileFormat { format: FileFormat },
}

/// Row format, storage and location of a Hive table.
#[derive(Debug, PartialEq, Eq, Hash)]
pub struct HiveFormat {
    pub row_format: Option<HiveRowFormat>,
    pub storage: Option<HiveIOFormat>,
    pub location: Option<String>,
}

/// An option of the form `name = value`.
#[derive(Debug, Clone, PartialEq, Eq, Hash)]
pub struct SqlOption {
    pub name: Ident,
    pub value: Value,
}

/// A mode of a transaction.
#[derive(Debug, Clone, Copy, PartialEq, Eq, Hash)]
pub enum TransactionMode {
    AccessMode(TransactionAccessMode),
    IsolationLevel(TransactionIsolationLevel),
}

/// Whether a transaction may write.
#[derive(Debug, Clone, Copy, PartialEq, Eq, Hash)]
pub enum TransactionAccessMode {
    ReadOnly,
    ReadWrite,
}

/// The isolation level of a transaction.
#[derive(Debug, Clone, Copy, PartialEq, Eq, Hash)]
pub enum TransactionIsolationLevel {
    ReadUncommitted,
    ReadCommitted,
    RepeatableRead,
    Serializable,
}

/// The filter of a `SHOW` statement.
#[allow(inconsistent_fields)]
#[derive(Debug, PartialEq, Eq, Hash)]
pub enum ShowStatementFilter {
    Like(String),
    /// A case-insensitive pattern. It has no text.
    ILike(String),
    Where(Expr),
}

/// The value that a `SET` gives to a variable.
#[derive(Debug, Clone, PartialEq, Eq, Hash)]
pub enum SetVariableValue {
    Ident(Ident),
    Literal(Value),
}

/// The keywords of a partition action of `MSCK`.
pub open spec fn add_drop_sync_text(action: AddDropSync) -> Seq<char> {
    match action {
        AddDropSync::SYNC => "SYNC PARTITIONS"@,
        AddDropSync::DROP => "DROP PARTITIONS"@,
        AddDropSync::ADD => "ADD PARTITIONS"@,
    }
}

/// The keyword of a file format.
pub open spec fn file_format_text(format: FileFormat) -> Seq<char> {
    match format {
        FileFormat::TEXTFILE => "TEXTFILE"@,
        FileFormat::SEQUENCEFILE => "SEQUENCEFILE"@,
        FileFormat::ORC => "ORC"@,
        FileFormat::PARQUET => "PARQUET"@,
        FileFormat::AVRO => "AVRO"@,
        FileFormat::RCFILE => "RCFILE"@,
        FileFormat::JSONFILE => "JSONFILE"@,
    }
}

/// The keyword of an object type.
pub open spec fn object_type_text(object_type: ObjectType) -> Seq<char> {
    match object_type {
        ObjectType::Table => "TABLE"@,
        ObjectType::View => "VIEW"@,
        ObjectType::Index => "INDEX"@,
        ObjectType::Schema => "SCHEMA"@,
    }
}

/// The keyword of a conflict action.
pub open spec fn sqlite_on_conflict_text(action: SqliteOnConflict) -> Seq<char> {
    match action {
        SqliteOnConflict::Rollback => "ROLLBACK"@,
        SqliteOnConflict::Abort => "ABORT"@,
        SqliteOnConflict::Fail => "FAIL"@,
        SqliteOnConflict::Ignore => "IGNORE"@,
        SqliteOnConflict::Replace => "REPLACE"@,
    }
}

/// The keywords of a transaction's access mode.
pub open spec fn transaction_access_mode_text(mode: TransactionAccessMode) -> Seq<char> {
    match mode {
        TransactionAccessMode::ReadOnly => "READ ONLY"@,
        TransactionAccessMode::ReadWrite => "READ WRITE"@,
    }
}

/// The keywords of a transaction's isolation level.
pub open spec fn transaction_isolation_level_text(level: TransactionIsolationLevel) -> Seq<char> {
    match level {
        TransactionIsolationLevel::ReadUncommitted => "READ UNCOMMITTED"@,
        TransactionIsolationLevel::ReadCommitted => "READ COMMITTED"@,
        TransactionIsolationLevel::RepeatableRead => "REPEATABLE READ"@,
        TransactionIsolationLevel::Serializable => "SERIALIZABLE"@,
    }
}

/// The text of a transaction mode.
pub open spec fn transaction_mode_text(mode: TransactionMode) -> Seq<char> {
    match mode {
        TransactionMode::AccessMode(access) => transaction_access_mode_text(access),
        TransactionMode::IsolationLevel(level) => "ISOLATION LEVEL "@
            + transaction_isolation_level_text(level),
    }
}

/// The texts of the transaction modes of `s`, in order.
pub open spec fn transaction_mode_texts(s: Seq<TransactionMode>) -> Seq<Seq<char>> {
    Seq::new(s.len(), |i: int| transaction_mode_text(s[i]))
}

/// A space and the modes with commas between them; nothing for no mode.
pub open spec fn transaction_modes_clause_text(modes: Seq<TransactionMode>) -> Seq<char> {
    flag_text(modes.len() > 0, " "@ + separated(transaction_mode_texts(modes), ", "@))
}

/// The text of a value given to a variable.
pub open spec fn set_variable_value_text(v: SetVariableValue, ctx: Context) -> Seq<char> {
    match v {
        SetVariableValue::Ident(id) => ident_text(id, ctx),
        SetVariableValue::Literal(literal) => value_text(literal),
    }
}

/// Whether a value given to a variable is well formed.
pub open spec fn set_variable_value_wf(v: SetVariableValue) -> bool {
    match v {
        SetVariableValue::Ident(id) => id.well_formed(),
        SetVariableValue::Literal(literal) => value_wf(literal),
    }
}

/// The texts of the variable values of `s`, in order.
pub open spec fn set_variable_value_texts(
    s: Seq<SetVariableValue>,
    ctx: Context,
) -> Seq<Seq<char>> {
    Seq::new(s.len(), |i: int| set_variable_value_text(s[i], ctx))
}

/// Every variable value of `s` is well formed.
pub open spec fn set_variable_values_wf(s: Seq<SetVariableValue>) -> bool {
    forall|i: int| 0 <= i < s.len() ==> set_variable_value_wf(#[trigger] s[i])
}

/// The text of an option: name, ` = ` and value.
pub open spec fn sql_option_text(o: SqlOption, ctx: Context) -> Seq<char> {
    ident_text(o.name, ctx) + " = "@ + value_text(o.value)
}

/// Whether an option is well formed.
pub open spec fn sql_option_wf(o: SqlOption) -> bool {
    o.name.well_formed() && value_wf(o.value)
}

/// The texts of the options of `s`, in order.
pub open spec fn sql_option_texts(s: Seq<SqlOption>, ctx: Context) -> Seq<Seq<char>> {
    Seq::new(s.len(), |i: int| sql_option_text(s[i], ctx))
}

/// Every option of `s` is well formed.
pub open spec fn sql_options_wf(s: Seq<SqlOption>) -> bool {
    forall|i: int| 0 <= i < s.len() ==> sql_option_wf(#[trigger] s[i])
}

/// `lead`, the options with commas between them and `)`; nothing for no
/// option.
pub open spec fn options_clause_text(
    lead: Seq<char>,
    options: Seq<SqlOption>,
    ctx: Context,
) -> Seq<char> {
    flag_text(
        options.len() > 0,
        lead + separated(sql_option_texts(options, ctx), ", "@) + ")"@,
    )
}

/// `open`, the identifiers with commas between them and `close`; nothing for
/// no identifier.
pub open spec fn ident_clause_text(
    open: Seq<char>,
    list: Seq<Ident>,
    close: Seq<char>,
    ctx: Context,
) -> Seq<char> {
    flag_text(list.len() > 0, open + separated(ident_texts(list, ctx), ", "@) + close)
}

/// `lead`, the partitions with commas between them and `close`; nothing
/// where no partition is given.
pub open spec fn partition_clause_text(
    lead: Seq<char>,
    partitions: Option<Vec<Expr>>,
    close: Seq<char>,
    ctx: Context,
) -> Seq<char>
    decreases partitions, 1int,
{
    match partitions {
        Some(parts) => flag_text(
            parts@.len() > 0,
            lead + separated(expr_texts(parts@, ctx), ", "@) + close,
        ),
        None => Seq::empty(),
    }
}

/// The partitions, where any are given, are well formed.
pub open spec fn partitions_wf(partitions: Option<Vec<Expr>>) -> bool
    decreases partitions, 1int,
{
    match partitions {
        Some(parts) => exprs_wf(parts@),
        None => true,
    }
}

/// `lead`, the text and a closing quote, or nothing where there is no text.
pub open spec fn optional_quoted_text(lead: Seq<char>, text: Option<String>) -> Seq<char> {
    match text {
        Some(t) => lead + t@ + "'"@,
        None => Seq::empty(),
    }
}

/// The text of an assignment: name, ` = ` and value.
pub open spec fn assignment_text(a: Assignment, ctx: Context) -> Seq<char>
    decreases a, 1int,
{
    ident_text(a.id, ctx) + " = "@ + expr_text(a.value, ctx)
}

/// Whether an assignment is well formed.
pub open spec fn assignment_wf(a: Assignment) -> bool
    decreases a, 1int,
{
    a.id.well_formed() && expr_wf(a.value)
}

/// The text of one value of a `COPY` payload: the value, or `\N` for none.
pub open spec fn copy_value_text(v: Option<String>) -> Seq<char> {
    match v {
        Some(s) => s@,
        None => "\\N"@,
    }
}

/// The texts of the payload values of `s`, in order.
pub open spec fn copy_value_texts(s: Seq<Option<String>>) -> Seq<Seq<char>> {
    Seq::new(s.len(), |i: int| copy_value_text(s[i]))
}

/// The text of a filter of a `SHOW` statement. A case-insensitive pattern
/// has none.
pub open spec fn show_statement_filter_text(filter: ShowStatementFilter, ctx: Context) -> Seq<char>
    decreases filter, 1int,
{
    match filter {
        ShowStatementFilter::Like(pattern) => "LIKE '"@ + escaped(pattern@) + "'"@,
        ShowStatementFilter::Where(e) => "WHERE "@ + expr_text(e, ctx),
        ShowStatementFilter::ILike(_) => Seq::empty(),
    }
}

/// Whether a filter of a `SHOW` statement is well formed.
pub open spec fn show_statement_filter_wf(filter: ShowStatementFilter) -> bool
    decreases filter, 1int,
{
    match filter {
        ShowStatementFilter::Where(e) => expr_wf(e),
        _ => true,
    }
}

/// The text of a Hive distribution clause, with the space that parts it from
/// what stands before.
pub open spec fn hive_distribution_text(d: HiveDistributionStyle, ctx: Context) -> Seq<char>
    decreases d, 1int,
{
    match d {
        HiveDistributionStyle::PARTITIONED { columns } => " PARTITIONED BY ("@ + separated(
            column_def_texts(columns@, ctx),
            ", "@,
        ) + ")"@,
        HiveDistributionStyle::CLUSTERED { columns, sorted_by, num_buckets } => " CLUSTERED BY ("@
            + separated(ident_texts(columns@, ctx), ", "@) + ")"@ + flag_text(
            sorted_by@.len() > 0,
            " SORTED BY ("@ + separated(column_def_texts(sorted_by@, ctx), ", "@) + ")"@,
        ) + flag_text(
            num_buckets > 0,
            " INTO "@ + decimal(num_buckets as nat) + " BUCKETS"@,
        ),
        HiveDistributionStyle::SKEWED { columns, on, stored_as_directories } => " SKEWED BY ("@
            + separated(column_def_texts(columns@, ctx), ", "@) + ") ON ("@ + separated(
            column_def_texts(on@, ctx),
            ", "@,
        ) + ")"@ + flag_text(stored_as_directories, " STORED AS DIRECTORIES"@),
        HiveDistributionStyle::NONE => Seq::empty(),
    }
}

/// Whether a Hive distribution clause is well formed.
pub open spec fn hive_distribution_wf(d: HiveDistributionStyle) -> bool
    decreases d, 1int,
{
    match d {
        HiveDistributionStyle::PARTITIONED { columns } => column_defs_wf(columns@),
        HiveDistributionStyle::CLUSTERED { columns, sorted_by, num_buckets } => idents_wf(columns@)
            && column_defs_wf(sorted_by@),
        HiveDistributionStyle::SKEWED { columns, on, stored_as_directories } => column_defs_wf(
            columns@,
        ) && column_defs_wf(on@),
        HiveDistributionStyle::NONE => true,
    }
}

/// The text of a Hive row format, with the space before it.
pub open spec fn hive_row_format_text(row_format: Option<HiveRowFormat>) -> Seq<char> {
    match row_format {
        Some(HiveRowFormat::SERDE { class }) => " ROW FORMAT SERDE '"@ + class@ + "'"@,
        Some(HiveRowFormat::DELIMITED) => " ROW FORMAT DELIMITED"@,
        None => Seq::empty(),
    }
}

/// The text of a Hive storage format, with the space before it. A plain
/// file format is left to the external clause where the table is
/// external.
pub open spec fn hive_storage_text(
    storage: Option<HiveIOFormat>,
    external: bool,
    ctx: Context,
) -> Seq<char>
    decreases storage, 1int,
{
    match storage {
        Some(HiveIOFormat::IOF { input_format, output_format }) => " STORED AS INPUTFORMAT "@
            + expr_text(input_format, ctx) + " OUTPUTFORMAT "@ + expr_text(output_format, ctx),
        Some(HiveIOFormat::FileFormat { format }) => flag_text(
            !external,
            " STORED AS "@ + file_format_text(format),
        ),
        None => Seq::empty(),
    }
}

/// Whether a Hive storage format is well formed.
pub open spec fn hive_storage_wf(storage: Option<HiveIOFormat>) -> bool
    decreases storage, 1int,
{
    match storage {
        Some(HiveIOFormat::IOF { input_format, output_format }) => expr_wf(input_format)
            && expr_wf(output_format),
        _ => true,
    }
}

/// The text of the Hive formats of a table: row format, storage and, unless
/// the table is external, location.
pub open spec fn hive_format_text(h: HiveFormat, external: bool, ctx: Context) -> Seq<char>
    decreases h, 2int,
{
    hive_row_format_text(h.row_format) + hive_storage_text(h.storage, external, ctx) + flag_text(
        !external,
        optional_quoted_text(" LOCATION '"@, h.location),
    )
}

/// The text of the storage clause of an external table.
pub open spec fn external_storage_text(
    file_format: Option<FileFormat>,
    location: Option<String>,
) -> Seq<char> {
    " STORED AS "@ + file_format_text(file_format.unwrap()) + " LOCATION '"@ + location.unwrap()@
        + "'"@
}

/// The head of a `CREATE TABLE`: the keywords, the flags and the name.
pub open spec fn create_table_head_text(
    or_replace: bool,
    external: bool,
    if_not_exists: bool,
    name: ObjectName,
    ctx: Context,
) -> Seq<char> {
    "CREATE "@ + flag_text(or_replace, "OR REPLACE "@) + flag_text(external, "EXTERNAL "@)
        + "TABLE "@ + flag_text(if_not_exists, "IF NOT EXISTS "@) + object_name_text(name, ctx)
}

/// The list of columns and constraints of a `CREATE TABLE`, in parentheses
/// after a space. Where both are empty it is ` ()` for a table without a
/// query, and nothing for a table made from a query.
pub open spec fn create_table_columns_text(s: Statement, ctx: Context) -> Seq<char>
    decreases s, 1int,
{
    match s {
        Statement::CreateTable { columns, constraints, query, .. } => if columns@.len() > 0
            || constraints@.len() > 0 {
            " ("@ + separated(column_def_texts(columns@, ctx), ", "@) + flag_text(
                columns@.len() > 0 && constraints@.len() > 0,
                ", "@,
            ) + separated(table_constraint_texts(constraints@, ctx), ", "@) + ")"@
        } else if query is None {
            " ()"@
        } else {
            Seq::empty()
        },
        _ => Seq::empty(),
    }
}

/// The clauses of a `CREATE TABLE` that follow the list of columns and
/// constraints.
pub open spec fn create_table_tail_text(s: Statement, ctx: Context) -> Seq<char>
    decreases s, 1int,
{
    match s {
        Statement::CreateTable {
            external,
            hive_distribution,
            hive_formats,
            table_properties,
            with_options,
            file_format,
            location,
            query,
            without_rowid,
            like,
            ..
        } => flag_text(without_rowid, " WITHOUT ROWID"@) + match like {
            Some(l) => " LIKE "@ + object_name_text(l, ctx),
            None => Seq::empty(),
        } + hive_distribution_text(hive_distribution, ctx) + match hive_formats {
            Some(h) => hive_format_text(h, external, ctx),
            None => Seq::empty(),
        } + flag_text(external, external_storage_text(file_format, location))
            + options_clause_text(" TBLPROPERTIES ("@, table_properties@, ctx)
            + options_clause_text(" WITH ("@, with_options@, ctx) + match query {
            Some(q) => " AS "@ + query_text(*q, ctx),
            None => Seq::empty(),
        },
        _ => Seq::empty(),
    }
}

/// The text of a `CREATE TABLE`: head, columns and constraints, and the
/// further clauses in their fixed order.
pub open spec fn create_table_text(s: Statement, ctx: Context) -> Seq<char>
    decreases s, 2int,
{
    match s {
        Statement::CreateTable { or_replace, external, if_not_exists, name, .. } =>
            create_table_head_text(or_replace, external, if_not_exists, name, ctx)
                + create_table_columns_text(s, ctx) + create_table_tail_text(s, ctx),
        _ => Seq::empty(),
    }
}

/// The head of an `INSERT`: the keywords and the table's name, up to and
/// with the space that follows it.
pub open spec fn insert_head_text(
    or: Option<SqliteOnConflict>,
    overwrite: bool,
    table: bool,
    table_name: ObjectName,
    ctx: Context,
) -> Seq<char> {
    match or {
        Some(action) => "INSERT OR "@ + sqlite_on_conflict_text(action) + " INTO "@
            + object_name_text(table_name, ctx) + " "@,
        None => "INSERT "@ + if overwrite {
            "OVERWRITE"@
        } else {
            "INTO"@
        } + flag_text(table, " TABLE"@) + " "@ + object_name_text(table_name, ctx) + " "@,
    }
}

/// The text of an `INSERT`.
pub open spec fn insert_text(s: Statement, ctx: Context) -> Seq<char>
    decreases s, 2int,
{
    match s {
        Statement::Insert {
            or,
            table_name,
            columns,
            overwrite,
            source,
            partitioned,
            after_columns,
            table,
        } => insert_head_text(or, overwrite, table, table_name, ctx) + ident_clause_text(
            "("@,
            columns@,
            ") "@,
            ctx,
        ) + partition_clause_text("PARTITION ("@, partitioned, ") "@, ctx) + ident_clause_text(
            "("@,
            after_columns@,
            ") "@,
            ctx,
        ) + query_text(*source, ctx),
        _ => Seq::empty(),
    }
}

/// The text of an `ANALYZE TABLE`.
pub open spec fn analyze_text(s: Statement, ctx: Context) -> Seq<char>
    decreases s, 2int,
{
    match s {
        Statement::Analyze {
            table_name,
            partitions,
            for_columns,
            columns,
            cache_metadata,
            noscan,
            compute_statistics,
        } => "ANALYZE TABLE "@ + object_name_text(table_name, ctx) + partition_clause_text(
            " PARTITION ("@,
            partitions,
            ")"@,
            ctx,
        ) + flag_text(compute_statistics, " COMPUTE STATISTICS"@) + flag_text(noscan, " NOSCAN"@)
            + flag_text(cache_metadata, " CACHE METADATA"@) + flag_text(
            for_columns,
            " FOR COLUMNS"@ + ident_clause_text(" "@, columns@, Seq::empty(), ctx),
        ),
        _ => Seq::empty(),
    }
}

/// The text of a `COPY` with its payload.
pub open spec fn copy_text(
    table_name: ObjectName,
    columns: Seq<Ident>,
    values: Seq<Option<String>>,
    ctx: Context,
) -> Seq<char> {
    "COPY "@ + object_name_text(table_name, ctx) + ident_clause_text(" ("@, columns, ")"@, ctx)
        + " FROM stdin; "@ + flag_text(
        values.len() > 0,
        "\n"@ + separated(copy_value_texts(values), "\t"@),
    ) + "\n\\."@
}

/// The text of a `CREATE VIEW`.
pub open spec fn create_view_text(s: Statement, ctx: Context) -> Seq<char>
    decreases s, 2int,
{
    match s {
        Statement::CreateView { or_replace, materialized, name, columns, query, with_options } =>
            "CREATE "@ + flag_text(or_replace, "OR REPLACE "@) + flag_text(
            materialized,
            "MATERIALIZED "@,
        ) + "VIEW "@ + object_name_text(name, ctx) + ident_clause_text(
            " ("@,
            columns@,
            ")"@,
            ctx,
        ) + options_clause_text(" WITH ("@, with_options@, ctx) + " AS "@ + query_text(
            *query,
            ctx,
        ),
        _ => Seq::empty(),
    }
}

/// The text of an `INSERT .. DIRECTORY`.
pub open spec fn directory_text(s: Statement, ctx: Context) -> Seq<char>
    decreases s, 2int,
{
    match s {
        Statement::Directory { overwrite, local, path, file_format, source } => "INSERT"@
            + flag_text(overwrite, " OVERWRITE"@) + flag_text(local, " LOCAL"@) + " DIRECTORY '"@
            + path@ + "'"@ + match file_format {
            Some(format) => " STORED AS "@ + file_format_text(format),
            None => Seq::empty(),
        } + " "@ + query_text(*source, ctx),
        _ => Seq::empty(),
    }
}

/// The text of a `CREATE DATABASE`.
pub open spec fn create_database_text(
    db_name: ObjectName,
    if_not_exists: bool,
    location: Option<String>,
    managed_location: Option<String>,
    ctx: Context,
) -> Seq<char> {
    "CREATE DATABASE"@ + flag_text(if_not_exists, " IF NOT EXISTS"@) + " "@ + object_name_text(
        db_name,
        ctx,
    )
        + optional_quoted_text(" LOCATION '"@, location) + optional_quoted_text(
        " MANAGEDLOCATION '"@,
        managed_location,
    )
}

/// The text of a `SET` of a variable.
pub open spec fn set_variable_text(
    local: bool,
    hivevar: bool,
    variable: Ident,
    value: Seq<SetVariableValue>,
    ctx: Context,
) -> Seq<char> {
    "SET "@ + flag_text(local, "LOCAL "@) + flag_text(hivevar, "HIVEVAR:"@) + ident_text(
        variable,
        ctx,
    ) + " = "@ + separated(set_variable_value_texts(value, ctx), ", "@)
}

/// The text of a `DROP`.
pub open spec fn drop_text(
    object_type: ObjectType,
    if_exists: bool,
    names: Seq<ObjectName>,
    cascade: bool,
    purge: bool,
    ctx: Context,
) -> Seq<char> {
    "DROP "@ + object_type_text(object_type) + flag_text(if_exists, " IF EXISTS"@) + " "@
        + separated(object_name_texts(names, ctx), ", "@) + flag_text(cascade, " CASCADE"@)
        + flag_text(purge, " PURGE"@)
}

/// The text of a `ROLLBACK`.
pub open spec fn rollback_text(chain: bool, savepoint: Option<Ident>, ctx: Context) -> Seq<char> {
    match savepoint {
        Some(name) => "ROLLBACK TO SAVEPOINT "@ + ident_text(name, ctx),
        None => "ROLLBACK"@ + flag_text(chain, " AND CHAIN"@),
    }
}

/// The SQL text of a statement.
pub open spec fn statement_text(s: Statement, ctx: Context) -> Seq<char>
    decreases s, 3int,
{
    match s {
        Statement::Explain { analyze, verbose, statement } => "EXPLAIN "@ + flag_text(
            analyze,
            "ANALYZE "@,
        ) + flag_text(verbose, "VERBOSE "@) + statement_text(*statement, ctx),
        Statement::Query(q) => query_text(*q, ctx),
        Statement::Directory { .. } => directory_text(s, ctx),
        Statement::Msck { table_name, repair, partition_action } => "MSCK "@ + flag_text(
            repair,
            "REPAIR "@,
        ) + "TABLE "@ + object_name_text(table_name, ctx) + match partition_action {
            Some(action) => " "@ + add_drop_sync_text(action),
            None => Seq::empty(),
        },
        Statement::Truncate { table_name, partitions } => "TRUNCATE TABLE "@ + object_name_text(
            table_name,
            ctx,
        ) + partition_clause_text(" PARTITION ("@, partitions, ")"@, ctx),
        Statement::Analyze { .. } => analyze_text(s, ctx),
        Statement::Insert { .. } => insert_text(s, ctx),
        Statement::Copy { table_name, columns, values } => copy_text(
            table_name,
            columns@,
            values@,
            ctx,
        ),
        Statement::Update { table_name, assignments, selection, limit } => "UPDATE "@
            + object_name_text(table_name, ctx) + flag_text(
            assignments@.len() > 0,
            " SET "@ + separated(assignment_texts(assignments@, ctx), ", "@),
        ) + optional_expr_text(" WHERE "@, selection, ctx) + optional_expr_text(
            " LIMIT "@,
            limit,
            ctx,
        ),
        Statement::Delete { table_name, selection } => "DELETE FROM "@ + object_name_text(
            table_name,
            ctx,
        ) + optional_expr_text(" WHERE "@, selection, ctx),
        Statement::CreateDatabase { db_name, if_not_exists, location, managed_location } =>
            create_database_text(db_name, if_not_exists, location, managed_location, ctx),
        Statement::CreateView { .. } => create_view_text(s, ctx),
        Statement::CreateTable { .. } => create_table_text(s, ctx),
        Statement::CreateVirtualTable { name, if_not_exists, module_name, module_args } =>
            "CREATE VIRTUAL TABLE "@ + flag_text(if_not_exists, "IF NOT EXISTS "@)
                + object_name_text(name, ctx) + " USING "@ + ident_text(module_name, ctx)
                + ident_clause_text(" ("@, module_args@, ")"@, ctx),
        Statement::CreateIndex { name, table_name, columns, unique, if_not_exists } => "CREATE "@
            + flag_text(unique, "UNIQUE "@) + "INDEX "@ + flag_text(
            if_not_exists,
            "IF NOT EXISTS "@,
        ) + object_name_text(name, ctx) + " ON "@ + object_name_text(table_name, ctx) + "("@
            + separated(order_by_expr_texts(columns@, ctx), ","@) + ")"@,
        Statement::AlterTable { name, operation } => "ALTER TABLE "@ + object_name_text(name, ctx)
            + " "@ + alter_table_operation_text(operation, ctx),
        Statement::Drop { object_type, if_exists, names, cascade, purge } => drop_text(
            object_type,
            if_exists,
            names@,
            cascade,
            purge,
            ctx,
        ),
        Statement::SetVariable { local, hivevar, variable, value } => set_variable_text(
            local,
            hivevar,
            variable,
            value@,
            ctx,
        ),
        Statement::ShowVariable { variable } => "SHOW "@ + separated(
            ident_texts(variable@, ctx),
            " "@,
        ),
        Statement::UseDatabase { variable } => "USE "@ + ident_text(variable, ctx),
        Statement::ShowColumns { extended, full, table_name, filter } => "SHOW "@ + flag_text(
            extended,
            "EXTENDED "@,
        ) + flag_text(full, "FULL "@) + "COLUMNS FROM "@ + object_name_text(table_name, ctx)
            + match filter {
            Some(flt) => " "@ + show_statement_filter_text(flt, ctx),
            None => Seq::empty(),
        },
        Statement::StartTransaction { modes } => "START TRANSACTION"@
            + transaction_modes_clause_text(modes@),
        Statement::SetTransaction { session, modes } => "SET"@ + flag_text(session, " SESSION"@)
            + " TRANSACTION"@ + transaction_modes_clause_text(modes@),
        Statement::SetNames { variable } => "SET NAMES "@ + ident_text(variable, ctx),
        Statement::Commit { chain } => "COMMIT"@ + flag_text(chain, " AND CHAIN"@),
        Statement::Savepoint { variable } => "SAVEPOINT "@ + ident_text(variable, ctx),
        Statement::Rollback { chain, savepoint } => rollback_text(chain, savepoint, ctx),
        Statement::Release { variable } => "RELEASE SAVEPOINT "@ + ident_text(variable, ctx),
        Statement::CreateSchema { schema_name, if_not_exists } => "CREATE SCHEMA "@ + flag_text(
            if_not_exists,
            "IF NOT EXISTS "@,
        ) + object_name_text(schema_name, ctx),
        Statement::Assert { condition, message } => "ASSERT "@ + expr_text(condition, ctx)
            + optional_expr_text(" AS "@, message, ctx),
        Statement::Deallocate { name, prepare } => "DEALLOCATE "@ + flag_text(
            prepare,
            "PREPARE "@,
        ) + ident_text(name, ctx),
        Statement::Execute { name, parameters } => "EXECUTE "@ + ident_text(name, ctx) + flag_text(
            parameters@.len() > 0,
            "("@ + separated(expr_texts(parameters@, ctx), ", "@) + ")"@,
        ),
        Statement::Prepare { name, data_types, statement } => "PREPARE "@ + ident_text(name, ctx)
            + " "@ + flag_text(
            data_types@.len() > 0,
            "("@ + separated(data_type_texts(data_types@, ctx), ", "@) + ") "@,
        ) + "AS "@ + statement_text(*statement, ctx),
    }
}

/// The SQL texts of the assignments of `s`, in order.
pub open spec fn assignment_texts(s: Seq<Assignment>, ctx: Context) -> Seq<Seq<char>>
    decreases s, 0int,
{
    Seq::new(
        s.len(),
        |i: int|
            if 0 <= i < s.len() {
                assignment_text(s[i], ctx)
            } else {
                Seq::empty()
            },
    )
}

/// Every assignment of `s` is well formed.
pub open spec fn assignments_wf(s: Seq<Assignment>) -> bool
    decreases s, 0int,
{
    forall|i: int| 0 <= i < s.len() ==> assignment_wf(#[trigger] s[i])
}

/// Whether a `CREATE TABLE` is well formed: every part that has a text is,
/// and an external table has a file format and a location.
pub open spec fn create_table_wf(s: Statement) -> bool
    decreases s, 2int,
{
    match s {
        Statement::CreateTable {
            or_replace,
            temporary,
            external,
            if_not_exists,
            name,
            columns,
            constraints,
            hive_distribution,
            hive_formats,
            table_properties,
            with_options,
            file_format,
            location,
            query,
            without_rowid,
            like,
        } => {
            &&& name.well_formed()
            &&& column_defs_wf(columns@)
            &&& table_constraints_wf(constraints@)
            &&& match like {
                Some(l) => l.well_formed(),
                None => true,
            }
            &&& hive_distribution_wf(hive_distribution)
            &&& match hive_formats {
                Some(h) => hive_storage_wf(h.storage),
                None => true,
            }
            &&& (external ==> file_format is Some && location is Some)
            &&& sql_options_wf(table_properties@)
            &&& sql_options_wf(with_options@)
            &&& match query {
                Some(q) => query_wf(*q),
                None => true,
            }
        },
        _ => true,
    }
}

/// Whether a statement meets the structural invariants that rendering
/// relies on, in every part that has a text: quote markers are valid, a
/// decimal scale comes with a precision, a seconds-only interval has no last
/// field, and an external table has a file format and a location.
pub open spec fn statement_wf(s: Statement) -> bool
    decreases s, 3int,
{
    match s {
        Statement::Explain { analyze, verbose, statement } => statement_wf(*statement),
        Statement::Query(q) => query_wf(*q),
        Statement::Directory { overwrite, local, path, file_format, source } => query_wf(*source),
        Statement::Msck { table_name, repair, partition_action } => table_name.well_formed(),
        Statement::Truncate { table_name, partitions } => table_name.well_formed()
            && partitions_wf(partitions),
        Statement::Analyze {
            table_name,
            partitions,
            for_columns,
            columns,
            cache_metadata,
            noscan,
            compute_statistics,
        } => table_name.well_formed() && partitions_wf(partitions) && (for_columns ==> idents_wf(
            columns@,
        )),
        Statement::Insert {
            or,
            table_name,
            columns,
            overwrite,
            source,
            partitioned,
            after_columns,
            table,
        } => table_name.well_formed() && idents_wf(columns@) && partitions_wf(partitioned)
            && idents_wf(after_columns@) && query_wf(*source),
        Statement::Copy { table_name, columns, values } => table_name.well_formed() && idents_wf(
            columns@,
        ),
        Statement::Update { table_name, assignments, selection, limit } => table_name.well_formed()
            && assignments_wf(assignments@) && optional_expr_wf(selection) && optional_expr_wf(
            limit,
        ),
        Statement::Delete { table_name, selection } => table_name.well_formed()
            && optional_expr_wf(selection),
        Statement::CreateDatabase { db_name, if_not_exists, location, managed_location } =>
            db_name.well_formed(),
        Statement::CreateView { or_replace, materialized, name, columns, query, with_options } =>
            name.well_formed() && sql_options_wf(with_options@) && idents_wf(columns@) && query_wf(
                *query,
            ),
        Statement::CreateTable { .. } => create_table_wf(s),
        Statement::CreateVirtualTable { name, if_not_exists, module_name, module_args } =>
            name.well_formed() && module_name.well_formed() && idents_wf(module_args@),
        Statement::CreateIndex { name, table_name, columns, unique, if_not_exists } =>
            name.well_formed() && table_name.well_formed() && order_by_exprs_wf(columns@),
        Statement::AlterTable { name, operation } => name.well_formed()
            && alter_table_operation_wf(operation),
        Statement::Drop { object_type, if_exists, names, cascade, purge } => object_names_wf(
            names@,
        ),
        Statement::SetVariable { local, hivevar, variable, value } => variable.well_formed()
            && set_variable_values_wf(value@),
        Statement::ShowVariable { variable } => idents_wf(variable@),
        Statement::UseDatabase { variable } => variable.well_formed(),
        Statement::ShowColumns { extended, full, table_name, filter } => table_name.well_formed()
            && match filter {
            Some(flt) => show_statement_filter_wf(flt),
            None => true,
        },
        Statement::StartTransaction { modes } => true,
        Statement::SetTransaction { session, modes } => true,
        Statement::SetNames { variable } => variable.well_formed(),
        Statement::Commit { chain } => true,
        Statement::Savepoint { variable } => variable.well_formed(),
        Statement::Rollback { chain, savepoint } => optional_ident_wf(savepoint),
        Statement::Release { variable } => variable.well_formed(),
        Statement::CreateSchema { schema_name, if_not_exists } => schema_name.well_formed(),
        Statement::Assert { condition, message } => expr_wf(condition) && optional_expr_wf(message),
        Statement::Deallocate { name, prepare } => name.well_formed(),
        Statement::Execute { name, parameters } => name.well_formed() && exprs_wf(parameters@),
        Statement::Prepare { name, data_types, statement } => name.well_formed() && data_types_wf(
            data_types@,
        ) && statement_wf(*statement),
    }
}

/// The keywords of a partition action of `MSCK`.
pub fn add_drop_sync_keyword(action: &AddDropSync) -> (r: &'static str)
    ensures
        r@ == add_drop_sync_text(*action),
{
    match action {
        AddDropSync::SYNC => "SYNC PARTITIONS",
        AddDropSync::DROP => "DROP PARTITIONS",
        AddDropSync::ADD => "ADD PARTITIONS",
    }
}

/// The keyword of a file format.
pub fn file_format_keyword(format: &FileFormat) -> (r: &'static str)
    ensures
        r@ == file_format_text(*format),
{
    match format {
        FileFormat::TEXTFILE => "TEXTFILE",
        FileFormat::SEQUENCEFILE => "SEQUENCEFILE",
        FileFormat::ORC => "ORC",
        FileFormat::PARQUET => "PARQUET",
        FileFormat::AVRO => "AVRO",
        FileFormat::RCFILE => "RCFILE",
        FileFormat::JSONFILE => "JSONFILE",
    }
}

/// The keyword of an object type.
pub fn object_type_keyword(object_type: &ObjectType) -> (r: &'static str)
    ensures
        r@ == object_type_text(*object_type),
{
    match object_type {
        ObjectType::Table => "TABLE",
        ObjectType::View => "VIEW",
        ObjectType::Index => "INDEX",
        ObjectType::Schema => "SCHEMA",
    }
}

/// The keyword of a conflict action.
pub fn sqlite_on_conflict_keyword(action: &SqliteOnConflict) -> (r: &'static str)
    ensures
        r@ == sqlite_on_conflict_text(*action),
{
    match action {
        SqliteOnConflict::Rollback => "ROLLBACK",
        SqliteOnConflict::Abort => "ABORT",
        SqliteOnConflict::Fail => "FAIL",
        SqliteOnConflict::Ignore => "IGNORE",
        SqliteOnConflict::Replace => "REPLACE",
    }
}

/// The keywords of a transaction's access mode.
pub fn transaction_access_mode_keyword(mode: &TransactionAccessMode) -> (r: &'static str)
    ensures
        r@ == transaction_access_mode_text(*mode),
{
    match mode {
        TransactionAccessMode::ReadOnly => "READ ONLY",
        TransactionAccessMode::ReadWrite => "READ WRITE",
    }
}

/// The keywords of a transaction's isolation level.
pub fn transaction_isolation_level_keyword(level: &TransactionIsolationLevel) -> (r: &'static str)
    ensures
        r@ == transaction_isolation_level_text(*level),
{
    match level {
        TransactionIsolationLevel::ReadUncommitted => "READ UNCOMMITTED",
        TransactionIsolationLevel::ReadCommitted => "READ COMMITTED",
        TransactionIsolationLevel::RepeatableRead => "REPEATABLE READ",
        TransactionIsolationLevel::Serializable => "SERIALIZABLE",
    }
}

/// Appends the text of a transaction mode.
pub fn write_transaction_mode(mode: &TransactionMode, f: &mut String)
    ensures
        final(f)@ == appended(old(f)@, transaction_mode_text(*mode)),
{
    match mode {
        TransactionMode::AccessMode(access) => put(f, transaction_access_mode_keyword(access)),
        TransactionMode::IsolationLevel(level) => {
            put(f, "ISOLATION LEVEL ");
            put(f, transaction_isolation_level_keyword(level));
        },
    }
}

/// Appends a space and the modes with commas between them, where there is
/// any mode.
pub fn write_transaction_modes_clause(modes: &Vec<TransactionMode>, f: &mut String)
    ensures
        final(f)@ == appended(old(f)@, transaction_modes_clause_text(modes@)),
{
    if modes.len() > 0 {
        put(f, " ");
        let ghost base = f@;
        let ghost parts = transaction_mode_texts(modes@);
    proof {
        lemma_separated_none(parts, ", "@);
    }
        let mut i: usize = 0;
        while i < modes.len()
            invariant
                0 <= i <= modes.len(),
                parts == transaction_mode_texts(modes@),
                f@ == appended(base, separated(parts.take(i as int), ", "@)),
            decreases modes.len() - i,
        {
            if i > 0 {
                put(f, ", ");
            }
            proof {
                lemma_separated_step(parts, ", "@, i as int);
            }
            write_transaction_mode(&modes[i], f);
            i = i + 1;
        }
        proof {
            lemma_separated_none(parts, ", "@);
        }
    }
}

/// Appends the text of a value given to a variable.
pub fn write_set_variable_value(v: &SetVariableValue, f: &mut String, ctx: &RenderContext)
    requires
        set_variable_value_wf(*v),
    ensures
        final(f)@ == appended(old(f)@, set_variable_value_text(*v, ctx@)),
{
    match v {
        SetVariableValue::Ident(id) => write_ident(id, f, ctx),
        SetVariableValue::Literal(literal) => write_value(literal, f),
    }
}

/// Appends the variable values of `list` with `sep` between them.
pub fn write_set_variable_values(
    list: &Vec<SetVariableValue>,
    sep: &str,
    f: &mut String,
    ctx: &RenderContext,
)
    requires
        set_variable_values_wf(list@),
    ensures
        final(f)@ == appended(old(f)@, separated(set_variable_value_texts(list@, ctx@), sep@)),
{
    let ghost parts = set_variable_value_texts(list@, ctx@);
    proof {
        lemma_separated_none(parts, sep@);
    }
    let mut i: usize = 0;
    while i < list.len()
        invariant
            0 <= i <= list.len(),
            set_variable_values_wf(list@),
            parts == set_variable_value_texts(list@, ctx@),
            f@ == appended(old(f)@, separated(parts.take(i as int), sep@)),
        decreases list.len() - i,
    {
        if i > 0 {
            put(f, sep);
        }
        proof {
            lemma_separated_step(parts, sep@, i as int);
        }
        write_set_variable_value(&list[i], f, ctx);
        i = i + 1;
    }
    proof {
        lemma_separated_none(parts, sep@);
    }
}

/// Appends the text of an option.
pub fn write_sql_option(o: &SqlOption, f: &mut String, ctx: &RenderContext)
    requires
        sql_option_wf(*o),
    ensures
        final(f)@ == appended(old(f)@, sql_option_text(*o, ctx@)),
{
    write_ident(&o.name, f, ctx);
    put(f, " = ");
    write_value(&o.value, f);
}

/// Appends the options of `list` with `sep` between them.
pub fn write_sql_options(list: &Vec<SqlOption>, sep: &str, f: &mut String, ctx: &RenderContext)
    requires
        sql_options_wf(list@),
    ensures
        final(f)@ == appended(old(f)@, separated(sql_option_texts(list@, ctx@), sep@)),
{
    let ghost parts = sql_option_texts(list@, ctx@);
    proof {
        lemma_separated_none(parts, sep@);
    }
    let mut i: usize = 0;
    while i < list.len()
        invariant
            0 <= i <= list.len(),
            sql_options_wf(list@),
            parts == sql_option_texts(list@, ctx@),
            f@ == appended(old(f)@, separated(parts.take(i as int), sep@)),
        decreases list.len() - i,
    {
        if i > 0 {
            put(f, sep);
        }
        proof {
            lemma_separated_step(parts, sep@, i as int);
        }
        write_sql_option(&list[i], f, ctx);
        i = i + 1;
    }
    proof {
        lemma_separated_none(parts, sep@);
    }
}

/// Appends `lead`, the options and `)`, where there is any option.
pub fn write_options_clause(
    lead: &str,
    options: &Vec<SqlOption>,
    f: &mut String,
    ctx: &RenderContext,
)
    requires
        sql_options_wf(options@),
    ensures
        final(f)@ == appended(old(f)@, options_clause_text(lead@, options@, ctx@)),
{
    if options.len() > 0 {
        put(f, lead);
        write_sql_options(options, ", ", f, ctx);
        put(f, ")");
    }
}

/// Appends `open`, the identifiers and `close`, where there is any
/// identifier.
pub fn write_ident_clause(
    open: &str,
    list: &Vec<Ident>,
    close: &str,
    f: &mut String,
    ctx: &RenderContext,
)
    requires
        idents_wf(list@),
    ensures
        final(f)@ == appended(old(f)@, ident_clause_text(open@, list@, close@, ctx@)),
{
    if list.len() > 0 {
        put(f, open);
        write_idents(list, ", ", f, ctx);
        put(f, close);
    }
}

/// Appends `lead`, the partitions and `close`, where any partition is given.
pub fn write_partition_clause(
    lead: &str,
    partitions: &Option<Vec<Expr>>,
    close: &str,
    f: &mut String,
    ctx: &RenderContext,
)
    requires
        partitions_wf(*partitions),
    ensures
        final(f)@ == appended(old(f)@, partition_clause_text(lead@, *partitions, close@, ctx@)),
    decreases partitions, 1int,
{
    if let Some(parts) = partitions {
        if parts.len() > 0 {
            put(f, lead);
            write_exprs(parts, ", ", f, ctx);
            put(f, close);
        }
    }
}

/// Appends `lead`, the text and a closing quote, where there is a text.
pub fn write_optional_quoted(lead: &str, text: &Option<String>, f: &mut String)
    ensures
        final(f)@ == appended(old(f)@, optional_quoted_text(lead@, *text)),
{
    if let Some(t) = text {
        put(f, lead);
        put(f, t.as_str());
        put(f, "'");
    }
}

/// Appends the text of an assignment.
pub fn write_assignment(a: &Assignment, f: &mut String, ctx: &RenderContext)
    requires
        assignment_wf(*a),
    ensures
        final(f)@ == appended(old(f)@, assignment_text(*a, ctx@)),
    decreases a, 1int,
{
    write_ident(&a.id, f, ctx);
    put(f, " = ");
    write_expr(&a.value, f, ctx);
}

fn write_copy_values(values: &Vec<Option<String>>, f: &mut String)
    ensures
        final(f)@ == appended(old(f)@, separated(copy_value_texts(values@), "\t"@)),
{
    let ghost parts = copy_value_texts(values@);
    proof {
        lemma_separated_none(parts, "\t"@);
    }
    let mut i: usize = 0;
    while i < values.len()
        invariant
            0 <= i <= values.len(),
            parts == copy_value_texts(values@),
            f@ == appended(old(f)@, separated(parts.take(i as int), "\t"@)),
        decreases values.len() - i,
    {
        if i > 0 {
            put(f, "\t");
        }
        proof {
            lemma_separated_step(parts, "\t"@, i as int);
        }
        match &values[i] {
            Some(v) => put(f, v.as_str()),
            None => put(f, "\\N"),
        }
        i = i + 1;
    }
    proof {
        lemma_separated_none(parts, "\t"@);
    }
}

/// Appends the text of a filter of a `SHOW` statement.
pub fn write_show_statement_filter(
    filter: &ShowStatementFilter,
    f: &mut String,
    ctx: &RenderContext,
)
    requires
        show_statement_filter_wf(*filter),
    ensures
        final(f)@ == appended(old(f)@, show_statement_filter_text(*filter, ctx@)),
    decreases filter, 1int,
{
    match filter {
        ShowStatementFilter::Like(pattern) => {
            put(f, "LIKE '");
            write_escaped(f, pattern.as_str());
            put(f, "'");
        },
        ShowStatementFilter::Where(e) => {
            put(f, "WHERE ");
            write_expr(e, f, ctx);
        },
        ShowStatementFilter::ILike(_) => {},
    }
}

fn write_buckets(num_buckets: i32, f: &mut String)
    ensures
        final(f)@ == appended(old(f)@, flag_text(
            num_buckets > 0,
            " INTO "@ + decimal(num_buckets as nat) + " BUCKETS"@,
        )),
{
    if num_buckets > 0 {
        put(f, " INTO ");
        write_decimal(f, num_buckets as u64);
        put(f, " BUCKETS");
    }
}

fn write_hive_distribution(d: &HiveDistributionStyle, f: &mut String, ctx: &RenderContext)
    requires
        hive_distribution_wf(*d),
    ensures
        final(f)@ == appended(old(f)@, hive_distribution_text(*d, ctx@)),
    decreases d, 1int,
{
    match d {
        HiveDistributionStyle::PARTITIONED { columns } => {
            put(f, " PARTITIONED BY (");
            write_column_defs(columns, ", ", f, ctx);
            put(f, ")");
        },
        HiveDistributionStyle::CLUSTERED { columns, sorted_by, num_buckets } => {
            put(f, " CLUSTERED BY (");
            write_idents(columns, ", ", f, ctx);
            put(f, ")");
            if sorted_by.len() > 0 {
                put(f, " SORTED BY (");
                write_column_defs(sorted_by, ", ", f, ctx);
                put(f, ")");
            }
            write_buckets(*num_buckets, f);
        },
        HiveDistributionStyle::SKEWED { columns, on, stored_as_directories } => {
            put(f, " SKEWED BY (");
            write_column_defs(columns, ", ", f, ctx);
            put(f, ") ON (");
            write_column_defs(on, ", ", f, ctx);
            put(f, ")");
            write_flag(f, *stored_as_directories, " STORED AS DIRECTORIES");
        },
        HiveDistributionStyle::NONE => {},
    }
}

fn write_hive_row_format(row_format: &Option<HiveRowFormat>, f: &mut String)
    ensures
        final(f)@ == appended(old(f)@, hive_row_format_text(*row_format)),
{
    match row_format {
        Some(HiveRowFormat::SERDE { class }) => {
            put(f, " ROW FORMAT SERDE '");
            put(f, class.as_str());
            put(f, "'");
        },
        Some(HiveRowFormat::DELIMITED) => put(f, " ROW FORMAT DELIMITED"),
        None => {},
    }
}

fn write_hive_storage(
    storage: &Option<HiveIOFormat>,
    external: bool,
    f: &mut String,
    ctx: &RenderContext,
)
    requires
        hive_storage_wf(*storage),
    ensures
        final(f)@ == appended(old(f)@, hive_storage_text(*storage, external, ctx@)),
    decreases storage, 1int,
{
    match storage {
        Some(HiveIOFormat::IOF { input_format, output_format }) => {
            put(f, " STORED AS INPUTFORMAT ");
            write_expr(input_format, f, ctx);
            put(f, " OUTPUTFORMAT ");
            write_expr(output_format, f, ctx);
        },
        Some(HiveIOFormat::FileFormat { format }) => {
            if !external {
                put(f, " STORED AS ");
                put(f, file_format_keyword(format));
            }
        },
        None => {},
    }
}

fn write_hive_format(h: &HiveFormat, external: bool, f: &mut String, ctx: &RenderContext)
    requires
        hive_storage_wf(h.storage),
    ensures
        final(f)@ == appended(old(f)@, hive_format_text(*h, external, ctx@)),
    decreases h, 2int,
{
    write_hive_row_format(&h.row_format, f);
    write_hive_storage(&h.storage, external, f, ctx);
    if !external {
        write_optional_quoted(" LOCATION '", &h.location, f);
    }
}

fn write_external_storage(
    file_format: &Option<FileFormat>,
    location: &Option<String>,
    f: &mut String,
)
    requires
        file_format is Some,
        location is Some,
    ensures
        final(f)@ == appended(old(f)@, external_storage_text(*file_format, *location)),
{
    if let Some(format) = file_format {
        if let Some(loc) = location {
            put(f, " STORED AS ");
            put(f, file_format_keyword(format));
            put(f, " LOCATION '");
            put(f, loc.as_str());
            put(f, "'");
        }
    }
}

fn write_create_table_head(
    or_replace: bool,
    external: bool,
    if_not_exists: bool,
    name: &ObjectName,
    f: &mut String,
    ctx: &RenderContext,
)
    requires
        name.well_formed(),
    ensures
        final(f)@ == appended(old(f)@, create_table_head_text(
            or_replace,
            external,
            if_not_exists,
            *name,
            ctx@,
        )),
{
    put(f, "CREATE ");
    write_flag(f, or_replace, "OR REPLACE ");
    write_flag(f, external, "EXTERNAL ");
    put(f, "TABLE ");
    write_flag(f, if_not_exists, "IF NOT EXISTS ");
    write_object_name(name, f, ctx);
}

fn write_create_table_columns(s: &Statement, f: &mut String, ctx: &RenderContext)
    requires
        s is CreateTable,
        create_table_wf(*s),
    ensures
        final(f)@ == appended(old(f)@, create_table_columns_text(*s, ctx@)),
    decreases s, 1int,
{
    if let Statement::CreateTable { columns, constraints, query, .. } = s {
        if columns.len() > 0 || constraints.len() > 0 {
            put(f, " (");
            write_column_defs(columns, ", ", f, ctx);
            write_flag(f, columns.len() > 0 && constraints.len() > 0, ", ");
            write_table_constraints(constraints, ", ", f, ctx);
            put(f, ")");
        } else if query.is_none() {
            put(f, " ()");
        }
    }
}

#[verifier::rlimit(50)]
fn write_create_table_tail(s: &Statement, f: &mut String, ctx: &RenderContext)
    requires
        s is CreateTable,
        create_table_wf(*s),
    ensures
        final(f)@ == appended(old(f)@, create_table_tail_text(*s, ctx@)),
    decreases s, 1int,
{
    if let Statement::CreateTable {
        external,
        hive_distribution,
        hive_formats,
        table_properties,
        with_options,
        file_format,
        location,
        query,
        without_rowid,
        like,
        ..
    } = s {
        write_flag(f, *without_rowid, " WITHOUT ROWID");
        if let Some(l) = like {
            put(f, " LIKE ");
            write_object_name(l, f, ctx);
        }
        write_hive_distribution(hive_distribution, f, ctx);
        if let Some(h) = hive_formats {
            write_hive_format(h, *external, f, ctx);
        }
        if *external {
            write_external_storage(file_format, location, f);
        }
        write_options_clause(" TBLPROPERTIES (", table_properties, f, ctx);
        write_options_clause(" WITH (", with_options, f, ctx);
        if let Some(q) = query {
            put(f, " AS ");
            write_query(q, f, ctx);
        }
    }
}

fn write_create_table(s: &Statement, f: &mut String, ctx: &RenderContext)
    requires
        s is CreateTable,
        create_table_wf(*s),
    ensures
        final(f)@ == appended(old(f)@, create_table_text(*s, ctx@)),
    decreases s, 2int,
{
    if let Statement::CreateTable { or_replace, external, if_not_exists, name, .. } = s {
        write_create_table_head(*or_replace, *external, *if_not_exists, name, f, ctx);
        write_create_table_columns(s, f, ctx);
        write_create_table_tail(s, f, ctx);
    }
}

fn write_insert_head(
    or: &Option<SqliteOnConflict>,
    overwrite: bool,
    table: bool,
    table_name: &ObjectName,
    f: &mut String,
    ctx: &RenderContext,
)
    requires
        table_name.well_formed(),
    ensures
        final(f)@ == appended(old(f)@, insert_head_text(*or, overwrite, table, *table_name, ctx@)),
{
    if let Some(action) = or {
        put(f, "INSERT OR ");
        put(f, sqlite_on_conflict_keyword(action));
        put(f, " INTO ");
        write_object_name(table_name, f, ctx);
        put(f, " ");
    } else {
        put(f, "INSERT ");
        if overwrite {
            put(f, "OVERWRITE");
        } else {
            put(f, "INTO");
        }
        write_flag(f, table, " TABLE");
        put(f, " ");
        write_object_name(table_name, f, ctx);
        put(f, " ");
    }
}

fn write_insert(s: &Statement, f: &mut String, ctx: &RenderContext)
    requires
        s is Insert,
        statement_wf(*s),
    ensures
        final(f)@ == appended(old(f)@, insert_text(*s, ctx@)),
    decreases s, 2int,
{
    if let Statement::Insert {
        or,
        table_name,
        columns,
        overwrite,
        source,
        partitioned,
        after_columns,
        table,
    } = s {
        write_insert_head(or, *overwrite, *table, table_name, f, ctx);
        write_ident_clause("(", columns, ") ", f, ctx);
        write_partition_clause("PARTITION (", partitioned, ") ", f, ctx);
        write_ident_clause("(", after_columns, ") ", f, ctx);
        write_query(source, f, ctx);
    }
}

fn write_analyze(s: &Statement, f: &mut String, ctx: &RenderContext)
    requires
        s is Analyze,
        statement_wf(*s),
    ensures
        final(f)@ == appended(old(f)@, analyze_text(*s, ctx@)),
    decreases s, 2int,
{
    if let Statement::Analyze {
        table_name,
        partitions,
        for_columns,
        columns,
        cache_metadata,
        noscan,
        compute_statistics,
    } = s {
        put(f, "ANALYZE TABLE ");
        write_object_name(table_name, f, ctx);
        write_partition_clause(" PARTITION (", partitions, ")", f, ctx);
        write_flag(f, *compute_statistics, " COMPUTE STATISTICS");
        write_flag(f, *noscan, " NOSCAN");
        write_flag(f, *cache_metadata, " CACHE METADATA");
        if *for_columns {
            put(f, " FOR COLUMNS");
            proof {
                lemma_empty_literal();
            }
            write_ident_clause(" ", columns, "", f, ctx);
        }
    }
}

fn write_copy(
    table_name: &ObjectName,
    columns: &Vec<Ident>,
    values: &Vec<Option<String>>,
    f: &mut String,
    ctx: &RenderContext,
)
    requires
        table_name.well_formed(),
        idents_wf(columns@),
    ensures
        final(f)@ == appended(old(f)@, copy_text(*table_name, columns@, values@, ctx@)),
{
    put(f, "COPY ");
    write_object_name(table_name, f, ctx);
    write_ident_clause(" (", columns, ")", f, ctx);
    put(f, " FROM stdin; ");
    if values.len() > 0 {
        put(f, "\n");
        write_copy_values(values, f);
    }
    put(f, "\n\\.");
}

fn write_create_view(s: &Statement, f: &mut String, ctx: &RenderContext)
    requires
        s is CreateView,
        statement_wf(*s),
    ensures
        final(f)@ == appended(old(f)@, create_view_text(*s, ctx@)),
    decreases s, 2int,
{
    if let Statement::CreateView { or_replace, materialized, name, columns, query, with_options } =
        s {
        put(f, "CREATE ");
        write_flag(f, *or_replace, "OR REPLACE ");
        write_flag(f, *materialized, "MATERIALIZED ");
        put(f, "VIEW ");
        write_object_name(name, f, ctx);
        write_ident_clause(" (", columns, ")", f, ctx);
        write_options_clause(" WITH (", with_options, f, ctx);
        put(f, " AS ");
        write_query(query, f, ctx);
    }
}

fn write_directory(s: &Statement, f: &mut String, ctx: &RenderContext)
    requires
        s is Directory,
        statement_wf(*s),
    ensures
        final(f)@ == appended(old(f)@, directory_text(*s, ctx@)),
    decreases s, 2int,
{
    if let Statement::Directory { overwrite, local, path, file_format, source } = s {
        put(f, "INSERT");
        write_flag(f, *overwrite, " OVERWRITE");
        write_flag(f, *local, " LOCAL");
        put(f, " DIRECTORY '");
        put(f, path.as_str());
        put(f, "'");
        if let Some(format) = file_format {
            put(f, " STORED AS ");
            put(f, file_format_keyword(format));
        }
        put(f, " ");
        write_query(source, f, ctx);
    }
}

fn write_create_database(
    db_name: &ObjectName,
    if_not_exists: bool,
    location: &Option<String>,
    managed_location: &Option<String>,
    f: &mut String,
    ctx: &RenderContext,
)
    requires
        db_name.well_formed(),
    ensures
        final(f)@ == appended(old(f)@, create_database_text(
            *db_name,
            if_not_exists,
            *location,
            *managed_location,
            ctx@,
        )),
{
    put(f, "CREATE DATABASE");
    write_flag(f, if_not_exists, " IF NOT EXISTS");
    put(f, " ");
    write_object_name(db_name, f, ctx);
    write_optional_quoted(" LOCATION '", location, f);
    write_optional_quoted(" MANAGEDLOCATION '", managed_location, f);
}

fn write_set_variable(
    local: bool,
    hivevar: bool,
    variable: &Ident,
    value: &Vec<SetVariableValue>,
    f: &mut String,
    ctx: &RenderContext,
)
    requires
        variable.well_formed(),
        set_variable_values_wf(value@),
    ensures
        final(f)@ == appended(old(f)@, set_variable_text(local, hivevar, *variable, value@, ctx@)),
{
    put(f, "SET ");
    write_flag(f, local, "LOCAL ");
    write_flag(f, hivevar, "HIVEVAR:");
    write_ident(variable, f, ctx);
    put(f, " = ");
    write_set_variable_values(value, ", ", f, ctx);
}

fn write_drop(
    object_type: &ObjectType,
    if_exists: bool,
    names: &Vec<ObjectName>,
    cascade: bool,
    purge: bool,
    f: &mut String,
    ctx: &RenderContext,
)
    requires
        object_names_wf(names@),
    ensures
        final(f)@ == appended(old(f)@, drop_text(*object_type, if_exists, names@, cascade, purge, ctx@)),
{
    put(f, "DROP ");
    put(f, object_type_keyword(object_type));
    write_flag(f, if_exists, " IF EXISTS");
    put(f, " ");
    write_object_names(names, ", ", f, ctx);
    write_flag(f, cascade, " CASCADE");
    write_flag(f, purge, " PURGE");
}

fn write_rollback(chain: bool, savepoint: &Option<Ident>, f: &mut String, ctx: &RenderContext)
    requires
        optional_ident_wf(*savepoint),
    ensures
        final(f)@ == appended(old(f)@, rollback_text(chain, *savepoint, ctx@)),
{
    if let Some(name) = savepoint {
        put(f, "ROLLBACK TO SAVEPOINT ");
        write_ident(name, f, ctx);
    } else {
        put(f, "ROLLBACK");
        write_flag(f, chain, " AND CHAIN");
    }
}

fn write_explain_statement(s: &Statement, f: &mut String, ctx: &RenderContext)
    requires
        s is Explain,
        statement_wf(*s),
    ensures
        final(f)@ == appended(old(f)@, statement_text(*s, ctx@)),
    decreases s, 2int,
{
    if let Statement::Explain { analyze, verbose, statement } = s {
        put(f, "EXPLAIN ");
        write_flag(f, *analyze, "ANALYZE ");
        write_flag(f, *verbose, "VERBOSE ");
        write_statement(statement, f, ctx);
    }
}

fn write_msck_statement(s: &Statement, f: &mut String, ctx: &RenderContext)
    requires
        s is Msck,
        statement_wf(*s),
    ensures
        final(f)@ == appended(old(f)@, statement_text(*s, ctx@)),
    decreases s, 2int,
{
    if let Statement::Msck { table_name, repair, partition_action } = s {
        put(f, "MSCK ");
        write_flag(f, *repair, "REPAIR ");
        put(f, "TABLE ");
        write_object_name(table_name, f, ctx);
        if let Some(action) = partition_action {
            put(f, " ");
            put(f, add_drop_sync_keyword(action));
        }
    }
}

fn write_truncate_statement(s: &Statement, f: &mut String, ctx: &RenderContext)
    requires
        s is Truncate,
        statement_wf(*s),
    ensures
        final(f)@ == appended(old(f)@, statement_text(*s, ctx@)),
    decreases s, 2int,
{
    if let Statement::Truncate { table_name, partitions } = s {
        put(f, "TRUNCATE TABLE ");
        write_object_name(table_name, f, ctx);
        write_partition_clause(" PARTITION (", partitions, ")", f, ctx);
    }
}

fn write_update_statement(s: &Statement, f: &mut String, ctx: &RenderContext)
    requires
        s is Update,
        statement_wf(*s),
    ensures
        final(f)@ == appended(old(f)@, statement_text(*s, ctx@)),
    decreases s, 2int,
{
    if let Statement::Update { table_name, assignments, selection, limit } = s {
        put(f, "UPDATE ");
        write_object_name(table_name, f, ctx);
        if assignments.len() > 0 {
            put(f, " SET ");
            write_assignments(assignments, ", ", f, ctx);
        }
        write_optional_expr(" WHERE ", selection, f, ctx);
        write_optional_expr(" LIMIT ", limit, f, ctx);
    }
}

fn write_delete_statement(s: &Statement, f: &mut String, ctx: &RenderContext)
    requires
        s is Delete,
        statement_wf(*s),
    ensures
        final(f)@ == appended(old(f)@, statement_text(*s, ctx@)),
    decreases s, 2int,
{
    if let Statement::Delete { table_name, selection } = s {
        put(f, "DELETE FROM ");
        write_object_name(table_name, f, ctx);
        write_optional_expr(" WHERE ", selection, f, ctx);
    }
}

fn write_create_virtual_table_statement(s: &Statement, f: &mut String, ctx: &RenderContext)
    requires
        s is CreateVirtualTable,
        statement_wf(*s),
    ensures
        final(f)@ == appended(old(f)@, statement_text(*s, ctx@)),
    decreases s, 2int,
{
    if let Statement::CreateVirtualTable { name, if_not_exists, module_name, module_args } = s {
        put(f, "CREATE VIRTUAL TABLE ");
        write_flag(f, *if_not_exists, "IF NOT EXISTS ");
        write_object_name(name, f, ctx);
        put(f, " USING ");
        write_ident(module_name, f, ctx);
        write_ident_clause(" (", module_args, ")", f, ctx);
    }
}

fn write_create_index_statement(s: &Statement, f: &mut String, ctx: &RenderContext)
    requires
        s is CreateIndex,
        statement_wf(*s),
    ensures
        final(f)@ == appended(old(f)@, statement_text(*s, ctx@)),
    decreases s, 2int,
{
    if let Statement::CreateIndex { name, table_name, columns, unique, if_not_exists } = s {
        put(f, "CREATE ");
        write_flag(f, *unique, "UNIQUE ");
        put(f, "INDEX ");
        write_flag(f, *if_not_exists, "IF NOT EXISTS ");
        write_object_name(name, f, ctx);
        put(f, " ON ");
        write_object_name(table_name, f, ctx);
        put(f, "(");
        write_order_by_exprs(columns, ",", f, ctx);
        put(f, ")");
    }
}

fn write_alter_table_statement(s: &Statement, f: &mut String, ctx: &RenderContext)
    requires
        s is AlterTable,
        statement_wf(*s),
    ensures
        final(f)@ == appended(old(f)@, statement_text(*s, ctx@)),
    decreases s, 2int,
{
    if let Statement::AlterTable { name, operation } = s {
        put(f, "ALTER TABLE ");
        write_object_name(name, f, ctx);
        put(f, " ");
        write_alter_table_operation(operation, f, ctx);
    }
}

fn write_show_variable_statement(s: &Statement, f: &mut String, ctx: &RenderContext)
    requires
        s is ShowVariable,
        statement_wf(*s),
    ensures
        final(f)@ == appended(old(f)@, statement_text(*s, ctx@)),
    decreases s, 2int,
{
    if let Statement::ShowVariable { variable } = s {
        put(f, "SHOW ");
        write_idents(variable, " ", f, ctx);
    }
}

fn write_use_database_statement(s: &Statement, f: &mut String, ctx: &RenderContext)
    requires
        s is UseDatabase,
        statement_wf(*s),
    ensures
        final(f)@ == appended(old(f)@, statement_text(*s, ctx@)),
    decreases s, 2int,
{
    if let Statement::UseDatabase { variable } = s {
        put(f, "USE ");
        write_ident(variable, f, ctx);
    }
}

fn write_show_columns_statement(s: &Statement, f: &mut String, ctx: &RenderContext)
    requires
        s is ShowColumns,
        statement_wf(*s),
    ensures
        final(f)@ == appended(old(f)@, statement_text(*s, ctx@)),
    decreases s, 2int,
{
    if let Statement::ShowColumns { extended, full, table_name, filter } = s {
        put(f, "SHOW ");
        write_flag(f, *extended, "EXTENDED ");
        write_flag(f, *full, "FULL ");
        put(f, "COLUMNS FROM ");
        write_object_name(table_name, f, ctx);
        if let Some(flt) = filter {
            put(f, " ");
            write_show_statement_filter(flt, f, ctx);
        }
    }
}

fn write_start_transaction_statement(s: &Statement, f: &mut String, ctx: &RenderContext)
    requires
        s is StartTransaction,
        statement_wf(*s),
    ensures
        final(f)@ == appended(old(f)@, statement_text(*s, ctx@)),
    decreases s, 2int,
{
    if let Statement::StartTransaction { modes } = s {
        put(f, "START TRANSACTION");
        write_transaction_modes_clause(modes, f);
    }
}

fn write_set_transaction_statement(s: &Statement, f: &mut String, ctx: &RenderContext)
    requires
        s is SetTransaction,
        statement_wf(*s),
    ensures
        final(f)@ == appended(old(f)@, statement_text(*s, ctx@)),
    decreases s, 2int,
{
    if let Statement::SetTransaction { session, modes } = s {
        put(f, "SET");
        write_flag(f, *session, " SESSION");
        put(f, " TRANSACTION");
        write_transaction_modes_clause(modes, f);
    }
}

fn write_set_names_statement(s: &Statement, f: &mut String, ctx: &RenderContext)
    requires
        s is SetNames,
        statement_wf(*s),
    ensures
        final(f)@ == appended(old(f)@, statement_text(*s, ctx@)),
    decreases s, 2int,
{
    if let Statement::SetNames { variable } = s {
        put(f, "SET NAMES ");
        write_ident(variable, f, ctx);
    }
}

fn write_commit_statement(s: &Statement, f: &mut String, ctx: &RenderContext)
    requires
        s is Commit,
        statement_wf(*s),
    ensures
        final(f)@ == appended(old(f)@, statement_text(*s, ctx@)),
    decreases s, 2int,
{
    if let Statement::Commit { chain } = s {
        put(f, "COMMIT");
        write_flag(f, *chain, " AND CHAIN");
    }
}

fn write_savepoint_statement(s: &Statement, f: &mut String, ctx: &RenderContext)
    requires
        s is Savepoint,
        statement_wf(*s),
    ensures
        final(f)@ == appended(old(f)@, statement_text(*s, ctx@)),
    decreases s, 2int,
{
    if let Statement::Savepoint { variable } = s {
        put(f, "SAVEPOINT ");
        write_ident(variable, f, ctx);
    }
}

fn write_release_statement(s: &Statement, f: &mut String, ctx: &RenderContext)
    requires
        s is Release,
        statement_wf(*s),
    ensures
        final(f)@ == appended(old(f)@, statement_text(*s, ctx@)),
    decreases s, 2int,
{
    if let Statement::Release { variable } = s {
        put(f, "RELEASE SAVEPOINT ");
        write_ident(variable, f, ctx);
    }
}

fn write_create_schema_statement(s: &Statement, f: &mut String, ctx: &RenderContext)
    requires
        s is CreateSchema,
        statement_wf(*s),
    ensures
        final(f)@ == appended(old(f)@, statement_text(*s, ctx@)),
    decreases s, 2int,
{
    if let Statement::CreateSchema { schema_name, if_not_exists } = s {
        put(f, "CREATE SCHEMA ");
        write_flag(f, *if_not_exists, "IF NOT EXISTS ");
        write_object_name(schema_name, f, ctx);
    }
}

fn write_assert_statement(s: &Statement, f: &mut String, ctx: &RenderContext)
    requires
        s is Assert,
        statement_wf(*s),
    ensures
        final(f)@ == appended(old(f)@, statement_text(*s, ctx@)),
    decreases s, 2int,
{
    if let Statement::Assert { condition, message } = s {
        put(f, "ASSERT ");
        write_expr(condition, f, ctx);
        write_optional_expr(" AS ", message, f, ctx);
    }
}

fn write_deallocate_statement(s: &Statement, f: &mut String, ctx: &RenderContext)
    requires
        s is Deallocate,
        statement_wf(*s),
    ensures
        final(f)@ == appended(old(f)@, statement_text(*s, ctx@)),
    decreases s, 2int,
{
    if let Statement::Deallocate { name, prepare } = s {
        put(f, "DEALLOCATE ");
        write_flag(f, *prepare, "PREPARE ");
        write_ident(name, f, ctx);
    }
}

fn write_execute_statement(s: &Statement, f: &mut String, ctx: &RenderContext)
    requires
        s is Execute,
        statement_wf(*s),
    ensures
        final(f)@ == appended(old(f)@, statement_text(*s, ctx@)),
    decreases s, 2int,
{
    if let Statement::Execute { name, parameters } = s {
        put(f, "EXECUTE ");
        write_ident(name, f, ctx);
        if parameters.len() > 0 {
            put(f, "(");
            write_exprs(parameters, ", ", f, ctx);
            put(f, ")");
        }
    }
}

fn write_prepare_statement(s: &Statement, f: &mut String, ctx: &RenderContext)
    requires
        s is Prepare,
        statement_wf(*s),
    ensures
        final(f)@ == appended(old(f)@, statement_text(*s, ctx@)),
    decreases s, 2int,
{
    if let Statement::Prepare { name, data_types, statement } = s {
        put(f, "PREPARE ");
        write_ident(name, f, ctx);
        put(f, " ");
        if data_types.len() > 0 {
            put(f, "(");
            write_data_types(data_types, ", ", f, ctx);
            put(f, ") ");
        }
        put(f, "AS ");
        write_statement(statement, f, ctx);
    }
}

/// Appends the SQL text of a statement.
#[verifier::rlimit(50)]
pub fn write_statement(s: &Statement, f: &mut String, ctx: &RenderContext)
    requires
        statement_wf(*s),
    ensures
        final(f)@ == appended(old(f)@, statement_text(*s, ctx@)),
    decreases s, 3int,
{
    match s {
        Statement::Explain { .. } => write_explain_statement(s, f, ctx),
        Statement::Query(q) => write_query(q, f, ctx),
        Statement::Directory { .. } => write_directory(s, f, ctx),
        Statement::Msck { .. } => write_msck_statement(s, f, ctx),
        Statement::Truncate { .. } => write_truncate_statement(s, f, ctx),
        Statement::Analyze { .. } => write_analyze(s, f, ctx),
        Statement::Insert { .. } => write_insert(s, f, ctx),
        Statement::Copy { table_name, columns, values } => write_copy(
            table_name,
            columns,
            values,
            f,
            ctx,
        ),
        Statement::Update { .. } => write_update_statement(s, f, ctx),
        Statement::Delete { .. } => write_delete_statement(s, f, ctx),
        Statement::CreateDatabase { db_name, if_not_exists, location, managed_location } =>
            write_create_database(db_name, *if_not_exists, location, managed_location, f, ctx),
        Statement::CreateView { .. } => write_create_view(s, f, ctx),
        Statement::CreateTable { .. } => write_create_table(s, f, ctx),
        Statement::CreateVirtualTable { .. } => write_create_virtual_table_statement(s, f, ctx),
        Statement::CreateIndex { .. } => write_create_index_statement(s, f, ctx),
        Statement::AlterTable { .. } => write_alter_table_statement(s, f, ctx),
        Statement::Drop { object_type, if_exists, names, cascade, purge } => write_drop(
            object_type,
            *if_exists,
            names,
            *cascade,
            *purge,
            f,
            ctx,
        ),
        Statement::SetVariable { local, hivevar, variable, value } => write_set_variable(
            *local,
            *hivevar,
            variable,
            value,
            f,
            ctx,
        ),
        Statement::ShowVariable { .. } => write_show_variable_statement(s, f, ctx),
        Statement::UseDatabase { .. } => write_use_database_statement(s, f, ctx),
        Statement::ShowColumns { .. } => write_show_columns_statement(s, f, ctx),
        Statement::StartTransaction { .. } => write_start_transaction_statement(s, f, ctx),
        Statement::SetTransaction { .. } => write_set_transaction_statement(s, f, ctx),
        Statement::SetNames { .. } => write_set_names_statement(s, f, ctx),
        Statement::Commit { .. } => write_commit_statement(s, f, ctx),
        Statement::Savepoint { .. } => write_savepoint_statement(s, f, ctx),
        Statement::Rollback { chain, savepoint } => write_rollback(*chain, savepoint, f, ctx),
        Statement::Release { .. } => write_release_statement(s, f, ctx),
        Statement::CreateSchema { .. } => write_create_schema_statement(s, f, ctx),
        Statement::Assert { .. } => write_assert_statement(s, f, ctx),
        Statement::Deallocate { .. } => write_deallocate_statement(s, f, ctx),
        Statement::Execute { .. } => write_execute_statement(s, f, ctx),
        Statement::Prepare { .. } => write_prepare_statement(s, f, ctx),
    }
}

/// Appends the assignments of `list` with `sep` between them.
#[verifier::loop_isolation(false)]
pub fn write_assignments(list: &Vec<Assignment>, sep: &str, f: &mut String, ctx: &RenderContext)
    requires
        assignments_wf(list@),
    ensures
        final(f)@ == appended(old(f)@, separated(assignment_texts(list@, ctx@), sep@)),
    decreases list, 0int,
{
    let ghost parts = assignment_texts(list@, ctx@);
    proof {
        lemma_separated_none(parts, sep@);
    }
    let mut i: usize = 0;
    while i < list.len()
        invariant
            0 <= i <= list.len(),
            f@ == appended(old(f)@, separated(parts.take(i as int), sep@)),
        decreases list.len() - i,
    {
        if i > 0 {
            put(f, sep);
        }
        proof {
            axiom_vec_index_decreases(*list, i as int);
            lemma_separated_step(parts, sep@, i as int);
        }
        write_assignment(&list[i], f, ctx);
        i = i + 1;
    }
    proof {
        lemma_separated_none(parts, sep@);
    }
}

/// Whether a value given to a variable is well formed.
pub fn check_set_variable_value(v: &SetVariableValue) -> (r: bool)
    ensures
        r == set_variable_value_wf(*v),
{
    match v {
        SetVariableValue::Ident(id) => id.is_well_formed(),
        SetVariableValue::Literal(literal) => check_value(literal),
    }
}

/// Whether an option is well formed.
pub fn check_sql_option(o: &SqlOption) -> (r: bool)
    ensures
        r == sql_option_wf(*o),
{
    o.name.is_well_formed() && check_value(&o.value)
}

/// Whether the partitions, where any are given, are well formed.
pub fn check_partitions(partitions: &Option<Vec<Expr>>) -> (r: bool)
    ensures
        r == partitions_wf(*partitions),
    decreases partitions, 1int,
{
    match partitions {
        Some(parts) => check_exprs(parts),
        None => true,
    }
}

/// Whether an assignment is well formed.
pub fn check_assignment(a: &Assignment) -> (r: bool)
    ensures
        r == assignment_wf(*a),
    decreases a, 1int,
{
    a.id.is_well_formed() && check_expr(&a.value)
}

/// Whether a filter of a `SHOW` statement is well formed.
pub fn check_show_statement_filter(filter: &ShowStatementFilter) -> (r: bool)
    ensures
        r == show_statement_filter_wf(*filter),
    decreases filter, 1int,
{
    match filter {
        ShowStatementFilter::Where(e) => check_expr(e),
        _ => true,
    }
}

/// Whether a Hive distribution clause is well formed.
pub fn check_hive_distribution(d: &HiveDistributionStyle) -> (r: bool)
    ensures
        r == hive_distribution_wf(*d),
    decreases d, 1int,
{
    match d {
        HiveDistributionStyle::PARTITIONED { columns } => check_column_defs(columns),
        HiveDistributionStyle::CLUSTERED { columns, sorted_by, num_buckets } => check_idents(
            columns,
        ) && check_column_defs(sorted_by),
        HiveDistributionStyle::SKEWED { columns, on, stored_as_directories } => check_column_defs(
            columns,
        ) && check_column_defs(on),
        HiveDistributionStyle::NONE => true,
    }
}

/// Whether a Hive storage format is well formed.
pub fn check_hive_storage(storage: &Option<HiveIOFormat>) -> (r: bool)
    ensures
        r == hive_storage_wf(*storage),
    decreases storage, 1int,
{
    match storage {
        Some(HiveIOFormat::IOF { input_format, output_format }) => check_expr(input_format)
            && check_expr(output_format),
        _ => true,
    }
}

#[verifier::rlimit(50)]
fn check_create_table(s: &Statement) -> (r: bool)
    requires
        s is CreateTable,
    ensures
        r == create_table_wf(*s),
    decreases s, 2int,
{
    match s {
        Statement::CreateTable {
            or_replace,
            temporary,
            external,
            if_not_exists,
            name,
            columns,
            constraints,
            hive_distribution,
            hive_formats,
            table_properties,
            with_options,
            file_format,
            location,
            query,
            without_rowid,
            like,
        } => name.is_well_formed() && check_column_defs(columns) && check_table_constraints(
            constraints,
        ) && (match like {
            Some(l) => l.is_well_formed(),
            None => true,
        }) && check_hive_distribution(hive_distribution) && (match hive_formats {
            Some(h) => check_hive_storage(&h.storage),
            None => true,
        }) && (!*external || (file_format.is_some() && location.is_some())) && check_sql_options(
            table_properties,
        ) && check_sql_options(with_options) && (match query {
            Some(q) => check_query(q),
            None => true,
        }),
        _ => true,
    }
}

/// Whether a statement is well formed.
#[verifier::rlimit(50)]
pub fn check_statement(s: &Statement) -> (r: bool)
    ensures
        r == statement_wf(*s),
    decreases s, 3int,
{
    match s {
        Statement::Explain { analyze, verbose, statement } => check_statement(statement),
        Statement::Query(q) => check_query(q),
        Statement::Directory { overwrite, local, path, file_format, source } => check_query(source),
        Statement::Msck { table_name, repair, partition_action } => table_name.is_well_formed(),
        Statement::Truncate { table_name, partitions } => table_name.is_well_formed()
            && check_partitions(partitions),
        Statement::Analyze {
            table_name,
            partitions,
            for_columns,
            columns,
            cache_metadata,
            noscan,
            compute_statistics,
        } => table_name.is_well_formed() && check_partitions(partitions) && (!*for_columns
            || check_idents(columns)),
        Statement::Insert {
            or,
            table_name,
            columns,
            overwrite,
            source,
            partitioned,
            after_columns,
            table,
        } => table_name.is_well_formed() && check_idents(columns) && check_partitions(partitioned)
            && check_idents(after_columns) && check_query(source),
        Statement::Copy { table_name, columns, values } => table_name.is_well_formed()
            && check_idents(columns),
        Statement::Update { table_name, assignments, selection, limit } =>
            table_name.is_well_formed() && check_assignments(assignments) && check_optional_expr(
                selection,
            ) && check_optional_expr(limit),
        Statement::Delete { table_name, selection } => table_name.is_well_formed()
            && check_optional_expr(selection),
        Statement::CreateDatabase { db_name, if_not_exists, location, managed_location } =>
            db_name.is_well_formed(),
        Statement::CreateView { or_replace, materialized, name, columns, query, with_options } =>
            name.is_well_formed() && check_sql_options(with_options) && check_idents(columns)
                && check_query(query),
        Statement::CreateTable { .. } => check_create_table(s),
        Statement::CreateVirtualTable { name, if_not_exists, module_name, module_args } =>
            name.is_well_formed() && module_name.is_well_formed() && check_idents(module_args),
        Statement::CreateIndex { name, table_name, columns, unique, if_not_exists } =>
            name.is_well_formed() && table_name.is_well_formed() && check_order_by_exprs(columns),
        Statement::AlterTable { name, operation } => name.is_well_formed()
            && check_alter_table_operation(operation),
        Statement::Drop { object_type, if_exists, names, cascade, purge } => check_object_names(
            names,
        ),
        Statement::SetVariable { local, hivevar, variable, value } => variable.is_well_formed()
            && check_set_variable_values(value),
        Statement::ShowVariable { variable } => check_idents(variable),
        Statement::UseDatabase { variable } => variable.is_well_formed(),
        Statement::ShowColumns { extended, full, table_name, filter } =>
            table_name.is_well_formed() && match filter {
                Some(flt) => check_show_statement_filter(flt),
                None => true,
            },
        Statement::StartTransaction { modes } => true,
        Statement::SetTransaction { session, modes } => true,
        Statement::SetNames { variable } => variable.is_well_formed(),
        Statement::Commit { chain } => true,
        Statement::Savepoint { variable } => variable.is_well_formed(),
        Statement::Rollback { chain, savepoint } => check_optional_ident(savepoint),
        Statement::Release { variable } => variable.is_well_formed(),
        Statement::CreateSchema { schema_name, if_not_exists } => schema_name.is_well_formed(),
        Statement::Assert { condition, message } => check_expr(condition) && check_optional_expr(
            message,
        ),
        Statement::Deallocate { name, prepare } => name.is_well_formed(),
        Statement::Execute { name, parameters } => name.is_well_formed() && check_exprs(parameters),
        Statement::Prepare { name, data_types, statement } => name.is_well_formed()
            && check_data_types(data_types) && check_statement(statement),
    }
}

/// Whether every variable value of `list` is well formed.
pub fn check_set_variable_values(list: &Vec<SetVariableValue>) -> (r: bool)
    ensures
        r == set_variable_values_wf(list@),
{
    let mut i: usize = 0;
    while i < list.len()
        invariant
            0 <= i <= list.len(),
            forall|j: int| 0 <= j < i ==> set_variable_value_wf((#[trigger] list@[j])),
        decreases list.len() - i,
    {
        if !check_set_variable_value(&list[i]) {
            return false;
        }
        i = i + 1;
    }
    true
}

/// Whether every option of `list` is well formed.
pub fn check_sql_options(list: &Vec<SqlOption>) -> (r: bool)
    ensures
        r == sql_options_wf(list@),
{
    let mut i: usize = 0;
    while i < list.len()
        invariant
            0 <= i <= list.len(),
            forall|j: int| 0 <= j < i ==> sql_option_wf((#[trigger] list@[j])),
        decreases list.len() - i,
    {
        if !check_sql_option(&list[i]) {
            return false;
        }
        i = i + 1;
    }
    true
}

/// Whether every assignment of `list` is well formed.
#[verifier::loop_isolation(false)]
pub fn check_assignments(list: &Vec<Assignment>) -> (r: bool)
    ensures
        r == assignments_wf(list@),
    decreases list, 0int,
{
    let mut i: usize = 0;
    while i < list.len()
        invariant
            0 <= i <= list.len(),
            forall|j: int| 0 <= j < i ==> assignment_wf((#[trigger] list@[j])),
        decreases list.len() - i,
    {
        proof {
            axiom_vec_index_decreases(*list, i as int);
        }
        if !check_assignment(&list[i]) {
            return false;
        }
        i = i + 1;
    }
    true
}
} // verus!
