//! The parts of `CREATE` and `ALTER` statements: column definitions,
//! constraints and table alterations, and their text.

use vstd::prelude::*;
use vstd::std_specs::vec::axiom_vec_index_decreases;
use crate::context::Context;
use crate::context::RenderContext;
use crate::data_type::DataType;
use crate::data_type::check_data_type;
use crate::data_type::data_type_text;
use crate::data_type::data_type_wf;
use crate::data_type::write_data_type;
use crate::expr::Expr;
use crate::expr::check_expr;
use crate::expr::check_exprs;
use crate::expr::expr_text;
use crate::expr::expr_texts;
use crate::expr::expr_wf;
use crate::expr::exprs_wf;
use crate::expr::write_expr;
use crate::expr::write_exprs;
use crate::ident::Ident;
use crate::ident::ObjectName;
use crate::ident::check_idents;
use crate::ident::ident_text;
use crate::ident::ident_texts;
use crate::ident::idents_wf;
use crate::ident::object_name_text;
use crate::ident::write_ident;
use crate::ident::write_idents;
use crate::ident::write_object_name;
use crate::text::appended;
use crate::text::flag_text;
use crate::text::lemma_separated_none;
use crate::text::lemma_separated_step;
use crate::text::put;
use crate::text::separated;
use crate::text::write_flag;
use crate::tokenizer::Token;
use crate::tokenizer::check_tokens;
use crate::tokenizer::token_texts;
use crate::tokenizer::tokens_wf;
use crate::tokenizer::write_tokens;

verus! {

broadcast use crate::text::group_sink;

/// An `ALTER TABLE` operation.
#[allow(inconsistent_fields)]
#[derive(Debug, PartialEq, Eq, Hash)]
pub enum AlterTableOperation {
    /// `ADD <table_constraint>`.
    AddConstraint(TableConstraint),
    /// `ADD [ COLUMN ] <column_def>`.
    AddColumn { column_def: ColumnDef },
    /// `DROP CONSTRAINT <name>`.
    DropConstraint { name: Ident },
    /// `DROP [ COLUMN ] [ IF EXISTS ] <column_name> [ CASCADE ]`.
    DropColumn { column_name: Ident, if_exists: bool, cascade: bool },
    /// `RENAME TO PARTITION (partition=val)`.
    RenamePartitions { old_partitions: Vec<Expr>, new_partitions: Vec<Expr> },
    /// Add partitions.
    AddPartitions { if_not_exists: bool, new_partitions: Vec<Expr> },
    /// Drop partitions.
    DropPartitions { partitions: Vec<Expr>, if_exists: bool },
    /// `RENAME [ COLUMN ] <old_column_name> TO <new_column_name>`.
    RenameColumn { old_column_name: Ident, new_column_name: Ident },
    /// `RENAME TO <table_name>`.
    RenameTable { table_name: ObjectName },
}

/// A table-level constraint, specified in a `CREATE TABLE` or an
/// `ALTER TABLE ADD <constraint>` statement.
#[allow(inconsistent_fields)]
#[derive(Debug, PartialEq, Eq, Hash)]
pub enum TableConstraint {
    /// `[ CONSTRAINT <name> ] { PRIMARY KEY | UNIQUE } (<columns>)`.
    Unique { name: Option<Ident>, columns: Vec<Ident>, is_primary: bool },
    /// A referential integrity constraint (`[ CONSTRAINT <name> ] FOREIGN KEY
    /// (<columns>) REFERENCES <foreign_table> (<referred_columns>)`).
    ForeignKey {
        name: Option<Ident>,
        columns: Vec<Ident>,
        foreign_table: ObjectName,
        referred_columns: Vec<Ident>,
    },
    /// `[ CONSTRAINT <name> ] CHECK (<expr>)`.
    Check { name: Option<Ident>, expr: Box<Expr> },
}

/// SQL column definition.
#[derive(Debug, PartialEq, Eq, Hash)]
pub struct ColumnDef {
    pub name: Ident,
    pub data_type: DataType,
    /// The collation of the column. It has no text, and the analysis passes
    /// it over.
    pub collation: Option<ObjectName>,
    pub options: Vec<ColumnOptionDef>,
}

/// An optionally-named `ColumnOption`: `[ CONSTRAINT <name> ] <column-option>`.
/// Any option may carry a name, whatever a given dialect allows.
#[derive(Debug, PartialEq, Eq, Hash)]
pub struct ColumnOptionDef {
    pub name: Option<Ident>,
    pub option: ColumnOption,
}

/// `ColumnOption`s are modifiers that follow a column definition in a `CREATE
/// TABLE` statement.
#[allow(inconsistent_fields)]
#[derive(Debug, PartialEq, Eq, Hash)]
pub enum ColumnOption {
    /// `NULL`.
    Null,
    /// `NOT NULL`.
    NotNull,
    /// `DEFAULT <restricted-expr>`.
    Default(Expr),
    /// `{ PRIMARY KEY | UNIQUE }`.
    Unique { is_primary: bool },
    /// A referential integrity constraint (`[FOREIGN KEY REFERENCES
    /// <foreign_table> (<referred_columns>)
    /// { [ON DELETE <referential_action>] [ON UPDATE <referential_action>] |
    ///   [ON UPDATE <referential_action>] [ON DELETE <referential_action>]
    /// }`).
    ForeignKey {
        foreign_table: ObjectName,
        referred_columns: Vec<Ident>,
        on_delete: Option<ReferentialAction>,
        on_update: Option<ReferentialAction>,
    },
    /// `CHECK (<expr>)`.
    Check(Expr),
    /// Dialect-specific options, such as MySQL's AUTO_INCREMENT and SQLite's
    /// AUTOINCREMENT.
    DialectSpecific(Vec<Token>),
}

/// `<referential_action> = { RESTRICT | CASCADE | SET NULL | NO ACTION | SET DEFAULT }`,
/// used in foreign key constraints in `ON UPDATE` and `ON DELETE` options.
#[derive(Debug, Clone, Copy, PartialEq, Eq, Hash)]
pub enum ReferentialAction {
    Restrict,
    Cascade,
    SetNull,
    NoAction,
    SetDefault,
}

/// `CONSTRAINT `, the name and a space, or nothing where there is no name.
pub open spec fn constraint_name_text(name: Option<Ident>, ctx: Context) -> Seq<char> {
    match name {
        Some(n) => "CONSTRAINT "@ + ident_text(n, ctx) + " "@,
        None => Seq::empty(),
    }
}

/// The name, where there is one, is well formed.
pub open spec fn optional_ident_wf(name: Option<Ident>) -> bool {
    match name {
        Some(n) => n.well_formed(),
        None => true,
    }
}

/// The keywords of a referential action.
pub open spec fn referential_action_text(action: ReferentialAction) -> Seq<char> {
    match action {
        ReferentialAction::Restrict => "RESTRICT"@,
        ReferentialAction::Cascade => "CASCADE"@,
        ReferentialAction::SetNull => "SET NULL"@,
        ReferentialAction::NoAction => "NO ACTION"@,
        ReferentialAction::SetDefault => "SET DEFAULT"@,
    }
}

/// `lead` and the action's keywords, or nothing where there is no action.
pub open spec fn optional_action_text(
    lead: Seq<char>,
    action: Option<ReferentialAction>,
) -> Seq<char> {
    match action {
        Some(a) => lead + referential_action_text(a),
        None => Seq::empty(),
    }
}

/// `PRIMARY KEY` or `UNIQUE`.
pub open spec fn unique_text(is_primary: bool) -> Seq<char> {
    if is_primary {
        "PRIMARY KEY"@
    } else {
        "UNIQUE"@
    }
}

/// The text of a column option.
pub open spec fn column_option_text(o: ColumnOption, ctx: Context) -> Seq<char>
    decreases o, 1int,
{
    match o {
        ColumnOption::Null => "NULL"@,
        ColumnOption::NotNull => "NOT NULL"@,
        ColumnOption::Default(e) => "DEFAULT "@ + expr_text(e, ctx),
        ColumnOption::Unique { is_primary } => unique_text(is_primary),
        ColumnOption::ForeignKey { foreign_table, referred_columns, on_delete, on_update } =>
            "REFERENCES "@ + object_name_text(foreign_table, ctx) + flag_text(
            referred_columns@.len() > 0,
            " ("@ + separated(ident_texts(referred_columns@, ctx), ", "@) + ")"@,
        ) + optional_action_text(" ON DELETE "@, on_delete) + optional_action_text(
            " ON UPDATE "@,
            on_update,
        ),
        ColumnOption::Check(e) => "CHECK ("@ + expr_text(e, ctx) + ")"@,
        ColumnOption::DialectSpecific(tokens) => separated(token_texts(tokens@), " "@),
    }
}

/// Whether a column option is well formed.
pub open spec fn column_option_wf(o: ColumnOption) -> bool
    decreases o, 1int,
{
    match o {
        ColumnOption::Default(e) => expr_wf(e),
        ColumnOption::ForeignKey { foreign_table, referred_columns, on_delete, on_update } =>
            foreign_table.well_formed() && idents_wf(referred_columns@),
        ColumnOption::Check(e) => expr_wf(e),
        ColumnOption::DialectSpecific(tokens) => tokens_wf(tokens@),
        _ => true,
    }
}

/// The text of an optionally named column option.
pub open spec fn column_option_def_text(d: ColumnOptionDef, ctx: Context) -> Seq<char>
    decreases d, 1int,
{
    constraint_name_text(d.name, ctx) + column_option_text(d.option, ctx)
}

/// Whether an optionally named column option is well formed.
pub open spec fn column_option_def_wf(d: ColumnOptionDef) -> bool
    decreases d, 1int,
{
    optional_ident_wf(d.name) && column_option_wf(d.option)
}

/// The text of a column definition: name, type, and each option after a
/// space.
pub open spec fn column_def_text(c: ColumnDef, ctx: Context) -> Seq<char>
    decreases c, 1int,
{
    ident_text(c.name, ctx) + " "@ + data_type_text(c.data_type, ctx) + flag_text(
        c.options@.len() > 0,
        " "@ + separated(column_option_def_texts(c.options@, ctx), " "@),
    )
}

/// Whether a column definition is well formed.
pub open spec fn column_def_wf(c: ColumnDef) -> bool
    decreases c, 1int,
{
    c.name.well_formed() && data_type_wf(c.data_type) && column_option_defs_wf(c.options@)
}

/// The text of a table constraint.
pub open spec fn table_constraint_text(c: TableConstraint, ctx: Context) -> Seq<char>
    decreases c, 1int,
{
    match c {
        TableConstraint::Unique { name, columns, is_primary } => constraint_name_text(name, ctx)
            + unique_text(is_primary) + " ("@ + separated(ident_texts(columns@, ctx), ", "@) + ")"@,
        TableConstraint::ForeignKey { name, columns, foreign_table, referred_columns } =>
            constraint_name_text(name, ctx) + "FOREIGN KEY ("@ + separated(
            ident_texts(columns@, ctx),
            ", "@,
        ) + ") REFERENCES "@ + object_name_text(foreign_table, ctx) + "("@ + separated(
            ident_texts(referred_columns@, ctx),
            ", "@,
        ) + ")"@,
        TableConstraint::Check { name, expr } => constraint_name_text(name, ctx) + "CHECK ("@
            + expr_text(*expr, ctx) + ")"@,
    }
}

/// Whether a table constraint is well formed.
pub open spec fn table_constraint_wf(c: TableConstraint) -> bool
    decreases c, 1int,
{
    match c {
        TableConstraint::Unique { name, columns, is_primary } => optional_ident_wf(name)
            && idents_wf(columns@),
        TableConstraint::ForeignKey { name, columns, foreign_table, referred_columns } =>
            optional_ident_wf(name) && idents_wf(columns@) && foreign_table.well_formed()
                && idents_wf(referred_columns@),
        TableConstraint::Check { name, expr } => optional_ident_wf(name) && expr_wf(*expr),
    }
}

/// The text of an `ALTER TABLE` operation.
pub open spec fn alter_table_operation_text(op: AlterTableOperation, ctx: Context) -> Seq<char>
    decreases op, 1int,
{
    match op {
        AlterTableOperation::AddPartitions { if_not_exists, new_partitions } => "ADD"@ + flag_text(
            if_not_exists,
            " IF NOT EXISTS"@,
        ) + " PARTITION ("@ + separated(expr_texts(new_partitions@, ctx), ", "@) + ")"@,
        AlterTableOperation::AddConstraint(c) => "ADD "@ + table_constraint_text(c, ctx),
        AlterTableOperation::AddColumn { column_def } => "ADD COLUMN "@ + column_def_text(
            column_def,
            ctx,
        ),
        AlterTableOperation::DropPartitions { partitions, if_exists } => "DROP"@ + flag_text(
            if_exists,
            " IF EXISTS"@,
        ) + " PARTITION ("@ + separated(expr_texts(partitions@, ctx), ", "@) + ")"@,
        AlterTableOperation::DropConstraint { name } => "DROP CONSTRAINT "@ + ident_text(name, ctx),
        AlterTableOperation::DropColumn { column_name, if_exists, cascade } => "DROP COLUMN "@
            + flag_text(if_exists, "IF EXISTS "@) + ident_text(column_name, ctx) + flag_text(
            cascade,
            " CASCADE"@,
        ),
        AlterTableOperation::RenamePartitions { old_partitions, new_partitions } => "PARTITION ("@
            + separated(expr_texts(old_partitions@, ctx), ", "@) + ") RENAME TO PARTITION ("@
            + separated(expr_texts(new_partitions@, ctx), ", "@) + ")"@,
        AlterTableOperation::RenameColumn { old_column_name, new_column_name } => "RENAME COLUMN "@
            + ident_text(old_column_name, ctx) + " TO "@ + ident_text(new_column_name, ctx),
        AlterTableOperation::RenameTable { table_name } => "RENAME TO "@ + object_name_text(
            table_name,
            ctx,
        ),
    }
}

/// Whether an `ALTER TABLE` operation is well formed.
pub open spec fn alter_table_operation_wf(op: AlterTableOperation) -> bool
    decreases op, 1int,
{
    match op {
        AlterTableOperation::AddPartitions { if_not_exists, new_partitions } => exprs_wf(
            new_partitions@,
        ),
        AlterTableOperation::AddConstraint(c) => table_constraint_wf(c),
        AlterTableOperation::AddColumn { column_def } => column_def_wf(column_def),
        AlterTableOperation::DropPartitions { partitions, if_exists } => exprs_wf(partitions@),
        AlterTableOperation::DropConstraint { name } => name.well_formed(),
        AlterTableOperation::DropColumn { column_name, if_exists, cascade } =>
            column_name.well_formed(),
        AlterTableOperation::RenamePartitions { old_partitions, new_partitions } => exprs_wf(
            old_partitions@,
        ) && exprs_wf(new_partitions@),
        AlterTableOperation::RenameColumn { old_column_name, new_column_name } =>
            old_column_name.well_formed() && new_column_name.well_formed(),
        AlterTableOperation::RenameTable { table_name } => table_name.well_formed(),
    }
}

/// Appends `CONSTRAINT `, the name and a space, where there is a name.
pub fn write_constraint_name(name: &Option<Ident>, f: &mut String, ctx: &RenderContext)
    requires
        optional_ident_wf(*name),
    ensures
        final(f)@ == appended(old(f)@, constraint_name_text(*name, ctx@)),
{
    if let Some(n) = name {
        put(f, "CONSTRAINT ");
        write_ident(n, f, ctx);
        put(f, " ");
    }
}

/// The keywords of a referential action.
pub fn referential_action_keyword(action: &ReferentialAction) -> (r: &'static str)
    ensures
        r@ == referential_action_text(*action),
{
    match action {
        ReferentialAction::Restrict => "RESTRICT",
        ReferentialAction::Cascade => "CASCADE",
        ReferentialAction::SetNull => "SET NULL",
        ReferentialAction::NoAction => "NO ACTION",
        ReferentialAction::SetDefault => "SET DEFAULT",
    }
}

fn write_optional_action(lead: &str, action: &Option<ReferentialAction>, f: &mut String)
    ensures
        final(f)@ == appended(old(f)@, optional_action_text(lead@, *action)),
{
    if let Some(a) = action {
        put(f, lead);
        put(f, referential_action_keyword(a));
    }
}

fn write_unique(is_primary: bool, f: &mut String)
    ensures
        final(f)@ == appended(old(f)@, unique_text(is_primary)),
{
    if is_primary {
        put(f, "PRIMARY KEY");
    } else {
        put(f, "UNIQUE");
    }
}

/// Appends the text of a column option.
pub fn write_column_option(o: &ColumnOption, f: &mut String, ctx: &RenderContext)
    requires
        column_option_wf(*o),
    ensures
        final(f)@ == appended(old(f)@, column_option_text(*o, ctx@)),
    decreases o, 1int,
{
    match o {
        ColumnOption::Null => put(f, "NULL"),
        ColumnOption::NotNull => put(f, "NOT NULL"),
        ColumnOption::Default(e) => {
            put(f, "DEFAULT ");
            write_expr(e, f, ctx);
        },
        ColumnOption::Unique { is_primary } => write_unique(*is_primary, f),
        ColumnOption::ForeignKey { foreign_table, referred_columns, on_delete, on_update } => {
            put(f, "REFERENCES ");
            write_object_name(foreign_table, f, ctx);
            if referred_columns.len() > 0 {
                put(f, " (");
                write_idents(referred_columns, ", ", f, ctx);
                put(f, ")");
            }
            write_optional_action(" ON DELETE ", on_delete, f);
            write_optional_action(" ON UPDATE ", on_update, f);
        },
        ColumnOption::Check(e) => {
            put(f, "CHECK (");
            write_expr(e, f, ctx);
            put(f, ")");
        },
        ColumnOption::DialectSpecific(tokens) => write_tokens(tokens, " ", f),
    }
}

/// Appends the text of an optionally named column option.
pub fn write_column_option_def(d: &ColumnOptionDef, f: &mut String, ctx: &RenderContext)
    requires
        column_option_def_wf(*d),
    ensures
        final(f)@ == appended(old(f)@, column_option_def_text(*d, ctx@)),
    decreases d, 1int,
{
    write_constraint_name(&d.name, f, ctx);
    write_column_option(&d.option, f, ctx);
}

/// Appends the text of a column definition.
pub fn write_column_def(c: &ColumnDef, f: &mut String, ctx: &RenderContext)
    requires
        column_def_wf(*c),
    ensures
        final(f)@ == appended(old(f)@, column_def_text(*c, ctx@)),
    decreases c, 1int,
{
    write_ident(&c.name, f, ctx);
    put(f, " ");
    write_data_type(&c.data_type, f, ctx);
    if c.options.len() > 0 {
        put(f, " ");
        write_column_option_defs(&c.options, " ", f, ctx);
    }
}

/// Appends the text of a table constraint.
pub fn write_table_constraint(c: &TableConstraint, f: &mut String, ctx: &RenderContext)
    requires
        table_constraint_wf(*c),
    ensures
        final(f)@ == appended(old(f)@, table_constraint_text(*c, ctx@)),
    decreases c, 1int,
{
    match c {
        TableConstraint::Unique { name, columns, is_primary } => {
            write_constraint_name(name, f, ctx);
            write_unique(*is_primary, f);
            put(f, " (");
            write_idents(columns, ", ", f, ctx);
            put(f, ")");
        },
        TableConstraint::ForeignKey { name, columns, foreign_table, referred_columns } => {
            write_constraint_name(name, f, ctx);
            put(f, "FOREIGN KEY (");
            write_idents(columns, ", ", f, ctx);
            put(f, ") REFERENCES ");
            write_object_name(foreign_table, f, ctx);
            put(f, "(");
            write_idents(referred_columns, ", ", f, ctx);
            put(f, ")");
        },
        TableConstraint::Check { name, expr } => {
            write_constraint_name(name, f, ctx);
            put(f, "CHECK (");
            write_expr(expr, f, ctx);
            put(f, ")");
        },
    }
}

/// Appends the text of an `ALTER TABLE` operation.
pub fn write_alter_table_operation(op: &AlterTableOperation, f: &mut String, ctx: &RenderContext)
    requires
        alter_table_operation_wf(*op),
    ensures
        final(f)@ == appended(old(f)@, alter_table_operation_text(*op, ctx@)),
    decreases op, 1int,
{
    match op {
        AlterTableOperation::AddPartitions { if_not_exists, new_partitions } => {
            put(f, "ADD");
            write_flag(f, *if_not_exists, " IF NOT EXISTS");
            put(f, " PARTITION (");
            write_exprs(new_partitions, ", ", f, ctx);
            put(f, ")");
        },
        AlterTableOperation::AddConstraint(c) => {
            put(f, "ADD ");
            write_table_constraint(c, f, ctx);
        },
        AlterTableOperation::AddColumn { column_def } => {
            put(f, "ADD COLUMN ");
            write_column_def(column_def, f, ctx);
        },
        AlterTableOperation::DropPartitions { partitions, if_exists } => {
            put(f, "DROP");
            write_flag(f, *if_exists, " IF EXISTS");
            put(f, " PARTITION (");
            write_exprs(partitions, ", ", f, ctx);
            put(f, ")");
        },
        AlterTableOperation::DropConstraint { name } => {
            put(f, "DROP CONSTRAINT ");
            write_ident(name, f, ctx);
        },
        AlterTableOperation::DropColumn { column_name, if_exists, cascade } => {
            put(f, "DROP COLUMN ");
            write_flag(f, *if_exists, "IF EXISTS ");
            write_ident(column_name, f, ctx);
            write_flag(f, *cascade, " CASCADE");
        },
        AlterTableOperation::RenamePartitions { old_partitions, new_partitions } => {
            put(f, "PARTITION (");
            write_exprs(old_partitions, ", ", f, ctx);
            put(f, ") RENAME TO PARTITION (");
            write_exprs(new_partitions, ", ", f, ctx);
            put(f, ")");
        },
        AlterTableOperation::RenameColumn { old_column_name, new_column_name } => {
            put(f, "RENAME COLUMN ");
            write_ident(old_column_name, f, ctx);
            put(f, " TO ");
            write_ident(new_column_name, f, ctx);
        },
        AlterTableOperation::RenameTable { table_name } => {
            put(f, "RENAME TO ");
            write_object_name(table_name, f, ctx);
        },
    }
}

/// The SQL texts of the column options of `s`, in order.
pub open spec fn column_option_def_texts(s: Seq<ColumnOptionDef>, ctx: Context) -> Seq<Seq<char>>
    decreases s, 0int,
{
    Seq::new(
        s.len(),
        |i: int|
            if 0 <= i < s.len() {
                column_option_def_text(s[i], ctx)
            } else {
                Seq::empty()
            },
    )
}

/// Every column option of `s` is well formed.
pub open spec fn column_option_defs_wf(s: Seq<ColumnOptionDef>) -> bool
    decreases s, 0int,
{
    forall|i: int| 0 <= i < s.len() ==> column_option_def_wf(#[trigger] s[i])
}

/// Appends the column options of `list` with `sep` between them.
#[verifier::loop_isolation(false)]
pub fn write_column_option_defs(
    list: &Vec<ColumnOptionDef>,
    sep: &str,
    f: &mut String,
    ctx: &RenderContext,
)
    requires
        column_option_defs_wf(list@),
    ensures
        final(f)@ == appended(old(f)@, separated(column_option_def_texts(list@, ctx@), sep@)),
    decreases list, 0int,
{
    let ghost parts = column_option_def_texts(list@, ctx@);
    proof {
        lemma_separated_none(parts, sep@);
    }
    let mut i: usize = 0;
    while i < list.len()
        invariant
            0 <= i <= list.len(),
            f@ == appended(old(f)@, separated(parts.take(i as int), sep@)),
        decreases list.len() - i,
    {
        if i > 0 {
            put(f, sep);
        }
        proof {
            axiom_vec_index_decreases(*list, i as int);
            lemma_separated_step(parts, sep@, i as int);
        }
        write_column_option_def(&list[i], f, ctx);
        i = i + 1;
    }
    proof {
        lemma_separated_none(parts, sep@);
    }
}

/// The SQL texts of the column definitions of `s`, in order.
pub open spec fn column_def_texts(s: Seq<ColumnDef>, ctx: Context) -> Seq<Seq<char>>
    decreases s, 0int,
{
    Seq::new(
        s.len(),
        |i: int|
            if 0 <= i < s.len() {
                column_def_text(s[i], ctx)
            } else {
                Seq::empty()
            },
    )
}

/// Every column definition of `s` is well formed.
pub open spec fn column_defs_wf(s: Seq<ColumnDef>) -> bool
    decreases s, 0int,
{
    forall|i: int| 0 <= i < s.len() ==> column_def_wf(#[trigger] s[i])
}

/// Appends the column definitions of `list` with `sep` between them.
#[verifier::loop_isolation(false)]
pub fn write_column_defs(list: &Vec<ColumnDef>, sep: &str, f: &mut String, ctx: &RenderContext)
    requires
        column_defs_wf(list@),
    ensures
        final(f)@ == appended(old(f)@, separated(column_def_texts(list@, ctx@), sep@)),
    decreases list, 0int,
{
    let ghost parts = column_def_texts(list@, ctx@);
    proof {
        lemma_separated_none(parts, sep@);
    }
    let mut i: usize = 0;
    while i < list.len()
        invariant
            0 <= i <= list.len(),
            f@ == appended(old(f)@, separated(parts.take(i as int), sep@)),
        decreases list.len() - i,
    {
        if i > 0 {
            put(f, sep);
        }
        proof {
            axiom_vec_index_decreases(*list, i as int);
            lemma_separated_step(parts, sep@, i as int);
        }
        write_column_def(&list[i], f, ctx);
        i = i + 1;
    }
    proof {
        lemma_separated_none(parts, sep@);
    }
}

/// The SQL texts of the table constraints of `s`, in order.
pub open spec fn table_constraint_texts(s: Seq<TableConstraint>, ctx: Context) -> Seq<Seq<char>>
    decreases s, 0int,
{
    Seq::new(
        s.len(),
        |i: int|
            if 0 <= i < s.len() {
                table_constraint_text(s[i], ctx)
            } else {
                Seq::empty()
            },
    )
}

/// Every table constraint of `s` is well formed.
pub open spec fn table_constraints_wf(s: Seq<TableConstraint>) -> bool
    decreases s, 0int,
{
    forall|i: int| 0 <= i < s.len() ==> table_constraint_wf(#[trigger] s[i])
}

/// Appends the table constraints of `list` with `sep` between them.
#[verifier::loop_isolation(false)]
pub fn write_table_constraints(
    list: &Vec<TableConstraint>,
    sep: &str,
    f: &mut String,
    ctx: &RenderContext,
)
    requires
        table_constraints_wf(list@),
    ensures
        final(f)@ == appended(old(f)@, separated(table_constraint_texts(list@, ctx@), sep@)),
    decreases list, 0int,
{
    let ghost parts = table_constraint_texts(list@, ctx@);
    proof {
        lemma_separated_none(parts, sep@);
    }
    let mut i: usize = 0;
    while i < list.len()
        invariant
            0 <= i <= list.len(),
            f@ == appended(old(f)@, separated(parts.take(i as int), sep@)),
        decreases list.len() - i,
    {
        if i > 0 {
            put(f, sep);
        }
        proof {
            axiom_vec_index_decreases(*list, i as int);
            lemma_separated_step(parts, sep@, i as int);
        }
        write_table_constraint(&list[i], f, ctx);
        i = i + 1;
    }
    proof {
        lemma_separated_none(parts, sep@);
    }
}

/// Whether the name, where there is one, is well formed.
pub fn check_optional_ident(name: &Option<Ident>) -> (r: bool)
    ensures
        r == optional_ident_wf(*name),
{
    match name {
        Some(n) => n.is_well_formed(),
        None => true,
    }
}

/// Whether a column option is well formed.
pub fn check_column_option(o: &ColumnOption) -> (r: bool)
    ensures
        r == column_option_wf(*o),
    decreases o, 1int,
{
    match o {
        ColumnOption::Default(e) => check_expr(e),
        ColumnOption::ForeignKey { foreign_table, referred_columns, on_delete, on_update } =>
            foreign_table.is_well_formed() && check_idents(referred_columns),
        ColumnOption::Check(e) => check_expr(e),
        ColumnOption::DialectSpecific(tokens) => check_tokens(tokens),
        _ => true,
    }
}

/// Whether an optionally named column option is well formed.
pub fn check_column_option_def(d: &ColumnOptionDef) -> (r: bool)
    ensures
        r == column_option_def_wf(*d),
    decreases d, 1int,
{
    check_optional_ident(&d.name) && check_column_option(&d.option)
}

/// Whether a column definition is well formed.
pub fn check_column_def(c: &ColumnDef) -> (r: bool)
    ensures
        r == column_def_wf(*c),
    decreases c, 1int,
{
    c.name.is_well_formed() && check_data_type(&c.data_type) && check_column_option_defs(
        &c.options,
    )
}

/// Whether a table constraint is well formed.
pub fn check_table_constraint(c: &TableConstraint) -> (r: bool)
    ensures
        r == table_constraint_wf(*c),
    decreases c, 1int,
{
    match c {
        TableConstraint::Unique { name, columns, is_primary } => check_optional_ident(name)
            && check_idents(columns),
        TableConstraint::ForeignKey { name, columns, foreign_table, referred_columns } =>
            check_optional_ident(name) && check_idents(columns) && foreign_table.is_well_formed()
                && check_idents(referred_columns),
        TableConstraint::Check { name, expr } => check_optional_ident(name) && check_expr(expr),
    }
}

/// Whether an `ALTER TABLE` operation is well formed.
pub fn check_alter_table_operation(op: &AlterTableOperation) -> (r: bool)
    ensures
        r == alter_table_operation_wf(*op),
    decreases op, 1int,
{
    match op {
        AlterTableOperation::AddPartitions { if_not_exists, new_partitions } => check_exprs(
            new_partitions,
        ),
        AlterTableOperation::AddConstraint(c) => check_table_constraint(c),
        AlterTableOperation::AddColumn { column_def } => check_column_def(column_def),
        AlterTableOperation::DropPartitions { partitions, if_exists } => check_exprs(partitions),
        AlterTableOperation::DropConstraint { name } => name.is_well_formed(),
        AlterTableOperation::DropColumn { column_name, if_exists, cascade } =>
            column_name.is_well_formed(),
        AlterTableOperation::RenamePartitions { old_partitions, new_partitions } => check_exprs(
            old_partitions,
        ) && check_exprs(new_partitions),
        AlterTableOperation::RenameColumn { old_column_name, new_column_name } =>
            old_column_name.is_well_formed() && new_column_name.is_well_formed(),
        AlterTableOperation::RenameTable { table_name } => table_name.is_well_formed(),
    }
}

/// Whether every column option of `list` is well formed.
#[verifier::loop_isolation(false)]
pub fn check_column_option_defs(list: &Vec<ColumnOptionDef>) -> (r: bool)
    ensures
        r == column_option_defs_wf(list@),
    decreases list, 0int,
{
    let mut i: usize = 0;
    while i < list.len()
        invariant
            0 <= i <= list.len(),
            forall|j: int| 0 <= j < i ==> column_option_def_wf((#[trigger] list@[j])),
        decreases list.len() - i,
    {
        proof {
            axiom_vec_index_decreases(*list, i as int);
        }
        if !check_column_option_def(&list[i]) {
            return false;
        }
        i = i + 1;
    }
    true
}

/// Whether every column definition of `list` is well formed.
#[verifier::loop_isolation(false)]
pub fn check_column_defs(list: &Vec<ColumnDef>) -> (r: bool)
    ensures
        r == column_defs_wf(list@),
    decreases list, 0int,
{
    let mut i: usize = 0;
    while i < list.len()
        invariant
            0 <= i <= list.len(),
            forall|j: int| 0 <= j < i ==> column_def_wf((#[trigger] list@[j])),
        decreases list.len() - i,
    {
        proof {
            axiom_vec_index_decreases(*list, i as int);
        }
        if !check_column_def(&list[i]) {
            return false;
        }
        i = i + 1;
    }
    true
}

/// Whether every table constraint of `list` is well formed.
#[verifier::loop_isolation(false)]
pub fn check_table_constraints(list: &Vec<TableConstraint>) -> (r: bool)
    ensures
        r == table_constraints_wf(list@),
    decreases list, 0int,
{
    let mut i: usize = 0;
    while i < list.len()
        invariant
            0 <= i <= list.len(),
            forall|j: int| 0 <= j < i ==> table_constraint_wf((#[trigger] list@[j])),
        decreases list.len() - i,
    {
        proof {
            axiom_vec_index_decreases(*list, i as int);
        }
        if !check_table_constraint(&list[i]) {
            return false;
        }
        i = i + 1;
    }
    true
}
} // verus!
