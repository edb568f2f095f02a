//! The leaves of the parts of `CREATE` and `ALTER` statements.

use vstd::prelude::*;
use vstd::std_specs::vec::axiom_vec_index_decreases;
use crate::analyse::Accumulator;
use crate::analyse::Fact;
use crate::analyse::Leaf;
use crate::analyse::SAResult;
use crate::analyse::SQLAnalyse;
use crate::analyse::Traced;
use crate::analyse::analyse_all;
use crate::analyse::expr::expr_parts;
use crate::analyse::expr::exprs_parts;
use crate::analyse::expr::gather_expr;
use crate::analyse::expr::gather_exprs;
use crate::analyse::expr::gather_names;
use crate::analyse::expr::name_leaves;
use crate::analyse::facts_of_all;
use crate::analyse::gather;
use crate::analyse::gathered;
use crate::analyse::lemma_offered_none;
use crate::ddl::AlterTableOperation;
use crate::ddl::ColumnDef;
use crate::ddl::ColumnOption;
use crate::ddl::ColumnOptionDef;
use crate::ddl::ReferentialAction;
use crate::ddl::TableConstraint;
use crate::ident::Ident;
use crate::tokenizer::Token;

verus! {

broadcast use crate::analyse::group_gather;

/// The tokens of `s`, in order.
pub open spec fn token_leaves<'a>(s: Seq<Token>) -> Seq<Leaf<'a>> {
    Seq::new(s.len(), |i: int| Leaf::RawToken(&s[i]))
}

/// Gathers the tokens of `list`, in order.
pub fn gather_tokens<'a>(list: &'a Vec<Token>, v: &mut Vec<Leaf<'a>>)
    ensures
        final(v)@ == gathered(old(v)@, token_leaves(list@)),
{
    let ghost leaves = token_leaves(list@);
    let mut i: usize = 0;
    assert(v@ =~= gathered(old(v)@, leaves.take(0)));
    while i < list.len()
        invariant
            0 <= i <= list.len(),
            leaves == token_leaves::<'a>(list@),
            v@ == gathered(old(v)@, leaves.take(i as int)),
        decreases list.len() - i,
    {
        v.push(Leaf::RawToken(&list[i]));
        assert(v@ =~= gathered(old(v)@, leaves.take(i + 1)));
        i = i + 1;
    }
    assert(leaves.take(list@.len() as int) =~= leaves);
}

impl SQLAnalyse for ReferentialAction {
    /// A referential action holds no fact.
    open spec fn facts(&self) -> Seq<Fact> {
        Seq::empty()
    }

    fn analyse<A: Accumulator>(&self, ctx: &mut Traced<A>) -> (r: SAResult) {
        proof {
            lemma_offered_none(ctx.trace());
        }
        ctx.result()
    }
}

/// The optional name of a constraint, as a node of the walk.
pub struct ConstraintName<'a>(pub &'a Option<Ident>);

impl<'a> SQLAnalyse for ConstraintName<'a> {
    /// The name of a constraint is passed over: it is no fact.
    open spec fn facts(&self) -> Seq<Fact> {
        Seq::empty()
    }

    fn analyse<A: Accumulator>(&self, ctx: &mut Traced<A>) -> (r: SAResult) {
        proof {
            lemma_offered_none(ctx.trace());
        }
        ctx.result()
    }
}

/// The optional name of a constraint, as a node of the walk.
pub fn display_constraint_name<'a>(name: &'a Option<Ident>) -> (r: ConstraintName<'a>)
    ensures
        r.0 == name,
{
    ConstraintName(name)
}

/// The leaves of a column option: those of the expression of a default or a
/// check, the table and the columns that a foreign key refers to, the tokens
/// of a dialect-specific option. Referential actions hold none.
pub open spec fn column_option_parts<'a>(x: ColumnOption) -> Seq<Leaf<'a>>
    decreases x, 1int, 0int,
{
    match x {
        ColumnOption::Null => Seq::empty(),
        ColumnOption::NotNull => Seq::empty(),
        ColumnOption::Default(e) => expr_parts(e),
        ColumnOption::Unique { is_primary } => Seq::empty(),
        ColumnOption::ForeignKey { foreign_table, referred_columns, .. } =>
            seq![Leaf::Object(&foreign_table)]
            + name_leaves(referred_columns@),
        ColumnOption::Check(e) => expr_parts(e),
        ColumnOption::DialectSpecific(tokens) => token_leaves(tokens@),
    }
}

/// Gathers what `column_option_parts` names, in order.
pub fn gather_column_option<'a>(x: &'a ColumnOption, v: &mut Vec<Leaf<'a>>)
    ensures
        final(v)@ == gathered(old(v)@, column_option_parts(*x)),
    decreases x, 1int, 0int,
{
    match x {
        ColumnOption::Null => {},
        ColumnOption::NotNull => {},
        ColumnOption::Default(e) => {
            gather_expr(e, v);
        },
        ColumnOption::Unique { is_primary } => {},
        ColumnOption::ForeignKey { foreign_table, referred_columns, .. } => {
            gather(v, Leaf::Object(foreign_table));
            gather_names(referred_columns, v);
        },
        ColumnOption::Check(e) => {
            gather_expr(e, v);
        },
        ColumnOption::DialectSpecific(tokens) => {
            gather_tokens(tokens, v);
        },
    }
}

/// The leaves of an optionally named column option: those of the option; the
/// name is passed over.
pub open spec fn column_option_def_parts<'a>(x: ColumnOptionDef) -> Seq<Leaf<'a>>
    decreases x, 2int, 0int,
{
    column_option_parts(x.option)
}

/// Gathers what `column_option_def_parts` names, in order.
pub fn gather_column_option_def<'a>(x: &'a ColumnOptionDef, v: &mut Vec<Leaf<'a>>)
    ensures
        final(v)@ == gathered(old(v)@, column_option_def_parts(*x)),
    decreases x, 2int, 0int,
{
    gather_column_option(&x.option, v);
}

/// The leaves of the column options of `s`, option after option.
pub open spec fn column_option_defs_parts<'a>(s: Seq<ColumnOptionDef>) -> Seq<Leaf<'a>>
    decreases s, 0int, 0int,
{
    if s.len() == 0 {
        Seq::empty()
    } else {
        column_option_defs_parts(s.drop_last()) + column_option_def_parts(s.last())
    }
}

/// Gathers what `column_option_defs_parts` names, in order.
#[verifier::loop_isolation(false)]
pub fn gather_column_option_defs<'a>(list: &'a Vec<ColumnOptionDef>, v: &mut Vec<Leaf<'a>>)
    ensures
        final(v)@ == gathered(old(v)@, column_option_defs_parts(list@)),
    decreases list, 0int, 0int,
{
    let mut i: usize = 0;
    assert(list@.take(0) =~= Seq::<ColumnOptionDef>::empty());
    while i < list.len()
        invariant
            0 <= i <= list.len(),
            v@ == gathered(old(v)@, column_option_defs_parts::<'a>(list@.take(i as int))),
        decreases list.len() - i,
    {
        proof {
            axiom_vec_index_decreases(*list, i as int);
        }
        proof {
            assert(list@.take(i + 1).drop_last() =~= list@.take(i as int));
        }
        gather_column_option_def(&list[i], v);
        i = i + 1;
    }
    assert(list@.take(list@.len() as int) =~= list@);
}

/// The leaves of a column definition: its name, its type, and those of its
/// options.
pub open spec fn column_def_parts<'a>(x: ColumnDef) -> Seq<Leaf<'a>>
    decreases x, 1int, 0int,
{
    seq![Leaf::Name(&x.name)]
        + seq![Leaf::Type(&x.data_type)]
        + column_option_defs_parts(x.options@)
}

/// Gathers what `column_def_parts` names, in order.
pub fn gather_column_def<'a>(x: &'a ColumnDef, v: &mut Vec<Leaf<'a>>)
    ensures
        final(v)@ == gathered(old(v)@, column_def_parts(*x)),
    decreases x, 1int, 0int,
{
    gather(v, Leaf::Name(&x.name));
    gather(v, Leaf::Type(&x.data_type));
    gather_column_option_defs(&x.options, v);
}

/// The leaves of the column definitions of `s`, definition after definition.
pub open spec fn column_defs_parts<'a>(s: Seq<ColumnDef>) -> Seq<Leaf<'a>>
    decreases s, 0int, 0int,
{
    if s.len() == 0 {
        Seq::empty()
    } else {
        column_defs_parts(s.drop_last()) + column_def_parts(s.last())
    }
}

/// Gathers what `column_defs_parts` names, in order.
#[verifier::loop_isolation(false)]
pub fn gather_column_defs<'a>(list: &'a Vec<ColumnDef>, v: &mut Vec<Leaf<'a>>)
    ensures
        final(v)@ == gathered(old(v)@, column_defs_parts(list@)),
    decreases list, 0int, 0int,
{
    let mut i: usize = 0;
    assert(list@.take(0) =~= Seq::<ColumnDef>::empty());
    while i < list.len()
        invariant
            0 <= i <= list.len(),
            v@ == gathered(old(v)@, column_defs_parts::<'a>(list@.take(i as int))),
        decreases list.len() - i,
    {
        proof {
            axiom_vec_index_decreases(*list, i as int);
        }
        proof {
            assert(list@.take(i + 1).drop_last() =~= list@.take(i as int));
        }
        gather_column_def(&list[i], v);
        i = i + 1;
    }
    assert(list@.take(list@.len() as int) =~= list@);
}

/// The leaves of a table constraint: its columns, then for a foreign key the
/// table and the columns referred to; for a check, those of its expression.
/// The constraint's name is passed over.
pub open spec fn table_constraint_parts<'a>(x: TableConstraint) -> Seq<Leaf<'a>>
    decreases x, 1int, 0int,
{
    match x {
        TableConstraint::Unique { columns, .. } => name_leaves(columns@),
        TableConstraint::ForeignKey { columns, foreign_table, referred_columns, .. } =>
            name_leaves(columns@)
            + seq![Leaf::Object(&foreign_table)]
            + name_leaves(referred_columns@),
        TableConstraint::Check { expr, .. } => expr_parts(*expr),
    }
}

/// Gathers what `table_constraint_parts` names, in order.
pub fn gather_table_constraint<'a>(x: &'a TableConstraint, v: &mut Vec<Leaf<'a>>)
    ensures
        final(v)@ == gathered(old(v)@, table_constraint_parts(*x)),
    decreases x, 1int, 0int,
{
    match x {
        TableConstraint::Unique { columns, .. } => {
            gather_names(columns, v);
        },
        TableConstraint::ForeignKey { columns, foreign_table, referred_columns, .. } => {
            gather_names(columns, v);
            gather(v, Leaf::Object(foreign_table));
            gather_names(referred_columns, v);
        },
        TableConstraint::Check { expr, .. } => {
            gather_expr(expr, v);
        },
    }
}

/// The leaves of the table constraints of `s`, constraint after constraint.
pub open spec fn table_constraints_parts<'a>(s: Seq<TableConstraint>) -> Seq<Leaf<'a>>
    decreases s, 0int, 0int,
{
    if s.len() == 0 {
        Seq::empty()
    } else {
        table_constraints_parts(s.drop_last()) + table_constraint_parts(s.last())
    }
}

/// Gathers what `table_constraints_parts` names, in order.
#[verifier::loop_isolation(false)]
pub fn gather_table_constraints<'a>(list: &'a Vec<TableConstraint>, v: &mut Vec<Leaf<'a>>)
    ensures
        final(v)@ == gathered(old(v)@, table_constraints_parts(list@)),
    decreases list, 0int, 0int,
{
    let mut i: usize = 0;
    assert(list@.take(0) =~= Seq::<TableConstraint>::empty());
    while i < list.len()
        invariant
            0 <= i <= list.len(),
            v@ == gathered(old(v)@, table_constraints_parts::<'a>(list@.take(i as int))),
        decreases list.len() - i,
    {
        proof {
            axiom_vec_index_decreases(*list, i as int);
        }
        proof {
            assert(list@.take(i + 1).drop_last() =~= list@.take(i as int));
        }
        gather_table_constraint(&list[i], v);
        i = i + 1;
    }
    assert(list@.take(list@.len() as int) =~= list@);
}

/// The leaves of an `ALTER TABLE` operation, in the order in which its parts
/// are written.
pub open spec fn alter_table_operation_parts<'a>(x: AlterTableOperation) -> Seq<Leaf<'a>>
    decreases x, 2int, 0int,
{
    match x {
        AlterTableOperation::AddPartitions { new_partitions, .. } =>
            exprs_parts(new_partitions@),
        AlterTableOperation::AddConstraint(c) => table_constraint_parts(c),
        AlterTableOperation::AddColumn { column_def } => column_def_parts(column_def),
        AlterTableOperation::DropPartitions { partitions, .. } => exprs_parts(partitions@),
        AlterTableOperation::DropConstraint { name } => seq![Leaf::Name(&name)],
        AlterTableOperation::DropColumn { column_name, .. } => seq![Leaf::Name(&column_name)],
        AlterTableOperation::RenamePartitions { old_partitions, new_partitions } =>
            exprs_parts(old_partitions@) + exprs_parts(new_partitions@),
        AlterTableOperation::RenameColumn { old_column_name, new_column_name } =>
            seq![Leaf::Name(&old_column_name)]
            + seq![Leaf::Name(&new_column_name)],
        AlterTableOperation::RenameTable { table_name } => seq![Leaf::Object(&table_name)],
    }
}

/// Gathers what `alter_table_operation_parts` names, in order.
pub fn gather_alter_table_operation<'a>(x: &'a AlterTableOperation, v: &mut Vec<Leaf<'a>>)
    ensures
        final(v)@ == gathered(old(v)@, alter_table_operation_parts(*x)),
    decreases x, 2int, 0int,
{
    match x {
        AlterTableOperation::AddPartitions { new_partitions, .. } => {
            gather_exprs(new_partitions, v);
        },
        AlterTableOperation::AddConstraint(c) => {
            gather_table_constraint(c, v);
        },
        AlterTableOperation::AddColumn { column_def } => {
            gather_column_def(column_def, v);
        },
        AlterTableOperation::DropPartitions { partitions, .. } => {
            gather_exprs(partitions, v);
        },
        AlterTableOperation::DropConstraint { name } => {
            gather(v, Leaf::Name(name));
        },
        AlterTableOperation::DropColumn { column_name, .. } => {
            gather(v, Leaf::Name(column_name));
        },
        AlterTableOperation::RenamePartitions { old_partitions, new_partitions } => {
            gather_exprs(old_partitions, v);
            gather_exprs(new_partitions, v);
        },
        AlterTableOperation::RenameColumn { old_column_name, new_column_name } => {
            gather(v, Leaf::Name(old_column_name));
            gather(v, Leaf::Name(new_column_name));
        },
        AlterTableOperation::RenameTable { table_name } => {
            gather(v, Leaf::Object(table_name));
        },
    }
}

impl SQLAnalyse for ColumnOption {
    /// The facts of the node are those of its leaves, in the order in
    /// which they are written.
    open spec fn facts(&self) -> Seq<Fact> {
        facts_of_all(column_option_parts(*self))
    }

    fn analyse<A: Accumulator>(&self, ctx: &mut Traced<A>) -> (r: SAResult) {
        let mut leaves: Vec<Leaf<'_>> = Vec::new();
        gather_column_option(self, &mut leaves);
        analyse_all(&leaves, ctx)
    }
}

impl SQLAnalyse for ColumnOptionDef {
    /// The facts of the node are those of its leaves, in the order in
    /// which they are written.
    open spec fn facts(&self) -> Seq<Fact> {
        facts_of_all(column_option_def_parts(*self))
    }

    fn analyse<A: Accumulator>(&self, ctx: &mut Traced<A>) -> (r: SAResult) {
        let mut leaves: Vec<Leaf<'_>> = Vec::new();
        gather_column_option_def(self, &mut leaves);
        analyse_all(&leaves, ctx)
    }
}

impl SQLAnalyse for ColumnDef {
    /// The facts of the node are those of its leaves, in the order in
    /// which they are written.
    open spec fn facts(&self) -> Seq<Fact> {
        facts_of_all(column_def_parts(*self))
    }

    fn analyse<A: Accumulator>(&self, ctx: &mut Traced<A>) -> (r: SAResult) {
        let mut leaves: Vec<Leaf<'_>> = Vec::new();
        gather_column_def(self, &mut leaves);
        analyse_all(&leaves, ctx)
    }
}

impl SQLAnalyse for TableConstraint {
    /// The facts of the node are those of its leaves, in the order in
    /// which they are written.
    open spec fn facts(&self) -> Seq<Fact> {
        facts_of_all(table_constraint_parts(*self))
    }

    fn analyse<A: Accumulator>(&self, ctx: &mut Traced<A>) -> (r: SAResult) {
        let mut leaves: Vec<Leaf<'_>> = Vec::new();
        gather_table_constraint(self, &mut leaves);
        analyse_all(&leaves, ctx)
    }
}

impl SQLAnalyse for AlterTableOperation {
    /// The facts of the node are those of its leaves, in the order in
    /// which they are written.
    open spec fn facts(&self) -> Seq<Fact> {
        facts_of_all(alter_table_operation_parts(*self))
    }

    fn analyse<A: Accumulator>(&self, ctx: &mut Traced<A>) -> (r: SAResult) {
        let mut leaves: Vec<Leaf<'_>> = Vec::new();
        gather_alter_table_operation(self, &mut leaves);
        analyse_all(&leaves, ctx)
    }
}

} // verus!
