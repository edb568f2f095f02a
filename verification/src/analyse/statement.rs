//! The leaves of whole statements.

use vstd::prelude::*;
use vstd::std_specs::vec::axiom_vec_index_decreases;
use crate::analyse::Accumulator;
use crate::analyse::Fact;
use crate::analyse::Leaf;
use crate::analyse::SAResult;
use crate::analyse::SQLAnalyse;
use crate::analyse::Traced;
use crate::analyse::analyse_all;
use crate::analyse::ddl::alter_table_operation_parts;
use crate::analyse::ddl::column_defs_parts;
use crate::analyse::ddl::gather_alter_table_operation;
use crate::analyse::ddl::gather_column_defs;
use crate::analyse::ddl::gather_table_constraints;
use crate::analyse::ddl::table_constraints_parts;
use crate::analyse::expr::expr_parts;
use crate::analyse::expr::exprs_parts;
use crate::analyse::expr::gather_expr;
use crate::analyse::expr::gather_exprs;
use crate::analyse::expr::gather_names;
use crate::analyse::expr::gather_optional_expr;
use crate::analyse::expr::gather_optional_name;
use crate::analyse::expr::name_leaves;
use crate::analyse::expr::optional_expr_parts;
use crate::analyse::expr::optional_name_parts;
use crate::analyse::facts_of_all;
use crate::analyse::gather;
use crate::analyse::gathered;
use crate::analyse::lemma_offered_stop;
use crate::analyse::lemma_offered_then;
use crate::analyse::only_if;
use crate::analyse::query::gather_order_by_exprs;
use crate::analyse::query::gather_query;
use crate::analyse::query::order_by_exprs_parts;
use crate::analyse::query::query_parts;
use crate::data_type::DataType;
use crate::expr::Expr;
use crate::ident::ObjectName;
use crate::query::Query;
use crate::statement::Assignment;
use crate::statement::HiveDistributionStyle;
use crate::statement::HiveFormat;
use crate::statement::HiveIOFormat;
use crate::statement::SetVariableValue;
use crate::statement::ShowStatementFilter;
use crate::statement::SqlOption;
use crate::statement::Statement;

verus! {

broadcast use crate::analyse::group_gather;

/// The names of `s` as objects, in order.
pub open spec fn objects_parts<'a>(s: Seq<ObjectName>) -> Seq<Leaf<'a>>
    decreases s.len(),
{
    if s.len() == 0 {
        Seq::empty()
    } else {
        objects_parts(s.drop_last()) + seq![Leaf::Object(&s.last())]
    }
}

/// Gathers what `objects_parts` names, in order.
pub fn gather_objects<'a>(list: &'a Vec<ObjectName>, v: &mut Vec<Leaf<'a>>)
    ensures
        final(v)@ == gathered(old(v)@, objects_parts(list@)),
{
    let mut i: usize = 0;
    assert(list@.take(0) =~= Seq::<ObjectName>::empty());
    while i < list.len()
        invariant
            0 <= i <= list.len(),
            v@ == gathered(old(v)@, objects_parts::<'a>(list@.take(i as int))),
        decreases list.len() - i,
    {
        proof {
            assert(list@.take(i + 1).drop_last() =~= list@.take(i as int));
        }
        gather(v, Leaf::Object(&list[i]));
        i = i + 1;
    }
    assert(list@.take(list@.len() as int) =~= list@);
}

/// The data types of `s`, in order.
pub open spec fn types_parts<'a>(s: Seq<DataType>) -> Seq<Leaf<'a>>
    decreases s.len(),
{
    if s.len() == 0 {
        Seq::empty()
    } else {
        types_parts(s.drop_last()) + seq![Leaf::Type(&s.last())]
    }
}

/// Gathers what `types_parts` names, in order.
pub fn gather_types<'a>(list: &'a Vec<DataType>, v: &mut Vec<Leaf<'a>>)
    ensures
        final(v)@ == gathered(old(v)@, types_parts(list@)),
{
    let mut i: usize = 0;
    assert(list@.take(0) =~= Seq::<DataType>::empty());
    while i < list.len()
        invariant
            0 <= i <= list.len(),
            v@ == gathered(old(v)@, types_parts::<'a>(list@.take(i as int))),
        decreases list.len() - i,
    {
        proof {
            assert(list@.take(i + 1).drop_last() =~= list@.take(i as int));
        }
        gather(v, Leaf::Type(&list[i]));
        i = i + 1;
    }
    assert(list@.take(list@.len() as int) =~= list@);
}

/// The leaves of the options of `s`: of each its name and then its value.
pub open spec fn options_parts<'a>(s: Seq<SqlOption>) -> Seq<Leaf<'a>>
    decreases s.len(),
{
    if s.len() == 0 {
        Seq::empty()
    } else {
        options_parts(s.drop_last()) + seq![Leaf::Name(&s.last().name)]
+ seq![Leaf::Literal(&s.last().value)]
    }
}

/// Gathers what `options_parts` names, in order.
pub fn gather_options<'a>(list: &'a Vec<SqlOption>, v: &mut Vec<Leaf<'a>>)
    ensures
        final(v)@ == gathered(old(v)@, options_parts(list@)),
{
    let mut i: usize = 0;
    assert(list@.take(0) =~= Seq::<SqlOption>::empty());
    while i < list.len()
        invariant
            0 <= i <= list.len(),
            v@ == gathered(old(v)@, options_parts::<'a>(list@.take(i as int))),
        decreases list.len() - i,
    {
        proof {
            assert(list@.take(i + 1).drop_last() =~= list@.take(i as int));
        }
        gather(v, Leaf::Name(&list[i].name));
        gather(v, Leaf::Literal(&list[i].value));
        i = i + 1;
    }
    assert(list@.take(list@.len() as int) =~= list@);
}

/// The leaf of a value given to a variable: a name or a literal value.
pub open spec fn set_variable_value_parts<'a>(x: SetVariableValue) -> Seq<Leaf<'a>>
    decreases x, 1int, 0int,
{
    match x {
        SetVariableValue::Ident(id) => seq![Leaf::Name(&id)],
        SetVariableValue::Literal(literal) => seq![Leaf::Literal(&literal)],
    }
}

/// Gathers what `set_variable_value_parts` names, in order.
pub fn gather_set_variable_value<'a>(x: &'a SetVariableValue, v: &mut Vec<Leaf<'a>>)
    ensures
        final(v)@ == gathered(old(v)@, set_variable_value_parts(*x)),
    decreases x, 1int, 0int,
{
    match x {
        SetVariableValue::Ident(id) => {
            gather(v, Leaf::Name(id));
        },
        SetVariableValue::Literal(literal) => {
            gather(v, Leaf::Literal(literal));
        },
    }
}

/// The leaves of the variable values of `s`, in order.
pub open spec fn set_variable_values_parts<'a>(s: Seq<SetVariableValue>) -> Seq<Leaf<'a>>
    decreases s, 0int, 0int,
{
    if s.len() == 0 {
        Seq::empty()
    } else {
        set_variable_values_parts(s.drop_last()) + set_variable_value_parts(s.last())
    }
}

/// Gathers what `set_variable_values_parts` names, in order.
#[verifier::loop_isolation(false)]
pub fn gather_set_variable_values<'a>(list: &'a Vec<SetVariableValue>, v: &mut Vec<Leaf<'a>>)
    ensures
        final(v)@ == gathered(old(v)@, set_variable_values_parts(list@)),
    decreases list, 0int, 0int,
{
    let mut i: usize = 0;
    assert(list@.take(0) =~= Seq::<SetVariableValue>::empty());
    while i < list.len()
        invariant
            0 <= i <= list.len(),
            v@ == gathered(old(v)@, set_variable_values_parts::<'a>(list@.take(i as int))),
        decreases list.len() - i,
    {
        proof {
            axiom_vec_index_decreases(*list, i as int);
        }
        proof {
            assert(list@.take(i + 1).drop_last() =~= list@.take(i as int));
        }
        gather_set_variable_value(&list[i], v);
        i = i + 1;
    }
    assert(list@.take(list@.len() as int) =~= list@);
}

/// The leaves of an assignment: its name and then those of its value.
pub open spec fn assignment_parts<'a>(x: Assignment) -> Seq<Leaf<'a>>
    decreases x, 1int, 0int,
{
    seq![Leaf::Name(&x.id)] + expr_parts(x.value)
}

/// Gathers what `assignment_parts` names, in order.
pub fn gather_assignment<'a>(x: &'a Assignment, v: &mut Vec<Leaf<'a>>)
    ensures
        final(v)@ == gathered(old(v)@, assignment_parts(*x)),
    decreases x, 1int, 0int,
{
    gather(v, Leaf::Name(&x.id));
    gather_expr(&x.value, v);
}

/// The leaves of the assignments of `s`, assignment after assignment.
pub open spec fn assignments_parts<'a>(s: Seq<Assignment>) -> Seq<Leaf<'a>>
    decreases s, 0int, 0int,
{
    if s.len() == 0 {
        Seq::empty()
    } else {
        assignments_parts(s.drop_last()) + assignment_parts(s.last())
    }
}

/// Gathers what `assignments_parts` names, in order.
#[verifier::loop_isolation(false)]
pub fn gather_assignments<'a>(list: &'a Vec<Assignment>, v: &mut Vec<Leaf<'a>>)
    ensures
        final(v)@ == gathered(old(v)@, assignments_parts(list@)),
    decreases list, 0int, 0int,
{
    let mut i: usize = 0;
    assert(list@.take(0) =~= Seq::<Assignment>::empty());
    while i < list.len()
        invariant
            0 <= i <= list.len(),
            v@ == gathered(old(v)@, assignments_parts::<'a>(list@.take(i as int))),
        decreases list.len() - i,
    {
        proof {
            axiom_vec_index_decreases(*list, i as int);
        }
        proof {
            assert(list@.take(i + 1).drop_last() =~= list@.take(i as int));
        }
        gather_assignment(&list[i], v);
        i = i + 1;
    }
    assert(list@.take(list@.len() as int) =~= list@);
}

/// The leaves of the partitions, where any are given.
pub open spec fn partitions_parts<'a>(x: Option<Vec<Expr>>) -> Seq<Leaf<'a>>
    decreases x, 1int, 0int,
{
    match x {
        Some(parts) => exprs_parts(parts@),
        None => Seq::empty(),
    }
}

/// Gathers what `partitions_parts` names, in order.
pub fn gather_partitions<'a>(x: &'a Option<Vec<Expr>>, v: &mut Vec<Leaf<'a>>)
    ensures
        final(v)@ == gathered(old(v)@, partitions_parts(*x)),
    decreases x, 1int, 0int,
{
    match x {
        Some(parts) => {
            gather_exprs(parts, v);
        },
        None => {},
    }
}

/// The leaves of a filter of a `SHOW` statement: those of the expression of a
/// `WHERE`.
pub open spec fn show_statement_filter_parts<'a>(x: ShowStatementFilter) -> Seq<Leaf<'a>>
    decreases x, 1int, 0int,
{
    match x {
        ShowStatementFilter::Like(pattern) => Seq::empty(),
        ShowStatementFilter::ILike(pattern) => Seq::empty(),
        ShowStatementFilter::Where(e) => expr_parts(e),
    }
}

/// Gathers what `show_statement_filter_parts` names, in order.
pub fn gather_show_statement_filter<'a>(x: &'a ShowStatementFilter, v: &mut Vec<Leaf<'a>>)
    ensures
        final(v)@ == gathered(old(v)@, show_statement_filter_parts(*x)),
    decreases x, 1int, 0int,
{
    match x {
        ShowStatementFilter::Like(pattern) => {},
        ShowStatementFilter::ILike(pattern) => {},
        ShowStatementFilter::Where(e) => {
            gather_expr(e, v);
        },
    }
}

/// The leaves of a Hive distribution clause.
pub open spec fn hive_distribution_parts<'a>(x: HiveDistributionStyle) -> Seq<Leaf<'a>>
    decreases x, 1int, 0int,
{
    match x {
        HiveDistributionStyle::PARTITIONED { columns } => column_defs_parts(columns@),
        HiveDistributionStyle::CLUSTERED { columns, sorted_by, .. } =>
            name_leaves(columns@) + column_defs_parts(sorted_by@),
        HiveDistributionStyle::SKEWED { columns, on, .. } =>
            column_defs_parts(columns@) + column_defs_parts(on@),
        HiveDistributionStyle::NONE => Seq::empty(),
    }
}

/// Gathers what `hive_distribution_parts` names, in order.
pub fn gather_hive_distribution<'a>(x: &'a HiveDistributionStyle, v: &mut Vec<Leaf<'a>>)
    ensures
        final(v)@ == gathered(old(v)@, hive_distribution_parts(*x)),
    decreases x, 1int, 0int,
{
    match x {
        HiveDistributionStyle::PARTITIONED { columns } => {
            gather_column_defs(columns, v);
        },
        HiveDistributionStyle::CLUSTERED { columns, sorted_by, .. } => {
            gather_names(columns, v);
            gather_column_defs(sorted_by, v);
        },
        HiveDistributionStyle::SKEWED { columns, on, .. } => {
            gather_column_defs(columns, v);
            gather_column_defs(on, v);
        },
        HiveDistributionStyle::NONE => {},
    }
}

/// The leaves of a Hive storage format: those of the input and the output
/// format.
pub open spec fn hive_storage_parts<'a>(x: Option<HiveIOFormat>) -> Seq<Leaf<'a>>
    decreases x, 1int, 0int,
{
    match x {
        Some(HiveIOFormat::IOF { input_format, output_format }) =>
            expr_parts(input_format) + expr_parts(output_format),
        Some(HiveIOFormat::FileFormat { format }) => Seq::empty(),
        None => Seq::empty(),
    }
}

/// Gathers what `hive_storage_parts` names, in order.
pub fn gather_hive_storage<'a>(x: &'a Option<HiveIOFormat>, v: &mut Vec<Leaf<'a>>)
    ensures
        final(v)@ == gathered(old(v)@, hive_storage_parts(*x)),
    decreases x, 1int, 0int,
{
    match x {
        Some(HiveIOFormat::IOF { input_format, output_format }) => {
            gather_expr(input_format, v);
            gather_expr(output_format, v);
        },
        Some(HiveIOFormat::FileFormat { format }) => {},
        None => {},
    }
}

/// The leaves of the Hive formats of a table, where they are given: those of
/// its storage format.
pub open spec fn hive_formats_parts<'a>(x: Option<HiveFormat>) -> Seq<Leaf<'a>>
    decreases x, 2int, 0int,
{
    match x {
        Some(h) => hive_storage_parts(h.storage),
        None => Seq::empty(),
    }
}

/// Gathers what `hive_formats_parts` names, in order.
pub fn gather_hive_formats<'a>(x: &'a Option<HiveFormat>, v: &mut Vec<Leaf<'a>>)
    ensures
        final(v)@ == gathered(old(v)@, hive_formats_parts(*x)),
    decreases x, 2int, 0int,
{
    match x {
        Some(h) => {
            gather_hive_storage(&h.storage, v);
        },
        None => {},
    }
}

/// The object, where there is one.
pub open spec fn optional_object_parts<'a>(x: Option<ObjectName>) -> Seq<Leaf<'a>>
    decreases x, 1int, 0int,
{
    match x {
        Some(name) => seq![Leaf::Object(&name)],
        None => Seq::empty(),
    }
}

/// Gathers what `optional_object_parts` names, in order.
pub fn gather_optional_object<'a>(x: &'a Option<ObjectName>, v: &mut Vec<Leaf<'a>>)
    ensures
        final(v)@ == gathered(old(v)@, optional_object_parts(*x)),
    decreases x, 1int, 0int,
{
    match x {
        Some(name) => {
            gather(v, Leaf::Object(name));
        },
        None => {},
    }
}

/// The leaves of the query, where there is one.
pub open spec fn optional_query_parts<'a>(x: Option<Box<Query>>) -> Seq<Leaf<'a>>
    decreases x, 2int, 0int,
{
    match x {
        Some(q) => query_parts(*q),
        None => Seq::empty(),
    }
}

/// Gathers what `optional_query_parts` names, in order.
pub fn gather_optional_query<'a>(x: &'a Option<Box<Query>>, v: &mut Vec<Leaf<'a>>)
    ensures
        final(v)@ == gathered(old(v)@, optional_query_parts(*x)),
    decreases x, 2int, 0int,
{
    match x {
        Some(q) => {
            gather_query(q, v);
        },
        None => {},
    }
}

/// The leaves of the filter, where there is one.
pub open spec fn optional_filter_parts<'a>(x: Option<ShowStatementFilter>) -> Seq<Leaf<'a>>
    decreases x, 2int, 0int,
{
    match x {
        Some(flt) => show_statement_filter_parts(flt),
        None => Seq::empty(),
    }
}

/// Gathers what `optional_filter_parts` names, in order.
pub fn gather_optional_filter<'a>(x: &'a Option<ShowStatementFilter>, v: &mut Vec<Leaf<'a>>)
    ensures
        final(v)@ == gathered(old(v)@, optional_filter_parts(*x)),
    decreases x, 2int, 0int,
{
    match x {
        Some(flt) => {
            gather_show_statement_filter(flt, v);
        },
        None => {},
    }
}

/// The leaves of a `CREATE TABLE` after its name and before its query: of the
/// columns, the constraints, the table that it is like, the Hive clauses and
/// the options.
pub open spec fn create_table_inner_parts<'a>(s: Statement) -> Seq<Leaf<'a>>
    decreases s, 1int, 0int,
{
    match s {
        Statement::CreateTable {
            columns,
            constraints,
            hive_distribution,
            hive_formats,
            table_properties,
            with_options,
            like,
            ..
        } =>
            column_defs_parts(columns@)
            + table_constraints_parts(constraints@)
            + optional_object_parts(like)
            + hive_distribution_parts(hive_distribution)
            + hive_formats_parts(hive_formats)
            + options_parts(table_properties@)
            + options_parts(with_options@),
        _ => Seq::empty(),
    }
}

/// Gathers what `create_table_inner_parts` names, in order.
fn gather_create_table_inner<'a>(s: &'a Statement, v: &mut Vec<Leaf<'a>>)
    ensures
        final(v)@ == gathered(old(v)@, create_table_inner_parts(*s)),
    decreases s, 1int, 0int,
{
    match s {
        Statement::CreateTable {
            columns,
            constraints,
            hive_distribution,
            hive_formats,
            table_properties,
            with_options,
            like,
            ..
        } => {
            gather_column_defs(columns, v);
            gather_table_constraints(constraints, v);
            gather_optional_object(like, v);
            gather_hive_distribution(hive_distribution, v);
            gather_hive_formats(hive_formats, v);
            gather_options(table_properties, v);
            gather_options(with_options, v);
        },
        _ => {},
    }
}

/// The leaves of a statement, in the order in which they are written: every
/// name of a table or another object, every other name but those of
/// constraints, every data type and every literal value of the parts that
/// have a text.
pub open spec fn statement_parts<'a>(s: Statement) -> Seq<Leaf<'a>>
    decreases s, 3int, 0int,
{
    match s {
        Statement::Explain { statement, .. } => statement_parts(*statement),
        Statement::Query(q) => query_parts(*q),
        Statement::Directory { source, .. } => query_parts(*source),
        Statement::Msck { table_name, .. } => seq![Leaf::Object(&table_name)],
        Statement::Truncate { table_name, partitions } => seq![Leaf::Object(&table_name)]
            + partitions_parts(partitions),
        Statement::Analyze { table_name, partitions, for_columns, columns, .. } =>
            seq![Leaf::Object(&table_name)]
            + partitions_parts(partitions)
            + only_if(for_columns, name_leaves(columns@)),
        Statement::Insert { table_name, columns, source, partitioned, after_columns, .. } =>
            seq![Leaf::Object(&table_name)]
            + name_leaves(columns@)
            + partitions_parts(partitioned)
            + name_leaves(after_columns@)
            + query_parts(*source),
        Statement::Copy { table_name, columns, .. } =>
            seq![Leaf::Object(&table_name)] + name_leaves(columns@),
        Statement::Update { table_name, assignments, selection, limit } =>
            seq![Leaf::Object(&table_name)]
            + assignments_parts(assignments@)
            + optional_expr_parts(selection)
            + optional_expr_parts(limit),
        Statement::Delete { table_name, selection } => seq![Leaf::Object(&table_name)]
            + optional_expr_parts(selection),
        Statement::CreateDatabase { db_name, .. } => seq![Leaf::Object(&db_name)],
        Statement::CreateView { name, columns, query, with_options, .. } =>
            seq![Leaf::Object(&name)]
            + name_leaves(columns@)
            + options_parts(with_options@)
            + query_parts(*query),
        Statement::CreateTable { name, query, .. } => seq![Leaf::Object(&name)]
            + create_table_inner_parts(s)
            + optional_query_parts(query),
        Statement::CreateVirtualTable { name, module_name, module_args, .. } =>
            seq![Leaf::Object(&name)]
            + seq![Leaf::Name(&module_name)]
            + name_leaves(module_args@),
        Statement::CreateIndex { name, table_name, columns, .. } => seq![Leaf::Object(&name)]
            + seq![Leaf::Object(&table_name)]
            + order_by_exprs_parts(columns@),
        Statement::AlterTable { name, operation } => seq![Leaf::Object(&name)]
            + alter_table_operation_parts(operation),
        Statement::Drop { names, .. } => objects_parts(names@),
        Statement::SetVariable { variable, value, .. } => seq![Leaf::Name(&variable)]
            + set_variable_values_parts(value@),
        Statement::ShowVariable { variable } => name_leaves(variable@),
        Statement::UseDatabase { variable } => seq![Leaf::Name(&variable)],
        Statement::ShowColumns { table_name, filter, .. } => seq![Leaf::Object(&table_name)]
            + optional_filter_parts(filter),
        Statement::StartTransaction { modes } => Seq::empty(),
        Statement::SetTransaction { session, modes } => Seq::empty(),
        Statement::SetNames { variable } => seq![Leaf::Name(&variable)],
        Statement::Commit { chain } => Seq::empty(),
        Statement::Savepoint { variable } => seq![Leaf::Name(&variable)],
        Statement::Rollback { savepoint, .. } => optional_name_parts(savepoint),
        Statement::Release { variable } => seq![Leaf::Name(&variable)],
        Statement::CreateSchema { schema_name, .. } => seq![Leaf::Object(&schema_name)],
        Statement::Assert { condition, message } =>
            expr_parts(condition) + optional_expr_parts(message),
        Statement::Deallocate { name, .. } => seq![Leaf::Name(&name)],
        Statement::Execute { name, parameters } =>
            seq![Leaf::Name(&name)] + exprs_parts(parameters@),
        Statement::Prepare { name, data_types, statement } => seq![Leaf::Name(&name)]
            + types_parts(data_types@)
            + statement_parts(*statement),
    }
}

/// Gathers what `statement_parts` names, in order.
#[verifier::rlimit(50)]
pub fn gather_statement<'a>(s: &'a Statement, v: &mut Vec<Leaf<'a>>)
    ensures
        final(v)@ == gathered(old(v)@, statement_parts(*s)),
    decreases s, 3int, 0int,
{
    match s {
        Statement::Explain { statement, .. } => {
            gather_statement(statement, v);
        },
        Statement::Query(q) => {
            gather_query(q, v);
        },
        Statement::Directory { source, .. } => {
            gather_query(source, v);
        },
        Statement::Msck { table_name, .. } => {
            gather(v, Leaf::Object(table_name));
        },
        Statement::Truncate { table_name, partitions } => {
            gather(v, Leaf::Object(table_name));
            gather_partitions(partitions, v);
        },
        Statement::Analyze { table_name, partitions, for_columns, columns, .. } => {
            gather(v, Leaf::Object(table_name));
            gather_partitions(partitions, v);
            if *for_columns {
                gather_names(columns, v);
            }
        },
        Statement::Insert { table_name, columns, source, partitioned, after_columns, .. } => {
            gather(v, Leaf::Object(table_name));
            gather_names(columns, v);
            gather_partitions(partitioned, v);
            gather_names(after_columns, v);
            gather_query(source, v);
        },
        Statement::Copy { table_name, columns, .. } => {
            gather(v, Leaf::Object(table_name));
            gather_names(columns, v);
        },
        Statement::Update { table_name, assignments, selection, limit } => {
            gather(v, Leaf::Object(table_name));
            gather_assignments(assignments, v);
            gather_optional_expr(selection, v);
            gather_optional_expr(limit, v);
        },
        Statement::Delete { table_name, selection } => {
            gather(v, Leaf::Object(table_name));
            gather_optional_expr(selection, v);
        },
        Statement::CreateDatabase { db_name, .. } => {
            gather(v, Leaf::Object(db_name));
        },
        Statement::CreateView { name, columns, query, with_options, .. } => {
            gather(v, Leaf::Object(name));
            gather_names(columns, v);
            gather_options(with_options, v);
            gather_query(query, v);
        },
        Statement::CreateTable { name, query, .. } => {
            gather(v, Leaf::Object(name));
            gather_create_table_inner(s, v);
            gather_optional_query(query, v);
        },
        Statement::CreateVirtualTable { name, module_name, module_args, .. } => {
            gather(v, Leaf::Object(name));
            gather(v, Leaf::Name(module_name));
            gather_names(module_args, v);
        },
        Statement::CreateIndex { name, table_name, columns, .. } => {
            gather(v, Leaf::Object(name));
            gather(v, Leaf::Object(table_name));
            gather_order_by_exprs(columns, v);
        },
        Statement::AlterTable { name, operation } => {
            gather(v, Leaf::Object(name));
            gather_alter_table_operation(operation, v);
        },
        Statement::Drop { names, .. } => {
            gather_objects(names, v);
        },
        Statement::SetVariable { variable, value, .. } => {
            gather(v, Leaf::Name(variable));
            gather_set_variable_values(value, v);
        },
        Statement::ShowVariable { variable } => {
            gather_names(variable, v);
        },
        Statement::UseDatabase { variable } => {
            gather(v, Leaf::Name(variable));
        },
        Statement::ShowColumns { table_name, filter, .. } => {
            gather(v, Leaf::Object(table_name));
            gather_optional_filter(filter, v);
        },
        Statement::StartTransaction { modes } => {},
        Statement::SetTransaction { session, modes } => {},
        Statement::SetNames { variable } => {
            gather(v, Leaf::Name(variable));
        },
        Statement::Commit { chain } => {},
        Statement::Savepoint { variable } => {
            gather(v, Leaf::Name(variable));
        },
        Statement::Rollback { savepoint, .. } => {
            gather_optional_name(savepoint, v);
        },
        Statement::Release { variable } => {
            gather(v, Leaf::Name(variable));
        },
        Statement::CreateSchema { schema_name, .. } => {
            gather(v, Leaf::Object(schema_name));
        },
        Statement::Assert { condition, message } => {
            gather_expr(condition, v);
            gather_optional_expr(message, v);
        },
        Statement::Deallocate { name, .. } => {
            gather(v, Leaf::Name(name));
        },
        Statement::Execute { name, parameters } => {
            gather(v, Leaf::Name(name));
            gather_exprs(parameters, v);
        },
        Statement::Prepare { name, data_types, statement } => {
            gather(v, Leaf::Name(name));
            gather_types(data_types, v);
            gather_statement(statement, v);
        },
    }
}

impl SQLAnalyse for SetVariableValue {
    /// The facts of the node are those of its leaves, in the order in
    /// which they are written.
    open spec fn facts(&self) -> Seq<Fact> {
        facts_of_all(set_variable_value_parts(*self))
    }

    fn analyse<A: Accumulator>(&self, ctx: &mut Traced<A>) -> (r: SAResult) {
        let mut leaves: Vec<Leaf<'_>> = Vec::new();
        gather_set_variable_value(self, &mut leaves);
        analyse_all(&leaves, ctx)
    }
}

impl SQLAnalyse for Assignment {
    /// The facts of the node are those of its leaves, in the order in
    /// which they are written.
    open spec fn facts(&self) -> Seq<Fact> {
        facts_of_all(assignment_parts(*self))
    }

    fn analyse<A: Accumulator>(&self, ctx: &mut Traced<A>) -> (r: SAResult) {
        let mut leaves: Vec<Leaf<'_>> = Vec::new();
        gather_assignment(self, &mut leaves);
        analyse_all(&leaves, ctx)
    }
}

impl SQLAnalyse for ShowStatementFilter {
    /// The facts of the node are those of its leaves, in the order in
    /// which they are written.
    open spec fn facts(&self) -> Seq<Fact> {
        facts_of_all(show_statement_filter_parts(*self))
    }

    fn analyse<A: Accumulator>(&self, ctx: &mut Traced<A>) -> (r: SAResult) {
        let mut leaves: Vec<Leaf<'_>> = Vec::new();
        gather_show_statement_filter(self, &mut leaves);
        analyse_all(&leaves, ctx)
    }
}

impl SQLAnalyse for HiveDistributionStyle {
    /// The facts of the node are those of its leaves, in the order in
    /// which they are written.
    open spec fn facts(&self) -> Seq<Fact> {
        facts_of_all(hive_distribution_parts(*self))
    }

    fn analyse<A: Accumulator>(&self, ctx: &mut Traced<A>) -> (r: SAResult) {
        let mut leaves: Vec<Leaf<'_>> = Vec::new();
        gather_hive_distribution(self, &mut leaves);
        analyse_all(&leaves, ctx)
    }
}

impl SQLAnalyse for Statement {
    /// The facts of the node are those of its leaves, in the order in
    /// which they are written.
    open spec fn facts(&self) -> Seq<Fact> {
        facts_of_all(statement_parts(*self))
    }

    fn analyse<A: Accumulator>(&self, ctx: &mut Traced<A>) -> (r: SAResult) {
        let mut leaves: Vec<Leaf<'_>> = Vec::new();
        gather_statement(self, &mut leaves);
        analyse_all(&leaves, ctx)
    }
}

impl SQLAnalyse for SqlOption {
    /// The facts of an option: its name and then its value.
    open spec fn facts(&self) -> Seq<Fact> {
        self.name.facts() + self.value.facts()
    }

    fn analyse<A: Accumulator>(&self, ctx: &mut Traced<A>) -> (r: SAResult) {
        if ctx.has_failed() {
            return ctx.result();
        }
        let ghost before = ctx.trace();
        let r = self.name.analyse(ctx);
        if r.is_err() {
            proof {
                lemma_offered_stop(before, ctx.trace(), self.name.facts(), self.value.facts());
            }
            return r;
        }
        let ghost mid = ctx.trace();
        let r = self.value.analyse(ctx);
        proof {
            lemma_offered_then(
                before,
                mid,
                ctx.trace(),
                self.name.facts(),
                self.value.facts(),
                r is Ok,
            );
        }
        r
    }
}

} // verus!
